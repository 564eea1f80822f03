//! Builder-style API for desktop tray notifications.
//!
//! A [`NotificationBuilder`](notification::NotificationBuilder) accumulates
//! title and body text into a fixed-layout descriptor tagged with a unique
//! identifier; the resulting [`Notification`](notification::Notification)
//! wraps that descriptor for the native shell calls that show and remove
//! the notification.

use vstd::prelude::*;

pub mod encode;
pub mod guid;
pub mod notification;

pub use guid::Guid;
pub use notification::{
    ErrorCode, Notification, NotificationBuilder, NotificationBuilderError, NotificationDescriptor,
};

verus! {

/// Capacity, in 16-bit code units, of the descriptor's title field.
pub const TITLE_BUFFER_LEN: usize = 64;

/// Capacity, in 16-bit code units, of the descriptor's body/info field.
pub const INFO_BUFFER_LEN: usize = 256;

} // verus!
