//! The notification descriptor, its builder, and the notification handle.
//!
//! A [`NotificationBuilder`] accumulates title and body text into a
//! [`NotificationDescriptor`]; [`NotificationBuilder::build`] hands the
//! descriptor to a [`Notification`], which the embedding shows and removes
//! through the native shell calls.

use crate::encode::{decode_wide, encode_string_wide, encoded_wide, trim_trailing_zeros,
    utf16_decode};
use crate::guid::{generate_guid, guid_wf, Guid};
use crate::{INFO_BUFFER_LEN, TITLE_BUFFER_LEN};
use vstd::prelude::*;

verus! {

/// Descriptor flag: the info/body text field is populated.
pub const NIF_INFO: u32 = 0x10;

/// Descriptor flag: the identifier field is populated.
pub const NIF_GUID: u32 = 0x20;

/// The fixed-layout record describing a single notification, mirroring
/// field for field what the native shell call reads: which optional fields
/// are populated, the identifier, and the two fixed-capacity text buffers.
/// The size/version tag the native record carries is a binary-compatibility
/// concern of whoever performs the native call, and is set there.
#[derive(Debug)]
pub struct NotificationDescriptor {
    /// Flags naming the populated optional fields.
    pub u_flags: u32,
    /// The identifier tagging this notification.
    pub guid_item: Guid,
    /// Title text: `TITLE_BUFFER_LEN` zero-padded UTF-16 code units.
    pub sz_info_title: Vec<u16>,
    /// Body text: `INFO_BUFFER_LEN` zero-padded UTF-16 code units.
    pub sz_info: Vec<u16>,
}

impl NotificationDescriptor {
    /// Well-formed: the "has info text" and "has identifier" flags are set
    /// and both text buffers have exactly their fixed capacity.
    pub open spec fn wf(&self) -> bool {
        &&& self.u_flags == NIF_INFO | NIF_GUID
        &&& self.sz_info_title@.len() == TITLE_BUFFER_LEN
        &&& self.sz_info@.len() == INFO_BUFFER_LEN
    }
}

/// The failure surfaced when the builder cannot be constructed.
#[derive(Debug)]
pub enum NotificationBuilderError {
    /// A platform call failed; holds the raw platform error code.
    PlatformError(i32),
}

/// The failure surfaced when a native shell call does not succeed.
#[derive(Clone, Copy, Debug, PartialEq, Eq, Structural)]
pub enum ErrorCode {
    /// The native call reported failure; holds the platform's raw
    /// last-error value, not reinterpreted or classified further.
    PlatformError(i32),
}

/// A builder for notifications: accumulates title and body text into a
/// descriptor created with a fresh identifier, then finalizes it into a
/// [`Notification`]. Each setter consumes and returns the builder, so the
/// configuration moves through a single owner.
pub struct NotificationBuilder {
    descriptor: NotificationDescriptor,
}

impl View for NotificationBuilder {
    type V = NotificationDescriptor;

    /// A builder is seen as the descriptor it has accumulated.
    closed spec fn view(&self) -> NotificationDescriptor {
        self.descriptor
    }
}

/// A buffer of `capacity` zero code units.
fn zeroed_buffer(capacity: usize) -> (v: Vec<u16>)
    ensures
        v@ == Seq::new(capacity as nat, |i: int| 0u16),
{
    let mut v: Vec<u16> = Vec::new();
    while v.len() < capacity
        invariant
            v@.len() <= capacity,
            forall|i: int| 0 <= i < v@.len() ==> v@[i] == 0u16,
        decreases capacity - v.len(),
    {
        v.push(0u16);
    }
    proof {
        assert(v@ =~= Seq::new(capacity as nat, |i: int| 0u16));
    }
    v
}

impl NotificationBuilder {
    /// Creates a builder around a descriptor with zeroed text buffers, the
    /// "has info text" and "has identifier" flags set, and a freshly
    /// generated identifier. Identifier generation is the only failure
    /// path: its report goes through [`NotificationBuilder::outcome`], so a
    /// failure surfaces as `PlatformError` carrying the raw platform error
    /// code unchanged, with no retry.
    pub fn new() -> (r: Result<NotificationBuilder, NotificationBuilderError>)
        ensures
            (r matches Ok(b) ==> {
                &&& b@.wf()
                &&& guid_wf(b@.guid_item)
                &&& b@.sz_info_title@ == Seq::new(TITLE_BUFFER_LEN as nat, |i: int| 0u16)
                &&& b@.sz_info@ == Seq::new(INFO_BUFFER_LEN as nat, |i: int| 0u16)
            }),
            (r matches Err(e) ==> e is PlatformError),
    {
        Self::outcome(generate_guid())
    }

    /// The builder that identifier generation's report maps to: a
    /// generated identifier becomes the builder it determines, and a
    /// failure becomes `PlatformError` carrying the raw platform error
    /// code exactly as reported, not reinterpreted.
    pub fn outcome(generated: Result<Guid, i32>) -> (r: Result<
        NotificationBuilder,
        NotificationBuilderError,
    >)
        ensures
            (generated matches Ok(guid) ==> (r matches Ok(b) && {
                &&& b@.wf()
                &&& b@.guid_item == guid
                &&& b@.sz_info_title@ == Seq::new(TITLE_BUFFER_LEN as nat, |i: int| 0u16)
                &&& b@.sz_info@ == Seq::new(INFO_BUFFER_LEN as nat, |i: int| 0u16)
            })),
            (generated matches Err(code) ==> (r matches Err(e) && e
                == NotificationBuilderError::PlatformError(code))),
    {
        match generated {
            Ok(guid) => Ok(Self::from_guid(guid)),
            Err(code) => Err(NotificationBuilderError::PlatformError(code)),
        }
    }

    /// The builder a given identifier yields: both flags set, the
    /// identifier stored, both text buffers all zero.
    pub fn from_guid(guid: Guid) -> (b: NotificationBuilder)
        ensures
            b@.wf(),
            b@.guid_item == guid,
            b@.sz_info_title@ == Seq::new(TITLE_BUFFER_LEN as nat, |i: int| 0u16),
            b@.sz_info@ == Seq::new(INFO_BUFFER_LEN as nat, |i: int| 0u16),
    {
        NotificationBuilder {
            descriptor: NotificationDescriptor {
                u_flags: NIF_INFO | NIF_GUID,
                guid_item: guid,
                sz_info_title: zeroed_buffer(TITLE_BUFFER_LEN),
                sz_info: zeroed_buffer(INFO_BUFFER_LEN),
            },
        }
    }

    /// Sets the body text, replacing any previous body: `text` encoded into
    /// the `INFO_BUFFER_LEN`-unit buffer, silently truncated when its
    /// UTF-16 form is longer. Every other field is unchanged.
    pub fn info_text(self, text: &str) -> (r: NotificationBuilder)
        ensures
            r@.sz_info@ == encoded_wide(text@, INFO_BUFFER_LEN as nat),
            r@.sz_info_title == self@.sz_info_title,
            r@.guid_item == self@.guid_item,
            r@.u_flags == self@.u_flags,
    {
        let mut descriptor = self.descriptor;
        descriptor.sz_info = encode_string_wide(text, INFO_BUFFER_LEN);
        NotificationBuilder { descriptor }
    }

    /// Sets the title text, replacing any previous title: `text` encoded
    /// into the `TITLE_BUFFER_LEN`-unit buffer, silently truncated when its
    /// UTF-16 form is longer. Every other field is unchanged.
    pub fn title_text(self, text: &str) -> (r: NotificationBuilder)
        ensures
            r@.sz_info_title@ == encoded_wide(text@, TITLE_BUFFER_LEN as nat),
            r@.sz_info == self@.sz_info,
            r@.guid_item == self@.guid_item,
            r@.u_flags == self@.u_flags,
    {
        let mut descriptor = self.descriptor;
        descriptor.sz_info_title = encode_string_wide(text, TITLE_BUFFER_LEN);
        NotificationBuilder { descriptor }
    }

    /// Consumes the builder and creates a notification that owns the
    /// descriptor unchanged. Infallible: the descriptor is already
    /// well-formed by construction.
    pub fn build(self) -> (n: Notification)
        ensures
            n@ == self@,
    {
        Notification { descriptor: self.descriptor }
    }

    /// The descriptor as accumulated so far.
    pub fn descriptor(&self) -> (d: &NotificationDescriptor)
        ensures
            *d == self@,
    {
        &self.descriptor
    }
}

/// A notification that may be shown and later removed, owning the
/// descriptor the native shell calls read. The calls themselves are
/// performed by the embedding around this library: it reads the descriptor
/// through [`Self::descriptor`] — taking, for the duration of each native
/// call, exclusive access to it — and maps what the platform reported
/// through [`shell_call_outcome`]. Removing a notification consumes the
/// handle, so nothing can be shown or removed after that.
#[derive(Debug)]
pub struct Notification {
    descriptor: NotificationDescriptor,
}

impl View for Notification {
    type V = NotificationDescriptor;

    /// A notification is seen as the descriptor it owns.
    closed spec fn view(&self) -> NotificationDescriptor {
        self.descriptor
    }
}

impl Notification {
    /// The descriptor the native calls read.
    pub fn descriptor(&self) -> (d: &NotificationDescriptor)
        ensures
            *d == self@,
    {
        &self.descriptor
    }

    /// The title text, decoded from the descriptor buffer with the zero
    /// padding trimmed.
    pub fn title_text_string(&self) -> (r: String)
        ensures
            r@ == utf16_decode(trim_trailing_zeros(self@.sz_info_title@)),
    {
        decode_wide(&self.descriptor.sz_info_title)
    }

    /// The body text, decoded from the descriptor buffer with the zero
    /// padding trimmed.
    pub fn info_text_string(&self) -> (r: String)
        ensures
            r@ == utf16_decode(trim_trailing_zeros(self@.sz_info@)),
    {
        decode_wide(&self.descriptor.sz_info)
    }
}

/// The result a native shell call's report maps to: success stays success,
/// and a failure — the call to show a notification, or to delete one the
/// shell does not know, among them — surfaces as `PlatformError` carrying
/// the platform's last-error value exactly as reported.
pub fn shell_call_outcome(success: bool, last_error: i32) -> (r: Result<(), ErrorCode>)
    ensures
        r == (if success {
            Result::<(), ErrorCode>::Ok(())
        } else {
            Result::<(), ErrorCode>::Err(ErrorCode::PlatformError(last_error))
        }),
{
    if success {
        Ok(())
    } else {
        Err(ErrorCode::PlatformError(last_error))
    }
}

} // verus!
