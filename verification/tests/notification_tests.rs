use win32_notification::encode::{decode_wide, encode_string_wide};
use win32_notification::guid::{generate_guid, guid_from_bytes, guid_outcome};
use win32_notification::notification::shell_call_outcome;
use win32_notification::{ErrorCode, NotificationBuilder, NotificationBuilderError};

#[test]
fn test_encode_string_wide() {
    let encoded = encode_string_wide("Test", 12);
    assert_eq!(
        encoded.len(),
        12,
        "should have buffer length always even when source input is shorter (is {}, {})",
        encoded.len(),
        12
    );
    assert_eq!(encoded, vec![84, 101, 115, 116, 0, 0, 0, 0, 0, 0, 0, 0]);

    let encoded = encode_string_wide("testabcabcabc", 12);
    assert_eq!(
        encoded.len(),
        12,
        "should truncate input data if it is longer than the requested buffer length (is {}, {})",
        encoded.len(),
        12
    );
    assert_eq!(
        encoded,
        vec![116, 101, 115, 116, 97, 98, 99, 97, 98, 99, 97, 98]
    );
}

#[test]
fn test_notification_builder() {
    let mut builder = NotificationBuilder::new().expect("new call should succeed");
    builder = builder.info_text("test");
    let mut expected_info_text = vec![0u16; 256];
    expected_info_text[0] = 116;
    expected_info_text[1] = 101;
    expected_info_text[2] = 115;
    expected_info_text[3] = 116;
    assert_eq!(builder.descriptor().sz_info, expected_info_text);

    builder = builder.title_text("Test title");
    let mut expected_title_text = vec![0u16; 64];
    expected_title_text[0] = 0x54;
    expected_title_text[1] = 0x65;
    expected_title_text[2] = 0x73;
    expected_title_text[3] = 0x74;
    expected_title_text[4] = 0x20;
    expected_title_text[5] = 0x74;
    expected_title_text[6] = 0x69;
    expected_title_text[7] = 0x74;
    expected_title_text[8] = 0x6C;
    expected_title_text[9] = 0x65;
    assert_eq!(builder.descriptor().sz_info_title, expected_title_text);

    let notification = builder.build();
    assert_eq!(notification.descriptor().sz_info, expected_info_text);
    assert_eq!(notification.descriptor().sz_info_title, expected_title_text);
}

#[test]
fn encode_empty_string_yields_all_zeros() {
    let encoded = encode_string_wide("", 12);
    assert_eq!(encoded, vec![0u16; 12]);

    let encoded = encode_string_wide("", 256);
    assert_eq!(encoded.len(), 256);
    assert!(encoded.iter().all(|u| *u == 0));
}

#[test]
fn encode_then_decode_round_trips() {
    let buffer = encode_string_wide("Hello, world", 64);
    assert_eq!(decode_wide(&buffer), "Hello, world");

    // A character outside the basic plane encodes as a surrogate pair.
    let buffer = encode_string_wide("a\u{1F600}b", 64);
    assert_eq!(buffer[1], 0xD83D);
    assert_eq!(buffer[2], 0xDE00);
    assert_eq!(decode_wide(&buffer), "a\u{1F600}b");

    // An exact-capacity text leaves no zero padding at all.
    let buffer = encode_string_wide("abcd", 4);
    assert_eq!(buffer, vec![97, 98, 99, 100]);
    assert_eq!(decode_wide(&buffer), "abcd");
}

#[test]
fn decode_replaces_unpaired_surrogates() {
    // Truncation can cut a surrogate pair in half; decoding such a buffer
    // yields the replacement character rather than failing.
    let buffer = encode_string_wide("ab\u{1F600}", 3);
    assert_eq!(buffer, vec![97, 98, 0xD83D]);
    assert_eq!(decode_wide(&buffer), "ab\u{FFFD}");

    let lone_low = vec![0xDE00u16, 0, 0];
    assert_eq!(decode_wide(&lone_low), "\u{FFFD}");
}

#[test]
fn builders_receive_distinct_identifiers() {
    let first = NotificationBuilder::new().expect("new call should succeed");
    let second = NotificationBuilder::new().expect("new call should succeed");
    assert_ne!(
        first.descriptor().guid_item,
        second.descriptor().guid_item,
        "two builders created in sequence should receive distinct identifiers"
    );
}

#[test]
fn builder_sets_flags_and_identifier_bits() {
    let builder = NotificationBuilder::new().expect("new call should succeed");
    let descriptor = builder.descriptor();
    assert_eq!(descriptor.u_flags, 0x10 | 0x20);
    assert_eq!(descriptor.guid_item.data3 & 0xF000, 0x4000);
    assert_eq!(descriptor.guid_item.data4[0] & 0xC0, 0x80);
    assert!(descriptor.sz_info.iter().all(|u| *u == 0));
    assert!(descriptor.sz_info_title.iter().all(|u| *u == 0));
}

#[test]
fn generate_guid_reports_version_and_variant() {
    let guid = generate_guid().expect("the platform's randomness should be available");
    assert_eq!(guid.data3 & 0xF000, 0x4000);
    assert_eq!(guid.data4[0] & 0xC0, 0x80);
}

#[test]
fn guid_from_bytes_reads_bytes_in_order() {
    let bytes: Vec<u8> = vec![
        0x01, 0x02, 0x03, 0x04, 0x05, 0x06, 0x17, 0x08, 0x49, 0x0A, 0x0B, 0x0C, 0x0D, 0x0E, 0x0F,
        0x10,
    ];
    let guid = guid_from_bytes(&bytes);
    assert_eq!(guid.data1, 0x01020304);
    assert_eq!(guid.data2, 0x0506);
    assert_eq!(guid.data3, 0x4708);
    assert_eq!(guid.data4, [0x89, 0x0A, 0x0B, 0x0C, 0x0D, 0x0E, 0x0F, 0x10]);
}

#[test]
fn failed_identifier_generation_passes_the_code_through() {
    // The raw platform status value is surfaced unchanged, on the
    // identifier path and on the builder construction path alike.
    assert_eq!(guid_outcome(Err(-2147467259)), Err(-2147467259));
    assert_eq!(guid_outcome(Err(5)), Err(5));
    assert!(matches!(
        NotificationBuilder::outcome(Err(7)),
        Err(NotificationBuilderError::PlatformError(7))
    ));
}

#[test]
fn successful_identifier_generation_builds_from_the_bytes() {
    let bytes: Vec<u8> = vec![0; 16];
    let direct = guid_from_bytes(&bytes);
    assert_eq!(guid_outcome(Ok(bytes)), Ok(direct));

    let builder = NotificationBuilder::outcome(Ok(direct)).expect("a generated identifier yields a builder");
    assert_eq!(builder.descriptor().guid_item, direct);
    assert_eq!(builder.descriptor().u_flags, 0x30);
}

#[test]
fn notification_text_is_recoverable() {
    let notification = NotificationBuilder::new()
        .expect("new call should succeed")
        .title_text("Notification Title")
        .info_text("This is the notification body")
        .build();
    assert_eq!(notification.title_text_string(), "Notification Title");
    assert_eq!(notification.info_text_string(), "This is the notification body");
}

#[test]
fn shell_call_outcome_maps_reports() {
    assert_eq!(shell_call_outcome(true, 0), Ok(()));
    assert_eq!(shell_call_outcome(true, 5), Ok(()));
    // A failed call — such as deleting a notification that was never
    // shown — surfaces the platform's last-error value unchanged.
    assert_eq!(shell_call_outcome(false, 2), Err(ErrorCode::PlatformError(2)));
    assert_eq!(
        shell_call_outcome(false, -2147023728),
        Err(ErrorCode::PlatformError(-2147023728))
    );
}
