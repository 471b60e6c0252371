use ff78_launcher::message::{decode_text_message, Message, MessageBody};
use ff78_launcher::utf16::utf16_units_of_str;

fn text_message(field_id: u32, text: &str, nul_terminated: bool) -> Message {
    Message {
        field_id,
        body: MessageBody::Text { units: utf16_units_of_str(text), nul_terminated },
    }
}

#[test]
fn utf16_units_of_ascii() {
    let units = utf16_units_of_str("lang-en");
    assert_eq!(units, vec![0x6C, 0x61, 0x6E, 0x67, 0x2D, 0x65, 0x6E]);
}

#[test]
fn utf16_units_of_surrogate_pair() {
    // U+1D11E (musical symbol G clef) needs a surrogate pair.
    let units = utf16_units_of_str("\u{1D11E}");
    assert_eq!(units, vec![0xD834, 0xDD1E]);
}

#[test]
fn utf16_units_of_empty() {
    assert_eq!(utf16_units_of_str(""), Vec::<u16>::new());
}

#[test]
fn encode_text_message_layout() {
    let m = text_message(13, "ab", false);
    // field id 13 LE, byte count 4 LE, then 'a' and 'b' as UTF-16LE.
    assert_eq!(m.encode(), vec![13, 0, 0, 0, 4, 0, 0, 0, 0x61, 0, 0x62, 0]);
}

#[test]
fn encode_unit_byte_order_is_little_endian() {
    let m = Message {
        field_id: 0x12345678,
        body: MessageBody::Text { units: vec![0x1234], nul_terminated: false },
    };
    assert_eq!(m.encode(), vec![0x78, 0x56, 0x34, 0x12, 2, 0, 0, 0, 0x34, 0x12]);
}

#[test]
fn encode_flag_value_message() {
    let m = Message { field_id: 23, body: MessageBody::FlagValue(1) };
    assert_eq!(m.encode(), vec![23, 0, 0, 0, 1, 0, 0, 0]);
}

#[test]
fn encode_flag_only_message() {
    let m = Message { field_id: 24, body: MessageBody::FlagOnly };
    assert_eq!(m.encode(), vec![24, 0, 0, 0]);
}

#[test]
fn round_trip_text_message() {
    let m = text_message(11, "C:\\Users\\someone\\Documents", false);
    let decoded = decode_text_message(&m.encode()).expect("decodes");
    assert_eq!(decoded.field_id, 11);
    match decoded.body {
        MessageBody::Text { units, nul_terminated } => {
            assert_eq!(units, utf16_units_of_str("C:\\Users\\someone\\Documents"));
            assert!(!nul_terminated);
        }
        _ => panic!("expected a text body"),
    }
}

#[test]
fn round_trip_empty_text_message() {
    let m = text_message(10, "", false);
    let decoded = decode_text_message(&m.encode()).expect("decodes");
    assert_eq!(decoded.field_id, 10);
    match decoded.body {
        MessageBody::Text { units, nul_terminated } => {
            assert!(units.is_empty());
            assert!(!nul_terminated);
        }
        _ => panic!("expected a text body"),
    }
}

#[test]
fn install_dir_image_has_one_trailing_nul() {
    let m = text_message(12, "C:\\games\\ff7", true);
    let bytes = m.encode();
    let declared = u32::from_le_bytes([bytes[4], bytes[5], bytes[6], bytes[7]]) as usize;
    // exactly one byte beyond the declared payload length, and it is NUL
    assert_eq!(bytes.len(), 8 + declared + 1);
    assert_eq!(*bytes.last().unwrap(), 0);
    let decoded = decode_text_message(&bytes).expect("decodes");
    match decoded.body {
        MessageBody::Text { nul_terminated, .. } => assert!(nul_terminated),
        _ => panic!("expected a text body"),
    }
}

#[test]
fn round_trip_recovers_the_original_string() {
    let original = "C:\\games\\FINAL FANTASY \u{00DF} \u{1D11E}";
    let m = text_message(12, original, false);
    let decoded = decode_text_message(&m.encode()).expect("decodes");
    match decoded.body {
        MessageBody::Text { units, .. } => {
            assert_eq!(String::from_utf16(&units).unwrap(), original);
        }
        _ => panic!("expected a text body"),
    }
}

#[test]
fn decode_rejects_short_image() {
    assert!(decode_text_message(&vec![13, 0, 0]).is_none());
}

#[test]
fn decode_rejects_odd_byte_count() {
    // declared count 3 is not a whole number of units
    assert!(decode_text_message(&vec![13, 0, 0, 0, 3, 0, 0, 0, 1, 2, 3]).is_none());
}

#[test]
fn decode_rejects_nonzero_trailing_byte() {
    // one byte beyond the declared count that is not NUL
    assert!(decode_text_message(&vec![13, 0, 0, 0, 2, 0, 0, 0, 0x61, 0, 7]).is_none());
}

#[test]
fn decode_rejects_overlong_image() {
    // two bytes beyond the declared count
    assert!(decode_text_message(&vec![13, 0, 0, 0, 2, 0, 0, 0, 0x61, 0, 0, 0]).is_none());
}
