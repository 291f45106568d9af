use wifi_watchdog::frame::{decode_reply, length_header, receive_header, send_header};

#[test]
fn fixed_headers() {
    assert_eq!(send_header(), vec![0x02, 0x00, 0x00, 0x00]);
    assert_eq!(receive_header(), vec![0x01, 0x00, 0x00, 0x00]);
    assert_eq!(length_header(0), vec![0x00, 0x00, 0x00, 0x41]);
    assert_eq!(length_header(127), vec![0x7F, 0x00, 0x00, 0x41]);
}

#[test]
fn decode_reply_lengths() {
    assert_eq!(decode_reply(&[0x05, 0x00, 0x00, 0x42]), Some(5));
    assert_eq!(decode_reply(&[0x85, 0x00, 0x00, 0x42]), Some(5));
    assert_eq!(decode_reply(&[0x00, 0x01, 0x00, 0x42]), Some(128));
    assert_eq!(decode_reply(&[0x7F, 0x7F, 0x9C, 0x42]), Some(16383));
    assert_eq!(decode_reply(&[0xFF, 0xFF, 0x00, 0x42]), Some(32767));
}

#[test]
fn decode_reply_bad_tag() {
    assert_eq!(decode_reply(&[0x05, 0x00, 0x00, 0x41]), None);
    assert_eq!(decode_reply(&[0x00, 0x00, 0x42, 0x00]), None);
}
