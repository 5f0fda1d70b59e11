use gphoto::text::{
    bytes_eq, c_string, c_text_len, c_text_of, camera_text_to_string, has_nul, lossy_string,
};
use gphoto::ErrorKind;

#[test]
fn c_text_len_is_the_index_of_the_first_nul() {
    assert_eq!(c_text_len(b"abc\0def\0"), 3);
    assert_eq!(c_text_len(b"\0abc"), 0);
    assert_eq!(c_text_len(b"abc"), 3);
    assert_eq!(c_text_len(b""), 0);
    assert_eq!(c_text_len(&[1, 2, 3, 4, 0]), 4);
}

#[test]
fn c_text_of_copies_what_stands_before_the_nul() {
    assert_eq!(c_text_of(b"store_00010001\0\0\0junk"), b"store_00010001".to_vec());
    assert_eq!(c_text_of(b"no terminator"), b"no terminator".to_vec());
    assert_eq!(c_text_of(b"\0"), Vec::<u8>::new());
}

#[test]
fn has_nul_finds_a_nul_anywhere() {
    assert!(has_nul(b"\0"));
    assert!(has_nul(b"usb:\0001"));
    assert!(has_nul(b"tail\0"));
    assert!(!has_nul(b"usb:001,002"));
    assert!(!has_nul(b""));
}

#[test]
fn c_string_appends_the_terminator() {
    assert_eq!(c_string(b"usb:001,002").unwrap(), b"usb:001,002\0".to_vec());
    assert_eq!(c_string(b"").unwrap(), vec![0u8]);
}

#[test]
fn c_string_refuses_an_embedded_nul() {
    let e = c_string(b"usb:\0001").unwrap_err();
    assert_eq!(e.kind(), ErrorKind::BadParameters);
    assert_eq!(e.code(), -2);
    assert!(c_string(b"\0").is_err());
    assert!(c_string(b"end\0").is_err());
}

#[test]
fn bytes_eq_compares_length_and_content() {
    assert!(bytes_eq(b"", b""));
    assert!(bytes_eq(b"usb:", b"usb:"));
    assert!(!bytes_eq(b"usb:", b"usb"));
    assert!(!bytes_eq(b"usb:", b"usc:"));
    assert!(!bytes_eq(b"", b"a"));
}

#[test]
fn camera_text_stops_at_the_terminator() {
    let mut buffer = vec![0u8; 32 * 1024];
    buffer[..12].copy_from_slice(b"Model: EOS R");
    buffer[20] = b'x';
    assert_eq!(camera_text_to_string(&buffer).unwrap(), "Model: EOS R");
}

#[test]
fn camera_text_without_terminator_is_the_whole_buffer() {
    assert_eq!(camera_text_to_string(b"abc").unwrap(), "abc");
}

#[test]
fn camera_text_may_be_empty() {
    assert_eq!(camera_text_to_string(b"\0ignored").unwrap(), "");
    assert_eq!(camera_text_to_string(b"").unwrap(), "");
}

#[test]
fn camera_text_keeps_multibyte_characters() {
    let text = "Gerät 📷 été";
    let mut buffer = text.as_bytes().to_vec();
    buffer.push(0);
    buffer.extend_from_slice(&[0xff, 0xfe]);
    assert_eq!(camera_text_to_string(&buffer).unwrap(), text);
}

#[test]
fn camera_text_that_is_not_utf8_is_corrupted_data() {
    let e = camera_text_to_string(&[b'a', 0xff, b'b', 0]).unwrap_err();
    assert_eq!(e.kind(), ErrorKind::CorruptedData);
    assert_eq!(e.code(), -102);
    assert_eq!(*e.message(), None);
    // a truncated multi-byte sequence, an overlong encoding and a surrogate
    assert!(camera_text_to_string(&[0xe2, 0x82, 0]).is_err());
    assert!(camera_text_to_string(&[0xc0, 0x80, 0]).is_err());
    assert!(camera_text_to_string(&[0xed, 0xa0, 0x80, 0]).is_err());
}

#[test]
fn camera_text_ignores_bad_bytes_behind_the_terminator() {
    assert_eq!(camera_text_to_string(&[b'o', b'k', 0, 0xff, 0xff]).unwrap(), "ok");
}

#[test]
fn lossy_string_keeps_valid_text() {
    assert_eq!(lossy_string(b"Universal Serial Bus"), "Universal Serial Bus");
    assert_eq!(lossy_string("Gerät 📷".as_bytes()), "Gerät 📷");
    assert_eq!(lossy_string(b""), "");
}

#[test]
fn lossy_string_replaces_invalid_sequences() {
    assert_eq!(lossy_string(&[b'a', 0xff, b'b']), "a\u{fffd}b");
    assert_eq!(lossy_string(&[0xf0, 0x9f, 0x92]), "\u{fffd}");
    assert_ne!(lossy_string(&[0xff]).as_bytes(), &[0xff]);
}

#[test]
fn count_of_is_the_count() {
    assert_eq!(gphoto::text::count_of(0), 0);
    assert_eq!(gphoto::text::count_of(5), 5);
    assert_eq!(gphoto::text::count_of(i32::MAX), i32::MAX as usize);
}
