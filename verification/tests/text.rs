use hgl::text::{c_string, is_nul_free};

#[test]
fn names_without_a_zero_byte_are_free() {
    assert!(is_nul_free(""));
    assert!(is_nul_free("position"));
    assert!(is_nul_free("out_color"));
    assert!(is_nul_free("größe"));
}

#[test]
fn a_zero_byte_anywhere_is_found() {
    assert!(!is_nul_free("\0"));
    assert!(!is_nul_free("\0position"));
    assert!(!is_nul_free("posi\0tion"));
    assert!(!is_nul_free("position\0"));
}

#[test]
fn c_string_closes_the_bytes_with_a_zero() {
    assert_eq!(c_string(""), vec![0]);
    assert_eq!(c_string("mvp"), vec![0x6d, 0x76, 0x70, 0]);
    assert_eq!(c_string("position"), b"position\0".to_vec());
}

#[test]
fn c_string_keeps_the_utf8_bytes() {
    assert_eq!(c_string("ö"), vec![0xc3, 0xb6, 0]);
    let text = c_string("größe");
    assert_eq!(text.len(), "größe".len() + 1);
    assert_eq!(&text[..text.len() - 1], "größe".as_bytes());
    assert_eq!(text.iter().filter(|byte| **byte == 0).count(), 1);
}
