use jvm_init_args::{EncodedOption, JNIVersion, JvmError};

#[test]
fn encoding_appends_one_zero_byte() {
    let encoded = EncodedOption::new("ab").unwrap();
    assert_eq!(encoded.as_bytes_with_nul(), &[97u8, 98u8, 0u8][..]);
    assert_eq!(encoded.as_bytes(), &[97u8, 98u8][..]);
}

#[test]
fn encoding_the_empty_text_is_the_zero_byte_alone() {
    let encoded = EncodedOption::new("").unwrap();
    assert_eq!(encoded.as_bytes_with_nul(), &[0u8][..]);
    assert!(encoded.as_bytes().is_empty());
}

#[test]
fn encoding_is_utf8() {
    let encoded = EncodedOption::new("\u{e9}\u{20ac}\u{1f600}").unwrap();
    assert_eq!(
        encoded.as_bytes_with_nul(),
        &[0xc3u8, 0xa9, 0xe2, 0x82, 0xac, 0xf0, 0x9f, 0x98, 0x80, 0x00][..]
    );
}

#[test]
fn encoding_refuses_a_nul_anywhere() {
    assert!(EncodedOption::new("\0").is_none());
    assert!(EncodedOption::new("\0abc").is_none());
    assert!(EncodedOption::new("a\0bc").is_none());
    assert!(EncodedOption::new("abc\0").is_none());
    assert!(EncodedOption::new("\u{e9}\0\u{e9}").is_none());
}

#[test]
fn encoding_takes_text_whose_characters_end_in_zero_bits() {
    // U+0100 and U+0800 have low bytes of zero as numbers, but none in UTF-8.
    let encoded = EncodedOption::new("\u{100}\u{800}\u{10000}").unwrap();
    assert!(!encoded.as_bytes().contains(&0u8));
    assert_eq!(encoded.as_bytes(), "\u{100}\u{800}\u{10000}".as_bytes());
}

#[test]
fn encoded_text_decodes_back() {
    let text = "-Xcheck:jni";
    let encoded = EncodedOption::new(text).unwrap();
    assert_eq!(std::str::from_utf8(encoded.as_bytes()).unwrap(), text);
}

#[test]
fn version_codes_are_those_of_the_native_interface() {
    assert_eq!(JNIVersion::V8.code(), 0x0001_0008);
    assert_eq!(JNIVersion::V9.code(), 0x0009_0000);
    assert_eq!(JNIVersion::V10.code(), 0x000a_0000);
    assert_eq!(JNIVersion::V19.code(), 0x0013_0000);
    assert_eq!(JNIVersion::V20.code(), 0x0014_0000);
    assert_eq!(JNIVersion::V21.code(), 0x0015_0000);
}

#[test]
fn versions_are_ordered_from_the_baseline_up() {
    assert!(JNIVersion::V8 < JNIVersion::V9);
    assert!(JNIVersion::V9 < JNIVersion::V10);
    assert!(JNIVersion::V10 < JNIVersion::V19);
    assert!(JNIVersion::V19 < JNIVersion::V20);
    assert!(JNIVersion::V20 < JNIVersion::V21);
    assert!(JNIVersion::V8.code() < JNIVersion::V21.code());
}

#[test]
fn error_message_names_the_option() {
    let error = JvmError::NullOptString("bad\0opt".to_string());
    assert_eq!(error.message(), "internal null in option: bad\0opt");
}

#[test]
fn error_message_of_an_empty_option() {
    let error = JvmError::NullOptString(String::new());
    assert_eq!(error.message(), "internal null in option: ");
}
