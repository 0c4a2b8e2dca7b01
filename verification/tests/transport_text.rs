use base64::engine::general_purpose::URL_SAFE;
use base64::Engine;
use token_issuer::transport::{decode, encode, same_bytes, same_text};

#[test]
fn encode_gives_url_safe_base64_with_padding() {
    assert_eq!(encode(b"hi"), "aGk=");
    assert_eq!(encode(b"hello world~"), "aGVsbG8gd29ybGR-");
    assert_eq!(encode(&[0xfb, 0xff]), "-_8=");
    assert_eq!(encode(&[]), "");
}

#[test]
fn decode_gives_the_bytes_back() {
    assert_eq!(decode("aGk="), Some(b"hi".to_vec()));
    assert_eq!(decode("-_8="), Some(vec![0xfb, 0xff]));
    assert_eq!(decode(""), Some(vec![]));
}

#[test]
fn decode_refuses_what_is_no_url_safe_base64() {
    assert_eq!(decode("!!!!"), None);
    assert_eq!(decode("+/8="), None);
    assert_eq!(decode("aGk"), None);
    assert_eq!(decode("aGl="), None);
}

#[test]
fn encode_agrees_with_the_engine() {
    let bytes: Vec<u8> = (0..=255).collect();
    assert_eq!(encode(&bytes), URL_SAFE.encode(&bytes));
    assert_eq!(decode(&URL_SAFE.encode(&bytes)), Some(bytes));
}

#[test]
fn same_text_compares_character_for_character() {
    assert!(same_text("aGk=", "aGk="));
    assert!(!same_text("aGk=", "aGk"));
    assert!(!same_text("aGk=", "AGk="));
    assert!(same_text("", ""));
}

#[test]
fn same_bytes_compares_byte_for_byte() {
    assert!(same_bytes(&[1, 2, 3], &[1, 2, 3]));
    assert!(!same_bytes(&[1, 2, 3], &[1, 2, 4]));
    assert!(!same_bytes(&[1, 2, 3], &[1, 2]));
    assert!(same_bytes(&[], &[]));
}
