use rust_sdk::greeting::{rust_greeting, DEFAULT_RECIPIENT};

#[test]
fn greets_the_recipient_by_name() {
    assert_eq!(rust_greeting(b"world"), "Hello world");
    assert_eq!(rust_greeting("Zoë".as_bytes()), "Hello Zoë");
}

#[test]
fn greets_an_empty_name() {
    assert_eq!(rust_greeting(b""), "Hello ");
}

#[test]
fn greets_there_when_the_name_is_not_utf8() {
    assert_eq!(DEFAULT_RECIPIENT, "there");
    assert_eq!(rust_greeting(&[0xff]), "Hello there");
    assert_eq!(rust_greeting(&[b'a', 0xc3]), "Hello there");
    assert_eq!(rust_greeting(&[0xed, 0xa0, 0x80]), "Hello there");
}
