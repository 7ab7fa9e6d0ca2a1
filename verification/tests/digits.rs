use cita_client::abi::encode_string_param;
use cita_client::digits::{parse_quantity, remove_0x};

#[test]
fn removes_either_prefix() {
    let a = "0x0b";
    let b = remove_0x(a);
    let c = "0X0b";
    let d = remove_0x(c);
    assert_eq!("0b", b);
    assert_eq!("0b", d);
}

#[test]
fn keeps_text_without_prefix() {
    assert_eq!(remove_0x("ab"), "ab");
    assert_eq!(remove_0x("x0ab"), "x0ab");
    assert_eq!(remove_0x("0yab"), "0yab");
    assert_eq!(remove_0x("1xab"), "1xab");
    assert_eq!(remove_0x("é"), "é");
}

#[test]
fn removes_one_prefix_only() {
    assert_eq!(remove_0x("0x0xab"), "0xab");
    assert_eq!(remove_0x("0x"), "");
    assert_eq!(remove_0x("0xé"), "é");
}

#[test]
fn reads_quantities() {
    assert_eq!(parse_quantity("1b4"), Some(0x1b4));
    assert_eq!(parse_quantity("1B4"), Some(0x1b4));
    assert_eq!(parse_quantity("+ff"), Some(255));
    assert_eq!(parse_quantity("000000000000000000000a"), Some(10));
    assert_eq!(parse_quantity("ffffffffffffffff"), Some(u64::MAX));
}

#[test]
fn refuses_what_is_no_quantity() {
    assert_eq!(parse_quantity(""), None);
    assert_eq!(parse_quantity("+"), None);
    assert_eq!(parse_quantity("-1"), None);
    assert_eq!(parse_quantity("++1"), None);
    assert_eq!(parse_quantity("1g"), None);
    assert_eq!(parse_quantity(" 1"), None);
    assert_eq!(parse_quantity("1_0"), None);
    assert_eq!(parse_quantity("10000000000000000"), None);
    assert_eq!(parse_quantity("é"), None);
}

#[test]
fn quantities_read_like_the_standard_library() {
    for text in ["0", "a", "+0", "+", "", "ffffffffffffffff", "1ffffffffffffffff", "f-", "00"] {
        assert_eq!(parse_quantity(text), u64::from_str_radix(text, 16).ok());
    }
}

#[test]
fn encodes_a_short_string() {
    let expected = format!(
        "{:064x}{:064x}{}{}",
        32,
        5,
        "68656c6c6f",
        "0".repeat(54)
    );
    assert_eq!(encode_string_param("hello"), expected);
}

#[test]
fn encodes_the_empty_string() {
    assert_eq!(encode_string_param(""), format!("{:064x}{:064x}", 32, 0));
}

#[test]
fn encodes_whole_words_without_padding() {
    let word = "a".repeat(32);
    assert_eq!(
        encode_string_param(&word),
        format!("{:064x}{:064x}{}", 32, 32, "61".repeat(32))
    );
    let more = "a".repeat(33);
    assert_eq!(
        encode_string_param(&more),
        format!("{:064x}{:064x}{}{}", 32, 33, "61".repeat(33), "0".repeat(62))
    );
}

#[test]
fn encodes_long_strings_by_their_bytes() {
    let text = "é".repeat(150);
    let encoded = encode_string_param(&text);
    assert_eq!(&encoded[64..128], format!("{:064x}", 300));
    assert_eq!(&encoded[128..728], "c3a9".repeat(150));
    assert_eq!(encoded.len() % 64, 0);
    assert_eq!(encoded.len(), 128 + 640);
}

#[test]
fn different_strings_encode_differently() {
    assert_ne!(encode_string_param("a"), encode_string_param("a\0"));
}
