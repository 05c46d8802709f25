use taskveil::bytes::{append_bytes, be_vec, read_be, slice_vec};
use taskveil::error::ClientErrorKind;
use taskveil::ids::Uuid;
use taskveil::model::SyncFailure;
use taskveil::text::{
    bytes_eq, chars_of, decimal_text, eq_ignore_ascii_case, parse_unsigned, split_fields, str_eq,
    string_of,
};

#[test]
fn numbers_are_written_and_read_in_decimal() {
    for number in [0, 7, 10, 4_294_967_296, u64::MAX] {
        let text = decimal_text(number);
        assert_eq!(text, format!("{number}"));
        let chars = chars_of(&text);
        assert_eq!(parse_unsigned(&chars, 0, chars.len(), u64::MAX), Some(number));
    }
    let read = |text: &str, max: u64| {
        let chars = chars_of(text);
        parse_unsigned(&chars, 0, chars.len(), max)
    };
    assert_eq!(read("", 9), None);
    assert_eq!(read("+", 9), None);
    assert_eq!(read("+7", 9), Some(7));
    assert_eq!(read("-7", 9), None);
    assert_eq!(read("10", 9), None);
    assert_eq!(read("18446744073709551616", u64::MAX), None);
    assert_eq!(read("0012", 99), Some(12));
}

#[test]
fn fields_stand_between_their_separators() {
    assert_eq!(split_fields("a|b||c", '|'), vec!["a", "b", "", "c"]);
    assert_eq!(split_fields("", '|'), vec![""]);
    assert_eq!(split_fields("plain", '|'), vec!["plain"]);
}

#[test]
fn texts_are_compared_by_their_characters() {
    assert!(str_eq("h\u{e9}", "h\u{e9}"));
    assert!(!str_eq("h\u{e9}", "he"));
    assert!(eq_ignore_ascii_case("User@Example.COM", "user@example.com"));
    assert!(!eq_ignore_ascii_case("\u{c9}", "\u{e9}"));
    assert!(bytes_eq(&[1, 2], &[1, 2]));
    assert!(!bytes_eq(&[1, 2], &[1, 2, 3]));
    assert_eq!(string_of(&chars_of("abcdef"), 2, 4), "cd");
}

#[test]
fn numbers_are_cut_into_bytes_highest_first() {
    assert_eq!(be_vec(0x0102, 4), vec![0, 0, 1, 2]);
    assert_eq!(read_be(&[9, 0, 0, 1, 2], 1, 5), 0x0102);
    let mut bytes = vec![1];
    append_bytes(&mut bytes, &[2, 3]);
    assert_eq!(bytes, vec![1, 2, 3]);
    assert_eq!(slice_vec(&bytes, 1, 3), vec![2, 3]);
}

#[test]
fn identifiers_are_read_in_every_notation_and_written_in_one() {
    let id = Uuid {
        value: 0x018f0000_0000_7000_8000_00000000abcd,
    };
    assert_eq!(id.text(), "018f0000-0000-7000-8000-00000000abcd");
    for notation in [
        "018f0000-0000-7000-8000-00000000abcd",
        "018F0000-0000-7000-8000-00000000ABCD",
        "018f000000007000800000000000abcd",
        "{018f0000-0000-7000-8000-00000000abcd}",
        "urn:uuid:018f0000-0000-7000-8000-00000000abcd",
    ] {
        assert_eq!(Uuid::parse(notation), Some(id), "{notation}");
    }
    assert_eq!(Uuid::parse("018f0000-0000-7000-8000-00000000abc"), None);
    assert_eq!(Uuid::parse(""), None);
}

#[test]
fn failures_and_kinds_correspond() {
    for kind in [
        ClientErrorKind::InvalidInput,
        ClientErrorKind::NotFound,
        ClientErrorKind::Conflict,
        ClientErrorKind::Unauthorized,
        ClientErrorKind::CredentialUnavailable,
        ClientErrorKind::AccountBoundUnavailable,
        ClientErrorKind::EntitlementRequired,
        ClientErrorKind::UpgradeRequired,
        ClientErrorKind::Busy,
        ClientErrorKind::LeaseLost,
        ClientErrorKind::ClockSkew,
        ClientErrorKind::CryptoUnavailable,
        ClientErrorKind::StorageFailure,
        ClientErrorKind::SyncFailure,
        ClientErrorKind::Internal,
    ] {
        assert_eq!(SyncFailure::from(kind).kind(), kind);
    }
}
