//! Calls into other crates, each behind a contract that is not proved here.
use vstd::prelude::*;
use base64::Engine;
use sha2::Digest;

verus! {

/// What `uuid::Uuid::parse_str` makes of a text: the identifier's 128 bits, or
/// nothing where the text is none of the notations that the crate reads.
pub uninterp spec fn uuid_parsed(text: Seq<char>) -> Option<u128>;

/// `uuid::Uuid::parse_str`. It claims that whether the text is read, and as which
/// 128 bits, depends on the text alone.
#[verifier::external_body]
pub(crate) fn uuid_parse_str(text: &str) -> (r: Option<u128>)
    ensures
        r == uuid_parsed(text@),
{
    uuid::Uuid::parse_str(text).ok().map(|id| id.as_u128())
}

/// A lower-case hexadecimal digit.
pub open spec fn hex_char(d: nat) -> char {
    if d < 10 {
        (d + 48) as char
    } else {
        (d + 87) as char
    }
}

/// The `k`-th of the 32 hexadecimal digits of an identifier, the highest first.
pub open spec fn uuid_nibble(value: u128, k: int) -> nat {
    (value as nat / vstd::arithmetic::power::pow(16, (31 - k) as nat) as nat) % 16
}

pub open spec fn uuid_hyphen(i: int) -> bool {
    i == 8 || i == 13 || i == 18 || i == 23
}

/// How many hyphens stand before position `i` of the hyphenated notation.
pub open spec fn uuid_hyphens_before(i: int) -> int {
    if i <= 8 {
        0
    } else if i <= 13 {
        1
    } else if i <= 18 {
        2
    } else if i <= 23 {
        3
    } else {
        4
    }
}

/// The hyphenated lower-case notation: 8, 4, 4, 4 and 12 digits.
pub open spec fn uuid_text(value: u128) -> Seq<char> {
    Seq::new(
        36,
        |i: int|
            if uuid_hyphen(i) {
                '-'
            } else {
                hex_char(uuid_nibble(value, i - uuid_hyphens_before(i)))
            },
    )
}

/// `uuid::Uuid::to_string` (its `Display`). It claims that the text is the
/// hyphenated lower-case notation, and that `Uuid::parse_str` reads it back.
#[verifier::external_body]
pub(crate) fn uuid_to_string(value: u128) -> (r: String)
    ensures
        r@ == uuid_text(value),
        uuid_parsed(r@) == Some(value),
{
    uuid::Uuid::from_u128(value).to_string()
}

/// The padded standard-alphabet base64 text of a byte string.
pub uninterp spec fn base64_text(bytes: Seq<u8>) -> Seq<char>;

/// What the padded standard-alphabet base64 decoder makes of a text.
pub uninterp spec fn base64_decoded(text: Seq<char>) -> Option<Seq<u8>>;

/// The standard base64 alphabet and its padding sign.
pub open spec fn base64_char(c: char) -> bool {
    ||| 'A' <= c <= 'Z'
    ||| 'a' <= c <= 'z'
    ||| '0' <= c <= '9'
    ||| c == '+'
    ||| c == '/'
    ||| c == '='
}

/// Nothing but signs of the base64 alphabet and its padding.
pub open spec fn base64_signs(text: Seq<char>) -> bool {
    forall|i: int| 0 <= i < text.len() ==> base64_char(#[trigger] text[i])
}

/// `base64::engine::general_purpose::STANDARD.encode`. It claims that the text
/// depends on the bytes alone, holds only the alphabet and padding signs, and is
/// read back by the same engine's `decode`.
#[verifier::external_body]
pub(crate) fn base64_encode(bytes: &[u8]) -> (r: String)
    requires
        bytes@.len() <= usize::MAX / 4,
    ensures
        r@ == base64_text(bytes@),
        base64_decoded(r@) == Some(bytes@),
        base64_signs(r@),
{
    base64::engine::general_purpose::STANDARD.encode(bytes)
}

/// `base64::engine::general_purpose::STANDARD.decode`. It claims that whether the
/// text is read, and as which bytes, depends on the text alone, and that a text with any
/// other sign than those of the alphabet and the padding is not read.
#[verifier::external_body]
pub(crate) fn base64_decode(text: &str) -> (r: Option<Vec<u8>>)
    ensures
        match r {
            Some(bytes) => base64_decoded(text@) == Some(bytes@) && base64_signs(text@),
            None => base64_decoded(text@) is None,
        },
{
    base64::engine::general_purpose::STANDARD.decode(text).ok()
}

/// The SHA-256 digest of a byte string.
pub uninterp spec fn sha256(bytes: Seq<u8>) -> Seq<u8>;

/// `sha2::Sha256::digest`. It claims that the 32 bytes depend on the input alone.
#[verifier::external_body]
pub(crate) fn sha256_digest(bytes: &[u8]) -> (r: [u8; 32])
    ensures
        r@ == sha256(bytes@),
{
    sha2::Sha256::digest(bytes).into()
}

/// The first and the last millisecond that `chrono::DateTime<Utc>` can hold:
/// January 1 of the year -262143 and December 31 of the year 262142.
pub const MIN_UTC_MILLIS: i64 = -8_334_601_228_800_000;

pub const MAX_UTC_MILLIS: i64 = 8_210_266_876_799_999;

/// `chrono::DateTime::from_timestamp_millis`, with the result taken apart by
/// `timestamp` and `timestamp_subsec_nanos`. It claims that every millisecond in
/// the calendar's range is accepted and no other, and gives the whole seconds
/// and the nanoseconds after them.
#[verifier::external_body]
pub(crate) fn utc_from_millis(millis: i64) -> (r: Option<(i64, u32)>)
    ensures
        r == (if MIN_UTC_MILLIS <= millis <= MAX_UTC_MILLIS {
            Some((((millis as int) / 1000) as i64, (((millis as int) % 1000) * 1_000_000) as u32))
        } else {
            None
        }),
{
    chrono::DateTime::from_timestamp_millis(millis).map(
        |at| (at.timestamp(), at.timestamp_subsec_nanos()),
    )
}

/// The characters of Unicode's property `White_Space`.
pub open spec fn is_white_space(c: char) -> bool {
    let n = c as int;
    ||| 0x9 <= n <= 0xd
    ||| n == 0x20
    ||| n == 0x85
    ||| n == 0xa0
    ||| n == 0x1680
    ||| 0x2000 <= n <= 0x200a
    ||| n == 0x2028
    ||| n == 0x2029
    ||| n == 0x202f
    ||| n == 0x205f
    ||| n == 0x3000
}

/// A text without the white space at its front.
pub open spec fn front_trimmed(text: Seq<char>) -> Seq<char>
    decreases text.len(),
{
    if text.len() > 0 && is_white_space(text.first()) {
        front_trimmed(text.drop_first())
    } else {
        text
    }
}

/// A text without the white space at its end.
pub open spec fn end_trimmed(text: Seq<char>) -> Seq<char>
    decreases text.len(),
{
    if text.len() > 0 && is_white_space(text.last()) {
        end_trimmed(text.drop_last())
    } else {
        text
    }
}

/// A text without the white space at both ends.
pub open spec fn trimmed(text: Seq<char>) -> Seq<char> {
    end_trimmed(front_trimmed(text))
}

/// `str::trim`. It claims that the characters of the Unicode property `White_Space` are
/// taken off both ends, and no others.
#[verifier::external_body]
pub(crate) fn trim(text: &str) -> (r: &str)
    ensures
        r@ == trimmed(text@),
{
    text.trim()
}

/// Nothing is left of a text exactly where it holds nothing but white space.
pub proof fn law_blank_text_is_white_space(text: Seq<char>)
    ensures
        trimmed(text).len() == 0 <==> forall|i: int|
            0 <= i < text.len() ==> is_white_space(#[trigger] text[i]),
    decreases text.len(),
{
    if text.len() > 0 {
        if is_white_space(text.first()) {
            law_blank_text_is_white_space(text.drop_first());
            if trimmed(text).len() == 0 {
                assert forall|i: int| 0 <= i < text.len() implies is_white_space(
                    #[trigger] text[i],
                ) by {
                    if i > 0 {
                        assert(text.drop_first()[i - 1] == text[i]);
                    }
                }
            }
        } else {
            lemma_end_trimmed_keeps(text);
            assert(!is_white_space(text[0]));
        }
    }
}

proof fn lemma_end_trimmed_keeps(text: Seq<char>)
    requires
        text.len() > 0,
        !is_white_space(text.first()),
    ensures
        end_trimmed(text).len() > 0,
    decreases text.len(),
{
    if is_white_space(text.last()) {
        assert(text.len() > 1);
        assert(text.drop_last().first() == text.first());
        lemma_end_trimmed_keeps(text.drop_last());
    }
}

} // verus!
