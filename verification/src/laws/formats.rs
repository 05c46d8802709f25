//! Notations: numbers and identifiers in text and bytes, envelopes, clocks and manifests
//! on the wire, and the words of errors.
use vstd::prelude::*;
use crate::bytes;
use crate::external;
use crate::ids;
use crate::order;
use crate::organization_manifest;
use crate::text;
use crate::error::{ClientErrorKind, SchemaFault, StorageError};
use crate::ids::{UtcTime, Uuid};
use crate::model::SyncFailure;
use crate::organization_manifest::{
    AccountRootSignature, KeyManifest, KeyManifestError, OrganizationCryptoError,
    OrganizationKeyManifest, OrganizationManifestError,
};
use crate::protocol::{envelope, hlc};
use crate::protocol::envelope::{EnvelopeHeader, EnvelopeHeaderError};
use crate::protocol::hlc::{HlcWireError, WireHlc};

verus! {

/// A sync failure and a class of client errors stand for each other under the same
/// name.
pub proof fn law_sync_failure_keeps_its_name(failure: SyncFailure, kind: ClientErrorKind)
    ensures
        failure is InvalidInput <==> failure.kind_spec() is InvalidInput,
        failure is NotFound <==> failure.kind_spec() is NotFound,
        failure is Conflict <==> failure.kind_spec() is Conflict,
        failure is Unauthorized <==> failure.kind_spec() is Unauthorized,
        failure is CredentialUnavailable <==> failure.kind_spec() is CredentialUnavailable,
        failure is AccountBoundUnavailable <==> failure.kind_spec() is AccountBoundUnavailable,
        failure is EntitlementRequired <==> failure.kind_spec() is EntitlementRequired,
        failure is UpgradeRequired <==> failure.kind_spec() is UpgradeRequired,
        failure is Busy <==> failure.kind_spec() is Busy,
        failure is LeaseLost <==> failure.kind_spec() is LeaseLost,
        failure is ClockSkew <==> failure.kind_spec() is ClockSkew,
        failure is CryptoUnavailable <==> failure.kind_spec() is CryptoUnavailable,
        failure is StorageFailure <==> failure.kind_spec() is StorageFailure,
        failure is SyncFailure <==> failure.kind_spec() is SyncFailure,
        failure is Internal <==> failure.kind_spec() is Internal,
        kind is InvalidInput <==> SyncFailure::of_kind(kind) is InvalidInput,
        kind is NotFound <==> SyncFailure::of_kind(kind) is NotFound,
        kind is Conflict <==> SyncFailure::of_kind(kind) is Conflict,
        kind is Unauthorized <==> SyncFailure::of_kind(kind) is Unauthorized,
        kind is CredentialUnavailable <==> SyncFailure::of_kind(kind) is CredentialUnavailable,
        kind is AccountBoundUnavailable <==>
            SyncFailure::of_kind(kind) is AccountBoundUnavailable,
        kind is EntitlementRequired <==> SyncFailure::of_kind(kind) is EntitlementRequired,
        kind is UpgradeRequired <==> SyncFailure::of_kind(kind) is UpgradeRequired,
        kind is Busy <==> SyncFailure::of_kind(kind) is Busy,
        kind is LeaseLost <==> SyncFailure::of_kind(kind) is LeaseLost,
        kind is ClockSkew <==> SyncFailure::of_kind(kind) is ClockSkew,
        kind is CryptoUnavailable <==> SyncFailure::of_kind(kind) is CryptoUnavailable,
        kind is StorageFailure <==> SyncFailure::of_kind(kind) is StorageFailure,
        kind is SyncFailure <==> SyncFailure::of_kind(kind) is SyncFailure,
        kind is Internal <==> SyncFailure::of_kind(kind) is Internal,
{
}

/// Each fault of the local keys and records has its words.
pub proof fn law_words_of_a_fault(fault: SchemaFault)
    ensures
        fault is TenantRootMissing ==>
            fault.message_spec() == "local Tenant Root DEK is missing"@,
        fault is InvalidActiveGeneration ==>
            fault.message_spec() == "invalid active Tenant Root DEK generation"@,
        fault is CacheWithoutBinding ==>
            fault.message_spec() == "Tenant Root DEK cache exists without a profile binding"@,
        fault is GenerationMovedBackwards ==>
            fault.message_spec() == "active Tenant Root DEK generation cannot move backwards"@,
        fault is CachedRootUnauthenticated ==>
            fault.message_spec() == "stored local Tenant Root DEK cannot be authenticated"@,
        fault is HistoricalNotBeforeActive ==>
            fault.message_spec() == "historical Tenant Root DEK generation must precede the active generation"@,
        fault is InvalidGeneration ==>
            fault.message_spec() == "invalid Tenant Root DEK generation"@,
        fault is RootChangedWithoutGeneration ==>
            fault.message_spec() == "Tenant Root DEK changed without a generation change"@,
        fault is InvalidRootMaterial ==>
            fault.message_spec() == "invalid local Tenant Root DEK material"@,
        fault is InvalidInboxAliasSet ==>
            fault.message_spec() == "invalid canonical Inbox alias set"@,
        fault is Other ==> fault.message_spec() == "incompatible schema"@,
{
}

/// A database is busy if and only if it says so.
pub proof fn law_busy_database(error: StorageError)
    ensures
        error.database_busy() <==> error is DatabaseBusy,
{
}

/// Each fault of an envelope has its words.
pub proof fn law_words_of_an_envelope_error(fault: EnvelopeHeaderError)
    ensures
        fault is BlobTooShort ==> fault.message_spec() == "encrypted blob is too short"@,
        fault is UnsupportedVersion ==>
            fault.message_spec() == "unsupported encrypted blob version"@,
        fault is InvalidGeneration ==>
            fault.message_spec() == "key generation must be positive"@,
        fault is BlobTooLarge ==> fault.message_spec() == "encrypted blob exceeds 64KB limit"@,
{
}

/// Each fault of a clock on the wire has its words.
pub proof fn law_words_of_a_clock_error(fault: HlcWireError)
    ensures
        fault is InvalidDeviceId ==>
            fault.message_spec() == "HLC device id must be 1..=64 printable ASCII bytes"@,
        fault is InvalidLength ==> fault.message_spec() == "encoded HLC has invalid length"@,
        fault is UnsupportedVersion ==>
            fault.message_spec() == "encoded HLC has unsupported version prefix"@,
        fault is InvalidDigits ==>
            fault.message_spec() == "encoded HLC contains invalid digits"@,
{
}

/// An identifier is written as its number in the notation of identifiers, and a text
/// names the identifier of the number that is read from it.
pub proof fn law_identifier_text(id: Uuid, text: Seq<char>)
    ensures
        id.text_spec() == external::uuid_text(id.value),
        ids::parsed(text) is Some <==> external::uuid_parsed(text) is Some,
        ids::parsed(text) is Some ==>
            external::uuid_parsed(text) == Some(ids::parsed(text)->Some_0.value),
{
}

/// A calendar time counts its whole milliseconds since the epoch, and the time of a
/// millisecond has that millisecond and nothing after it.
pub proof fn law_calendar_times(time: UtcTime, millis: int)
    requires
        i64::MIN <= millis <= i64::MAX,
    ensures
        time.millis_spec() == 1000 * time.seconds + time.nanos as int / 1_000_000,
        1000 * UtcTime::of_millis(millis).seconds + UtcTime::of_millis(millis).nanos as int / 1_000_000 == millis,
        UtcTime::of_millis(millis).nanos < 1_000_000_000,
        UtcTime::of_millis(millis).nanos as int % 1_000_000 == 0,
        time.valid() <==>
            -8_334_601_228_800_000 <= 1000 * time.seconds
                && 1000 * time.seconds + 999 <= 8_210_266_876_799_999
                && (time.nanos < 1_000_000_000 || (time.nanos < 2_000_000_000 && time.seconds % 60 == 59)),
{
}

/// The decimal notation of a number is made of digits, stands for the number, and
/// begins with a zero only for zero itself.
pub proof fn law_decimal_is_read_back(n: nat)
    ensures
        text::digits_value(text::decimal(n)) == n,
        text::decimal(n).len() > 0,
        forall|i: int| 0 <= i < text::decimal(n).len() ==>
            '0' <= #[trigger] text::decimal(n)[i] <= '9',
        text::decimal(n)[0] == '0' ==> n == 0,
    decreases n,
{
    if n < 10 {
        let s = text::decimal(n);
        assert(s.drop_last().len() == 0);
        assert(text::digits_value(s.drop_last()) == 0);
        assert(s.last() as nat == n + 48);
    } else {
        law_decimal_is_read_back(n / 10);
        let s = text::decimal(n);
        assert(s.drop_last() == text::decimal(n / 10));
        assert(s.last() as nat == n % 10 + 48);
    }
}

/// A digit behind a number counts itself and makes the number count ten times.
pub proof fn law_a_digit_more_counts_ten_times(s: Seq<char>, c: char)
    requires
        '0' <= c <= '9',
    ensures
        text::digits_value(s.push(c)) == 10 * text::digits_value(s) + (c as nat - 48),
        text::digits_value(Seq::<char>::empty()) == 0,
{
    assert(s.push(c).drop_last() == s);
}

/// A text is a number up to a largest one if and only if it has digits and nothing else
/// behind a plus that may be missing, and their value is not above the largest.
pub proof fn law_unsigned_numbers(s: Seq<char>, max: nat)
    ensures
        s.len() > 0 && s[0] != '+' ==>
            (text::unsigned_value(s, max) is Some <==> (forall|i: int| 0 <= i < s.len() ==> '0' <= #[trigger] s[i] <= '9') && text::digits_value(s) <= max),
        s.len() > 0 && s[0] != '+' && text::unsigned_value(s, max) is Some ==>
            text::unsigned_value(s, max) == Some(text::digits_value(s)),
        s.len() > 1 && s[0] == '+' && s[1] != '+' ==>
            text::unsigned_value(s, max) == text::unsigned_value(s.skip(1), max),
        s.len() == 0 ==> text::unsigned_value(s, max) is None,
        text::unsigned_value(seq!['+'], max) is None,
{
    assert(seq!['+'].skip(1).len() == 0);
    if s.len() > 1 {
        assert(s.skip(1)[0] == s[1]);
    }
}

/// No field holds the separator, joined again the fields are the text, and a text
/// without the separator is one field.
pub proof fn law_fields_are_split_at_the_separator(s: Seq<char>, sep: char)
    ensures
        text::fields(s, sep).len() > 0,
        forall|i: int| 0 <= i < text::fields(s, sep).len() ==>
            !(#[trigger] text::fields(s, sep)[i]).contains(sep),
        text::joined(text::fields(s, sep), sep) == s,
    decreases s.len(),
{
    if s.len() == 0 {
        assert(text::joined(seq![Seq::<char>::empty()], sep) == s);
    } else {
        let front = s.drop_last();
        let before = text::fields(front, sep);
        law_fields_are_split_at_the_separator(front, sep);
        let all = text::fields(s, sep);
        if s.last() == sep {
            assert(all.drop_last() == before);
            assert(all.last() == Seq::<char>::empty());
            assert(text::joined(all, sep) == text::joined(before, sep).push(sep) + Seq::<char>::empty());
            assert(text::joined(all, sep) == s);
        } else {
            lemma_last_field_grows(before, s.last(), sep);
            assert(text::joined(all, sep) == text::joined(before, sep).push(s.last()));
            assert(text::joined(all, sep) == s);
            assert forall|i: int| 0 <= i < all.len() implies !(#[trigger] all[i]).contains(sep) by {
                if i < all.len() - 1 {
                    assert(all[i] == before[i]);
                } else {
                    assert(all[i] == before.last().push(s.last()));
                    assert(!before[before.len() - 1].contains(sep));
                    if all[i].contains(sep) {
                        let k = choose|k: int| 0 <= k < all[i].len() && all[i][k] == sep;
                        assert(before.last()[k] == sep);
                    }
                }
            }
        }
    }
}

proof fn lemma_last_field_grows(parts: Seq<Seq<char>>, c: char, sep: char)
    requires
        parts.len() > 0,
    ensures
        text::joined(parts.drop_last().push(parts.last().push(c)), sep) == text::joined(
            parts,
            sep,
        ).push(c),
{
    let grown = parts.drop_last().push(parts.last().push(c));
    assert(grown.drop_last() == parts.drop_last());
    assert(grown.last() == parts.last().push(c));
    if parts.len() > 1 {
        let front = text::joined(parts.drop_last(), sep).push(sep);
        assert(front + parts.last().push(c) == (front + parts.last()).push(c));
    }
}

/// Parts that do not hold the separator are the fields of what they are joined to.
pub proof fn law_joined_parts_are_split_again(parts: Seq<Seq<char>>, sep: char)
    requires
        parts.len() > 0,
        forall|i: int| 0 <= i < parts.len() ==> !(#[trigger] parts[i]).contains(sep),
    ensures
        text::fields(text::joined(parts, sep), sep) == parts,
{
    text::lemma_fields_of_joined(parts, sep);
}

/// Two texts are the same whatever the case of their letters if and only if they are as
/// long as each other and, at each place, hold the same character or a small and a
/// capital letter of one kind.
pub proof fn law_case_of_letters(a: Seq<char>, b: Seq<char>, c: char)
    ensures
        'A' <= c <= 'Z' ==> text::ascii_lower(c) as int == c as int + 32,
        !('A' <= c <= 'Z') ==> text::ascii_lower(c) == c,
        text::same_ignoring_case(a, b) <==>
            a.len() == b.len()
                && (forall|i: int| 0 <= i < a.len() ==> text::ascii_lower(#[trigger] a[i]) == text::ascii_lower(b[i])),
        a == b ==> text::same_ignoring_case(a, b),
        text::same_ignoring_case(a, b) ==> text::same_ignoring_case(b, a),
{
}

/// The first byte of a number counts most: before n others it counts as often as there
/// are numbers of n bytes.
pub proof fn law_first_byte_counts_most(first: u8, rest: Seq<u8>)
    ensures
        bytes::be_value(seq![first] + rest) == first * bytes::pow256(rest.len()) + bytes::be_value(rest),
        bytes::be_value(rest) < bytes::pow256(rest.len()),
        bytes::pow256(0) == 1,
        bytes::pow256(rest.len() + 1) == 256 * bytes::pow256(rest.len()),
    decreases rest.len(),
{
    bytes::lemma_be_value_bound(rest);
    reveal_with_fuel(bytes::pow256, 2);
    let all = seq![first] + rest;
    if rest.len() == 0 {
        assert(all.drop_last() =~= Seq::<u8>::empty());
        assert(all.last() == first);
        reveal_with_fuel(bytes::be_value, 2);
        assert(bytes::be_value(all) == first as nat);
    } else {
        law_first_byte_counts_most(first, rest.drop_last());
        assert(all.drop_last() =~= seq![first] + rest.drop_last());
        assert(all.last() == rest.last());
        let power = bytes::pow256((rest.len() - 1) as nat);
        assert((first * power) * 256 == first * (power * 256)) by (nonlinear_arith);
    }
}

/// A number is written in as many bytes as asked for and is read back from them where
/// it fits; and bytes are what their number is written as.
pub proof fn law_numbers_fill_their_bytes(n: nat, len: nat, b: Seq<u8>)
    requires
        n < bytes::pow256(len),
    ensures
        bytes::be_bytes(n, len).len() == len,
        bytes::be_value(bytes::be_bytes(n, len)) == n,
        bytes::be_bytes(bytes::be_value(b), b.len()) == b,
{
    bytes::lemma_be_reads_back(n, len);
    bytes::lemma_be_writes_back(b);
}

/// Of two sequences that agree up to a place, the one that ends there or is smaller
/// there comes before the other, and the other not before it.
pub proof fn law_order_of_sequences(a: Seq<int>, b: Seq<int>, i: int)
    requires
        0 <= i < b.len(),
        i <= a.len(),
        forall|j: int| 0 <= j < i ==> #[trigger] a[j] == b[j],
        i < a.len() ==> a[i] < b[i],
    ensures
        order::before(a, b),
        !order::before(b, a),
{
    assert(order::falls_behind_at(a, b, i));
    if order::before(b, a) {
        let k = choose|k: int| order::falls_behind_at(b, a, k);
        if k < i {
            assert(a[k] == b[k]);
        } else if k > i {
            assert(b[i] == a[i]);
        }
    }
}

/// No sequence comes before itself.
pub proof fn law_sequence_is_not_before_itself(a: Seq<int>)
    ensures
        !order::before(a, a),
{
    if order::before(a, a) {
        let k = choose|k: int| order::falls_behind_at(a, a, k);
        assert(k == a.len() || a[k] < a[k]);
    }
}

/// Bytes and characters are ordered by their numbers, place for place.
pub proof fn law_order_of_texts(b: Seq<u8>, s: Seq<char>)
    ensures
        order::byte_numbers(b).len() == b.len(),
        forall|i: int| 0 <= i < b.len() ==> #[trigger] order::byte_numbers(b)[i] == b[i] as int,
        order::char_numbers(s).len() == s.len(),
        forall|i: int| 0 <= i < s.len() ==> #[trigger] order::char_numbers(s)[i] == s[i] as int,
{
}

/// An envelope above the limit is refused, then one that is too short, then one of
/// another version, then one without a generation; the suite stands in the two bytes
/// behind the version, and the generation in the eight bytes behind it.
pub proof fn law_envelope_is_read_in_order(blob: Seq<u8>)
    ensures
        blob.len() > 65_536 ==>
            envelope::envelope_header(blob) == Err::<EnvelopeHeader, EnvelopeHeaderError>(EnvelopeHeaderError::BlobTooLarge),
        blob.len() < 54 ==>
            envelope::envelope_header(blob) == Err::<EnvelopeHeader, EnvelopeHeaderError>(EnvelopeHeaderError::BlobTooShort),
        54 <= blob.len() <= 65_536
            && !(blob[0] == 84 && blob[1] == 68 && blob[2] == 69 && blob[3] == 53) ==>
            envelope::envelope_header(blob) == Err::<EnvelopeHeader, EnvelopeHeaderError>(EnvelopeHeaderError::UnsupportedVersion),
        54 <= blob.len() <= 65_536
            && (blob[0] == 84 && blob[1] == 68 && blob[2] == 69 && blob[3] == 53)
            && bytes::be_value(blob.subrange(6, 14)) == 0 ==>
            envelope::envelope_header(blob) == Err::<EnvelopeHeader, EnvelopeHeaderError>(EnvelopeHeaderError::InvalidGeneration),
        54 <= blob.len() <= 65_536
            && (blob[0] == 84 && blob[1] == 68 && blob[2] == 69 && blob[3] == 53)
            && bytes::be_value(blob.subrange(6, 14)) > 0 ==>
            envelope::envelope_header(blob) is Ok
                && envelope::envelope_header(blob)->Ok_0.suite_id as nat == bytes::be_value(blob.subrange(4, 6))
                && envelope::envelope_header(blob)->Ok_0.key_generation as nat == bytes::be_value(blob.subrange(6, 14)),
{
    if blob.len() >= 54 {
        let magic = envelope::ENVELOPE_MAGIC@;
        let start = blob.subrange(0, 4);
        assert(magic.len() == 4 && magic[0] == 84 && magic[1] == 68 && magic[2] == 69 && magic[3] == 53);
        if blob[0] == 84 && blob[1] == 68 && blob[2] == 69 && blob[3] == 53 {
            assert(start =~= magic);
        } else {
            assert(start[0] == blob[0] && start[1] == blob[1] && start[2] == blob[2] && start[3] == blob[3]);
        }
        bytes::lemma_pow256();
        bytes::lemma_be_value_bound(blob.subrange(4, 6));
        bytes::lemma_be_value_bound(blob.subrange(6, 14));
    }
}

/// The header of an envelope is the version, the suite in two bytes and the generation
/// in eight.
pub proof fn law_envelope_is_written_in_order(header: EnvelopeHeader)
    ensures
        envelope::header_bytes(header).len() == 14,
        envelope::header_bytes(header)[0] == 84
            && envelope::header_bytes(header)[1] == 68
            && envelope::header_bytes(header)[2] == 69
            && envelope::header_bytes(header)[3] == 53,
        bytes::be_value(envelope::header_bytes(header).subrange(4, 6)) == header.suite_id as nat,
        bytes::be_value(envelope::header_bytes(header).subrange(6, 14)) == header.key_generation as nat,
{
    bytes::lemma_pow256();
    bytes::lemma_be_reads_back(header.suite_id as nat, 2);
    bytes::lemma_be_reads_back(header.key_generation as nat, 8);
    let all = envelope::header_bytes(header);
    let magic = envelope::ENVELOPE_MAGIC@;
    assert(magic.len() == 4 && magic[0] == 84 && magic[1] == 68 && magic[2] == 69 && magic[3] == 53);
    assert(all.subrange(4, 6) =~= bytes::be_bytes(header.suite_id as nat, 2));
    assert(all.subrange(6, 14) =~= bytes::be_bytes(header.key_generation as nat, 8));
    assert(all[0] == magic[0] && all[1] == magic[1] && all[2] == magic[2] && all[3] == magic[3]);
}

/// A byte is a hexadecimal digit if and only if it is a decimal digit or one of the
/// first six small letters, and stands for its place among them; and each of the
/// sixteen numbers is written as its digit.
pub proof fn law_hexadecimal_digits(b: u8, d: int)
    ensures
        48 <= b <= 57 ==> hlc::hex_value(b) == Some((b - 48) as u8),
        97 <= b <= 102 ==> hlc::hex_value(b) == Some((b - 87) as u8),
        !(48 <= b <= 57) && !(97 <= b <= 102) ==> hlc::hex_value(b) is None,
        0 <= d < 16 ==> hlc::hex_value(hlc::hex_byte(d)) == Some(d as u8),
        hlc::is_graphic(b) <==> 33 <= b <= 126,
{
}

/// Hexadecimal text is read two digits at a time, the first of which counts sixteen
/// times; an odd number of digits, or anything but digits, is not read.
pub proof fn law_hexadecimal_bytes(encoded: Seq<u8>)
    ensures
        hlc::hex_decoded(encoded) is Some <==>
            encoded.len() % 2 == 0
                && (forall|i: int| 0 <= i < encoded.len() ==> hlc::hex_value(#[trigger] encoded[i]) is Some),
        hlc::hex_decoded(encoded) is Some ==>
            hlc::hex_decoded(encoded)->Some_0.len() * 2 == encoded.len(),
        hlc::hex_decoded(encoded) is Some ==> forall|i: int| 0 <= i < hlc::hex_decoded(encoded)->Some_0.len() ==> #[trigger] hlc::hex_decoded(encoded)->Some_0[i] == 16 * hlc::hex_value(encoded[2 * i])->Some_0 + hlc::hex_value(encoded[2 * i + 1])->Some_0,
{
    if hlc::hex_decoded(encoded) is Some {
        let decoded = hlc::hex_decoded(encoded)->Some_0;
        assert forall|i: int| 0 <= i < decoded.len() implies #[trigger] decoded[i] == 16 * hlc::hex_value(encoded[2 * i])->Some_0 + hlc::hex_value(encoded[2 * i + 1])->Some_0 by {
            assert(hlc::hex_value(encoded[2 * i]) is Some);
            assert(hlc::hex_value(encoded[2 * i + 1]) is Some);
        }
    }
}

/// The name of a device is what stands before the zero bytes at the end, which is
/// printable and not empty.
pub proof fn law_name_of_a_device(b: Seq<u8>, n: int)
    requires
        0 <= n <= b.len(),
        forall|i: int| 0 <= i < n ==> #[trigger] b[i] != 0,
        forall|i: int| n <= i < b.len() ==> #[trigger] b[i] == 0,
    ensures
        hlc::device_name(b) is Some <==>
            n > 0
                && (forall|i: int| 0 <= i < n ==> 33 <= #[trigger] b[i] <= 126),
        hlc::device_name(b) is Some ==> hlc::device_name(b)->Some_0.len() == n,
        hlc::device_name(b) is Some ==> forall|i: int| 0 <= i < n ==> #[trigger] hlc::device_name(b)->Some_0[i] == b[i] as char,
{
    lemma_name_ends(b, n);
    if n > 0 && (forall|i: int| 0 <= i < n ==> 33 <= #[trigger] b[i] <= 126) {
        assert forall|i: int| 0 <= i < n implies hlc::is_graphic(#[trigger] b[i]) by {}
    }
    if hlc::device_name(b) is Some {
        assert forall|i: int| 0 <= i < n implies 33 <= #[trigger] b[i] <= 126 by {
            assert(hlc::is_graphic(b[i]));
        }
    }
}

proof fn lemma_name_ends(b: Seq<u8>, n: int)
    requires
        0 <= n <= b.len(),
        forall|i: int| 0 <= i < n ==> #[trigger] b[i] != 0,
        forall|i: int| n <= i < b.len() ==> #[trigger] b[i] == 0,
    ensures
        hlc::unpadded_len(b) == n,
    decreases b.len(),
{
    if n > 0 {
        let rest = b.skip(1);
        assert(b[0] != 0);
        assert forall|i: int| 0 <= i < n - 1 implies #[trigger] rest[i] != 0 by {
            assert(b[i + 1] != 0);
        }
        assert forall|i: int| n - 1 <= i < rest.len() implies #[trigger] rest[i] == 0 by {
            assert(b[i + 1] == 0);
        }
        lemma_name_ends(rest, n - 1);
    } else if b.len() > 0 {
        assert(b[0] == 0);
    }
}

/// A field of digits is read where all of it is digits and its value is not above the
/// largest.
pub proof fn law_decimal_fields(b: Seq<u8>, max: nat)
    ensures
        hlc::decimal_field(b, max) is Some <==>
            (forall|i: int| 0 <= i < b.len() ==> 48 <= #[trigger] b[i] <= 57)
                && hlc::decimal_value(b) <= max,
        hlc::decimal_field(b, max) is Some ==>
            hlc::decimal_field(b, max) == Some(hlc::decimal_value(b)),
{
}

/// A digit behind others counts itself and makes them count ten times.
pub proof fn law_a_digit_byte_more_counts_ten_times(b: Seq<u8>, d: u8)
    requires
        48 <= d <= 57,
    ensures
        hlc::decimal_value(b.push(d)) == 10 * hlc::decimal_value(b) + (d - 48),
        hlc::decimal_value(Seq::<u8>::empty()) == 0,
{
    let chars = hlc::as_chars(b.push(d));
    assert(chars.drop_last() =~= hlc::as_chars(b));
    assert(chars.last() == d as char);
    assert(chars.last() as nat == d as nat);
}

/// A number is written in as many digits as asked for, the last of which is what
/// remains of it when it is divided by ten, and the others what it is divided to.
pub proof fn law_fixed_width_numbers(n: nat, width: nat)
    requires
        width > 0,
    ensures
        hlc::fixed_decimal(n, width).len() == width,
        hlc::fixed_decimal(n, width)[width - 1] == 48 + n % 10,
        hlc::fixed_decimal(n, width).drop_last() == hlc::fixed_decimal(n / 10, (width - 1) as nat),
        hlc::fixed_decimal(n, 0).len() == 0,
    decreases width,
{
    reveal_with_fuel(hlc::fixed_decimal, 2);
    if width > 1 {
        law_fixed_width_numbers(n / 10, (width - 1) as nat);
    } else {
        assert(hlc::fixed_decimal(n / 10, 0).len() == 0);
    }
    assert(hlc::fixed_decimal(n, width) == hlc::fixed_decimal(n / 10, (width - 1) as nat).push((48 + n % 10) as u8));
}

/// A clock on the wire is refused for its length, then for its version, then for
/// anything but digits in its fields, then for the name of its device.
pub proof fn law_clock_on_the_wire_is_read_in_order(b: Seq<u8>)
    ensures
        b.len() != 160 ==> hlc::wire_fault(b) == Some(HlcWireError::InvalidLength),
        b.len() == 160 && !(b[0] == 48 && b[1] == 49) ==>
            hlc::wire_fault(b) == Some(HlcWireError::UnsupportedVersion),
        b.len() == 160
            && b[0] == 48
            && b[1] == 49
            && !(hlc::decimal_field(b.subrange(2, 22), u64::MAX as nat) is Some && hlc::decimal_field(b.subrange(22, 32), u32::MAX as nat) is Some && hlc::hex_decoded(b.subrange(32, 160)) is Some) ==>
            hlc::wire_fault(b) == Some(HlcWireError::InvalidDigits),
        b.len() == 160
            && b[0] == 48
            && b[1] == 49
            && hlc::decimal_field(b.subrange(2, 22), u64::MAX as nat) is Some
            && hlc::decimal_field(b.subrange(22, 32), u32::MAX as nat) is Some
            && hlc::hex_decoded(b.subrange(32, 160)) is Some
            && hlc::device_name(hlc::hex_decoded(b.subrange(32, 160))->Some_0) is None ==>
            hlc::wire_fault(b) == Some(HlcWireError::InvalidDeviceId),
        hlc::wire_fault(b) is None <==>
            b.len() == 160
                && b[0] == 48
                && b[1] == 49
                && hlc::decimal_field(b.subrange(2, 22), u64::MAX as nat) is Some
                && hlc::decimal_field(b.subrange(22, 32), u32::MAX as nat) is Some
                && hlc::hex_decoded(b.subrange(32, 160)) is Some
                && hlc::device_name(hlc::hex_decoded(b.subrange(32, 160))->Some_0) is Some,
{
}

/// A clock that is read has the milliseconds of the first field, counted from the
/// smallest number, the counter of the second, and the device that the third names.
pub proof fn law_clock_on_the_wire_holds_its_fields(clock: WireHlc, b: Seq<u8>)
    requires
        hlc::wire_fault(b) is None,
        clock.reads(b),
    ensures
        clock.wall_ms + 9_223_372_036_854_775_808 == hlc::decimal_value(b.subrange(2, 22)),
        clock.counter == hlc::decimal_value(b.subrange(22, 32)),
        Some(clock.device_id@) == hlc::device_name(hlc::hex_decoded(b.subrange(32, 160))->Some_0),
{
}

/// A clock is written as its version, its milliseconds counted from the smallest number
/// in twenty digits, its counter in ten, and its device in hexadecimal, filled with
/// zeros.
pub proof fn law_clock_is_written_in_order(wall_ms: i64, counter: u32, device: Seq<u8>, i: int)
    requires
        device.len() <= 64,
        0 <= i < 64,
    ensures
        hlc::wire_bytes(wall_ms, counter, device).len() == 160,
        hlc::wire_bytes(wall_ms, counter, device)[0] == 48
            && hlc::wire_bytes(wall_ms, counter, device)[1] == 49,
        hlc::wire_bytes(wall_ms, counter, device).subrange(2, 22) == hlc::fixed_decimal((wall_ms + 9_223_372_036_854_775_808) as nat, 20),
        hlc::wire_bytes(wall_ms, counter, device).subrange(22, 32) == hlc::fixed_decimal(counter as nat, 10),
        i < device.len() ==>
            hlc::hex_value(hlc::wire_bytes(wall_ms, counter, device)[32 + 2 * i]) == Some((device[i] / 16) as u8)
                && hlc::hex_value(hlc::wire_bytes(wall_ms, counter, device)[33 + 2 * i]) == Some((device[i] % 16) as u8),
        i >= device.len() ==>
            hlc::wire_bytes(wall_ms, counter, device)[32 + 2 * i] == 48
                && hlc::wire_bytes(wall_ms, counter, device)[33 + 2 * i] == 48,
{
    let wall = (wall_ms - i64::MIN) as nat;
    law_fixed_width_numbers(wall, 20);
    law_fixed_width_numbers(counter as nat, 10);
    let all = hlc::wire_bytes(wall_ms, counter, device);
    assert(all.subrange(2, 22) =~= hlc::fixed_decimal(wall, 20));
    assert(all.subrange(22, 32) =~= hlc::fixed_decimal(counter as nat, 10));
    let hex = hlc::device_hex(device);
    assert(all[32 + 2 * i] == hex[2 * i]);
    assert(all[33 + 2 * i] == hex[2 * i + 1]);
    assert((2 * i) / 2 == i && (2 * i) % 2 == 0 && (2 * i + 1) / 2 == i && (2 * i + 1) % 2 == 1);
    if i < device.len() {
        law_hexadecimal_digits(48, device[i] as int / 16);
        law_hexadecimal_digits(48, device[i] as int % 16);
    }
}

/// Clocks are ordered by their milliseconds, then by their counters, then by the names
/// of their devices.
pub proof fn law_order_of_clocks(one: WireHlc, other: WireHlc)
    ensures
        one.wall_ms < other.wall_ms ==> one.is_before(other),
        one.wall_ms > other.wall_ms ==> !one.is_before(other),
        one.wall_ms == other.wall_ms && one.counter < other.counter ==> one.is_before(other),
        one.wall_ms == other.wall_ms && one.counter > other.counter ==> !one.is_before(other),
        one.wall_ms == other.wall_ms && one.counter == other.counter ==>
            (one.is_before(other) <==> order::before(order::char_numbers(one.device_id@), order::char_numbers(other.device_id@))),
{
}

/// What is signed for a manifest begins with the name of its purpose, letter for
/// letter.
pub proof fn law_manifest_domain(i: int)
    requires
        0 <= i < 37,
    ensures
        organization_manifest::ORGANIZATION_MANIFEST_DOMAIN@.len() == 37,
        i == 0 ==> organization_manifest::ORGANIZATION_MANIFEST_DOMAIN@[i] == 116,
        i == 1 ==> organization_manifest::ORGANIZATION_MANIFEST_DOMAIN@[i] == 97,
        i == 2 ==> organization_manifest::ORGANIZATION_MANIFEST_DOMAIN@[i] == 115,
        i == 3 ==> organization_manifest::ORGANIZATION_MANIFEST_DOMAIN@[i] == 107,
        i == 4 ==> organization_manifest::ORGANIZATION_MANIFEST_DOMAIN@[i] == 118,
        i == 5 ==> organization_manifest::ORGANIZATION_MANIFEST_DOMAIN@[i] == 101,
        i == 6 ==> organization_manifest::ORGANIZATION_MANIFEST_DOMAIN@[i] == 105,
        i == 7 ==> organization_manifest::ORGANIZATION_MANIFEST_DOMAIN@[i] == 108,
        i == 8 ==> organization_manifest::ORGANIZATION_MANIFEST_DOMAIN@[i] == 47,
        i == 9 ==> organization_manifest::ORGANIZATION_MANIFEST_DOMAIN@[i] == 111,
        i == 10 ==> organization_manifest::ORGANIZATION_MANIFEST_DOMAIN@[i] == 114,
        i == 11 ==> organization_manifest::ORGANIZATION_MANIFEST_DOMAIN@[i] == 103,
        i == 12 ==> organization_manifest::ORGANIZATION_MANIFEST_DOMAIN@[i] == 97,
        i == 13 ==> organization_manifest::ORGANIZATION_MANIFEST_DOMAIN@[i] == 110,
        i == 14 ==> organization_manifest::ORGANIZATION_MANIFEST_DOMAIN@[i] == 105,
        i == 15 ==> organization_manifest::ORGANIZATION_MANIFEST_DOMAIN@[i] == 122,
        i == 16 ==> organization_manifest::ORGANIZATION_MANIFEST_DOMAIN@[i] == 97,
        i == 17 ==> organization_manifest::ORGANIZATION_MANIFEST_DOMAIN@[i] == 116,
        i == 18 ==> organization_manifest::ORGANIZATION_MANIFEST_DOMAIN@[i] == 105,
        i == 19 ==> organization_manifest::ORGANIZATION_MANIFEST_DOMAIN@[i] == 111,
        i == 20 ==> organization_manifest::ORGANIZATION_MANIFEST_DOMAIN@[i] == 110,
        i == 21 ==> organization_manifest::ORGANIZATION_MANIFEST_DOMAIN@[i] == 45,
        i == 22 ==> organization_manifest::ORGANIZATION_MANIFEST_DOMAIN@[i] == 107,
        i == 23 ==> organization_manifest::ORGANIZATION_MANIFEST_DOMAIN@[i] == 101,
        i == 24 ==> organization_manifest::ORGANIZATION_MANIFEST_DOMAIN@[i] == 121,
        i == 25 ==> organization_manifest::ORGANIZATION_MANIFEST_DOMAIN@[i] == 45,
        i == 26 ==> organization_manifest::ORGANIZATION_MANIFEST_DOMAIN@[i] == 109,
        i == 27 ==> organization_manifest::ORGANIZATION_MANIFEST_DOMAIN@[i] == 97,
        i == 28 ==> organization_manifest::ORGANIZATION_MANIFEST_DOMAIN@[i] == 110,
        i == 29 ==> organization_manifest::ORGANIZATION_MANIFEST_DOMAIN@[i] == 105,
        i == 30 ==> organization_manifest::ORGANIZATION_MANIFEST_DOMAIN@[i] == 102,
        i == 31 ==> organization_manifest::ORGANIZATION_MANIFEST_DOMAIN@[i] == 101,
        i == 32 ==> organization_manifest::ORGANIZATION_MANIFEST_DOMAIN@[i] == 115,
        i == 33 ==> organization_manifest::ORGANIZATION_MANIFEST_DOMAIN@[i] == 116,
        i == 34 ==> organization_manifest::ORGANIZATION_MANIFEST_DOMAIN@[i] == 47,
        i == 35 ==> organization_manifest::ORGANIZATION_MANIFEST_DOMAIN@[i] == 118,
        i == 36 ==> organization_manifest::ORGANIZATION_MANIFEST_DOMAIN@[i] == 49,
{
}

/// What is signed for a manifest is its domain, the fingerprint of the root, the length
/// of the payload in four bytes and the payload.
pub proof fn law_signed_transcript(payload: Seq<u8>, fingerprint: Seq<u8>)
    requires
        payload.len() <= u32::MAX,
    ensures
        organization_manifest::transcript(payload, fingerprint).len() == 37 + fingerprint.len() + 4 + payload.len(),
        organization_manifest::transcript(payload, fingerprint).subrange(0, 37) == organization_manifest::ORGANIZATION_MANIFEST_DOMAIN@,
        organization_manifest::transcript(payload, fingerprint).subrange(37, 37 + fingerprint.len() as int) == fingerprint,
        bytes::be_value(organization_manifest::transcript(payload, fingerprint).subrange(37 + fingerprint.len() as int, 41 + fingerprint.len() as int)) == payload.len(),
        organization_manifest::transcript(payload, fingerprint).skip(41 + fingerprint.len() as int) == payload,
{
    bytes::lemma_pow256();
    bytes::lemma_be_reads_back(payload.len(), 4);
    let all = organization_manifest::transcript(payload, fingerprint);
    assert(all.subrange(0, 37) =~= organization_manifest::ORGANIZATION_MANIFEST_DOMAIN@);
    assert(all.subrange(37, 37 + fingerprint.len() as int) =~= fingerprint);
    assert(all.subrange(37 + fingerprint.len() as int, 41 + fingerprint.len() as int) =~= bytes::be_bytes(payload.len(), 4));
    assert(all.skip(41 + fingerprint.len() as int) =~= payload);
}

/// A manifest without a canonical payload is an invalid one, and a payload whose length
/// does not fit in four bytes an invalid encoding; every other has a transcript.
pub proof fn law_manifest_without_a_transcript(manifest: KeyManifest, fingerprint: Seq<u8>)
    ensures
        manifest.canonical_payload is None ==>
            organization_manifest::transcript_of(manifest, fingerprint) == Err::<Seq<u8>, OrganizationManifestError>(OrganizationManifestError::KeyManifest(KeyManifestError::Invalid)),
        manifest.canonical_payload is Some
            && manifest.canonical_payload->Some_0@.len() > u32::MAX ==>
            organization_manifest::transcript_of(manifest, fingerprint) == Err::<Seq<u8>, OrganizationManifestError>(OrganizationManifestError::InvalidEncoding),
        manifest.canonical_payload is Some
            && manifest.canonical_payload->Some_0@.len() <= u32::MAX ==>
            organization_manifest::transcript_of(manifest, fingerprint) == Ok::<Seq<u8>, OrganizationManifestError>(organization_manifest::transcript(manifest.canonical_payload->Some_0@, fingerprint)),
{
}

/// A manifest on the wire is its sign, the length of the payload in four bytes, the
/// payload, the fingerprint of the root and both signatures.
pub proof fn law_manifest_frame_layout(
    payload: Seq<u8>,
    fingerprint: Seq<u8>,
    ed25519: Seq<u8>,
    ml_dsa: Seq<u8>,
)
    requires
        payload.len() <= u32::MAX,
        fingerprint.len() == 32,
        ed25519.len() == 64,
        ml_dsa.len() == 3309,
    ensures
        organization_manifest::frame(payload, fingerprint, ed25519, ml_dsa).len() == 8 + payload.len() + 3405,
        organization_manifest::frame(payload, fingerprint, ed25519, ml_dsa)[0] == 84
            && organization_manifest::frame(payload, fingerprint, ed25519, ml_dsa)[1] == 79
            && organization_manifest::frame(payload, fingerprint, ed25519, ml_dsa)[2] == 77
            && organization_manifest::frame(payload, fingerprint, ed25519, ml_dsa)[3] == 49,
        bytes::be_value(organization_manifest::frame(payload, fingerprint, ed25519, ml_dsa).subrange(4, 8)) == payload.len(),
        organization_manifest::frame(payload, fingerprint, ed25519, ml_dsa).subrange(8, 8 + payload.len() as int) == payload,
        organization_manifest::frame(payload, fingerprint, ed25519, ml_dsa).subrange(8 + payload.len() as int, 40 + payload.len() as int) == fingerprint,
        organization_manifest::frame(payload, fingerprint, ed25519, ml_dsa).subrange(40 + payload.len() as int, 104 + payload.len() as int) == ed25519,
        organization_manifest::frame(payload, fingerprint, ed25519, ml_dsa).skip(104 + payload.len() as int) == ml_dsa,
{
    bytes::lemma_pow256();
    bytes::lemma_be_reads_back(payload.len(), 4);
    let all = organization_manifest::frame(payload, fingerprint, ed25519, ml_dsa);
    let n = payload.len() as int;
    let magic = organization_manifest::ORGANIZATION_MANIFEST_MAGIC@;
    assert(magic.len() == 4 && magic[0] == 84 && magic[1] == 79 && magic[2] == 77 && magic[3] == 49);
    assert(all[0] == magic[0] && all[1] == magic[1] && all[2] == magic[2] && all[3] == magic[3]);
    assert(all.subrange(4, 8) =~= bytes::be_bytes(payload.len(), 4));
    assert(all.subrange(8, 8 + n) =~= payload);
    assert(all.subrange(8 + n, 40 + n) =~= fingerprint);
    assert(all.subrange(40 + n, 104 + n) =~= ed25519);
    assert(all.skip(104 + n) =~= ml_dsa);
}

/// A frame has a payload if and only if it begins with its sign, is longer than what
/// stands around a payload, and is as long as its length says; the payload is what
/// stands between the length and the fingerprint.
pub proof fn law_manifest_frame_is_read_in_place(wire: Seq<u8>)
    ensures
        organization_manifest::framed_payload(wire) is Some <==>
            wire.len() > 3413
                && wire[0] == 84
                && wire[1] == 79
                && wire[2] == 77
                && wire[3] == 49
                && wire.len() == 3413 + bytes::be_value(wire.subrange(4, 8)),
        organization_manifest::framed_payload(wire) is Some ==>
            organization_manifest::framed_payload(wire)->Some_0 == wire.subrange(8, wire.len() - 3405),
{
    if wire.len() > 3413 {
        let magic = organization_manifest::ORGANIZATION_MANIFEST_MAGIC@;
        let start = wire.subrange(0, 4);
        assert(magic.len() == 4 && magic[0] == 84 && magic[1] == 79 && magic[2] == 77 && magic[3] == 49);
        if wire[0] == 84 && wire[1] == 79 && wire[2] == 77 && wire[3] == 49 {
            assert(start =~= magic);
        } else {
            assert(start[0] == wire[0] && start[1] == wire[1] && start[2] == wire[2] && start[3] == wire[3]);
        }
    }
}

/// A manifest with a signature of another length is an invalid encoding, then one
/// without a canonical payload an invalid manifest, then a payload whose length does
/// not fit in four bytes an invalid encoding; every other is framed with its payload,
/// its fingerprint and its signatures.
pub proof fn law_manifest_is_encoded_in_order(manifest: OrganizationKeyManifest)
    ensures
        manifest.signature.ml_dsa_65_signature@.len() != 3309 ==>
            manifest.encoded() == Err::<Seq<u8>, OrganizationManifestError>(OrganizationManifestError::InvalidEncoding),
        manifest.signature.ml_dsa_65_signature@.len() == 3309
            && manifest.manifest.canonical_payload is None ==>
            manifest.encoded() == Err::<Seq<u8>, OrganizationManifestError>(OrganizationManifestError::KeyManifest(KeyManifestError::Invalid)),
        manifest.signature.ml_dsa_65_signature@.len() == 3309
            && manifest.manifest.canonical_payload is Some
            && manifest.manifest.canonical_payload->Some_0@.len() > u32::MAX ==>
            manifest.encoded() == Err::<Seq<u8>, OrganizationManifestError>(OrganizationManifestError::InvalidEncoding),
        manifest.signature.ml_dsa_65_signature@.len() == 3309
            && manifest.manifest.canonical_payload is Some
            && manifest.manifest.canonical_payload->Some_0@.len() <= u32::MAX ==>
            manifest.encoded() == Ok::<Seq<u8>, OrganizationManifestError>(organization_manifest::frame(manifest.manifest.canonical_payload->Some_0@, manifest.root_fingerprint@, manifest.signature.ed25519_signature@, manifest.signature.ml_dsa_65_signature@)),
{
}

/// A manifest that is read holds the manifest of its payload, and its fingerprint and
/// its signatures from the end of the wire.
pub proof fn law_manifest_is_read_from_the_trailer(
    read: OrganizationKeyManifest,
    manifest: KeyManifest,
    wire: Seq<u8>,
)
    requires
        wire.len() >= 3405,
        read.read_from(manifest, wire),
    ensures
        read.manifest == manifest,
        read.root_fingerprint@ == wire.subrange(wire.len() - 3405, wire.len() - 3373),
        read.signature.ed25519_signature@ == wire.subrange(wire.len() - 3373, wire.len() - 3309),
        read.signature.ml_dsa_65_signature@ == wire.subrange(wire.len() - 3309, wire.len() as int),
{
}

/// A manifest that bears an authenticator is not signed; then a failure of the root is
/// told, then a missing transcript; and otherwise the transcript is signed and the
/// manifest, the fingerprint and the signature are the answer, or the failure of
/// signing is.
pub proof fn law_manifest_is_signed_in_order<
    S: FnOnce(Vec<u8>) -> Result<AccountRootSignature, OrganizationCryptoError>,
>(
    r: Result<OrganizationKeyManifest, OrganizationManifestError>,
    manifest: KeyManifest,
    root: Result<[u8; 32], OrganizationCryptoError>,
    sign: S,
)
    requires
        organization_manifest::signed_as(r, manifest, root, sign),
    ensures
        manifest.authenticator@ != Seq::new(32, |i: int| 0u8) ==>
            r is Err
                && r->Err_0 is InvalidEncoding,
        manifest.authenticator@ == Seq::new(32, |i: int| 0u8) && root is Err ==>
            r is Err
                && r->Err_0 == OrganizationManifestError::Signature(root->Err_0),
        manifest.authenticator@ == Seq::new(32, |i: int| 0u8)
            && root is Ok
            && organization_manifest::transcript_of(manifest, root->Ok_0@) is Err ==>
            r is Err
                && r->Err_0 == organization_manifest::transcript_of(manifest, root->Ok_0@)->Err_0,
        r is Ok ==>
            root is Ok
                && r->Ok_0.manifest == manifest
                && r->Ok_0.root_fingerprint == root->Ok_0
                && organization_manifest::transcript_of(manifest, root->Ok_0@) is Ok
                && exists|payload: Vec<u8>, reply: Result<AccountRootSignature, OrganizationCryptoError>| payload@ == organization_manifest::transcript_of(manifest, root->Ok_0@)->Ok_0
                && reply == Ok::<AccountRootSignature, OrganizationCryptoError>(r->Ok_0.signature)
                && #[trigger] sign.ensures((payload,), reply),
{
}

/// A manifest that bears an authenticator is refused; then a failure of the root is
/// told; then the fingerprint of another root is refused; and otherwise the manifest is
/// verified if and only if the root accepts its signature of the transcript.
pub proof fn law_manifest_is_verified_in_order<
    V: FnOnce(Vec<u8>, &AccountRootSignature) -> Result<(), OrganizationCryptoError>,
>(
    manifest: OrganizationKeyManifest,
    r: Result<(), OrganizationManifestError>,
    root: Result<[u8; 32], OrganizationCryptoError>,
    verify: V,
)
    requires
        manifest.verified_as(r, root, verify),
    ensures
        manifest.manifest.authenticator@ != Seq::new(32, |i: int| 0u8) ==>
            r is Err
                && r->Err_0 is InvalidEncoding,
        manifest.manifest.authenticator@ == Seq::new(32, |i: int| 0u8) && root is Err ==>
            r is Err
                && r->Err_0 == OrganizationManifestError::Signature(root->Err_0),
        manifest.manifest.authenticator@ == Seq::new(32, |i: int| 0u8)
            && root is Ok
            && root->Ok_0@ != manifest.root_fingerprint@ ==>
            r is Err
                && r->Err_0 is InvalidEncoding,
        r is Ok ==>
            root is Ok
                && root->Ok_0@ == manifest.root_fingerprint@
                && organization_manifest::transcript_of(manifest.manifest, root->Ok_0@) is Ok
                && exists|payload: Vec<u8>, reply: Result<(), OrganizationCryptoError>| payload@ == organization_manifest::transcript_of(manifest.manifest, root->Ok_0@)->Ok_0
                && reply is Ok
                && #[trigger] verify.ensures((payload, &manifest.signature), reply),
{
}

/// A wire without a framed payload is an invalid encoding; the payload is read with an
/// empty authenticator behind it, a failed read is told, a manifest that bears an
/// authenticator is an invalid encoding, and any other is the manifest of the wire.
pub proof fn law_manifest_is_decoded_in_order<
    R: FnOnce(Vec<u8>) -> Result<KeyManifest, KeyManifestError>,
>(
    r: Result<OrganizationKeyManifest, OrganizationManifestError>,
    wire: Seq<u8>,
    read: R,
)
    requires
        organization_manifest::decoded_as(r, wire, read),
    ensures
        organization_manifest::framed_payload(wire) is None ==>
            r is Err
                && r->Err_0 is InvalidEncoding,
        r is Ok ==>
            organization_manifest::framed_payload(wire) is Some
                && r->Ok_0.read_from(r->Ok_0.manifest, wire)
                && r->Ok_0.manifest.authenticator@ == Seq::new(32, |i: int| 0u8)
                && exists|shape: Vec<u8>, reply: Result<KeyManifest, KeyManifestError>| shape@ == organization_manifest::framed_payload(wire)->Some_0 + Seq::new(32, |i: int| 0u8)
                && reply == Ok::<KeyManifest, KeyManifestError>(r->Ok_0.manifest)
                && #[trigger] read.ensures((shape,), reply),
        r is Err && organization_manifest::framed_payload(wire) is Some ==>
            exists|shape: Vec<u8>, reply: Result<KeyManifest, KeyManifestError>| shape@ == organization_manifest::framed_payload(wire)->Some_0 + Seq::new(32, |i: int| 0u8)
                && #[trigger] read.ensures((shape,), reply)
                && (reply is Err ==> r->Err_0 == OrganizationManifestError::KeyManifest(reply->Err_0))
                && (reply is Ok ==> r->Err_0 is InvalidEncoding && reply->Ok_0.authenticator@ != Seq::new(32, |i: int| 0u8)),
{
}

} // verus!
