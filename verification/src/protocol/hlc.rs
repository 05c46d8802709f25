//! The fixed-width wire value of a hybrid logical clock.
use vstd::prelude::*;
use vstd::string::*;
use crate::order;
use crate::text;

verus! {

pub const BIASED_WALL_WIDTH: usize = 20;

pub const COUNTER_WIDTH: usize = 10;

pub const DEVICE_ID_MAX_BYTES: usize = 64;

pub const ENCODED_LEN: usize = 160;

#[derive(Debug, Clone, Copy, PartialEq, Eq, Structural)]
pub enum HlcWireError {
    InvalidDeviceId,
    InvalidLength,
    UnsupportedVersion,
    InvalidDigits,
}

impl HlcWireError {
    /// The words of an error.
    pub open spec fn message_spec(self) -> Seq<char> {
        match self {
            HlcWireError::InvalidDeviceId => "HLC device id must be 1..=64 printable ASCII bytes"@,
            HlcWireError::InvalidLength => "encoded HLC has invalid length"@,
            HlcWireError::UnsupportedVersion => "encoded HLC has unsupported version prefix"@,
            HlcWireError::InvalidDigits => "encoded HLC contains invalid digits"@,
        }
    }

    pub fn message(self) -> (r: &'static str)
        ensures
            r@ == self.message_spec(),
    {
        match self {
            HlcWireError::InvalidDeviceId => "HLC device id must be 1..=64 printable ASCII bytes",
            HlcWireError::InvalidLength => "encoded HLC has invalid length",
            HlcWireError::UnsupportedVersion => "encoded HLC has unsupported version prefix",
            HlcWireError::InvalidDigits => "encoded HLC contains invalid digits",
        }
    }
}

/// Validated fields of a wire value.
#[derive(Debug, Clone, PartialEq, Eq)]
pub struct WireHlc {
    pub wall_ms: i64,
    pub counter: u32,
    pub device_id: String,
}

/// Bytes read as characters of the same number.
pub open spec fn as_chars(bytes: Seq<u8>) -> Seq<char> {
    bytes.map_values(|b: u8| b as char)
}

/// The value of a lower-case hexadecimal digit.
pub open spec fn hex_value(byte: u8) -> Option<u8> {
    if 48 <= byte <= 57 {
        Some((byte - 48) as u8)
    } else if 97 <= byte <= 102 {
        Some((byte - 87) as u8)
    } else {
        None
    }
}

/// The bytes that pairs of hexadecimal digits stand for; an odd or foreign digit
/// spoils the whole.
pub open spec fn hex_decoded(encoded: Seq<u8>) -> Option<Seq<u8>> {
    if encoded.len() % 2 != 0 || exists|i: int|
        0 <= i < encoded.len() && hex_value(#[trigger] encoded[i]) is None {
        None
    } else {
        Some(
            Seq::new(
                encoded.len() / 2,
                |i: int|
                    (hex_value(encoded[2 * i]).unwrap() * 16 + hex_value(
                        encoded[2 * i + 1],
                    ).unwrap()) as u8,
            ),
        )
    }
}

/// Printable ASCII without the space.
pub open spec fn is_graphic(byte: u8) -> bool {
    33 <= byte <= 126
}

/// How many bytes stand before the first zero byte.
pub open spec fn unpadded_len(bytes: Seq<u8>) -> int
    decreases bytes.len(),
{
    if bytes.len() == 0 || bytes[0] == 0 {
        0
    } else {
        1 + unpadded_len(bytes.skip(1))
    }
}

/// A device name followed by nothing but zero bytes.
pub open spec fn device_name(bytes: Seq<u8>) -> Option<Seq<char>> {
    let n = unpadded_len(bytes);
    if n == 0 || exists|i: int| n <= i < bytes.len() && #[trigger] bytes[i] != 0 {
        None
    } else if exists|i: int| 0 <= i < n && !is_graphic(#[trigger] bytes[i]) {
        None
    } else {
        Some(as_chars(bytes.subrange(0, n)))
    }
}

/// Nothing but decimal digits.
pub open spec fn is_decimal(bytes: Seq<u8>) -> bool {
    forall|i: int| 0 <= i < bytes.len() ==> 48 <= #[trigger] bytes[i] <= 57
}

/// The number that a field of decimal digits stands for.
pub open spec fn decimal_value(bytes: Seq<u8>) -> nat {
    text::digits_value(as_chars(bytes))
}

/// A number of at most `max`, every byte of it a decimal digit.
pub open spec fn decimal_field(bytes: Seq<u8>, max: nat) -> Option<nat> {
    if is_decimal(bytes) && decimal_value(bytes) <= max {
        Some(decimal_value(bytes))
    } else {
        None
    }
}

pub open spec fn wall_field(bytes: Seq<u8>) -> Option<nat> {
    decimal_field(bytes.subrange(2, 22), u64::MAX as nat)
}

pub open spec fn counter_field(bytes: Seq<u8>) -> Option<nat> {
    decimal_field(bytes.subrange(22, 32), u32::MAX as nat)
}

/// What is wrong with a wire value, the first fault first.
pub open spec fn wire_fault(bytes: Seq<u8>) -> Option<HlcWireError> {
    if bytes.len() != ENCODED_LEN {
        Some(HlcWireError::InvalidLength)
    } else if bytes[0] != 48 || bytes[1] != 49 {
        Some(HlcWireError::UnsupportedVersion)
    } else if wall_field(bytes) is None || counter_field(bytes) is None || hex_decoded(
        bytes.subrange(32, 160),
    ) is None {
        Some(HlcWireError::InvalidDigits)
    } else if device_name(hex_decoded(bytes.subrange(32, 160)).unwrap()) is None {
        Some(HlcWireError::InvalidDeviceId)
    } else {
        None
    }
}

fn hex_digit(byte: u8) -> (r: Result<u8, HlcWireError>)
    ensures
        match hex_value(byte) {
            Some(value) => r == Ok::<u8, HlcWireError>(value) && value < 16,
            None => r == Err::<u8, _>(HlcWireError::InvalidDigits),
        },
{
    if byte >= 48 && byte <= 57 {
        Ok(byte - 48)
    } else if byte >= 97 && byte <= 102 {
        Ok(byte - 87)
    } else {
        Err(HlcWireError::InvalidDigits)
    }
}

fn decode_hex(encoded: &[u8]) -> (r: Result<Vec<u8>, HlcWireError>)
    ensures
        match hex_decoded(encoded@) {
            Some(bytes) => r is Ok && r->Ok_0@ == bytes,
            None => r is Err && r->Err_0 == HlcWireError::InvalidDigits,
        },
{
    if encoded.len() % 2 != 0 {
        return Err(HlcWireError::InvalidDigits);
    }
    let mut out: Vec<u8> = Vec::new();
    let mut i: usize = 0;
    while i < encoded.len()
        invariant
            i <= encoded@.len(),
            i % 2 == 0,
            encoded@.len() % 2 == 0,
            out@.len() == i / 2,
            forall|j: int| 0 <= j < i ==> hex_value(#[trigger] encoded@[j]) is Some,
            forall|j: int|
                0 <= j < i / 2 ==> #[trigger] out@[j] == (hex_value(encoded@[2 * j]).unwrap() * 16
                    + hex_value(encoded@[2 * j + 1]).unwrap()) as u8,
        decreases encoded@.len() - i,
    {
        let high: u8 = match hex_digit(encoded[i]) {
            Err(error) => {
                proof {
                    assert(hex_value(encoded@[i as int]) is None);
                }
                return Err(error);
            },
            Ok(value) => value,
        };
        let low: u8 = match hex_digit(encoded[i + 1]) {
            Err(error) => {
                proof {
                    assert(hex_value(encoded@[i + 1]) is None);
                }
                return Err(error);
            },
            Ok(value) => value,
        };
        out.push(high * 16 + low);
        i = i + 2;
    }
    proof {
        assert(out@ =~= hex_decoded(encoded@).unwrap());
    }
    Ok(out)
}

proof fn lemma_unpadded(bytes: Seq<u8>, n: int)
    requires
        0 <= n <= bytes.len(),
        forall|i: int| 0 <= i < n ==> #[trigger] bytes[i] != 0,
        n < bytes.len() ==> bytes[n] == 0,
    ensures
        unpadded_len(bytes) == n,
    decreases n,
{
    if n > 0 {
        assert(bytes[0] != 0);
        assert forall|i: int| 0 <= i < n - 1 implies #[trigger] bytes.skip(1)[i] != 0 by {
            assert(bytes.skip(1)[i] == bytes[i + 1]);
        }
        lemma_unpadded(bytes.skip(1), n - 1);
    }
}

fn read_device_name(bytes: &Vec<u8>) -> (r: Result<String, HlcWireError>)
    ensures
        match device_name(bytes@) {
            Some(name) => r is Ok && r->Ok_0@ == name,
            None => r is Err && r->Err_0 == HlcWireError::InvalidDeviceId,
        },
{
    let mut n: usize = 0;
    while n < bytes.len() && bytes[n] != 0
        invariant
            n <= bytes@.len(),
            forall|i: int| 0 <= i < n ==> #[trigger] bytes@[i] != 0,
        decreases bytes@.len() - n,
    {
        n = n + 1;
    }
    proof {
        lemma_unpadded(bytes@, n as int);
    }
    let mut k: usize = n;
    while k < bytes.len()
        invariant
            n <= k <= bytes@.len(),
            n == unpadded_len(bytes@),
            forall|i: int| n <= i < k ==> #[trigger] bytes@[i] == 0,
        decreases bytes@.len() - k,
    {
        if bytes[k] != 0 {
            return Err(HlcWireError::InvalidDeviceId);
        }
        k = k + 1;
    }
    if n == 0 {
        return Err(HlcWireError::InvalidDeviceId);
    }
    let mut name = String::new();
    let mut i: usize = 0;
    while i < n
        invariant
            0 < n <= bytes@.len(),
            i <= n,
            n == unpadded_len(bytes@),
            forall|j: int| n <= j < bytes@.len() ==> #[trigger] bytes@[j] == 0,
            forall|j: int| 0 <= j < i ==> is_graphic(#[trigger] bytes@[j]),
            name@ == as_chars(bytes@.subrange(0, i as int)),
        decreases n - i,
    {
        let byte: u8 = bytes[i];
        if !(byte >= 33 && byte <= 126) {
            proof {
                assert(!is_graphic(bytes@[i as int]));
            }
            return Err(HlcWireError::InvalidDeviceId);
        }
        name.push(byte as char);
        proof {
            assert(name@ =~= as_chars(bytes@.subrange(0, i + 1)));
        }
        i = i + 1;
    }
    Ok(name)
}

/// The characters of `bytes[from..to]`.
fn char_field(bytes: &[u8], from: usize, to: usize) -> (r: Vec<char>)
    requires
        from <= to <= bytes@.len(),
    ensures
        r@ == as_chars(bytes@.subrange(from as int, to as int)),
{
    let mut out: Vec<char> = Vec::new();
    let mut i: usize = from;
    while i < to
        invariant
            from <= i <= to <= bytes@.len(),
            out@ == as_chars(bytes@.subrange(from as int, i as int)),
        decreases to - i,
    {
        out.push(bytes[i] as char);
        proof {
            assert(out@ =~= as_chars(bytes@.subrange(from as int, i + 1)));
        }
        i = i + 1;
    }
    out
}

fn number_field(bytes: &[u8], from: usize, to: usize, max: u64) -> (r: Result<u64, HlcWireError>)
    requires
        from < to <= bytes@.len(),
    ensures
        match decimal_field(bytes@.subrange(from as int, to as int), max as nat) {
            Some(n) => r is Ok && r->Ok_0 == n,
            None => r is Err && r->Err_0 == HlcWireError::InvalidDigits,
        },
{
    let ghost field = bytes@.subrange(from as int, to as int);
    let mut i: usize = from;
    while i < to
        invariant
            from <= i <= to <= bytes@.len(),
            field == bytes@.subrange(from as int, to as int),
            forall|j: int| 0 <= j < i - from ==> 48 <= #[trigger] field[j] <= 57,
        decreases to - i,
    {
        if bytes[i] < 48 || bytes[i] > 57 {
            proof {
                assert(field[i - from] == bytes@[i as int]);
            }
            return Err(HlcWireError::InvalidDigits);
        }
        i = i + 1;
    }
    let chars = char_field(bytes, from, to);
    proof {
        assert(chars@.subrange(0, chars@.len() as int) =~= chars@);
        lemma_digits_are_a_number(field, max as nat);
    }
    match text::parse_unsigned(chars.as_slice(), 0, chars.len(), max) {
        Some(n) => Ok(n),
        None => Err(HlcWireError::InvalidDigits),
    }
}

proof fn lemma_digits_are_a_number(bytes: Seq<u8>, max: nat)
    requires
        bytes.len() > 0,
        is_decimal(bytes),
    ensures
        text::unsigned_value(as_chars(bytes), max) == decimal_field(bytes, max),
{
    let s = as_chars(bytes);
    assert(text::is_digit(s[0]));
    assert forall|i: int| 0 <= i < s.len() implies text::is_digit(#[trigger] s[i]) by {
        assert(48 <= bytes[i] <= 57);
    }
}

impl WireHlc {
    /// The fields of a faultless wire value: the wall clock is stored with an
    /// offset of 2^63.
    pub open spec fn reads(self, bytes: Seq<u8>) -> bool {
        &&& self.wall_ms == wall_field(bytes).unwrap() + i64::MIN
        &&& self.counter == counter_field(bytes).unwrap()
        &&& self.device_id@ == device_name(hex_decoded(bytes.subrange(32, 160)).unwrap()).unwrap()
    }

    /// Reads a wire value.
    pub fn decode(encoded: &str) -> (r: Result<WireHlc, HlcWireError>)
        ensures
            match wire_fault(encoded.spec_bytes()) {
                Some(fault) => r is Err && r->Err_0 == fault,
                None => r is Ok && r->Ok_0.reads(encoded.spec_bytes()),
            },
    {
        let bytes = encoded.as_bytes();
        if bytes.len() != ENCODED_LEN {
            return Err(HlcWireError::InvalidLength);
        }
        if bytes[0] != 48 || bytes[1] != 49 {
            return Err(HlcWireError::UnsupportedVersion);
        }
        let biased_wall: u64 = match number_field(bytes, 2, 22, u64::MAX) {
            Err(error) => {
                return Err(error);
            },
            Ok(n) => n,
        };
        let counter: u64 = match number_field(bytes, 22, 32, u32::MAX as u64) {
            Err(error) => {
                return Err(error);
            },
            Ok(n) => n,
        };
        let device = crate::bytes::slice_vec(bytes, 32, 160);
        let device_bytes = match decode_hex(device.as_slice()) {
            Err(error) => {
                return Err(error);
            },
            Ok(device_bytes) => device_bytes,
        };
        let device_id = match read_device_name(&device_bytes) {
            Err(error) => {
                return Err(error);
            },
            Ok(device_id) => device_id,
        };
        Ok(
            WireHlc {
                wall_ms: (biased_wall as i128 + i64::MIN as i128) as i64,
                counter: counter as u32,
                device_id,
            },
        )
    }
}

/// Decimal notation of a fixed width, filled up with zeros in front.
pub open spec fn fixed_decimal(n: nat, width: nat) -> Seq<u8>
    decreases width,
{
    if width == 0 {
        Seq::<u8>::empty()
    } else {
        fixed_decimal(n / 10, (width - 1) as nat).push((48 + n % 10) as u8)
    }
}

pub open spec fn pow10(n: nat) -> nat
    decreases n,
{
    if n == 0 {
        1
    } else {
        pow10((n - 1) as nat) * 10
    }
}

/// A lower-case hexadecimal digit as a byte.
pub open spec fn hex_byte(d: int) -> u8 {
    if d < 10 {
        (48 + d) as u8
    } else {
        (87 + d) as u8
    }
}

/// A device name in hexadecimal, filled up with zeros behind.
pub open spec fn device_hex(device: Seq<u8>) -> Seq<u8> {
    Seq::new(
        128,
        |i: int|
            if i / 2 >= device.len() {
                48
            } else if i % 2 == 0 {
                hex_byte(device[i / 2] as int / 16)
            } else {
                hex_byte(device[i / 2] as int % 16)
            },
    )
}

/// The canonical wire value of a clock.
pub open spec fn wire_bytes(wall_ms: i64, counter: u32, device: Seq<u8>) -> Seq<u8> {
    seq![48u8, 49u8] + fixed_decimal((wall_ms - i64::MIN) as nat, 20) + fixed_decimal(
        counter as nat,
        10,
    ) + device_hex(device)
}

proof fn lemma_fixed_decimal(n: nat, width: nat)
    requires
        n < pow10(width),
    ensures
        fixed_decimal(n, width).len() == width,
        text::all_digits(as_chars(fixed_decimal(n, width))),
        text::digits_value(as_chars(fixed_decimal(n, width))) == n,
    decreases width,
{
    let s = as_chars(fixed_decimal(n, width));
    if width > 0 {
        let front = fixed_decimal(n / 10, (width - 1) as nat);
        lemma_fixed_decimal(n / 10, (width - 1) as nat);
        assert(s.drop_last() =~= as_chars(front));
        assert(s.last() as nat == 48 + n % 10);
        assert forall|i: int| 0 <= i < s.len() implies text::is_digit(#[trigger] s[i]) by {
            if i < s.len() - 1 {
                assert(s[i] == as_chars(front)[i]);
            }
        }
    }
}

proof fn lemma_number_field(n: nat, width: nat, max: nat)
    requires
        n < pow10(width),
        n <= max,
    ensures
        decimal_field(fixed_decimal(n, width), max) == Some(n),
{
    lemma_fixed_decimal(n, width);
    let bytes = fixed_decimal(n, width);
    let s = as_chars(bytes);
    assert forall|i: int| 0 <= i < bytes.len() implies 48 <= #[trigger] bytes[i] <= 57 by {
        assert(text::is_digit(s[i]));
    }
}

proof fn lemma_device_hex(device: Seq<u8>)
    requires
        0 < device.len() <= 64,
        forall|i: int| 0 <= i < device.len() ==> is_graphic(#[trigger] device[i]),
    ensures
        hex_decoded(device_hex(device)) is Some,
        device_name(hex_decoded(device_hex(device)).unwrap()) == Some(as_chars(device)),
{
    let h = device_hex(device);
    assert forall|i: int| 0 <= i < h.len() implies hex_value(#[trigger] h[i]) is Some by {}
    let bytes = hex_decoded(h).unwrap();
    assert forall|j: int| 0 <= j < 64 implies #[trigger] bytes[j] == (if j < device.len() {
        device[j]
    } else {
        0u8
    }) by {
        assert((2 * j) / 2 == j && (2 * j + 1) / 2 == j);
        assert((2 * j) % 2 == 0 && (2 * j + 1) % 2 == 1);
        if j < device.len() {
            let b = device[j] as int;
            assert(hex_value(h[2 * j]).unwrap() == b / 16);
            assert(hex_value(h[2 * j + 1]).unwrap() == b % 16);
        }
    }
    lemma_unpadded(bytes, device.len() as int);
    assert(bytes.subrange(0, device.len() as int) =~= device);
}

/// Every clock whose device name is one to sixty-four printable ASCII bytes has a
/// wire value that is read back as that clock.
pub proof fn law_wire_value_reads_back(wall_ms: i64, counter: u32, device: Seq<u8>)
    requires
        0 < device.len() <= 64,
        forall|i: int| 0 <= i < device.len() ==> is_graphic(#[trigger] device[i]),
    ensures
        wire_fault(wire_bytes(wall_ms, counter, device)) is None,
        wall_field(wire_bytes(wall_ms, counter, device)) == Some((wall_ms - i64::MIN) as nat),
        counter_field(wire_bytes(wall_ms, counter, device)) == Some(counter as nat),
        device_name(
            hex_decoded(wire_bytes(wall_ms, counter, device).subrange(32, 160)).unwrap(),
        ) == Some(as_chars(device)),
{
    let wall = (wall_ms - i64::MIN) as nat;
    assert(pow10(20) == 100_000_000_000_000_000_000 && pow10(10) == 10_000_000_000) by {
        reveal_with_fuel(pow10, 21);
    }
    lemma_fixed_decimal(wall, 20);
    lemma_fixed_decimal(counter as nat, 10);
    lemma_number_field(wall, 20, u64::MAX as nat);
    lemma_number_field(counter as nat, 10, u32::MAX as nat);
    lemma_device_hex(device);
    let bytes = wire_bytes(wall_ms, counter, device);
    assert(bytes.subrange(2, 22) =~= fixed_decimal(wall, 20));
    assert(bytes.subrange(22, 32) =~= fixed_decimal(counter as nat, 10));
    assert(bytes.subrange(32, 160) =~= device_hex(device));
}

/// Every accepted wire value names a device by one to sixty-four printable ASCII
/// characters.
pub proof fn law_device_name_is_printable(bytes: Seq<u8>)
    requires
        wire_fault(bytes) is None,
    ensures
        ({
            let name = device_name(hex_decoded(bytes.subrange(32, 160)).unwrap()).unwrap();
            &&& 1 <= name.len() <= 64
            &&& forall|i: int| 0 <= i < name.len() ==> '!' <= #[trigger] name[i] <= '~'
        }),
{
    let device = hex_decoded(bytes.subrange(32, 160)).unwrap();
    lemma_unpadded_bounds(device);
    let n = unpadded_len(device);
    let name = device_name(device).unwrap();
    assert forall|i: int| 0 <= i < name.len() implies '!' <= #[trigger] name[i] <= '~' by {
        assert(is_graphic(device[i]));
        assert(name[i] == device[i] as char);
    }
}

proof fn lemma_unpadded_bounds(bytes: Seq<u8>)
    ensures
        0 <= unpadded_len(bytes) <= bytes.len(),
    decreases bytes.len(),
{
    if bytes.len() > 0 && bytes[0] != 0 {
        lemma_unpadded_bounds(bytes.skip(1));
    }
}

/// Fields of equally many decimal digits are ordered as their numbers are.
proof fn lemma_decimal_order(a: Seq<u8>, b: Seq<u8>)
    requires
        a.len() == b.len(),
        is_decimal(a),
        is_decimal(b),
    ensures
        order::before(order::byte_numbers(a), order::byte_numbers(b)) <==> decimal_value(a)
            < decimal_value(b),
        decimal_value(a) == decimal_value(b) ==> a == b,
    decreases a.len(),
{
    let x = order::byte_numbers(a);
    let y = order::byte_numbers(b);
    if a.len() == 0 {
        assert(a =~= b);
        assert(!order::before(x, y));
    } else {
        let front_a = a.drop_last();
        let front_b = b.drop_last();
        assert forall|i: int| 0 <= i < front_a.len() implies 48 <= #[trigger] front_a[i]
            <= 57 by {
            assert(front_a[i] == a[i]);
        }
        assert forall|i: int| 0 <= i < front_b.len() implies 48 <= #[trigger] front_b[i]
            <= 57 by {
            assert(front_b[i] == b[i]);
        }
        lemma_decimal_order(front_a, front_b);
        assert(as_chars(a).drop_last() =~= as_chars(front_a));
        assert(as_chars(b).drop_last() =~= as_chars(front_b));
        assert(48 <= a.last() <= 57 && 48 <= b.last() <= 57);
        assert(x =~= order::byte_numbers(front_a) + seq![a.last() as int]);
        assert(y =~= order::byte_numbers(front_b) + seq![b.last() as int]);
        order::lemma_joined(
            order::byte_numbers(front_a),
            seq![a.last() as int],
            order::byte_numbers(front_b),
            seq![b.last() as int],
        );
        order::lemma_single(a.last() as int, b.last() as int);
        lemma_same_bytes(front_a, front_b);
        assert(a =~= front_a.push(a.last()));
        assert(b =~= front_b.push(b.last()));
    }
}

proof fn lemma_same_bytes(a: Seq<u8>, b: Seq<u8>)
    ensures
        order::byte_numbers(a) == order::byte_numbers(b) <==> a == b,
{
    if order::byte_numbers(a) == order::byte_numbers(b) {
        assert(a.len() == order::byte_numbers(a).len());
        assert(b.len() == order::byte_numbers(b).len());
        assert forall|i: int| 0 <= i < a.len() implies a[i] == b[i] by {
            assert(order::byte_numbers(a)[i] == order::byte_numbers(b)[i]);
        }
        assert(a =~= b);
    }
}

proof fn lemma_hex_keeps_order(a: Seq<u8>, b: Seq<u8>)
    requires
        a.len() == b.len(),
        hex_decoded(a) is Some,
        hex_decoded(b) is Some,
        order::before(order::byte_numbers(a), order::byte_numbers(b)),
    ensures
        order::before(
            order::byte_numbers(hex_decoded(a).unwrap()),
            order::byte_numbers(hex_decoded(b).unwrap()),
        ),
{
    let x = order::byte_numbers(a);
    let y = order::byte_numbers(b);
    let u = order::byte_numbers(hex_decoded(a).unwrap());
    let v = order::byte_numbers(hex_decoded(b).unwrap());
    let i = choose|i: int| order::falls_behind_at(x, y, i);
    let k = i / 2;
    assert(x[i] < y[i]);
    assert forall|j: int| 0 <= j < k implies u[j] == v[j] by {
        assert(x[2 * j] == y[2 * j] && x[2 * j + 1] == y[2 * j + 1]);
        assert(a[2 * j] == b[2 * j] && a[2 * j + 1] == b[2 * j + 1]);
    }
    assert(hex_value(a[2 * k]) is Some && hex_value(a[2 * k + 1]) is Some);
    assert(hex_value(b[2 * k]) is Some && hex_value(b[2 * k + 1]) is Some);
    if i % 2 == 1 {
        assert(x[2 * k] == y[2 * k]);
        assert(a[2 * k] == b[2 * k]);
    }
    assert(u[k] < v[k]);
    assert(order::falls_behind_at(u, v, k));
}

/// Hexadecimal text is ordered as the bytes that it stands for, and no two texts
/// stand for the same bytes.
proof fn lemma_hex_order(a: Seq<u8>, b: Seq<u8>)
    requires
        a.len() == b.len(),
        hex_decoded(a) is Some,
        hex_decoded(b) is Some,
    ensures
        order::before(order::byte_numbers(a), order::byte_numbers(b)) <==> order::before(
            order::byte_numbers(hex_decoded(a).unwrap()),
            order::byte_numbers(hex_decoded(b).unwrap()),
        ),
        hex_decoded(a) == hex_decoded(b) ==> a == b,
{
    let x = order::byte_numbers(a);
    let y = order::byte_numbers(b);
    order::lemma_total_order(x, y);
    order::lemma_total_order(
        order::byte_numbers(hex_decoded(a).unwrap()),
        order::byte_numbers(hex_decoded(b).unwrap()),
    );
    lemma_same_bytes(a, b);
    if order::before(x, y) {
        lemma_hex_keeps_order(a, b);
    }
    if order::before(y, x) {
        lemma_hex_keeps_order(b, a);
    }
}

proof fn lemma_padded(bytes: Seq<u8>)
    requires
        device_name(bytes) is Some,
    ensures
        ({
            let name = order::char_numbers(device_name(bytes).unwrap());
            &&& name.len() == unpadded_len(bytes) <= bytes.len()
            &&& forall|i: int|
                0 <= i < bytes.len() ==> #[trigger] bytes[i] == (if i < name.len() {
                    name[i]
                } else {
                    0
                })
            &&& forall|i: int| 0 <= i < name.len() ==> #[trigger] name[i] > 0
        }),
{
    lemma_unpadded_bounds(bytes);
    let name = order::char_numbers(device_name(bytes).unwrap());
    assert forall|i: int| 0 <= i < bytes.len() implies #[trigger] bytes[i] == (if i
        < name.len() {
        name[i]
    } else {
        0
    }) by {
        if i < name.len() {
            assert(is_graphic(bytes[i]));
        }
    }
    assert forall|i: int| 0 <= i < name.len() implies #[trigger] name[i] > 0 by {
        assert(is_graphic(bytes[i]));
    }
}

proof fn lemma_padding_keeps_order(a: Seq<u8>, b: Seq<u8>)
    requires
        a.len() == b.len(),
        device_name(a) is Some,
        device_name(b) is Some,
        order::before(
            order::char_numbers(device_name(a).unwrap()),
            order::char_numbers(device_name(b).unwrap()),
        ),
    ensures
        order::before(order::byte_numbers(a), order::byte_numbers(b)),
{
    lemma_padded(a);
    lemma_padded(b);
    let u = order::char_numbers(device_name(a).unwrap());
    let v = order::char_numbers(device_name(b).unwrap());
    let i = choose|i: int| order::falls_behind_at(u, v, i);
    let x = order::byte_numbers(a);
    let y = order::byte_numbers(b);
    assert forall|j: int| 0 <= j < i implies x[j] == y[j] by {
        assert(a[j] == u[j] && b[j] == v[j]);
    }
    assert(v[i] > 0);
    assert(b[i] == v[i]);
    assert(x[i] < y[i]) by {
        assert(a[i] == (if i < u.len() {
            u[i]
        } else {
            0
        }));
    }
    assert(order::falls_behind_at(x, y, i));
}

/// Padded device names of one width are ordered as the names are, and no two of
/// them hold the same name.
proof fn lemma_name_order(a: Seq<u8>, b: Seq<u8>)
    requires
        a.len() == b.len(),
        device_name(a) is Some,
        device_name(b) is Some,
    ensures
        order::before(order::byte_numbers(a), order::byte_numbers(b)) <==> order::before(
            order::char_numbers(device_name(a).unwrap()),
            order::char_numbers(device_name(b).unwrap()),
        ),
        device_name(a) == device_name(b) ==> a == b,
{
    let u = order::char_numbers(device_name(a).unwrap());
    let v = order::char_numbers(device_name(b).unwrap());
    lemma_padded(a);
    lemma_padded(b);
    order::lemma_total_order(u, v);
    order::lemma_total_order(order::byte_numbers(a), order::byte_numbers(b));
    if u == v {
        assert forall|i: int| 0 <= i < a.len() implies a[i] == b[i] by {
            assert(a[i] == (if i < u.len() {
                u[i]
            } else {
                0
            }));
            assert(b[i] == (if i < v.len() {
                v[i]
            } else {
                0
            }));
        }
        assert(a =~= b);
    }
    if order::before(u, v) {
        lemma_padding_keeps_order(a, b);
    }
    if order::before(v, u) {
        lemma_padding_keeps_order(b, a);
    }
}

/// The three fields of a wire value, one behind the other.
proof fn lemma_fields_joined(bytes: Seq<u8>)
    requires
        bytes.len() == ENCODED_LEN,
    ensures
        bytes == bytes.subrange(0, 2) + (bytes.subrange(2, 22) + (bytes.subrange(22, 32)
            + bytes.subrange(32, 160))),
        order::byte_numbers(bytes) == order::byte_numbers(bytes.subrange(0, 2)) + (
        order::byte_numbers(bytes.subrange(2, 22)) + (order::byte_numbers(bytes.subrange(22, 32))
            + order::byte_numbers(bytes.subrange(32, 160)))),
{
    assert(bytes =~= bytes.subrange(0, 2) + (bytes.subrange(2, 22) + (bytes.subrange(22, 32)
        + bytes.subrange(32, 160))));
    assert(order::byte_numbers(bytes) =~= order::byte_numbers(bytes.subrange(0, 2)) + (
    order::byte_numbers(bytes.subrange(2, 22)) + (order::byte_numbers(bytes.subrange(22, 32))
        + order::byte_numbers(bytes.subrange(32, 160)))));
}

/// A wire value is canonical: two accepted ones with the same wall time, counter
/// and device bytes are the same text.
pub proof fn law_wire_value_is_canonical(a: Seq<u8>, b: Seq<u8>)
    requires
        wire_fault(a) is None,
        wire_fault(b) is None,
        wall_field(a) == wall_field(b),
        counter_field(a) == counter_field(b),
        hex_decoded(a.subrange(32, 160)) == hex_decoded(b.subrange(32, 160)),
    ensures
        a == b,
{
    lemma_fields_joined(a);
    lemma_fields_joined(b);
    lemma_decimal_order(a.subrange(2, 22), b.subrange(2, 22));
    lemma_decimal_order(a.subrange(22, 32), b.subrange(22, 32));
    lemma_hex_order(a.subrange(32, 160), b.subrange(32, 160));
    assert(a.subrange(0, 2) =~= b.subrange(0, 2));
}

/// No two texts are read as the same clock.
pub proof fn law_one_wire_value_per_clock(a: Seq<u8>, b: Seq<u8>, x: WireHlc, y: WireHlc)
    requires
        wire_fault(a) is None,
        wire_fault(b) is None,
        x.reads(a),
        y.reads(b),
        x.wall_ms == y.wall_ms,
        x.counter == y.counter,
        x.device_id@ == y.device_id@,
    ensures
        a == b,
{
    lemma_name_order(
        hex_decoded(a.subrange(32, 160)).unwrap(),
        hex_decoded(b.subrange(32, 160)).unwrap(),
    );
    law_wire_value_is_canonical(a, b);
}

/// What is read is written back as the same text.
pub proof fn law_read_clock_is_written_back(bytes: Seq<u8>, clock: WireHlc, device: Seq<u8>)
    requires
        wire_fault(bytes) is None,
        clock.reads(bytes),
        clock.device_id@ == as_chars(device),
    ensures
        wire_bytes(clock.wall_ms, clock.counter, device) == bytes,
{
    law_device_name_is_printable(bytes);
    assert forall|i: int| 0 <= i < device.len() implies is_graphic(#[trigger] device[i]) by {
        assert('!' <= clock.device_id@[i] <= '~');
        assert(clock.device_id@[i] == device[i] as char);
    }
    assert(clock.device_id@.len() == device.len());
    law_wire_value_reads_back(clock.wall_ms, clock.counter, device);
    law_one_wire_value_per_clock(
        wire_bytes(clock.wall_ms, clock.counter, device),
        bytes,
        clock,
        clock,
    );
}

impl WireHlc {
    /// Clocks are ordered by wall time, by counter and by device name, in this
    /// order.
    pub open spec fn is_before(self, other: WireHlc) -> bool {
        self.wall_ms < other.wall_ms || (self.wall_ms == other.wall_ms && (self.counter
            < other.counter || (self.counter == other.counter && order::before(
            order::char_numbers(self.device_id@),
            order::char_numbers(other.device_id@),
        ))))
    }
}

/// Texts are ordered byte by byte as the clocks that they are read as.
pub proof fn law_byte_order_is_clock_order(a: Seq<u8>, b: Seq<u8>, x: WireHlc, y: WireHlc)
    requires
        wire_fault(a) is None,
        wire_fault(b) is None,
        x.reads(a),
        y.reads(b),
    ensures
        order::before(order::byte_numbers(a), order::byte_numbers(b)) <==> x.is_before(y),
{
    let a_device = hex_decoded(a.subrange(32, 160)).unwrap();
    let b_device = hex_decoded(b.subrange(32, 160)).unwrap();
    lemma_fields_joined(a);
    lemma_fields_joined(b);
    lemma_decimal_order(a.subrange(2, 22), b.subrange(2, 22));
    lemma_decimal_order(a.subrange(22, 32), b.subrange(22, 32));
    lemma_same_bytes(a.subrange(2, 22), b.subrange(2, 22));
    lemma_same_bytes(a.subrange(22, 32), b.subrange(22, 32));
    lemma_hex_order(a.subrange(32, 160), b.subrange(32, 160));
    lemma_name_order(a_device, b_device);
    assert(a.subrange(0, 2) =~= b.subrange(0, 2));
    let a_head = order::byte_numbers(a.subrange(0, 2));
    let a_wall = order::byte_numbers(a.subrange(2, 22));
    let a_counter = order::byte_numbers(a.subrange(22, 32));
    let a_name = order::byte_numbers(a.subrange(32, 160));
    let b_wall = order::byte_numbers(b.subrange(2, 22));
    let b_counter = order::byte_numbers(b.subrange(22, 32));
    let b_name = order::byte_numbers(b.subrange(32, 160));
    order::lemma_total_order(a_head, a_head);
    order::lemma_joined(
        a_head,
        a_wall + (a_counter + a_name),
        a_head,
        b_wall + (b_counter + b_name),
    );
    order::lemma_joined(a_wall, a_counter + a_name, b_wall, b_counter + b_name);
    order::lemma_joined(a_counter, a_name, b_counter, b_name);
}

} // verus!
