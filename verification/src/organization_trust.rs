//! Locally pinned trust in an organization: who was confirmed, which key generation
//! is the least acceptable, and how far the device rosters were seen.
use vstd::prelude::*;
use vstd::string::*;
use crate::external;
use crate::protocol::organization::OrganizationSafetyResponse;
use crate::text;

verus! {

/// What a profile remembers of an organization member it confirmed.
#[derive(Clone, Debug, PartialEq, Eq)]
pub struct OrganizationTrustPin {
    pub owner_root_public: String,
    pub member_root_public: String,
    pub digest: String,
    pub locally_confirmed: bool,
    pub minimum_generation: u64,
    pub required_generation: u64,
    pub owner_roster_revision: u64,
    pub owner_roster_head_hash: String,
    pub member_roster_revision: u64,
    pub member_roster_head_hash: String,
}

/// A base64 text of thirty-two bytes.
pub open spec fn is_hash_text(value: Seq<char>) -> bool {
    &&& external::base64_signs(value)
    &&& external::base64_decoded(value) is Some
    &&& external::base64_decoded(value).unwrap().len() == 32
}

/// Thirty-two zero bytes, the head of an empty roster.
pub open spec fn zero_head() -> Seq<u8> {
    Seq::new(32, |i: int| 0u8)
}

pub open spec fn flag_text(flag: bool) -> Seq<char> {
    if flag {
        seq!['1']
    } else {
        seq!['0']
    }
}

impl OrganizationTrustPin {
    /// What is stored of a pin, field by field.
    pub open spec fn stored_fields(self) -> Seq<Seq<char>> {
        seq![
            self.owner_root_public@,
            self.member_root_public@,
            self.digest@,
            flag_text(self.locally_confirmed),
            text::decimal(self.minimum_generation as nat),
            text::decimal(self.required_generation as nat),
            text::decimal(self.owner_roster_revision as nat),
            self.owner_roster_head_hash@,
            text::decimal(self.member_roster_revision as nat),
            self.member_roster_head_hash@,
        ]
    }

    /// The text that a pin is stored as.
    pub open spec fn written(self) -> Seq<char> {
        text::joined(self.stored_fields(), '|')
    }

    /// What every stored pin must be.
    pub open spec fn valid(self) -> bool {
        &&& self.owner_root_public@.len() > 0
        &&& self.member_root_public@.len() > 0
        &&& self.digest@.len() > 0
        &&& self.minimum_generation != 0
        &&& self.required_generation == 0 || self.required_generation > self.minimum_generation
        &&& is_hash_text(self.owner_roster_head_hash@)
        &&& is_hash_text(self.member_roster_head_hash@)
    }

    /// A stored text says what a pin holds.
    pub open spec fn stored_as(self, f: Seq<Seq<char>>) -> bool {
        &&& f.len() == 10
        &&& f[0] == self.owner_root_public@
        &&& f[1] == self.member_root_public@
        &&& f[2] == self.digest@
        &&& f[3] == flag_text(self.locally_confirmed)
        &&& text::unsigned_value(f[4], u64::MAX as nat) == Some(self.minimum_generation as nat)
        &&& text::unsigned_value(f[5], u64::MAX as nat) == Some(self.required_generation as nat)
        &&& text::unsigned_value(f[6], u64::MAX as nat) == Some(self.owner_roster_revision as nat)
        &&& f[7] == self.owner_roster_head_hash@
        &&& text::unsigned_value(f[8], u64::MAX as nat) == Some(self.member_roster_revision as nat)
        &&& f[9] == self.member_roster_head_hash@
    }

    /// Whether a stored text is a pin at all.
    pub open spec fn readable(f: Seq<Seq<char>>) -> bool {
        let max = u64::MAX as nat;
        &&& f.len() == 10
        &&& f[0].len() > 0
        &&& f[1].len() > 0
        &&& f[2].len() > 0
        &&& f[3] == flag_text(true) || f[3] == flag_text(false)
        &&& text::unsigned_value(f[4], max) is Some
        &&& text::unsigned_value(f[5], max) is Some
        &&& text::unsigned_value(f[6], max) is Some
        &&& text::unsigned_value(f[8], max) is Some
        &&& text::unsigned_value(f[4], max).unwrap() != 0
        &&& text::unsigned_value(f[5], max).unwrap() == 0 || text::unsigned_value(
            f[5],
            max,
        ).unwrap() > text::unsigned_value(f[4], max).unwrap()
        &&& is_hash_text(f[7])
        &&& is_hash_text(f[9])
    }

    /// A pin for an account pair that has not been confirmed yet.
    pub fn candidate(response: &OrganizationSafetyResponse) -> (r: OrganizationTrustPin)
        ensures
            r.owner_root_public@ == response.owner_root_public@,
            r.member_root_public@ == response.member_root_public@,
            r.digest@ == response.digest@,
            !r.locally_confirmed,
            r.minimum_generation == 1,
            r.required_generation == 0,
            r.owner_roster_revision == 0,
            r.owner_roster_head_hash@ == external::base64_text(zero_head()),
            is_hash_text(r.owner_roster_head_hash@),
            r.member_roster_revision == 0,
            r.member_roster_head_hash@ == external::base64_text(zero_head()),
            is_hash_text(r.member_roster_head_hash@),
    {
        OrganizationTrustPin {
            owner_root_public: response.owner_root_public.clone(),
            member_root_public: response.member_root_public.clone(),
            digest: response.digest.clone(),
            locally_confirmed: false,
            minimum_generation: 1,
            required_generation: 0,
            owner_roster_revision: 0,
            owner_roster_head_hash: empty_head_text(),
            member_roster_revision: 0,
            member_roster_head_hash: empty_head_text(),
        }
    }

    pub open spec fn matches_spec(self, response: OrganizationSafetyResponse) -> bool {
        &&& self.owner_root_public@ == response.owner_root_public@
        &&& self.member_root_public@ == response.member_root_public@
        &&& self.digest@ == response.digest@
    }

    /// Whether a response speaks of the same roots and the same digest.
    pub fn matches(&self, response: &OrganizationSafetyResponse) -> (r: bool)
        ensures
            r == self.matches_spec(*response),
    {
        self.owner_root_public == response.owner_root_public && self.member_root_public
            == response.member_root_public && self.digest == response.digest
    }

    /// Writes a pin: its fields with bars between them.
    pub fn encode(&self) -> (r: String)
        ensures
            r@ == self.written(),
    {
        let mut out = self.owner_root_public.clone();
        let ghost all = self.stored_fields();
        proof {
            lemma_joined_prefix(all, 0);
            lemma_joined_prefix(all, 1);
            lemma_joined_prefix(all, 2);
            lemma_joined_prefix(all, 3);
            lemma_joined_prefix(all, 4);
            lemma_joined_prefix(all, 5);
            lemma_joined_prefix(all, 6);
            lemma_joined_prefix(all, 7);
            lemma_joined_prefix(all, 8);
            assert(all.take(10) =~= all);
            assert(all.take(1) =~= seq![all[0]]);
        }
        push_field(&mut out, self.member_root_public.as_str());
        push_field(&mut out, self.digest.as_str());
        out.push('|');
        if self.locally_confirmed {
            out.push('1');
        } else {
            out.push('0');
        }
        proof {
            assert(out@ =~= text::joined(all.take(3), '|').push('|') + all[3]);
        }
        let minimum = text::decimal_text(self.minimum_generation);
        push_field(&mut out, minimum.as_str());
        let required = text::decimal_text(self.required_generation);
        push_field(&mut out, required.as_str());
        let owner_revision = text::decimal_text(self.owner_roster_revision);
        push_field(&mut out, owner_revision.as_str());
        push_field(&mut out, self.owner_roster_head_hash.as_str());
        let member_revision = text::decimal_text(self.member_roster_revision);
        push_field(&mut out, member_revision.as_str());
        push_field(&mut out, self.member_roster_head_hash.as_str());
        out
    }

    /// Reads a stored pin, unless it is broken in any respect.
    pub fn decode(value: &str) -> (r: Option<OrganizationTrustPin>)
        ensures
            r is Some == OrganizationTrustPin::readable(text::fields(value@, '|')),
            r is Some ==> r.unwrap().stored_as(text::fields(value@, '|')),
            r is Some ==> r.unwrap().valid(),
    {
        let fields: Vec<String> = text::split_fields(value, '|');
        let ghost f = text::fields(value@, '|');
        proof {
            assert(fields@.len() == text::views(fields@).len());
            assert forall|i: int| 0 <= i < fields@.len() implies (#[trigger] fields@[i])@
                == f[i] by {
                assert(text::views(fields@)[i] == fields@[i]@);
            }
        }
        if fields.len() != 10 {
            return None;
        }
        let locally_confirmed: bool = if is_char_text(fields[3].as_str(), '0') {
            false
        } else if is_char_text(fields[3].as_str(), '1') {
            true
        } else {
            return None;
        };
        let minimum_generation: u64 = match read_number(fields[4].as_str()) {
            None => {
                return None;
            },
            Some(n) => n,
        };
        let required_generation: u64 = match read_number(fields[5].as_str()) {
            None => {
                return None;
            },
            Some(n) => n,
        };
        let owner_roster_revision: u64 = match read_number(fields[6].as_str()) {
            None => {
                return None;
            },
            Some(n) => n,
        };
        let member_roster_revision: u64 = match read_number(fields[8].as_str()) {
            None => {
                return None;
            },
            Some(n) => n,
        };
        if fields[0].as_str().is_empty() || fields[1].as_str().is_empty()
            || fields[2].as_str().is_empty() || minimum_generation == 0 || (required_generation != 0
            && required_generation <= minimum_generation) {
            return None;
        }
        if !is_hash(fields[7].as_str()) || !is_hash(fields[9].as_str()) {
            return None;
        }
        Some(
            OrganizationTrustPin {
                owner_root_public: fields[0].clone(),
                member_root_public: fields[1].clone(),
                digest: fields[2].clone(),
                locally_confirmed,
                minimum_generation,
                required_generation,
                owner_roster_revision,
                owner_roster_head_hash: fields[7].clone(),
                member_roster_revision,
                member_roster_head_hash: fields[9].clone(),
            },
        )
    }
}

proof fn lemma_joined_prefix(all: Seq<Seq<char>>, i: int)
    requires
        0 <= i < all.len() - 1,
    ensures
        text::joined(all.take(i + 2), '|') == text::joined(all.take(i + 1), '|').push('|') + all[i
            + 1],
{
    assert(all.take(i + 2).drop_last() =~= all.take(i + 1));
    assert(all.take(i + 2).last() == all[i + 1]);
}

fn push_field(out: &mut String, field: &str)
    ensures
        final(out)@ == old(out)@.push('|') + field@,
{
    out.push('|');
    out.append(field);
}

fn is_char_text(value: &str, c: char) -> (r: bool)
    ensures
        r == (value@ == seq![c]),
{
    let chars = text::chars_of(value);
    if chars.len() == 1 && chars[0] == c {
        proof {
            assert(value@ =~= seq![c]);
        }
        true
    } else {
        proof {
            if value@ == seq![c] {
                assert(chars@[0] == c);
            }
        }
        false
    }
}

fn read_number(value: &str) -> (r: Option<u64>)
    ensures
        match r {
            Some(n) => text::unsigned_value(value@, u64::MAX as nat) == Some(n as nat),
            None => text::unsigned_value(value@, u64::MAX as nat) is None,
        },
{
    let chars = text::chars_of(value);
    proof {
        assert(chars@.subrange(0, chars@.len() as int) =~= value@);
    }
    text::parse_unsigned(chars.as_slice(), 0, chars.len(), u64::MAX)
}

fn is_hash(value: &str) -> (r: bool)
    ensures
        r == is_hash_text(value@),
{
    match external::base64_decode(value) {
        None => false,
        Some(bytes) => bytes.len() == 32,
    }
}

/// The base64 text of a roster head.
fn head_text(head: &[u8; 32]) -> (r: String)
    ensures
        r@ == external::base64_text(head@),
        external::base64_decoded(r@) == Some(head@),
        is_hash_text(r@),
{
    external::base64_encode(head)
}

fn empty_head_text() -> (r: String)
    ensures
        r@ == external::base64_text(zero_head()),
        is_hash_text(r@),
{
    let head: [u8; 32] = [0; 32];
    proof {
        assert(head@ =~= zero_head());
    }
    head_text(&head)
}

proof fn lemma_hash_text_holds_no_bar(value: Seq<char>)
    requires
        is_hash_text(value),
    ensures
        !value.contains('|'),
{
    if value.contains('|') {
        let i = choose|i: int| 0 <= i < value.len() && value[i] == '|';
        assert(external::base64_char(value[i]));
    }
}

/// A valid pin whose roots and digest hold no bar is read back as it was written.
pub proof fn law_pin_round_trip(pin: OrganizationTrustPin)
    requires
        pin.valid(),
        !pin.owner_root_public@.contains('|'),
        !pin.member_root_public@.contains('|'),
        !pin.digest@.contains('|'),
    ensures
        text::fields(pin.written(), '|') == pin.stored_fields(),
        OrganizationTrustPin::readable(pin.stored_fields()),
        pin.stored_as(pin.stored_fields()),
{
    let f = pin.stored_fields();
    let max = u64::MAX as nat;
    text::lemma_decimal_reads_back(pin.minimum_generation as nat, max);
    text::lemma_decimal_reads_back(pin.required_generation as nat, max);
    text::lemma_decimal_reads_back(pin.owner_roster_revision as nat, max);
    text::lemma_decimal_reads_back(pin.member_roster_revision as nat, max);
    assert(!flag_text(pin.locally_confirmed).contains('|')) by {
        let t = flag_text(pin.locally_confirmed);
        if t.contains('|') {
            let i = choose|i: int| 0 <= i < t.len() && t[i] == '|';
            assert(i == 0);
        }
    }
    lemma_hash_text_holds_no_bar(pin.owner_roster_head_hash@);
    lemma_hash_text_holds_no_bar(pin.member_roster_head_hash@);
    assert forall|i: int| 0 <= i < f.len() implies !(#[trigger] f[i]).contains('|') by {}
    text::lemma_fields_of_joined(f, '|');
}

/// A pin read from one stored text is the only one it can be read as.
pub proof fn law_stored_pin_is_unambiguous(
    value: Seq<char>,
    a: OrganizationTrustPin,
    b: OrganizationTrustPin,
)
    requires
        a.stored_as(text::fields(value, '|')),
        b.stored_as(text::fields(value, '|')),
    ensures
        a.stored_fields() == b.stored_fields(),
{
    assert(flag_text(true)[0] == '1' && flag_text(false)[0] == '0');
    assert(a.locally_confirmed == b.locally_confirmed);
    assert(a.stored_fields() =~= b.stored_fields());
}

} // verus!
