//! Encrypted record envelope framing.
use vstd::prelude::*;
use crate::bytes;

verus! {

pub const ENVELOPE_VERSION: u8 = 5;

pub const ENVELOPE_MAGIC: [u8; 4] = [84, 68, 69, 53];

pub const ENVELOPE_HEADER_LEN: usize = 14;

pub const ENVELOPE_MIN_LEN: usize = 54;

pub const MAX_ENCRYPTED_BLOB_LEN: usize = 65_536;

#[derive(Debug, Clone, Copy, PartialEq, Eq, Structural)]
pub struct EnvelopeHeader {
    pub suite_id: u16,
    pub key_generation: u64,
}

#[derive(Debug, Clone, Copy, PartialEq, Eq, Structural)]
pub enum EnvelopeHeaderError {
    BlobTooShort,
    UnsupportedVersion,
    InvalidGeneration,
    BlobTooLarge,
}

impl EnvelopeHeaderError {
    /// The words of an error.
    pub open spec fn message_spec(self) -> Seq<char> {
        match self {
            EnvelopeHeaderError::BlobTooShort => "encrypted blob is too short"@,
            EnvelopeHeaderError::UnsupportedVersion => "unsupported encrypted blob version"@,
            EnvelopeHeaderError::InvalidGeneration => "key generation must be positive"@,
            EnvelopeHeaderError::BlobTooLarge => "encrypted blob exceeds 64KB limit"@,
        }
    }

    pub fn message(self) -> (r: &'static str)
        ensures
            r@ == self.message_spec(),
    {
        match self {
            EnvelopeHeaderError::BlobTooShort => "encrypted blob is too short",
            EnvelopeHeaderError::UnsupportedVersion => "unsupported encrypted blob version",
            EnvelopeHeaderError::InvalidGeneration => "key generation must be positive",
            EnvelopeHeaderError::BlobTooLarge => "encrypted blob exceeds 64KB limit",
        }
    }
}

/// What the front of an encrypted blob says: the magic, then the suite and the key
/// generation, highest byte first.
pub open spec fn envelope_header(blob: Seq<u8>) -> Result<EnvelopeHeader, EnvelopeHeaderError> {
    if blob.len() > MAX_ENCRYPTED_BLOB_LEN {
        Err(EnvelopeHeaderError::BlobTooLarge)
    } else if blob.len() < ENVELOPE_MIN_LEN {
        Err(EnvelopeHeaderError::BlobTooShort)
    } else if blob.subrange(0, 4) != ENVELOPE_MAGIC@ {
        Err(EnvelopeHeaderError::UnsupportedVersion)
    } else if bytes::be_value(blob.subrange(6, 14)) == 0 {
        Err(EnvelopeHeaderError::InvalidGeneration)
    } else {
        Ok(
            EnvelopeHeader {
                suite_id: bytes::be_value(blob.subrange(4, 6)) as u16,
                key_generation: bytes::be_value(blob.subrange(6, 14)) as u64,
            },
        )
    }
}

/// Reads the header of an encrypted blob of admissible length.
pub fn parse_envelope_header(blob: &[u8]) -> (r: Result<EnvelopeHeader, EnvelopeHeaderError>)
    ensures
        r == envelope_header(blob@),
{
    if blob.len() > MAX_ENCRYPTED_BLOB_LEN {
        return Err(EnvelopeHeaderError::BlobTooLarge);
    }
    if blob.len() < ENVELOPE_MIN_LEN {
        return Err(EnvelopeHeaderError::BlobTooShort);
    }
    let magic = ENVELOPE_MAGIC;
    if blob[0] != magic[0] || blob[1] != magic[1] || blob[2] != magic[2] || blob[3] != magic[3] {
        proof {
            if blob@.subrange(0, 4) == ENVELOPE_MAGIC@ {
                assert(blob@[0] == blob@.subrange(0, 4)[0]);
                assert(blob@[1] == blob@.subrange(0, 4)[1]);
                assert(blob@[2] == blob@.subrange(0, 4)[2]);
                assert(blob@[3] == blob@.subrange(0, 4)[3]);
            }
        }
        return Err(EnvelopeHeaderError::UnsupportedVersion);
    }
    proof {
        assert(blob@.subrange(0, 4) =~= ENVELOPE_MAGIC@);
        bytes::lemma_pow256();
    }
    let suite_id: u64 = bytes::read_be(blob, 4, 6);
    let key_generation: u64 = bytes::read_be(blob, 6, 14);
    if key_generation == 0 {
        return Err(EnvelopeHeaderError::InvalidGeneration);
    }
    Ok(EnvelopeHeader { suite_id: suite_id as u16, key_generation })
}

/// A header as it is written.
pub open spec fn header_bytes(header: EnvelopeHeader) -> Seq<u8> {
    ENVELOPE_MAGIC@ + bytes::be_bytes(header.suite_id as nat, 2) + bytes::be_bytes(
        header.key_generation as nat,
        8,
    )
}

/// A written header is read back, whatever body of admissible length follows.
pub proof fn law_header_round_trip(header: EnvelopeHeader, body: Seq<u8>)
    requires
        header.key_generation != 0,
        ENVELOPE_MIN_LEN <= ENVELOPE_HEADER_LEN + body.len() <= MAX_ENCRYPTED_BLOB_LEN,
    ensures
        header_bytes(header).len() == ENVELOPE_HEADER_LEN,
        envelope_header(header_bytes(header) + body) == Ok::<_, EnvelopeHeaderError>(header),
{
    bytes::lemma_pow256();
    bytes::lemma_be_reads_back(header.suite_id as nat, 2);
    bytes::lemma_be_reads_back(header.key_generation as nat, 8);
    let blob = header_bytes(header) + body;
    assert(blob.subrange(0, 4) =~= ENVELOPE_MAGIC@);
    assert(blob.subrange(4, 6) =~= bytes::be_bytes(header.suite_id as nat, 2));
    assert(blob.subrange(6, 14) =~= bytes::be_bytes(header.key_generation as nat, 8));
}

/// A blob whose header is read starts with exactly that header as it is written.
pub proof fn law_header_is_canonical(blob: Seq<u8>)
    requires
        envelope_header(blob) is Ok,
    ensures
        blob.subrange(0, ENVELOPE_HEADER_LEN as int) == header_bytes(envelope_header(blob)->Ok_0),
{
    bytes::lemma_pow256();
    bytes::lemma_be_value_bound(blob.subrange(4, 6));
    bytes::lemma_be_value_bound(blob.subrange(6, 14));
    bytes::lemma_be_writes_back(blob.subrange(4, 6));
    bytes::lemma_be_writes_back(blob.subrange(6, 14));
    let header = envelope_header(blob)->Ok_0;
    let written = header_bytes(header);
    assert(written.len() == 14);
    assert forall|i: int| 0 <= i < 14 implies blob[i] == written[i] by {
        if i < 4 {
            assert(blob.subrange(0, 4)[i] == ENVELOPE_MAGIC@[i]);
        } else if i < 6 {
            assert(blob.subrange(4, 6)[i - 4] == blob[i]);
        } else {
            assert(blob.subrange(6, 14)[i - 6] == blob[i]);
        }
    }
    assert(blob.subrange(0, 14) =~= written);
}

} // verus!
