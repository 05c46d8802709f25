//! Organization key-generation manifests signed by an account root.
use vstd::prelude::*;
use crate::bytes;
use crate::external;
use crate::text::bytes_eq;

verus! {

pub const ROOT_FINGERPRINT_LEN: usize = 32;

pub const ED25519_SIGNATURE_LEN: usize = 64;

pub const ML_DSA_65_SIGNATURE_LEN: usize = 3309;

/// The bytes behind the payload: fingerprint and both signatures.
pub const TRAILER_LEN: usize = 3405;

/// The four magic bytes, "TOM1".
pub const ORGANIZATION_MANIFEST_MAGIC: [u8; 4] = [84, 79, 77, 49];

/// What the signatures are bound to: "taskveil/organization-key-manifest/v1".
pub const ORGANIZATION_MANIFEST_DOMAIN: [u8; 37] = [
    116, 97, 115, 107, 118, 101, 105, 108, 47, 111, 114, 103, 97, 110, 105, 122, 97, 116, 105, 111,
    110, 45, 107, 101, 121, 45, 109, 97, 110, 105, 102, 101, 115, 116, 47, 118, 49,
];

#[derive(Clone, Copy, Debug, PartialEq, Eq, Structural)]
pub enum KeyManifestError {
    Invalid,
}

#[derive(Clone, Copy, Debug, PartialEq, Eq, Structural)]
pub enum OrganizationCryptoError {
    Rejected,
}

#[derive(Clone, Copy, Debug, PartialEq, Eq, Structural)]
pub enum OrganizationManifestError {
    InvalidEncoding,
    KeyManifest(KeyManifestError),
    Signature(OrganizationCryptoError),
}

/// A key manifest: its canonical payload, where it has one, and the authenticator
/// that follows it.
#[derive(Clone, Debug, PartialEq, Eq)]
pub struct KeyManifest {
    pub canonical_payload: Option<Vec<u8>>,
    pub authenticator: [u8; 32],
}

#[derive(Clone, Debug, PartialEq, Eq)]
pub struct AccountRootSignature {
    pub ed25519_signature: [u8; 64],
    pub ml_dsa_65_signature: Vec<u8>,
}

#[derive(Clone, Debug, PartialEq, Eq)]
pub struct OrganizationKeyManifest {
    pub manifest: KeyManifest,
    pub root_fingerprint: [u8; 32],
    pub signature: AccountRootSignature,
}

/// Thirty-two zero bytes, the authenticator of an unsigned manifest.
pub open spec fn zeros32() -> Seq<u8> {
    Seq::new(32, |i: int| 0u8)
}

/// What the account root signs: the domain, the fingerprint, and the payload behind
/// its length.
pub open spec fn transcript(payload: Seq<u8>, fingerprint: Seq<u8>) -> Seq<u8> {
    ORGANIZATION_MANIFEST_DOMAIN@ + fingerprint + bytes::be_bytes(payload.len(), 4) + payload
}

/// The transcript of a manifest, or why there is none.
pub open spec fn transcript_of(manifest: KeyManifest, fingerprint: Seq<u8>) -> Result<
    Seq<u8>,
    OrganizationManifestError,
> {
    match manifest.canonical_payload {
        None => Err(OrganizationManifestError::KeyManifest(KeyManifestError::Invalid)),
        Some(payload) => if payload@.len() > u32::MAX {
            Err(OrganizationManifestError::InvalidEncoding)
        } else {
            Ok(transcript(payload@, fingerprint))
        },
    }
}

/// A signed manifest on the wire.
pub open spec fn frame(
    payload: Seq<u8>,
    fingerprint: Seq<u8>,
    ed25519: Seq<u8>,
    ml_dsa: Seq<u8>,
) -> Seq<u8> {
    ORGANIZATION_MANIFEST_MAGIC@ + bytes::be_bytes(payload.len(), 4) + payload + fingerprint
        + ed25519 + ml_dsa
}

fn all_zero(authenticator: &[u8; 32]) -> (r: bool)
    ensures
        r == (authenticator@ == zeros32()),
{
    let mut i: usize = 0;
    while i < 32
        invariant
            i <= 32,
            authenticator@.len() == 32,
            forall|j: int| 0 <= j < i ==> authenticator@[j] == 0,
        decreases 32 - i,
    {
        if authenticator[i] != 0 {
            proof {
                assert(zeros32()[i as int] == 0);
            }
            return false;
        }
        i = i + 1;
    }
    proof {
        assert(authenticator@ =~= zeros32());
    }
    true
}

fn copy32(bytes: &[u8], from: usize) -> (r: [u8; 32])
    requires
        from + 32 <= bytes@.len(),
    ensures
        r@ == bytes@.subrange(from as int, from + 32),
{
    let total: usize = bytes.len();
    let mut out: [u8; 32] = [0; 32];
    let mut i: usize = 0;
    while i < 32
        invariant
            i <= 32,
            total == bytes@.len(),
            from + 32 <= bytes@.len(),
            out@.len() == 32,
            forall|j: int| 0 <= j < i ==> out@[j] == bytes@[from + j],
        decreases 32 - i,
    {
        out[i] = bytes[from + i];
        i = i + 1;
    }
    proof {
        assert(out@ =~= bytes@.subrange(from as int, from + 32));
    }
    out
}

fn copy64(bytes: &[u8], from: usize) -> (r: [u8; 64])
    requires
        from + 64 <= bytes@.len(),
    ensures
        r@ == bytes@.subrange(from as int, from + 64),
{
    let total: usize = bytes.len();
    let mut out: [u8; 64] = [0; 64];
    let mut i: usize = 0;
    while i < 64
        invariant
            i <= 64,
            total == bytes@.len(),
            from + 64 <= bytes@.len(),
            out@.len() == 64,
            forall|j: int| 0 <= j < i ==> out@[j] == bytes@[from + j],
        decreases 64 - i,
    {
        out[i] = bytes[from + i];
        i = i + 1;
    }
    proof {
        assert(out@ =~= bytes@.subrange(from as int, from + 64));
    }
    out
}

/// Builds what the account root signs.
pub fn manifest_transcript(manifest: &KeyManifest, root_fingerprint: &[u8; 32]) -> (r: Result<
    Vec<u8>,
    OrganizationManifestError,
>)
    ensures
        match transcript_of(*manifest, root_fingerprint@) {
            Ok(t) => r is Ok && r->Ok_0@ == t,
            Err(error) => r is Err && r->Err_0 == error,
        },
{
    let payload = match &manifest.canonical_payload {
        None => {
            return Err(OrganizationManifestError::KeyManifest(KeyManifestError::Invalid));
        },
        Some(payload) => payload,
    };
    if payload.len() as u64 > u32::MAX as u64 {
        return Err(OrganizationManifestError::InvalidEncoding);
    }
    let mut output: Vec<u8> = Vec::new();
    bytes::append_bytes(&mut output, &ORGANIZATION_MANIFEST_DOMAIN);
    bytes::append_bytes(&mut output, root_fingerprint);
    let length = bytes::be_vec(payload.len() as u64, 4);
    bytes::append_bytes(&mut output, length.as_slice());
    bytes::append_bytes(&mut output, payload.as_slice());
    proof {
        assert(output@ =~= transcript(payload@, root_fingerprint@));
    }
    Ok(output)
}

/// What decoding bytes comes to before the payload is read: the payload, or the
/// verdict that the frame is broken.
pub open spec fn framed_payload(frame: Seq<u8>) -> Option<Seq<u8>> {
    if frame.len() <= 8 + TRAILER_LEN || frame.subrange(0, 4) != ORGANIZATION_MANIFEST_MAGIC@
        || frame.len() != 8 + bytes::be_value(frame.subrange(4, 8)) + TRAILER_LEN {
        None
    } else {
        Some(frame.subrange(8, frame.len() - TRAILER_LEN))
    }
}

/// What signing a manifest comes to.
pub open spec fn signed_as<
    S: FnOnce(Vec<u8>) -> Result<AccountRootSignature, OrganizationCryptoError>,
>(
    r: Result<OrganizationKeyManifest, OrganizationManifestError>,
    manifest: KeyManifest,
    root_fingerprint: Result<[u8; 32], OrganizationCryptoError>,
    sign_payload: S,
) -> bool {
    if manifest.authenticator@ != zeros32() {
        r is Err && r->Err_0 == OrganizationManifestError::InvalidEncoding
    } else {
        match root_fingerprint {
            Err(error) => r is Err && r->Err_0 == OrganizationManifestError::Signature(error),
            Ok(fingerprint) => match transcript_of(manifest, fingerprint@) {
                Err(error) => r is Err && r->Err_0 == error,
                Ok(t) => exists|
                    payload: Vec<u8>,
                    reply: Result<AccountRootSignature, OrganizationCryptoError>,
                |
                    {
                        &&& payload@ == t
                        &&& #[trigger] sign_payload.ensures((payload,), reply)
                        &&& match reply {
                            Err(error) => r is Err && r->Err_0
                                == OrganizationManifestError::Signature(error),
                            Ok(signature) => r is Ok && r->Ok_0 == (OrganizationKeyManifest {
                                manifest,
                                root_fingerprint: fingerprint,
                                signature,
                            }),
                        }
                    },
            },
        }
    }
}

/// What reading a signed manifest comes to.
pub open spec fn decoded_as<R: FnOnce(Vec<u8>) -> Result<KeyManifest, KeyManifestError>>(
    r: Result<OrganizationKeyManifest, OrganizationManifestError>,
    wire: Seq<u8>,
    read_manifest: R,
) -> bool {
    match framed_payload(wire) {
        None => r is Err && r->Err_0 == OrganizationManifestError::InvalidEncoding,
        Some(payload) => exists|shape: Vec<u8>, reply: Result<KeyManifest, KeyManifestError>|
            {
                &&& shape@ == payload + zeros32()
                &&& #[trigger] read_manifest.ensures((shape,), reply)
                &&& match reply {
                    Err(error) => r is Err && r->Err_0 == OrganizationManifestError::KeyManifest(
                        error,
                    ),
                    Ok(manifest) => if manifest.authenticator@ != zeros32() {
                        r is Err && r->Err_0 == OrganizationManifestError::InvalidEncoding
                    } else {
                        r is Ok && r->Ok_0.read_from(manifest, wire)
                    },
                }
            },
    }
}

impl OrganizationKeyManifest {
    /// What checking a signed manifest against an account root comes to.
    pub open spec fn verified_as<
        V: FnOnce(Vec<u8>, &AccountRootSignature) -> Result<(), OrganizationCryptoError>,
    >(
        self,
        r: Result<(), OrganizationManifestError>,
        root_fingerprint: Result<[u8; 32], OrganizationCryptoError>,
        verify_payload: V,
    ) -> bool {
        if self.manifest.authenticator@ != zeros32() {
            r is Err && r->Err_0 == OrganizationManifestError::InvalidEncoding
        } else {
            match root_fingerprint {
                Err(error) => r is Err && r->Err_0 == OrganizationManifestError::Signature(error),
                Ok(fingerprint) => if self.root_fingerprint@ != fingerprint@ {
                    r is Err && r->Err_0 == OrganizationManifestError::InvalidEncoding
                } else {
                    match transcript_of(self.manifest, fingerprint@) {
                        Err(error) => r is Err && r->Err_0 == error,
                        Ok(t) => exists|payload: Vec<u8>, reply: Result<(), OrganizationCryptoError>|
                            {
                                &&& payload@ == t
                                &&& #[trigger] verify_payload.ensures(
                                    (payload, &self.signature),
                                    reply,
                                )
                                &&& match reply {
                                    Err(error) => r is Err && r->Err_0
                                        == OrganizationManifestError::Signature(error),
                                    Ok(()) => r is Ok,
                                }
                            },
                    }
                },
            }
        }
    }

    /// Signs a manifest whose authenticator is still zero.
    ///
    /// `root_fingerprint` is the fingerprint of the account root, where it has one;
    /// `sign_payload` signs with the root's private keys.
    pub fn sign<S: FnOnce(Vec<u8>) -> Result<AccountRootSignature, OrganizationCryptoError>>(
        manifest: KeyManifest,
        root_fingerprint: Result<[u8; 32], OrganizationCryptoError>,
        sign_payload: S,
    ) -> (r: Result<OrganizationKeyManifest, OrganizationManifestError>)
        requires
            forall|payload: Vec<u8>| #[trigger] sign_payload.requires((payload,)),
        ensures
            signed_as(r, manifest, root_fingerprint, sign_payload),
    {
        if !all_zero(&manifest.authenticator) {
            return Err(OrganizationManifestError::InvalidEncoding);
        }
        let fingerprint: [u8; 32] = match root_fingerprint {
            Err(error) => {
                return Err(OrganizationManifestError::Signature(error));
            },
            Ok(fingerprint) => fingerprint,
        };
        let payload = match manifest_transcript(&manifest, &fingerprint) {
            Err(error) => {
                return Err(error);
            },
            Ok(payload) => payload,
        };
        let reply = sign_payload(payload);
        proof {
            assert(sign_payload.ensures((payload,), reply));
        }
        match reply {
            Err(error) => Err(OrganizationManifestError::Signature(error)),
            Ok(signature) => Ok(
                OrganizationKeyManifest { manifest, root_fingerprint: fingerprint, signature },
            ),
        }
    }

    /// Checks a signed manifest against an account root.
    ///
    /// `root_fingerprint` is the fingerprint of the account root, where it has one;
    /// `verify_payload` verifies a signature with the root's public keys.
    pub fn verify<
        V: FnOnce(Vec<u8>, &AccountRootSignature) -> Result<(), OrganizationCryptoError>,
    >(
        &self,
        root_fingerprint: Result<[u8; 32], OrganizationCryptoError>,
        verify_payload: V,
    ) -> (r: Result<(), OrganizationManifestError>)
        requires
            forall|payload: Vec<u8>| #[trigger] verify_payload.requires(
                (payload, &self.signature),
            ),
        ensures
            self.verified_as(r, root_fingerprint, verify_payload),
    {
        if !all_zero(&self.manifest.authenticator) {
            return Err(OrganizationManifestError::InvalidEncoding);
        }
        let fingerprint: [u8; 32] = match root_fingerprint {
            Err(error) => {
                return Err(OrganizationManifestError::Signature(error));
            },
            Ok(fingerprint) => fingerprint,
        };
        if !bytes_eq(&self.root_fingerprint, &fingerprint) {
            return Err(OrganizationManifestError::InvalidEncoding);
        }
        let payload = match manifest_transcript(&self.manifest, &self.root_fingerprint) {
            Err(error) => {
                return Err(error);
            },
            Ok(payload) => payload,
        };
        let reply = verify_payload(payload, &self.signature);
        proof {
            assert(verify_payload.ensures((payload, &self.signature), reply));
        }
        match reply {
            Err(error) => Err(OrganizationManifestError::Signature(error)),
            Ok(()) => Ok(()),
        }
    }

    /// The wire form of a signed manifest, or why it has none.
    pub open spec fn encoded(self) -> Result<Seq<u8>, OrganizationManifestError> {
        if self.signature.ml_dsa_65_signature@.len() != ML_DSA_65_SIGNATURE_LEN {
            Err(OrganizationManifestError::InvalidEncoding)
        } else {
            match self.manifest.canonical_payload {
                None => Err(OrganizationManifestError::KeyManifest(KeyManifestError::Invalid)),
                Some(payload) => if payload@.len() > u32::MAX {
                    Err(OrganizationManifestError::InvalidEncoding)
                } else {
                    Ok(
                        frame(
                            payload@,
                            self.root_fingerprint@,
                            self.signature.ed25519_signature@,
                            self.signature.ml_dsa_65_signature@,
                        ),
                    )
                },
            }
        }
    }

    /// Writes a signed manifest.
    pub fn encode(&self) -> (r: Result<Vec<u8>, OrganizationManifestError>)
        ensures
            match self.encoded() {
                Ok(bytes) => r is Ok && r->Ok_0@ == bytes,
                Err(error) => r is Err && r->Err_0 == error,
            },
    {
        if self.signature.ml_dsa_65_signature.len() != ML_DSA_65_SIGNATURE_LEN {
            return Err(OrganizationManifestError::InvalidEncoding);
        }
        let payload = match &self.manifest.canonical_payload {
            None => {
                return Err(OrganizationManifestError::KeyManifest(KeyManifestError::Invalid));
            },
            Some(payload) => payload,
        };
        if payload.len() as u64 > u32::MAX as u64 {
            return Err(OrganizationManifestError::InvalidEncoding);
        }
        let mut output: Vec<u8> = Vec::new();
        bytes::append_bytes(&mut output, &ORGANIZATION_MANIFEST_MAGIC);
        let length = bytes::be_vec(payload.len() as u64, 4);
        bytes::append_bytes(&mut output, length.as_slice());
        bytes::append_bytes(&mut output, payload.as_slice());
        bytes::append_bytes(&mut output, &self.root_fingerprint);
        bytes::append_bytes(&mut output, &self.signature.ed25519_signature);
        bytes::append_bytes(&mut output, self.signature.ml_dsa_65_signature.as_slice());
        proof {
            assert(output@ =~= frame(
                payload@,
                self.root_fingerprint@,
                self.signature.ed25519_signature@,
                self.signature.ml_dsa_65_signature@,
            ));
        }
        Ok(output)
    }

    /// What a value holds that was read from a sound frame.
    pub open spec fn read_from(self, manifest: KeyManifest, wire: Seq<u8>) -> bool {
        let end = wire.len() - TRAILER_LEN;
        &&& self.manifest == manifest
        &&& self.root_fingerprint@ == wire.subrange(end, end + 32)
        &&& self.signature.ed25519_signature@ == wire.subrange(end + 32, end + 96)
        &&& self.signature.ml_dsa_65_signature@ == wire.subrange(end + 96, wire.len() as int)
    }

    /// Reads a signed manifest; `read_manifest` reads the payload with its
    /// authenticator behind it.
    pub fn decode<R: FnOnce(Vec<u8>) -> Result<KeyManifest, KeyManifestError>>(
        wire: &[u8],
        read_manifest: R,
    ) -> (r: Result<OrganizationKeyManifest, OrganizationManifestError>)
        requires
            forall|shape: Vec<u8>| #[trigger] read_manifest.requires((shape,)),
        ensures
            decoded_as(r, wire@, read_manifest),
    {
        if wire.len() <= 8 + TRAILER_LEN {
            return Err(OrganizationManifestError::InvalidEncoding);
        }
        let magic = bytes::slice_vec(wire, 0, 4);
        if !bytes_eq(magic.as_slice(), &ORGANIZATION_MANIFEST_MAGIC) {
            return Err(OrganizationManifestError::InvalidEncoding);
        }
        proof {
            bytes::lemma_pow256();
        }
        let payload_len: u64 = bytes::read_be(wire, 4, 8);
        if wire.len() as u64 != 8 + payload_len + TRAILER_LEN as u64 {
            return Err(OrganizationManifestError::InvalidEncoding);
        }
        let payload_end: usize = wire.len() - TRAILER_LEN;
        let mut shape = bytes::slice_vec(wire, 8, payload_end);
        let zeros: [u8; 32] = [0; 32];
        bytes::append_bytes(&mut shape, &zeros);
        proof {
            assert(zeros@ =~= zeros32());
        }
        let reply = read_manifest(shape);
        proof {
            assert(read_manifest.ensures((shape,), reply));
        }
        let manifest = match reply {
            Err(error) => {
                return Err(OrganizationManifestError::KeyManifest(error));
            },
            Ok(manifest) => manifest,
        };
        if !all_zero(&manifest.authenticator) {
            return Err(OrganizationManifestError::InvalidEncoding);
        }
        Ok(
            OrganizationKeyManifest {
                manifest,
                root_fingerprint: copy32(wire, payload_end),
                signature: AccountRootSignature {
                    ed25519_signature: copy64(wire, payload_end + 32),
                    ml_dsa_65_signature: bytes::slice_vec(wire, payload_end + 96, wire.len()),
                },
            },
        )
    }

    /// The SHA-256 digest of the wire form.
    pub fn authenticated_hash(&self) -> (r: Result<[u8; 32], OrganizationManifestError>)
        ensures
            match self.encoded() {
                Ok(bytes) => r is Ok && r->Ok_0@ == external::sha256(bytes),
                Err(error) => r is Err && r->Err_0 == error,
            },
    {
        match self.encode() {
            Err(error) => Err(error),
            Ok(bytes) => Ok(external::sha256_digest(bytes.as_slice())),
        }
    }
}

/// A written manifest with a payload is read back: the frame gives the payload, and
/// the fields behind it are those that were written.
pub proof fn law_manifest_frame_round_trip(
    manifest: OrganizationKeyManifest,
    read: OrganizationKeyManifest,
)
    requires
        manifest.encoded() is Ok,
        manifest.manifest.canonical_payload.unwrap()@.len() > 0,
        read.read_from(manifest.manifest, manifest.encoded()->Ok_0),
    ensures
        framed_payload(manifest.encoded()->Ok_0) == Some(
            manifest.manifest.canonical_payload.unwrap()@,
        ),
        read.manifest == manifest.manifest,
        read.root_fingerprint@ == manifest.root_fingerprint@,
        read.signature.ed25519_signature@ == manifest.signature.ed25519_signature@,
        read.signature.ml_dsa_65_signature@ == manifest.signature.ml_dsa_65_signature@,
{
    let payload = manifest.manifest.canonical_payload.unwrap()@;
    let wire = manifest.encoded()->Ok_0;
    bytes::lemma_pow256();
    bytes::lemma_be_reads_back(payload.len(), 4);
    let end: int = 8 + payload.len() as int;
    assert(wire.len() == end + TRAILER_LEN);
    assert(wire.subrange(0, 4) =~= ORGANIZATION_MANIFEST_MAGIC@);
    assert(wire.subrange(4, 8) =~= bytes::be_bytes(payload.len(), 4));
    assert(wire.subrange(8, end as int) =~= payload);
    assert(wire.subrange(end as int, end + 32) =~= manifest.root_fingerprint@);
    assert(wire.subrange(end + 32, end + 96) =~= manifest.signature.ed25519_signature@);
    assert(wire.subrange(end + 96, wire.len() as int)
        =~= manifest.signature.ml_dsa_65_signature@);
}

/// A frame has one reading: writing what was read from it gives the same bytes.
pub proof fn law_manifest_frame_is_canonical(wire: Seq<u8>, read: OrganizationKeyManifest)
    requires
        framed_payload(wire) is Some,
        read.read_from(read.manifest, wire),
        read.manifest.canonical_payload is Some,
        read.manifest.canonical_payload.unwrap()@ == framed_payload(wire).unwrap(),
    ensures
        read.encoded() == Ok::<Seq<u8>, OrganizationManifestError>(wire),
{
    let payload = framed_payload(wire).unwrap();
    let end = wire.len() - TRAILER_LEN;
    bytes::lemma_pow256();
    bytes::lemma_be_value_bound(wire.subrange(4, 8));
    bytes::lemma_be_writes_back(wire.subrange(4, 8));
    assert(payload.len() == bytes::be_value(wire.subrange(4, 8)));
    assert(wire =~= wire.subrange(0, 4) + wire.subrange(4, 8) + wire.subrange(8, end)
        + wire.subrange(end, end + 32) + wire.subrange(end + 32, end + 96) + wire.subrange(
        end + 96,
        wire.len() as int,
    ));
}

/// What is signed tells the fingerprint and the payload apart: two manifests with one
/// transcript have the same fingerprint and the same payload.
pub proof fn law_transcript_is_unambiguous(
    payload1: Seq<u8>,
    fingerprint1: Seq<u8>,
    payload2: Seq<u8>,
    fingerprint2: Seq<u8>,
)
    requires
        fingerprint1.len() == 32,
        fingerprint2.len() == 32,
        payload1.len() <= u32::MAX,
        payload2.len() <= u32::MAX,
        transcript(payload1, fingerprint1) == transcript(payload2, fingerprint2),
    ensures
        payload1 == payload2,
        fingerprint1 == fingerprint2,
{
    let t1 = transcript(payload1, fingerprint1);
    let t2 = transcript(payload2, fingerprint2);
    bytes::lemma_pow256();
    bytes::lemma_be_reads_back(payload1.len(), 4);
    bytes::lemma_be_reads_back(payload2.len(), 4);
    assert(t1.subrange(37, 69) =~= fingerprint1);
    assert(t2.subrange(37, 69) =~= fingerprint2);
    assert(t1.subrange(73, t1.len() as int) =~= payload1);
    assert(t2.subrange(73, t2.len() as int) =~= payload2);
}

/// The account root accepts a signature of what a manifest says, whoever asks it.
pub open spec fn root_accepts<
    V: FnOnce(Vec<u8>, &AccountRootSignature) -> Result<(), OrganizationCryptoError>,
>(verify_payload: V, transcript: Seq<u8>, signature: AccountRootSignature) -> bool {
    forall|payload: Vec<u8>, reply: Result<(), OrganizationCryptoError>|
        payload@ == transcript && #[trigger] verify_payload.ensures((payload, &signature), reply)
            ==> reply is Ok
}

/// The account root accepts a signature for nothing else than what it was made for.
pub open spec fn root_rejects_other<
    V: FnOnce(Vec<u8>, &AccountRootSignature) -> Result<(), OrganizationCryptoError>,
>(verify_payload: V, transcript: Seq<u8>, signature: AccountRootSignature) -> bool {
    forall|payload: Vec<u8>, reply: Result<(), OrganizationCryptoError>|
        payload@ != transcript && #[trigger] verify_payload.ensures((payload, &signature), reply)
            ==> reply is Err
}

/// What was signed under an account root verifies under it, where that root accepts the
/// transcript that it signed.
pub proof fn law_signed_manifest_verifies<
    S: FnOnce(Vec<u8>) -> Result<AccountRootSignature, OrganizationCryptoError>,
    V: FnOnce(Vec<u8>, &AccountRootSignature) -> Result<(), OrganizationCryptoError>,
>(
    manifest: KeyManifest,
    fingerprint: [u8; 32],
    sign_payload: S,
    signed: OrganizationKeyManifest,
    verify_payload: V,
    verdict: Result<(), OrganizationManifestError>,
)
    requires
        signed_as(Ok(signed), manifest, Ok(fingerprint), sign_payload),
        root_accepts(
            verify_payload,
            transcript_of(manifest, fingerprint@)->Ok_0,
            signed.signature,
        ),
        signed.verified_as(verdict, Ok(fingerprint), verify_payload),
    ensures
        verdict is Ok,
{
}

/// A signed manifest that was written and read again verifies as well, where the reader of
/// the payload gives back the payload that was written. With a byte more or a byte less it
/// is not read at all.
pub proof fn law_signed_manifest_reads_back_and_verifies<
    S: FnOnce(Vec<u8>) -> Result<AccountRootSignature, OrganizationCryptoError>,
    R: FnOnce(Vec<u8>) -> Result<KeyManifest, KeyManifestError>,
    V: FnOnce(Vec<u8>, &AccountRootSignature) -> Result<(), OrganizationCryptoError>,
>(
    manifest: KeyManifest,
    fingerprint: [u8; 32],
    sign_payload: S,
    signed: OrganizationKeyManifest,
    read_manifest: R,
    read: Result<OrganizationKeyManifest, OrganizationManifestError>,
    verify_payload: V,
    verdict: Result<(), OrganizationManifestError>,
)
    requires
        signed_as(Ok(signed), manifest, Ok(fingerprint), sign_payload),
        signed.encoded() is Ok,
        manifest.canonical_payload.unwrap()@.len() > 0,
        forall|shape: Vec<u8>, reply: Result<KeyManifest, KeyManifestError>|
            shape@ == manifest.canonical_payload.unwrap()@ + zeros32()
                && #[trigger] read_manifest.ensures((shape,), reply) ==> {
                &&& reply is Ok
                &&& reply->Ok_0.authenticator@ == zeros32()
                &&& reply->Ok_0.canonical_payload is Some
                &&& reply->Ok_0.canonical_payload.unwrap()@ == manifest.canonical_payload.unwrap()@
            },
        decoded_as(read, signed.encoded()->Ok_0, read_manifest),
        read is Ok ==> root_accepts(
            verify_payload,
            transcript_of(manifest, fingerprint@)->Ok_0,
            read->Ok_0.signature,
        ),
        read is Ok ==> read->Ok_0.verified_as(verdict, Ok(fingerprint), verify_payload),
    ensures
        read is Ok,
        read->Ok_0.manifest.authenticator@ == signed.manifest.authenticator@,
        read->Ok_0.manifest.canonical_payload.unwrap()@
            == signed.manifest.canonical_payload.unwrap()@,
        read->Ok_0.root_fingerprint@ == signed.root_fingerprint@,
        read->Ok_0.signature.ed25519_signature@ == signed.signature.ed25519_signature@,
        read->Ok_0.signature.ml_dsa_65_signature@ == signed.signature.ml_dsa_65_signature@,
        verdict is Ok,
        forall|byte: u8| framed_payload(#[trigger] signed.encoded()->Ok_0.push(byte)) is None,
        framed_payload(signed.encoded()->Ok_0.drop_last()) is None,
{
    let payload = manifest.canonical_payload.unwrap()@;
    let wire = signed.encoded()->Ok_0;
    let end: int = 8 + payload.len() as int;
    bytes::lemma_pow256();
    bytes::lemma_be_reads_back(payload.len(), 4);
    assert(wire.len() == end + TRAILER_LEN);
    assert(wire.subrange(0, 4) =~= ORGANIZATION_MANIFEST_MAGIC@);
    assert(wire.subrange(4, 8) =~= bytes::be_bytes(payload.len(), 4));
    assert(wire.subrange(8, end) =~= payload);
    assert(wire.subrange(end, end + 32) =~= fingerprint@);
    assert(wire.subrange(end + 32, end + 96) =~= signed.signature.ed25519_signature@);
    assert(wire.subrange(end + 96, wire.len() as int) =~= signed.signature.ml_dsa_65_signature@);
    assert forall|byte: u8| framed_payload(#[trigger] wire.push(byte)) is None by {
        assert(wire.push(byte).subrange(4, 8) =~= wire.subrange(4, 8));
    }
    assert(wire.drop_last().subrange(4, 8) =~= wire.subrange(4, 8));
}

/// A manifest with an authenticator, or with another fingerprint than the account root has,
/// is refused whatever the root says of the signature.
pub proof fn law_other_root_is_refused<
    V: FnOnce(Vec<u8>, &AccountRootSignature) -> Result<(), OrganizationCryptoError>,
>(
    signed: OrganizationKeyManifest,
    fingerprint: [u8; 32],
    verify_payload: V,
    verdict: Result<(), OrganizationManifestError>,
)
    requires
        signed.manifest.authenticator@ != zeros32() || signed.root_fingerprint@ != fingerprint@,
        signed.verified_as(verdict, Ok(fingerprint), verify_payload),
    ensures
        verdict == Err::<(), OrganizationManifestError>(OrganizationManifestError::InvalidEncoding),
{
}

/// A signed manifest whose payload was changed is refused, where the account root accepts its
/// signature for nothing but what was signed.
pub proof fn law_changed_manifest_is_refused<
    V: FnOnce(Vec<u8>, &AccountRootSignature) -> Result<(), OrganizationCryptoError>,
>(
    signed: OrganizationKeyManifest,
    changed: OrganizationKeyManifest,
    fingerprint: [u8; 32],
    verify_payload: V,
    verdict: Result<(), OrganizationManifestError>,
)
    requires
        transcript_of(signed.manifest, fingerprint@) is Ok,
        root_rejects_other(
            verify_payload,
            transcript_of(signed.manifest, fingerprint@)->Ok_0,
            changed.signature,
        ),
        changed.manifest.canonical_payload is Some ==> changed.manifest.canonical_payload.unwrap()@
            != signed.manifest.canonical_payload.unwrap()@,
        changed.verified_as(verdict, Ok(fingerprint), verify_payload),
    ensures
        verdict is Err,
{
    if transcript_of(changed.manifest, fingerprint@) is Ok && transcript_of(
        changed.manifest,
        fingerprint@,
    ) == transcript_of(signed.manifest, fingerprint@) {
        law_transcript_is_unambiguous(
            changed.manifest.canonical_payload.unwrap()@,
            fingerprint@,
            signed.manifest.canonical_payload.unwrap()@,
            fingerprint@,
        );
    }
}

} // verus!
