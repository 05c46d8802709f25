use sha2::Digest;
use taskveil::organization_manifest::{
    AccountRootSignature, KeyManifest, KeyManifestError, OrganizationCryptoError,
    OrganizationKeyManifest, OrganizationManifestError,
};
use taskveil::protocol::envelope::{
    parse_envelope_header, EnvelopeHeader, EnvelopeHeaderError, ENVELOPE_MAGIC, ENVELOPE_MIN_LEN,
    MAX_ENCRYPTED_BLOB_LEN,
};
use taskveil::protocol::hlc::{HlcWireError, WireHlc};

fn envelope(suite_id: u16, key_generation: u64) -> Vec<u8> {
    let mut blob = Vec::with_capacity(ENVELOPE_MIN_LEN);
    blob.extend_from_slice(&ENVELOPE_MAGIC);
    blob.extend_from_slice(&suite_id.to_be_bytes());
    blob.extend_from_slice(&key_generation.to_be_bytes());
    blob.resize(ENVELOPE_MIN_LEN, 0);
    blob
}

#[test]
fn canonical_header_preserves_suite_and_generation() {
    assert_eq!(
        parse_envelope_header(&envelope(2, 7)),
        Ok(EnvelopeHeader {
            suite_id: 2,
            key_generation: 7,
        })
    );
}

#[test]
fn framing_rejects_wrong_magic_zero_generation_and_oversized_blob() {
    let mut wrong_magic = envelope(2, 7);
    wrong_magic[..4].copy_from_slice(b"TDE4");
    assert_eq!(
        parse_envelope_header(&wrong_magic),
        Err(EnvelopeHeaderError::UnsupportedVersion)
    );
    assert_eq!(
        parse_envelope_header(&envelope(2, 0)),
        Err(EnvelopeHeaderError::InvalidGeneration)
    );
    assert_eq!(
        parse_envelope_header(&vec![0; MAX_ENCRYPTED_BLOB_LEN + 1]),
        Err(EnvelopeHeaderError::BlobTooLarge)
    );
}

#[test]
fn short_blobs_are_rejected_and_the_largest_is_read() {
    let mut blob = envelope(0xFFFF, u64::MAX);
    assert_eq!(
        parse_envelope_header(&blob[..ENVELOPE_MIN_LEN - 1]),
        Err(EnvelopeHeaderError::BlobTooShort)
    );
    blob.resize(MAX_ENCRYPTED_BLOB_LEN, 9);
    assert_eq!(
        parse_envelope_header(&blob),
        Ok(EnvelopeHeader {
            suite_id: 0xFFFF,
            key_generation: u64::MAX,
        })
    );
    assert_eq!(
        EnvelopeHeaderError::BlobTooLarge.message(),
        "encrypted blob exceeds 64KB limit"
    );
    assert_eq!(
        EnvelopeHeaderError::BlobTooShort.message(),
        "encrypted blob is too short"
    );
    assert_eq!(
        EnvelopeHeaderError::UnsupportedVersion.message(),
        "unsupported encrypted blob version"
    );
    assert_eq!(
        EnvelopeHeaderError::InvalidGeneration.message(),
        "key generation must be positive"
    );
}

#[test]
fn canonical_hlc_wire_value_decodes() {
    let device_hex = format!("{:0<128}", "6465766963652d61");
    let encoded = format!(
        "01{:020}{:010}{}",
        (42_i128 - i64::MIN as i128) as u64,
        7,
        device_hex,
    );
    let decoded = WireHlc::decode(&encoded).unwrap();
    assert_eq!(decoded.wall_ms, 42);
    assert_eq!(decoded.counter, 7);
    assert_eq!(decoded.device_id, "device-a");
}

#[test]
fn non_zero_bytes_after_device_padding_are_rejected() {
    let mut device_hex = format!("{:0<128}", "6465766963652d61");
    device_hex.replace_range(126..128, "62");
    let encoded = format!(
        "01{:020}{:010}{}",
        (42_i128 - i64::MIN as i128) as u64,
        7,
        device_hex,
    );

    assert_eq!(
        WireHlc::decode(&encoded),
        Err(HlcWireError::InvalidDeviceId)
    );
}

#[test]
fn every_wire_fault_of_a_clock_value_is_told_apart() {
    let device_hex = format!("{:0<128}", "6465766963652d61");
    let good = format!("01{:020}{:010}{}", 0, 0, device_hex);
    let decoded = WireHlc::decode(&good).unwrap();
    assert_eq!(decoded.wall_ms, i64::MIN);
    assert_eq!(decoded.counter, 0);

    assert_eq!(
        WireHlc::decode(&good[..good.len() - 1]),
        Err(HlcWireError::InvalidLength)
    );
    let other_version = format!("02{}", &good[2..]);
    assert_eq!(
        WireHlc::decode(&other_version),
        Err(HlcWireError::UnsupportedVersion)
    );
    let letters = format!("01{}{:010}{}", "x".repeat(20), 0, device_hex);
    assert_eq!(WireHlc::decode(&letters), Err(HlcWireError::InvalidDigits));
    let too_large = format!("01{}{:010}{}", "9".repeat(20), 0, device_hex);
    assert_eq!(WireHlc::decode(&too_large), Err(HlcWireError::InvalidDigits));
    let nameless = format!("01{:020}{:010}{}", 0, 0, "0".repeat(128));
    assert_eq!(WireHlc::decode(&nameless), Err(HlcWireError::InvalidDeviceId));
    assert_eq!(
        HlcWireError::InvalidLength.message(),
        "encoded HLC has invalid length"
    );
}

#[test]
fn a_clock_value_has_one_spelling() {
    let device_hex = format!("{:0<128}", "6465766963652d61");
    let good = format!("01{:020}{:010}{}", 5, 7, device_hex);
    assert!(WireHlc::decode(&good).is_ok());
    for other in [
        format!("01+{:019}{:010}{}", 5, 7, device_hex),
        format!("01{:020}+{:09}{}", 5, 7, device_hex),
        format!("01 {:019}{:010}{}", 5, 7, device_hex),
        format!("01{:020}{:010}{:0<128}", 5, 7, "6465766963652D61"),
    ] {
        assert_eq!(other.len(), good.len());
        assert_eq!(WireHlc::decode(&other), Err(HlcWireError::InvalidDigits));
    }
    // Characters of several bytes across the ends of the fields.
    for from in [3, 21, 22, 30, 31, 40] {
        let torn = format!("{}\u{e9}{}", &good[..from], &good[from + 2..]);
        assert_eq!(torn.len(), good.len());
        assert_eq!(WireHlc::decode(&torn), Err(HlcWireError::InvalidDigits));
    }
}

#[test]
fn clock_values_are_ordered_as_their_texts() {
    let encoded = |wall_ms: i64, counter: u32, device: &str| {
        let hex: String = device.bytes().map(|byte| format!("{byte:02x}")).collect();
        format!(
            "01{:020}{:010}{hex:0<128}",
            (wall_ms as i128 - i64::MIN as i128) as u64,
            counter
        )
    };
    let ascending = [
        (i64::MIN, 4_000_000_000, "z"),
        (-1, 9, "b"),
        (0, 0, "device"),
        (0, 0, "device-a"),
        (0, 0, "device-b"),
        (0, 2, "a"),
        (0, 10, "a"),
        (9, 0, "a"),
        (10, 0, "Z"),
        (10, 0, "a"),
        (i64::MAX, 0, "a"),
    ];
    for pair in ascending.windows(2) {
        let (left, right) = (pair[0], pair[1]);
        let lower = encoded(left.0, left.1, left.2);
        let higher = encoded(right.0, right.1, right.2);
        assert!(lower < higher, "{lower} {higher}");
        let lower = WireHlc::decode(&lower).unwrap();
        let higher = WireHlc::decode(&higher).unwrap();
        assert!(
            (lower.wall_ms, lower.counter, &lower.device_id)
                < (higher.wall_ms, higher.counter, &higher.device_id)
        );
    }
}

fn signature(byte: u8) -> AccountRootSignature {
    AccountRootSignature {
        ed25519_signature: [byte; 64],
        ml_dsa_65_signature: vec![byte; 3_309],
    }
}

fn read_any(shape: Vec<u8>) -> Result<KeyManifest, KeyManifestError> {
    let cut = shape.len() - 32;
    Ok(KeyManifest {
        canonical_payload: Some(shape[..cut].to_vec()),
        authenticator: [0; 32],
    })
}

fn fingerprint_signature(payload: &[u8]) -> AccountRootSignature {
    let sum = payload
        .iter()
        .fold(7_u8, |sum, byte| sum.wrapping_mul(31).wrapping_add(*byte));
    signature(sum)
}

fn check(payload: Vec<u8>, signature: &AccountRootSignature) -> Result<(), OrganizationCryptoError> {
    let expected = fingerprint_signature(&payload);
    if expected.ed25519_signature == signature.ed25519_signature {
        Ok(())
    } else {
        Err(OrganizationCryptoError::Rejected)
    }
}

#[test]
fn manifest_rejects_mutation_and_root_substitution() {
    let root = [0x44; 32];
    let manifest = KeyManifest {
        canonical_payload: Some(vec![0x11; 40]),
        authenticator: [0; 32],
    };
    let signed = OrganizationKeyManifest::sign(manifest, Ok(root), |payload: Vec<u8>| {
        Ok(fingerprint_signature(&payload))
    })
    .unwrap();
    let mut decoded = OrganizationKeyManifest::decode(&signed.encode().unwrap(), read_any).unwrap();
    decoded.verify(Ok(root), check).unwrap();

    let substituted_root = [0x45; 32];
    assert!(decoded.verify(Ok(substituted_root), check).is_err());

    decoded.manifest.canonical_payload.as_mut().unwrap().push(0x33);
    assert!(decoded.verify(Ok(root), check).is_err());
}

#[test]
fn a_signed_manifest_is_read_as_it_is_or_not_at_all() {
    let manifest = KeyManifest {
        canonical_payload: Some(vec![0x11; 40]),
        authenticator: [0; 32],
    };
    let signed = OrganizationKeyManifest::sign(manifest, Ok([4; 32]), |payload: Vec<u8>| {
        Ok(fingerprint_signature(&payload))
    })
    .unwrap();
    signed.verify(Ok([4; 32]), check).unwrap();
    let wire = signed.encode().unwrap();
    assert_eq!(OrganizationKeyManifest::decode(&wire, read_any), Ok(signed.clone()));
    let mut longer = wire.clone();
    longer.push(0);
    for broken in [&longer[..], &wire[..wire.len() - 1]] {
        assert_eq!(
            OrganizationKeyManifest::decode(broken, read_any),
            Err(OrganizationManifestError::InvalidEncoding)
        );
    }
    let accept = |_: Vec<u8>, _: &AccountRootSignature| Ok(());
    let mut authenticated = signed.clone();
    authenticated.manifest.authenticator[0] = 1;
    assert_eq!(
        authenticated.verify(Ok([4; 32]), accept),
        Err(OrganizationManifestError::InvalidEncoding)
    );
    assert_eq!(
        signed.verify(Ok([5; 32]), accept),
        Err(OrganizationManifestError::InvalidEncoding)
    );
}

#[test]
fn manifest_rejects_overflowing_payload_length() {
    let mut encoded = vec![0; 8 + 32 + 64 + 3_309 + 1];
    encoded[..4].copy_from_slice(b"TOM1");
    encoded[4..8].copy_from_slice(&u32::MAX.to_be_bytes());

    assert!(OrganizationKeyManifest::decode(&encoded, read_any).is_err());
}

#[test]
fn a_written_manifest_is_read_back() {
    let manifest = KeyManifest {
        canonical_payload: Some(vec![1, 2, 3]),
        authenticator: [0; 32],
    };
    let signed =
        OrganizationKeyManifest::sign(manifest, Ok([5; 32]), |_payload: Vec<u8>| Ok(signature(6)))
            .unwrap();
    let wire = signed.encode().unwrap();
    assert_eq!(&wire[..11], b"TOM1\x00\x00\x00\x03\x01\x02\x03");
    assert_eq!(wire.len(), 8 + 3 + 32 + 64 + 3_309);
    let read = OrganizationKeyManifest::decode(&wire, read_any).unwrap();
    assert_eq!(read.manifest.canonical_payload, Some(vec![1, 2, 3]));
    assert_eq!(read.root_fingerprint, [5; 32]);
    assert_eq!(read.signature.ed25519_signature, [6; 64]);
    assert_eq!(read.signature.ml_dsa_65_signature, vec![6; 3_309]);
    assert_eq!(read.encode().unwrap(), wire);
}

#[test]
fn the_hash_of_a_manifest_is_the_digest_of_its_wire_form() {
    let manifest = KeyManifest {
        canonical_payload: Some(vec![1, 2, 3]),
        authenticator: [0; 32],
    };
    let signed =
        OrganizationKeyManifest::sign(manifest, Ok([5; 32]), |_payload: Vec<u8>| Ok(signature(6)))
            .unwrap();
    let wire = signed.encode().unwrap();
    let expected: [u8; 32] = sha2::Sha256::digest(&wire).into();
    assert_eq!(signed.authenticated_hash().unwrap(), expected);
}

#[test]
fn a_manifest_with_an_authenticator_or_without_a_payload_is_not_signed() {
    let authenticated = KeyManifest {
        canonical_payload: Some(vec![1]),
        authenticator: [1; 32],
    };
    assert!(matches!(
        OrganizationKeyManifest::sign(authenticated, Ok([5; 32]), |_payload: Vec<u8>| Ok(
            signature(6)
        )),
        Err(OrganizationManifestError::InvalidEncoding)
    ));
    let empty = KeyManifest {
        canonical_payload: None,
        authenticator: [0; 32],
    };
    assert!(matches!(
        OrganizationKeyManifest::sign(empty, Ok([5; 32]), |_payload: Vec<u8>| Ok(signature(6))),
        Err(OrganizationManifestError::KeyManifest(KeyManifestError::Invalid))
    ));
    let refused = KeyManifest {
        canonical_payload: Some(vec![1]),
        authenticator: [0; 32],
    };
    assert!(matches!(
        OrganizationKeyManifest::sign(
            refused,
            Err(OrganizationCryptoError::Rejected),
            |_payload: Vec<u8>| Ok(signature(6))
        ),
        Err(OrganizationManifestError::Signature(OrganizationCryptoError::Rejected))
    ));
}
