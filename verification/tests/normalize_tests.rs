use bitcoin::network::constants::Network;
use bitcoin::util::bip32::{ChainCode, ChildNumber, ExtendedPubKey};

use xpub_scan::error::CustomError;
use xpub_scan::keys::{normalize, ExtendedKeyConverter};
use xpub_scan::network::{parse_network_and_key_type, ExtendedKeyType, NetworkType};

/// A deterministic, structurally valid extended public key string.
fn fixture_xpub() -> String {
    let secp = bitcoin::secp256k1::Secp256k1::new();
    let sk = bitcoin::secp256k1::SecretKey::from_slice(&[1u8; 32]).unwrap();
    let pk = bitcoin::secp256k1::PublicKey::from_secret_key(&secp, &sk);
    let xpub = ExtendedPubKey {
        network: Network::Bitcoin,
        depth: 0,
        parent_fingerprint: Default::default(),
        child_number: ChildNumber::from_normal_idx(0).unwrap(),
        chain_code: ChainCode::from(&[7u8; 32][..]),
        public_key: bitcoin::PublicKey { compressed: true, key: pk },
    };
    xpub.to_string()
}

/// The same key material re-encoded under different version bytes.
fn with_version(key: &str, version: [u8; 4]) -> String {
    let mut data = bitcoin::util::base58::from_check(key).unwrap();
    data[0..4].copy_from_slice(&version);
    bitcoin::util::base58::check_encode_slice(&data)
}

const YPUB_VERSION: [u8; 4] = [0x04, 0x9D, 0x7C, 0xB2];
const ZPUB_VERSION: [u8; 4] = [0x04, 0xB2, 0x47, 0x46];
const VPUB_VERSION: [u8; 4] = [0x04, 0x5F, 0x1C, 0xF6];

#[test]
fn parse_pairs_all_four_prefixes() {
    let xpub = fixture_xpub();
    let ypub = with_version(&xpub, YPUB_VERSION);
    let zpub = with_version(&xpub, ZPUB_VERSION);
    let vpub = with_version(&xpub, VPUB_VERSION);

    let (n, k) = parse_network_and_key_type(&xpub).unwrap();
    assert_eq!(n, NetworkType::Mainnet);
    assert_eq!(k, ExtendedKeyType::Xpub);
    let (n, k) = parse_network_and_key_type(&ypub).unwrap();
    assert_eq!(n, NetworkType::Mainnet);
    assert_eq!(k, ExtendedKeyType::Ypub);
    let (n, k) = parse_network_and_key_type(&zpub).unwrap();
    assert_eq!(n, NetworkType::Mainnet);
    assert_eq!(k, ExtendedKeyType::Zpub);
    let (n, k) = parse_network_and_key_type(&vpub).unwrap();
    assert_eq!(n, NetworkType::Testnet);
    assert_eq!(k, ExtendedKeyType::Vpub);
}

#[test]
fn parse_rejects_unknown_prefix() {
    assert_eq!(
        parse_network_and_key_type("tpubDCBWBScQPGv4a6Co").unwrap_err(),
        CustomError::UnsupportedFormat
    );
    assert_eq!(parse_network_and_key_type("").unwrap_err(), CustomError::UnsupportedFormat);
    assert_eq!(parse_network_and_key_type("xpu").unwrap_err(), CustomError::UnsupportedFormat);
}

#[test]
fn normalize_keeps_the_key_fields() {
    let xpub = fixture_xpub();
    let reference = bitcoin::util::base58::from_check(&xpub).unwrap();
    for s in [
        xpub.clone(),
        with_version(&xpub, YPUB_VERSION),
        with_version(&xpub, ZPUB_VERSION),
        with_version(&xpub, VPUB_VERSION),
    ] {
        let (_, _, key) = normalize(&s).unwrap();
        assert_eq!(key.depth, reference[4]);
        assert_eq!(&key.parent_fingerprint[..], &reference[5..9]);
        assert_eq!(key.child_number, 0);
        assert_eq!(&key.chain_code[..], &reference[13..45]);
        assert_eq!(&key.public_key[..], &reference[45..78]);
    }
}

#[test]
fn normalize_rejects_bad_base58() {
    // '!' is not a base58 character, so decoding fails before anything else.
    assert_eq!(normalize("xpub!!!!").unwrap_err(), CustomError::DecodeError);
    // A truncated but alphabet-clean string fails its checksum.
    let mut s = fixture_xpub();
    s.truncate(20);
    assert_eq!(normalize(&s).unwrap_err(), CustomError::DecodeError);
}

#[test]
fn normalize_rejects_short_payload() {
    // A valid base58Check string whose payload is shorter than 78 bytes.
    let short = bitcoin::util::base58::check_encode_slice(&[0x04, 0x88, 0xB2, 0x1E, 0, 0]);
    let r = ExtendedKeyType::Xpub.convert_to_xpub(&short);
    assert_eq!(r.unwrap_err(), CustomError::MalformedKey);
}

#[test]
fn normalize_rejects_invalid_point() {
    // 78 bytes in the right layout whose public-key field is not a point.
    let mut payload = vec![0x04u8, 0x88, 0xB2, 0x1E];
    payload.push(0); // depth
    payload.extend_from_slice(&[0u8; 4]); // parent fingerprint
    payload.extend_from_slice(&[0u8; 4]); // child number
    payload.extend_from_slice(&[7u8; 32]); // chain code
    payload.extend_from_slice(&[0u8; 33]); // not a valid compressed point
    assert_eq!(payload.len(), 78);
    let s = bitcoin::util::base58::check_encode_slice(&payload);
    let r = ExtendedKeyType::Xpub.convert_to_xpub(&s);
    assert_eq!(r.unwrap_err(), CustomError::MalformedKey);
}

#[test]
fn normalize_rejects_xpub_with_foreign_version() {
    // The ypub-version string must not pass through the xpub path.
    let ypub = with_version(&fixture_xpub(), YPUB_VERSION);
    let r = ExtendedKeyType::Xpub.convert_to_xpub(&ypub);
    assert_eq!(r.unwrap_err(), CustomError::MalformedKey);
}

#[test]
fn reencoded_canonical_form_decodes_in_reference_implementation() {
    let xpub = fixture_xpub();
    let reference = ExtendedPubKey::decode(&bitcoin::util::base58::from_check(&xpub).unwrap())
        .unwrap();
    // Mainnet encodings: the canonical form re-encodes under the xpub
    // version bytes and round-trips through the reference decoder.
    for s in [xpub.clone(), with_version(&xpub, YPUB_VERSION), with_version(&xpub, ZPUB_VERSION)] {
        let (_, _, key) = normalize(&s).unwrap();
        let bytes = key.serialize();
        assert_eq!(bytes.len(), 78);
        assert_eq!(&bytes[0..4], &[0x04, 0x88, 0xB2, 0x1E]);
        let decoded = ExtendedPubKey::decode(&bytes).unwrap();
        assert_eq!(decoded, reference);
    }
    // The testnet encoding re-encodes under the canonical testnet bytes.
    let (_, _, key) = normalize(&with_version(&xpub, VPUB_VERSION)).unwrap();
    let bytes = key.serialize();
    assert_eq!(&bytes[0..4], &[0x04, 0x35, 0x87, 0xCF]);
    let decoded = ExtendedPubKey::decode(&bytes).unwrap();
    assert_eq!(decoded.network, Network::Testnet);
    assert_eq!(decoded.depth, reference.depth);
    assert_eq!(decoded.chain_code, reference.chain_code);
    assert_eq!(decoded.public_key, reference.public_key);
}

#[test]
fn key_type_prefix_strings() {
    assert_eq!(ExtendedKeyType::Xpub.prefix(), "xpub");
    assert_eq!(ExtendedKeyType::Ypub.prefix(), "ypub");
    assert_eq!(ExtendedKeyType::Zpub.prefix(), "zpub");
    assert_eq!(ExtendedKeyType::Vpub.prefix(), "vpub");
}

#[test]
fn error_messages_are_stable() {
    assert_eq!(CustomError::UnsupportedFormat.message(), "Unsupported pubkey format");
    assert_eq!(CustomError::MaxRetriesReached.message(), "Max retries reached");
}
