use bitcoin::network::constants::Network;
use bitcoin::util::bip32::{ChainCode, ChildNumber, DerivationPath, ExtendedPubKey};

use xpub_scan::address::derive_address;
use xpub_scan::error::CustomError;
use xpub_scan::keys::normalize;
use xpub_scan::network::{ExtendedKeyType, NetworkType};

/// A deterministic, structurally valid extended public key string.
fn fixture_xpub() -> String {
    let secp = bitcoin::secp256k1::Secp256k1::new();
    let sk = bitcoin::secp256k1::SecretKey::from_slice(&[1u8; 32]).unwrap();
    let pk = bitcoin::secp256k1::PublicKey::from_secret_key(&secp, &sk);
    let xpub = ExtendedPubKey {
        network: Network::Bitcoin,
        depth: 0,
        parent_fingerprint: Default::default(),
        child_number: ChildNumber::from_normal_idx(0).unwrap(),
        chain_code: ChainCode::from(&[7u8; 32][..]),
        public_key: bitcoin::PublicKey { compressed: true, key: pk },
    };
    xpub.to_string()
}

/// The same key material re-encoded under different version bytes.
fn with_version(key: &str, version: [u8; 4]) -> String {
    let mut data = bitcoin::util::base58::from_check(key).unwrap();
    data[0..4].copy_from_slice(&version);
    bitcoin::util::base58::check_encode_slice(&data)
}

/// What the reference implementation derives at `0/index`.
fn reference_child(xpub: &str, index: u32) -> bitcoin::PublicKey {
    let secp = bitcoin::secp256k1::Secp256k1::new();
    let parent: ExtendedPubKey = xpub.parse().unwrap();
    let path = DerivationPath::from(vec![
        ChildNumber::Normal { index: 0 },
        ChildNumber::Normal { index },
    ]);
    parent.derive_pub(&secp, &path).unwrap().public_key
}

#[test]
fn derivation_is_deterministic() {
    let (network, kt, key) = normalize(&fixture_xpub()).unwrap();
    let a1 = derive_address(&key, 5, &kt, &network).unwrap();
    let a2 = derive_address(&key, 5, &kt, &network).unwrap();
    assert_eq!(a1, a2);
}

#[test]
fn xpub_derives_legacy_addresses() {
    let xpub = fixture_xpub();
    let (network, kt, key) = normalize(&xpub).unwrap();
    for index in [0u32, 1, 7] {
        let address = derive_address(&key, index, &kt, &network).unwrap();
        let expected =
            bitcoin::Address::p2pkh(&reference_child(&xpub, index), Network::Bitcoin).to_string();
        assert_eq!(address, expected);
        assert!(address.starts_with('1'));
    }
}

#[test]
fn ypub_derives_wrapped_witness_addresses() {
    let xpub = fixture_xpub();
    let ypub = with_version(&xpub, [0x04, 0x9D, 0x7C, 0xB2]);
    let (network, kt, key) = normalize(&ypub).unwrap();
    assert_eq!(kt, ExtendedKeyType::Ypub);
    for index in [0u32, 3] {
        let address = derive_address(&key, index, &kt, &network).unwrap();
        let expected =
            bitcoin::Address::p2shwpkh(&reference_child(&xpub, index), Network::Bitcoin)
                .unwrap()
                .to_string();
        assert_eq!(address, expected);
        assert!(address.starts_with('3'));
    }
}

#[test]
fn zpub_derives_native_witness_addresses() {
    let xpub = fixture_xpub();
    let zpub = with_version(&xpub, [0x04, 0xB2, 0x47, 0x46]);
    let (network, kt, key) = normalize(&zpub).unwrap();
    assert_eq!(kt, ExtendedKeyType::Zpub);
    let address = derive_address(&key, 2, &kt, &network).unwrap();
    let expected = bitcoin::Address::p2wpkh(&reference_child(&xpub, 2), Network::Bitcoin)
        .unwrap()
        .to_string();
    assert_eq!(address, expected);
    assert!(address.starts_with("bc1"));
}

#[test]
fn vpub_derives_testnet_witness_addresses() {
    let xpub = fixture_xpub();
    let vpub = with_version(&xpub, [0x04, 0x5F, 0x1C, 0xF6]);
    let (network, kt, key) = normalize(&vpub).unwrap();
    assert_eq!(network, NetworkType::Testnet);
    assert_eq!(kt, ExtendedKeyType::Vpub);
    let address = derive_address(&key, 0, &kt, &network).unwrap();
    let expected = bitcoin::Address::p2wpkh(&reference_child(&xpub, 0), Network::Testnet)
        .unwrap()
        .to_string();
    assert_eq!(address, expected);
    assert!(address.starts_with("tb1"));
}

#[test]
fn hardened_index_space_is_rejected() {
    let (network, kt, key) = normalize(&fixture_xpub()).unwrap();
    let r = derive_address(&key, 0x8000_0000, &kt, &network);
    assert_eq!(r.unwrap_err(), CustomError::DerivationError);
}
