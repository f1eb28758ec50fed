//! Derivation of child addresses from a canonical extended public key.
//!
//! The derivation path is always two non-hardened levels: the external
//! chain marker `0`, then the caller's index. The address encoding is
//! fixed by the key type of the original input, never chosen separately:
//! legacy pay-to-public-key-hash for `xpub`, script-hash-wrapped witness
//! for `ypub`, native witness for `zpub` and `vpub`.

use vstd::prelude::*;

use bitcoin::network::constants::Network;
use bitcoin::util::bip32::{ChainCode, ChildNumber, ExtendedPubKey};

use crate::error::CustomError;
use crate::keys::{spec_valid_pubkey, CanonicalExtendedKey, KeyFields};
use crate::network::{ExtendedKeyType, NetworkType};

verus! {

/// Information kept about one discovered (used) address.
#[derive(Debug, Clone)]
pub struct AddressInfo {
    pub address: String,
    pub balance: u64,
    pub tx_count: u64,
}

/// What BIP32 public ("neutered") derivation computes for the two-level
/// path `change / index` below a parent key: `Some` compressed child
/// public key, or `None` in the negligible case the child tweak falls
/// outside the curve order. The child key is a pure function of the
/// parent public key, the chain code and the path.
pub uninterp spec fn spec_ckd2(
    chain_code: Seq<u8>,
    public_key: Seq<u8>,
    change: u32,
    index: u32,
) -> Option<Seq<u8>>;

/// The legacy pay-to-public-key-hash address string of a public key, on
/// the mainnet or testnet character set.
pub uninterp spec fn spec_p2pkh(public_key: Seq<u8>, testnet: bool) -> Seq<char>;

/// The pay-to-script-hash address string wrapping a
/// pay-to-witness-public-key-hash redeem script of a public key.
pub uninterp spec fn spec_p2shwpkh(public_key: Seq<u8>, testnet: bool) -> Seq<char>;

/// The native pay-to-witness-public-key-hash address string of a public
/// key.
pub uninterp spec fn spec_p2wpkh(public_key: Seq<u8>, testnet: bool) -> Seq<char>;

/// Relies on bitcoin's `ExtendedPubKey::derive_pub`: BIP32 public child
/// derivation. The child public key depends only on the parent public key,
/// the chain code and the path; depth, parent fingerprint, child number
/// and network do not enter the computation, so placeholders stand in for
/// them. The returned compressed serialization is 33 bytes and parses back
/// as a valid point.
#[verifier::external_body]
fn derive_child_pubkey(
    chain_code: &Vec<u8>,
    public_key: &Vec<u8>,
    change: u32,
    index: u32,
) -> (r: Result<Vec<u8>, CustomError>)
    requires
        chain_code@.len() == 32,
        public_key@.len() == 33,
        spec_valid_pubkey(public_key@),
        change < 0x8000_0000,
        index < 0x8000_0000,
    ensures
        r is Ok <==> spec_ckd2(chain_code@, public_key@, change, index) is Some,
        r matches Ok(pk) ==> spec_ckd2(chain_code@, public_key@, change, index) == Some(pk@)
            && pk@.len() == 33 && spec_valid_pubkey(pk@),
        r matches Err(e) ==> e == CustomError::DerivationError,
{
    let parent = ExtendedPubKey {
        network: Network::Bitcoin,
        depth: 0,
        parent_fingerprint: Default::default(),
        child_number: ChildNumber::Normal { index: 0 },
        chain_code: ChainCode::from(&chain_code[..]),
        public_key: bitcoin::PublicKey::from_slice(public_key).expect("checked point"),
    };
    let secp = bitcoin::secp256k1::Secp256k1::verification_only();
    let path = [ChildNumber::Normal { index: change }, ChildNumber::Normal { index }];
    let child = parent.derive_pub(&secp, &path).map_err(|_| CustomError::DerivationError)?;
    Ok(child.public_key.key.serialize().to_vec())
}

/// Relies on `bitcoin::Address::p2pkh` and its string rendering: the
/// legacy address is a pure function of the public key bytes and the
/// network, and `bitcoin::PublicKey::from_slice` accepts exactly the
/// valid point encodings.
#[verifier::external_body]
fn p2pkh_address(public_key: &Vec<u8>, testnet: bool) -> (r: Result<String, CustomError>)
    requires
        public_key@.len() == 33,
    ensures
        r is Ok <==> spec_valid_pubkey(public_key@),
        r matches Ok(a) ==> a@ == spec_p2pkh(public_key@, testnet),
        r matches Err(e) ==> e == CustomError::DerivationError,
{
    let net = if testnet { Network::Testnet } else { Network::Bitcoin };
    let pk = bitcoin::PublicKey::from_slice(public_key).map_err(|_| CustomError::DerivationError)?;
    Ok(bitcoin::Address::p2pkh(&pk, net).to_string())
}

/// Relies on `bitcoin::Address::p2shwpkh`: the script-hash-wrapped
/// witness address is a pure function of the public key bytes and the
/// network; for a 33-byte slice the parsed key is compressed, so the
/// encoder's uncompressed-key failure cannot occur.
#[verifier::external_body]
fn p2shwpkh_address(public_key: &Vec<u8>, testnet: bool) -> (r: Result<String, CustomError>)
    requires
        public_key@.len() == 33,
    ensures
        r is Ok <==> spec_valid_pubkey(public_key@),
        r matches Ok(a) ==> a@ == spec_p2shwpkh(public_key@, testnet),
        r matches Err(e) ==> e == CustomError::DerivationError,
{
    let net = if testnet { Network::Testnet } else { Network::Bitcoin };
    let pk = bitcoin::PublicKey::from_slice(public_key).map_err(|_| CustomError::DerivationError)?;
    let address = bitcoin::Address::p2shwpkh(&pk, net).map_err(|_| CustomError::DerivationError)?;
    Ok(address.to_string())
}

/// Relies on `bitcoin::Address::p2wpkh`: the native witness address is a
/// pure function of the public key bytes and the network; for a 33-byte
/// slice the parsed key is compressed, so the encoder's uncompressed-key
/// failure cannot occur.
#[verifier::external_body]
fn p2wpkh_address(public_key: &Vec<u8>, testnet: bool) -> (r: Result<String, CustomError>)
    requires
        public_key@.len() == 33,
    ensures
        r is Ok <==> spec_valid_pubkey(public_key@),
        r matches Ok(a) ==> a@ == spec_p2wpkh(public_key@, testnet),
        r matches Err(e) ==> e == CustomError::DerivationError,
{
    let net = if testnet { Network::Testnet } else { Network::Bitcoin };
    let pk = bitcoin::PublicKey::from_slice(public_key).map_err(|_| CustomError::DerivationError)?;
    let address = bitcoin::Address::p2wpkh(&pk, net).map_err(|_| CustomError::DerivationError)?;
    Ok(address.to_string())
}

/// The compressed child public key of `k` at the external-chain path
/// `0 / index`.
pub open spec fn spec_child_pubkey(k: KeyFields, index: u32) -> Option<Seq<u8>> {
    spec_ckd2(k.chain_code, k.public_key, 0, index)
}

/// The address string derived from `k` at `index`: the child key at
/// `0 / index`, encoded in the format the key type fixes, on the given
/// network's character set.
pub open spec fn spec_address(
    k: KeyFields,
    index: u32,
    kt: ExtendedKeyType,
    network: NetworkType,
) -> Seq<char>
    recommends
        spec_child_pubkey(k, index) is Some,
{
    let child = spec_child_pubkey(k, index)->Some_0;
    let testnet = network == NetworkType::Testnet;
    match kt {
        ExtendedKeyType::Xpub => spec_p2pkh(child, testnet),
        ExtendedKeyType::Ypub => spec_p2shwpkh(child, testnet),
        ExtendedKeyType::Zpub => spec_p2wpkh(child, testnet),
        ExtendedKeyType::Vpub => spec_p2wpkh(child, testnet),
    }
}

/// Derive the receiving address of `key` at `index`.
///
/// Succeeds exactly when the index is inside the non-hardened space and
/// the child-key computation lands on the curve; every failure is a
/// `DerivationError`, which callers treat as fatal for the whole scan.
pub fn derive_address(
    key: &CanonicalExtendedKey,
    index: u32,
    key_type: &ExtendedKeyType,
    network_type: &NetworkType,
) -> (r: Result<String, CustomError>)
    requires
        key.wf(),
    ensures
        r is Ok <==> (index < 0x8000_0000 && spec_child_pubkey(key@, index) is Some),
        r matches Ok(a) ==> a@ == spec_address(key@, index, *key_type, *network_type),
        r matches Err(e) ==> e == CustomError::DerivationError,
{
    if index >= 0x8000_0000 {
        return Err(CustomError::DerivationError);
    }
    let child = match derive_child_pubkey(&key.chain_code, &key.public_key, 0, index) {
        Ok(pk) => pk,
        Err(e) => {
            return Err(e);
        },
    };
    let testnet = matches!(network_type, NetworkType::Testnet);
    let encoded = match key_type {
        ExtendedKeyType::Xpub => p2pkh_address(&child, testnet),
        ExtendedKeyType::Ypub => p2shwpkh_address(&child, testnet),
        ExtendedKeyType::Zpub => p2wpkh_address(&child, testnet),
        ExtendedKeyType::Vpub => p2wpkh_address(&child, testnet),
    };
    match encoded {
        Ok(a) => Ok(a),
        Err(e) => {
            // Unreachable: the derived child key parses back as a valid
            // compressed point, so no encoder can refuse it.
            proof {
                assert(false);
            }
            Err(e)
        },
    }
}

/// Derivation is deterministic: two address strings obtained from the
/// same canonical key, index, key type and network are identical.
pub proof fn lemma_derivation_deterministic(
    a1: Seq<char>,
    a2: Seq<char>,
    k: KeyFields,
    index: u32,
    kt: ExtendedKeyType,
    network: NetworkType,
)
    requires
        a1 == spec_address(k, index, kt, network),
        a2 == spec_address(k, index, kt, network),
    ensures
        a1 == a2,
{
}

/// The address format is fixed by the key type alone, on the network's
/// own character set: legacy pay-to-public-key-hash for `xpub`,
/// script-hash-wrapped witness for `ypub`, native witness for `zpub` and
/// `vpub`.
pub proof fn lemma_address_format_matches_key_type(
    k: KeyFields,
    index: u32,
    kt: ExtendedKeyType,
    network: NetworkType,
)
    ensures
        kt == ExtendedKeyType::Xpub ==> spec_address(k, index, kt, network) == spec_p2pkh(
            spec_child_pubkey(k, index)->Some_0,
            network == NetworkType::Testnet,
        ),
        kt == ExtendedKeyType::Ypub ==> spec_address(k, index, kt, network) == spec_p2shwpkh(
            spec_child_pubkey(k, index)->Some_0,
            network == NetworkType::Testnet,
        ),
        (kt == ExtendedKeyType::Zpub || kt == ExtendedKeyType::Vpub) ==> spec_address(
            k,
            index,
            kt,
            network,
        ) == spec_p2wpkh(spec_child_pubkey(k, index)->Some_0, network == NetworkType::Testnet),
{
}

} // verus!
