//! Normalization of the four extended-public-key encodings into one
//! canonical form.
//!
//! Every supported encoding is a base58Check string whose 78-byte payload
//! lays out, in order: version (4 bytes), depth (1), parent fingerprint (4),
//! child number (4, big-endian), chain code (32), compressed public key
//! (33). The encodings differ only in the version field, so normalization
//! decodes the payload, discards the original version in favour of the
//! canonical one implied by the network, and decomposes the remaining
//! fields.

use vstd::prelude::*;
use vstd::slice::{slice_subrange, slice_to_vec};

use crate::error::CustomError;
use crate::network::{
    spec_has_key_prefix, spec_network_of, ExtendedKeyType, NetworkType,
};

verus! {

/// The mathematical content of a canonical extended public key.
pub ghost struct KeyFields {
    pub network: NetworkType,
    pub depth: u8,
    pub parent_fingerprint: Seq<u8>,
    pub child_number: u32,
    pub chain_code: Seq<u8>,
    pub public_key: Seq<u8>,
}

/// A canonical extended public key: the fields shared by all four
/// encodings, reinterpreted under the canonical version bytes of its
/// network. This is the only form the deriver understands.
#[derive(Debug, Clone)]
pub struct CanonicalExtendedKey {
    pub network: NetworkType,
    pub depth: u8,
    pub parent_fingerprint: Vec<u8>,
    pub child_number: u32,
    pub chain_code: Vec<u8>,
    pub public_key: Vec<u8>,
}

impl View for CanonicalExtendedKey {
    type V = KeyFields;

    open spec fn view(&self) -> KeyFields {
        KeyFields {
            network: self.network,
            depth: self.depth,
            parent_fingerprint: self.parent_fingerprint@,
            child_number: self.child_number,
            chain_code: self.chain_code@,
            public_key: self.public_key@,
        }
    }
}

/// The canonical version bytes of an extended public key: the mainnet
/// form (`xpub`) or the testnet form (`tpub`).
pub open spec fn spec_version_bytes(network: NetworkType) -> Seq<u8> {
    match network {
        NetworkType::Mainnet => seq![0x04u8, 0x88u8, 0xB2u8, 0x1Eu8],
        NetworkType::Testnet => seq![0x04u8, 0x35u8, 0x87u8, 0xCFu8],
    }
}

/// A four-byte big-endian sequence read as a 32-bit integer.
pub open spec fn spec_be32(s: Seq<u8>) -> u32 {
    ((s[0] as u32) << 24) | ((s[1] as u32) << 16) | ((s[2] as u32) << 8) | (s[3] as u32)
}

/// The four-byte big-endian encoding of a 32-bit integer.
pub open spec fn spec_u32_be_bytes(n: u32) -> Seq<u8> {
    seq![(n >> 24) as u8, (n >> 16) as u8, (n >> 8) as u8, n as u8]
}

/// What `bitcoin::util::base58::from_check` returns on a given string:
/// `Some` payload (checksum stripped) or `None` when decoding fails. The
/// result is a pure function of the input string.
pub uninterp spec fn spec_base58check_payload(s: Seq<char>) -> Option<Seq<u8>>;

/// Whether `bitcoin::PublicKey::from_slice` accepts these bytes, i.e.
/// whether they encode a valid point on the curve. A pure function of the
/// bytes.
pub uninterp spec fn spec_valid_pubkey(b: Seq<u8>) -> bool;

/// Relies on `bitcoin::util::base58::from_check`: decodes a base58Check
/// string and strips the verified 4-byte checksum; decoding is a pure
/// function of the input and fails exactly on bad characters, too-short
/// input, or a checksum mismatch.
#[verifier::external_body]
fn base58check_decode(s: &str) -> (r: Result<Vec<u8>, CustomError>)
    ensures
        r is Ok <==> spec_base58check_payload(s@) is Some,
        r matches Ok(v) ==> spec_base58check_payload(s@) == Some(v@),
        r matches Err(e) ==> e == CustomError::DecodeError,
{
    bitcoin::util::base58::from_check(s).map_err(|_| CustomError::DecodeError)
}

/// Relies on `bitcoin::PublicKey::from_slice`: accepts exactly the byte
/// strings that encode a valid (compressed or uncompressed) public key.
#[verifier::external_body]
fn check_pubkey_bytes(b: &Vec<u8>) -> (r: bool)
    ensures
        r == spec_valid_pubkey(b@),
{
    bitcoin::PublicKey::from_slice(b).is_ok()
}

/// The fields read from a 78-byte payload, with the version field replaced
/// by the canonical form of `network`.
pub open spec fn spec_decompose(d: Seq<u8>, network: NetworkType) -> KeyFields
    recommends
        d.len() == 78,
{
    KeyFields {
        network,
        depth: d[4],
        parent_fingerprint: d.subrange(5, 9),
        child_number: spec_be32(d.subrange(9, 13)),
        chain_code: d.subrange(13, 45),
        public_key: d.subrange(45, 78),
    }
}

/// The result of normalizing the string `s` under key type `kt`: the
/// canonical fields, or the first error the normalizer meets. An `xpub`
/// input must already carry the canonical mainnet version bytes; the other
/// three encodings have their version field overwritten, so its original
/// value does not matter.
pub open spec fn spec_normalize(s: Seq<char>, kt: ExtendedKeyType) -> Result<
    KeyFields,
    CustomError,
> {
    match spec_base58check_payload(s) {
        Option::None => Result::Err(CustomError::DecodeError),
        Option::Some(d) => {
            if d.len() != 78 {
                Result::Err(CustomError::MalformedKey)
            } else if kt == ExtendedKeyType::Xpub && d.subrange(0, 4) != spec_version_bytes(
                NetworkType::Mainnet,
            ) {
                Result::Err(CustomError::MalformedKey)
            } else if !spec_valid_pubkey(d.subrange(45, 78)) {
                Result::Err(CustomError::MalformedKey)
            } else {
                Result::Ok(spec_decompose(d, spec_network_of(kt)))
            }
        },
    }
}

impl CanonicalExtendedKey {
    /// Well-formedness: every field has its wire width and the public key
    /// bytes are a valid curve point.
    pub open spec fn wf(&self) -> bool {
        &&& self.parent_fingerprint@.len() == 4
        &&& self.chain_code@.len() == 32
        &&& self.public_key@.len() == 33
        &&& spec_valid_pubkey(self.public_key@)
    }

    /// The canonical 78-byte serialization of these fields.
    pub open spec fn spec_serialized(&self) -> Seq<u8> {
        spec_serialized_fields(self@)
    }

    /// Re-encode the canonical form: version bytes of the network followed
    /// by the five fixed-width fields, 78 bytes in all.
    pub fn serialize(&self) -> (r: Vec<u8>)
        requires
            self.parent_fingerprint@.len() == 4,
            self.chain_code@.len() == 32,
            self.public_key@.len() == 33,
        ensures
            r@ == self.spec_serialized(),
            r@.len() == 78,
    {
        let mut out: Vec<u8> = Vec::new();
        match self.network {
            NetworkType::Mainnet => {
                out.push(0x04u8);
                out.push(0x88u8);
                out.push(0xB2u8);
                out.push(0x1Eu8);
            },
            NetworkType::Testnet => {
                out.push(0x04u8);
                out.push(0x35u8);
                out.push(0x87u8);
                out.push(0xCFu8);
            },
        }
        out.push(self.depth);
        let mut i: usize = 0;
        while i < self.parent_fingerprint.len()
            invariant
                i <= self.parent_fingerprint@.len(),
                out@ == spec_version_bytes(self.network) + seq![self.depth]
                    + self.parent_fingerprint@.subrange(0, i as int),
            decreases self.parent_fingerprint@.len() - i,
        {
            out.push(self.parent_fingerprint[i]);
            i = i + 1;
            proof {
                assert(self.parent_fingerprint@.subrange(0, i as int)
                    =~= self.parent_fingerprint@.subrange(0, i - 1) + seq![
                    self.parent_fingerprint@[i - 1],
                ]);
            }
        }
        proof {
            assert(self.parent_fingerprint@.subrange(0, 4) =~= self.parent_fingerprint@);
        }
        out.push((self.child_number >> 24) as u8);
        out.push((self.child_number >> 16) as u8);
        out.push((self.child_number >> 8) as u8);
        out.push(self.child_number as u8);
        let mut j: usize = 0;
        while j < self.chain_code.len()
            invariant
                j <= self.chain_code@.len(),
                out@ == spec_version_bytes(self.network) + seq![self.depth]
                    + self.parent_fingerprint@ + spec_u32_be_bytes(self.child_number)
                    + self.chain_code@.subrange(0, j as int),
            decreases self.chain_code@.len() - j,
        {
            out.push(self.chain_code[j]);
            j = j + 1;
            proof {
                assert(self.chain_code@.subrange(0, j as int) =~= self.chain_code@.subrange(
                    0,
                    j - 1,
                ) + seq![self.chain_code@[j - 1]]);
            }
        }
        proof {
            assert(self.chain_code@.subrange(0, 32) =~= self.chain_code@);
        }
        let mut m: usize = 0;
        while m < self.public_key.len()
            invariant
                m <= self.public_key@.len(),
                out@ == spec_version_bytes(self.network) + seq![self.depth]
                    + self.parent_fingerprint@ + spec_u32_be_bytes(self.child_number)
                    + self.chain_code@ + self.public_key@.subrange(0, m as int),
            decreases self.public_key@.len() - m,
        {
            out.push(self.public_key[m]);
            m = m + 1;
            proof {
                assert(self.public_key@.subrange(0, m as int) =~= self.public_key@.subrange(
                    0,
                    m - 1,
                ) + seq![self.public_key@[m - 1]]);
            }
        }
        proof {
            assert(self.public_key@.subrange(0, 33) =~= self.public_key@);
            assert(out@ =~= self.spec_serialized());
        }
        out
    }
}

/// The canonical serialization of the fields `f`.
pub open spec fn spec_serialized_fields(f: KeyFields) -> Seq<u8> {
    spec_version_bytes(f.network) + seq![f.depth] + f.parent_fingerprint + spec_u32_be_bytes(
        f.child_number,
    ) + f.chain_code + f.public_key
}

/// Re-encoding the canonical fields and decomposing the result gives the
/// fields back unchanged, and the serialization is 78 bytes long with the
/// canonical version bytes of the network in front.
pub proof fn lemma_serialize_roundtrip(f: KeyFields)
    requires
        f.parent_fingerprint.len() == 4,
        f.chain_code.len() == 32,
        f.public_key.len() == 33,
    ensures
        spec_serialized_fields(f).len() == 78,
        spec_serialized_fields(f).subrange(0, 4) == spec_version_bytes(f.network),
        spec_decompose(spec_serialized_fields(f), f.network) == f,
{
    let d = spec_serialized_fields(f);
    assert(d.len() == 78);
    assert(d.subrange(0, 4) =~= spec_version_bytes(f.network));
    assert(d.subrange(5, 9) =~= f.parent_fingerprint);
    assert(d.subrange(9, 13) =~= spec_u32_be_bytes(f.child_number));
    assert(d.subrange(13, 45) =~= f.chain_code);
    assert(d.subrange(45, 78) =~= f.public_key);
    let n = f.child_number;
    assert((((n >> 24) as u8 as u32) << 24) | (((n >> 16) as u8 as u32) << 16) | (((n >> 8) as u8
        as u32) << 8) | (n as u8 as u32) == n) by (bit_vector);
    assert(spec_be32(spec_u32_be_bytes(n)) == n);
    assert(spec_decompose(d, f.network) == f);
}

/// Read a four-byte big-endian integer out of `d` at offset `at`.
fn read_be32(d: &Vec<u8>, at: usize) -> (r: u32)
    requires
        at + 4 <= d@.len(),
    ensures
        r == spec_be32(d@.subrange(at as int, at + 4)),
{
    let n: usize = d.len();
    proof {
        // The offsets at + 1 .. at + 3 stay below the vector's length.
        assert(at + 4 <= n);
    }
    let r = ((d[at] as u32) << 24u32) | ((d[at + 1] as u32) << 16u32) | ((d[at + 2] as u32)
        << 8u32) | (d[at + 3] as u32);
    proof {
        let s = d@.subrange(at as int, at + 4);
        assert(s[0] == d@[at as int] && s[1] == d@[at + 1] && s[2] == d@[at + 2] && s[3] == d@[at
            + 3]);
    }
    r
}

/// Copy the bytes of `d` in `[from, to)` into a fresh vector.
fn subvec(d: &Vec<u8>, from: usize, to: usize) -> (r: Vec<u8>)
    requires
        from <= to <= d@.len(),
    ensures
        r@ == d@.subrange(from as int, to as int),
{
    slice_to_vec(slice_subrange(d.as_slice(), from, to))
}

/// Conversion of a prefixed extended-public-key string into the canonical
/// form that derivation understands.
pub trait ExtendedKeyConverter {
    /// The normalization result this converter owes for a given input.
    spec fn spec_convert(&self, s: Seq<char>) -> Result<KeyFields, CustomError>;

    /// Decode and normalize `pubkey` into a canonical extended key.
    fn convert_to_xpub(&self, pubkey: &str) -> (r: Result<CanonicalExtendedKey, CustomError>)
        ensures
            match r {
                Ok(k) => k.wf() && self.spec_convert(pubkey@) == Ok::<KeyFields, CustomError>(k@),
                Err(e) => self.spec_convert(pubkey@) == Err::<KeyFields, CustomError>(e),
            },
    ;
}

impl ExtendedKeyConverter for ExtendedKeyType {
    /// A key type normalizes exactly as `spec_normalize` says.
    open spec fn spec_convert(&self, s: Seq<char>) -> Result<KeyFields, CustomError> {
        spec_normalize(s, *self)
    }

    /// Base58Check-decode the input, insist on the 78-byte layout (an
    /// `xpub` must also carry the canonical mainnet version bytes), check
    /// the public-key point, and decompose the fields under the network
    /// this key type implies.
    fn convert_to_xpub(&self, pubkey: &str) -> (r: Result<CanonicalExtendedKey, CustomError>) {
        let d = match base58check_decode(pubkey) {
            Ok(d) => d,
            Err(e) => {
                return Err(e);
            },
        };
        if d.len() != 78 {
            return Err(CustomError::MalformedKey);
        }
        if matches!(self, ExtendedKeyType::Xpub) {
            if !(d[0] == 0x04u8 && d[1] == 0x88u8 && d[2] == 0xB2u8 && d[3] == 0x1Eu8) {
                proof {
                    assert(d@.subrange(0, 4) != spec_version_bytes(NetworkType::Mainnet));
                }
                return Err(CustomError::MalformedKey);
            }
            proof {
                assert(d@.subrange(0, 4) =~= spec_version_bytes(NetworkType::Mainnet));
            }
        }
        let public_key = subvec(&d, 45, 78);
        if !check_pubkey_bytes(&public_key) {
            return Err(CustomError::MalformedKey);
        }
        let network = match self {
            ExtendedKeyType::Vpub => NetworkType::Testnet,
            _ => NetworkType::Mainnet,
        };
        let key = CanonicalExtendedKey {
            network,
            depth: d[4],
            parent_fingerprint: subvec(&d, 5, 9),
            child_number: read_be32(&d, 9),
            chain_code: subvec(&d, 13, 45),
            public_key,
        };
        proof {
            assert(key@ == spec_decompose(d@, spec_network_of(*self)));
        }
        Ok(key)
    }
}

/// Parse the prefix of `pubkey` and normalize the key into canonical
/// form: the network and key type fixed by the prefix, and the decomposed
/// canonical fields. Fails with `UnsupportedFormat` when no supported
/// prefix matches, and otherwise exactly as `spec_normalize` says.
pub fn normalize(pubkey: &str) -> (r: Result<
    (NetworkType, ExtendedKeyType, CanonicalExtendedKey),
    CustomError,
>)
    ensures
        match r {
            Ok((network, kt, k)) => spec_has_key_prefix(pubkey@, kt) && network == spec_network_of(
                kt,
            ) && k.wf() && spec_normalize(pubkey@, kt) == Ok::<KeyFields, CustomError>(k@),
            Err(e) => ((forall|kt: ExtendedKeyType| !spec_has_key_prefix(pubkey@, kt)) && e
                == CustomError::UnsupportedFormat) || (exists|kt: ExtendedKeyType|
                spec_has_key_prefix(pubkey@, kt) && spec_normalize(pubkey@, kt) == Err::<
                    KeyFields,
                    CustomError,
                >(e)),
        },
{
    let (network, kt) = match crate::network::parse_network_and_key_type(pubkey) {
        Ok(p) => p,
        Err(e) => {
            return Err(e);
        },
    };
    match kt.convert_to_xpub(pubkey) {
        Ok(k) => Ok((network, kt, k)),
        Err(e) => Err(e),
    }
}

} // verus!
