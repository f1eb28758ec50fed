//! Network and extended-key-type classification of an input key string.
//!
//! The type of an extended public key is determined solely by the four-byte
//! textual prefix of its encoding, and the network is a pure function of
//! that type: `vpub` keys are testnet keys, all others are mainnet keys.

use vstd::prelude::*;

use crate::error::CustomError;

verus! {

/// The network a key and its derived addresses belong to.
#[derive(Clone, Copy, Debug, PartialEq, Eq, Structural)]
pub enum NetworkType {
    Mainnet,
    Testnet,
}

/// The four supported extended-public-key encodings, told apart only by
/// the textual prefix of the input string.
#[derive(Clone, Copy, Debug, PartialEq, Eq, Structural)]
pub enum ExtendedKeyType {
    Xpub,
    Ypub,
    Zpub,
    Vpub,
}

/// The textual prefix that selects each key type.
pub open spec fn spec_prefix_of(kt: ExtendedKeyType) -> Seq<char> {
    match kt {
        ExtendedKeyType::Xpub => seq!['x', 'p', 'u', 'b'],
        ExtendedKeyType::Ypub => seq!['y', 'p', 'u', 'b'],
        ExtendedKeyType::Zpub => seq!['z', 'p', 'u', 'b'],
        ExtendedKeyType::Vpub => seq!['v', 'p', 'u', 'b'],
    }
}

/// The network implied by a key type: `vpub` is the only testnet encoding.
pub open spec fn spec_network_of(kt: ExtendedKeyType) -> NetworkType {
    match kt {
        ExtendedKeyType::Vpub => NetworkType::Testnet,
        _ => NetworkType::Mainnet,
    }
}

/// Whether the character sequence `s` starts with the prefix of `kt`.
pub open spec fn spec_has_key_prefix(s: Seq<char>, kt: ExtendedKeyType) -> bool {
    s.len() >= 4 && s.subrange(0, 4) == spec_prefix_of(kt)
}

/// The network/key-type pairing is fixed: `vpub` is the one testnet
/// encoding, the other three prefixes are mainnet encodings, and no
/// other pairing ever occurs.
pub proof fn lemma_network_key_pairing()
    ensures
        forall|kt: ExtendedKeyType|
            #[trigger] spec_network_of(kt) == NetworkType::Testnet <==> kt
                == ExtendedKeyType::Vpub,
{
}

impl ExtendedKeyType {
    /// The prefix of this key type as a string, e.g. `"xpub"`.
    pub fn prefix(&self) -> (r: String)
        ensures
            r@ == spec_prefix_of(*self),
    {
        match self {
            ExtendedKeyType::Xpub => {
                proof {
                    reveal_strlit("xpub");
                    assert("xpub"@ =~= spec_prefix_of(ExtendedKeyType::Xpub));
                }
                "xpub".to_owned()
            },
            ExtendedKeyType::Ypub => {
                proof {
                    reveal_strlit("ypub");
                    assert("ypub"@ =~= spec_prefix_of(ExtendedKeyType::Ypub));
                }
                "ypub".to_owned()
            },
            ExtendedKeyType::Zpub => {
                proof {
                    reveal_strlit("zpub");
                    assert("zpub"@ =~= spec_prefix_of(ExtendedKeyType::Zpub));
                }
                "zpub".to_owned()
            },
            ExtendedKeyType::Vpub => {
                proof {
                    reveal_strlit("vpub");
                    assert("vpub"@ =~= spec_prefix_of(ExtendedKeyType::Vpub));
                }
                "vpub".to_owned()
            },
        }
    }
}

/// Whether `s` starts with the four characters `c0 c1 c2 c3`.
fn starts_with_4(s: &str, c0: char, c1: char, c2: char, c3: char) -> (r: bool)
    ensures
        r == (s@.len() >= 4 && s@[0] == c0 && s@[1] == c1 && s@[2] == c2 && s@[3] == c3),
{
    let n = s.unicode_len();
    if n < 4 {
        return false;
    }
    s.get_char(0) == c0 && s.get_char(1) == c1 && s.get_char(2) == c2 && s.get_char(3) == c3
}

proof fn lemma_prefix_chars(s: Seq<char>, kt: ExtendedKeyType)
    requires
        s.len() >= 4,
    ensures
        spec_has_key_prefix(s, kt) == (s.subrange(0, 4) =~= spec_prefix_of(kt)),
        (s.subrange(0, 4) =~= spec_prefix_of(kt)) == (s[0] == spec_prefix_of(kt)[0] && s[1]
            == spec_prefix_of(kt)[1] && s[2] == spec_prefix_of(kt)[2] && s[3] == spec_prefix_of(
            kt,
        )[3]),
{
    assert(s.subrange(0, 4).len() == 4);
    if s[0] == spec_prefix_of(kt)[0] && s[1] == spec_prefix_of(kt)[1] && s[2] == spec_prefix_of(
        kt,
    )[2] && s[3] == spec_prefix_of(kt)[3] {
        assert(s.subrange(0, 4) =~= spec_prefix_of(kt));
    }
}

/// Classify the input key string by its prefix. Returns the key type whose
/// prefix matches, paired with the network that type implies; an input that
/// starts with none of the four supported prefixes is rejected.
pub fn parse_network_and_key_type(pubkey: &str) -> (r: Result<
    (NetworkType, ExtendedKeyType),
    CustomError,
>)
    ensures
        match r {
            Ok((network, kt)) => spec_has_key_prefix(pubkey@, kt) && network == spec_network_of(
                kt,
            ),
            Err(e) => e == CustomError::UnsupportedFormat && forall|kt: ExtendedKeyType|
                !spec_has_key_prefix(pubkey@, kt),
        },
{
    proof {
        if pubkey@.len() >= 4 {
            lemma_prefix_chars(pubkey@, ExtendedKeyType::Xpub);
            lemma_prefix_chars(pubkey@, ExtendedKeyType::Ypub);
            lemma_prefix_chars(pubkey@, ExtendedKeyType::Zpub);
            lemma_prefix_chars(pubkey@, ExtendedKeyType::Vpub);
        }
    }
    if starts_with_4(pubkey, 'v', 'p', 'u', 'b') {
        Ok((NetworkType::Testnet, ExtendedKeyType::Vpub))
    } else if starts_with_4(pubkey, 'x', 'p', 'u', 'b') {
        Ok((NetworkType::Mainnet, ExtendedKeyType::Xpub))
    } else if starts_with_4(pubkey, 'y', 'p', 'u', 'b') {
        Ok((NetworkType::Mainnet, ExtendedKeyType::Ypub))
    } else if starts_with_4(pubkey, 'z', 'p', 'u', 'b') {
        Ok((NetworkType::Mainnet, ExtendedKeyType::Zpub))
    } else {
        proof {
            assert forall|kt: ExtendedKeyType| !spec_has_key_prefix(pubkey@, kt) by {
                if pubkey@.len() >= 4 {
                    lemma_prefix_chars(pubkey@, kt);
                }
            }
        }
        Err(CustomError::UnsupportedFormat)
    }
}

} // verus!
