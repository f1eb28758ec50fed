//! The pure parts of the Chain Info Client: the lookup URL for an
//! address and the classification of a parsed response. The HTTP call
//! itself stays outside the library; callers hand the parsed integers
//! back in.

use vstd::prelude::*;
use vstd::string::StringExecFns;

use crate::error::LookupError;
use crate::network::NetworkType;
use crate::retry::AttemptOutcome;

verus! {

/// The network-specific base of the lookup endpoint; the address is
/// appended to it.
pub open spec fn spec_lookup_base(network: NetworkType) -> Seq<char> {
    match network {
        NetworkType::Mainnet => "https://blockstream.info/api/address/"@,
        NetworkType::Testnet => "https://blockstream.info/testnet/api/address/"@,
    }
}

/// The URL whose response describes `address` on `network`.
pub fn lookup_url(network: &NetworkType, address: &str) -> (r: String)
    ensures
        r@ == spec_lookup_base(*network) + address@,
{
    match network {
        NetworkType::Mainnet => "https://blockstream.info/api/address/".to_owned().concat(
            address,
        ),
        NetworkType::Testnet => "https://blockstream.info/testnet/api/address/".to_owned().concat(
            address,
        ),
    }
}

/// What one parsed response means: the totals default to zero when a
/// field is absent (the caller passes the defaults in), a spent total
/// above the funded total is a malformed response, and otherwise the
/// attempt succeeds with balance = funded - spent.
pub open spec fn spec_classify_stats(funded: u64, spent: u64, tx_count: u64) -> AttemptOutcome {
    if spent > funded {
        AttemptOutcome::Failure { error: LookupError::Malformed }
    } else {
        AttemptOutcome::Success { balance: (funded - spent) as u64, tx_count }
    }
}

/// Classify the integers parsed out of one response body.
pub fn classify_stats(funded: u64, spent: u64, tx_count: u64) -> (r: AttemptOutcome)
    ensures
        r == spec_classify_stats(funded, spent, tx_count),
{
    if spent > funded {
        AttemptOutcome::Failure { error: LookupError::Malformed }
    } else {
        AttemptOutcome::Success { balance: funded - spent, tx_count }
    }
}

} // verus!
