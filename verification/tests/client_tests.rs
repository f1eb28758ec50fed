use xpub_scan::client::{classify_stats, lookup_url};
use xpub_scan::error::LookupError;
use xpub_scan::network::NetworkType;
use xpub_scan::retry::AttemptOutcome;

#[test]
fn lookup_url_appends_the_address_to_the_network_base() {
    assert_eq!(
        lookup_url(&NetworkType::Mainnet, "bc1qabc"),
        "https://blockstream.info/api/address/bc1qabc"
    );
    assert_eq!(
        lookup_url(&NetworkType::Testnet, "tb1qdef"),
        "https://blockstream.info/testnet/api/address/tb1qdef"
    );
}

#[test]
fn classify_stats_computes_the_balance() {
    assert_eq!(classify_stats(10, 3, 4), AttemptOutcome::Success { balance: 7, tx_count: 4 });
    assert_eq!(classify_stats(0, 0, 0), AttemptOutcome::Success { balance: 0, tx_count: 0 });
    assert_eq!(
        classify_stats(100, 100, 12),
        AttemptOutcome::Success { balance: 0, tx_count: 12 }
    );
}

#[test]
fn classify_stats_rejects_inconsistent_totals() {
    assert_eq!(
        classify_stats(3, 10, 1),
        AttemptOutcome::Failure { error: LookupError::Malformed }
    );
}
