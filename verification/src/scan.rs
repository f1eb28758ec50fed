//! The gap-limited discovery loop.
//!
//! Starting from a caller-supplied index, the scanner derives one address
//! per index, looks its usage up, and keeps a record of every used
//! address. It stops for exactly one of three reasons: the optional end
//! bound is reached, the global lookup budget is spent, or a run of
//! consecutive unused addresses reaches the gap threshold. A lookup that
//! fails even after its internal retries is skipped: it neither extends
//! nor resets the unused streak, spends no budget, and adds no record.
//!
//! The loop's decisions are pure functions of the scanner state and the
//! per-index lookup events, so the whole loop is modelled by `spec_scan`
//! and the executable scanner is proved against that model.

use vstd::prelude::*;

use crate::address::{derive_address, spec_address, spec_child_pubkey, AddressInfo};
use crate::error::CustomError;
use crate::keys::{spec_normalize, CanonicalExtendedKey, ExtendedKeyConverter, KeyFields};
use crate::network::{ExtendedKeyType, NetworkType};

verus! {

/// The hard ceiling on chain-info lookups in one run.
pub const MAX_API_CALLS: u32 = 500;

/// The outcome of one address lookup as the scanner sees it: the
/// service's answer, or failure after the lookup's internal retries.
#[derive(Clone, Copy, Debug, PartialEq, Eq, Structural)]
pub enum LookupEvent {
    Completed { balance: u64, tx_count: u64 },
    Failed,
}

/// Why a scan stopped.
#[derive(Clone, Copy, Debug, PartialEq, Eq, Structural)]
pub enum StopReason {
    /// The end bound was reached.
    EndReached,
    /// The global lookup budget was spent.
    BudgetExhausted,
    /// The run of consecutive unused addresses reached the threshold.
    GapReached,
}

/// Per-iteration scanner state: the next index to derive, the current
/// run of consecutive unused addresses, and the lookups spent so far.
#[derive(Clone, Copy, Debug, PartialEq, Eq, Structural)]
pub struct ScanState {
    pub index: u32,
    pub consecutive_unused: u32,
    pub api_calls: u32,
}

/// One used address as the model records it.
pub ghost struct ScanRecord {
    pub index: u32,
    pub balance: u64,
    pub tx_count: u64,
}

/// Everything a finished scan produced: the used-address records in
/// derivation order, the final state, why it stopped (`None`: the event
/// sequence ran out first), and how many lookups it performed.
pub ghost struct ScanOutcome {
    pub records: Seq<ScanRecord>,
    pub state: ScanState,
    pub stop: Option<StopReason>,
    pub lookups: nat,
}

/// The state a scan starts from: the caller's start index, no unused
/// streak, no budget spent.
pub open spec fn spec_initial_state(start: u32) -> ScanState {
    ScanState { index: start, consecutive_unused: 0, api_calls: 0 }
}

/// Whether the scanner must stop before deriving the next index, and
/// why: the end bound first, then the budget.
pub open spec fn spec_should_stop(s: ScanState, end: Option<u32>) -> Option<StopReason> {
    if end matches Some(e) && s.index >= e {
        Option::Some(StopReason::EndReached)
    } else if s.api_calls >= MAX_API_CALLS {
        Option::Some(StopReason::BudgetExhausted)
    } else {
        Option::None
    }
}

/// The balance a completed event carries.
pub open spec fn spec_event_balance(ev: LookupEvent) -> u64 {
    match ev {
        LookupEvent::Completed { balance, .. } => balance,
        LookupEvent::Failed => 0,
    }
}

/// The transaction count a completed event carries.
pub open spec fn spec_event_tx_count(ev: LookupEvent) -> u64 {
    match ev {
        LookupEvent::Completed { tx_count, .. } => tx_count,
        LookupEvent::Failed => 0,
    }
}

/// The scanner state after one lookup event: the index always advances;
/// a completed lookup spends one budget unit and either extends the
/// unused streak (both figures zero) or resets it; a failed lookup
/// changes nothing else.
pub open spec fn spec_step_state(s: ScanState, ev: LookupEvent) -> ScanState {
    match ev {
        LookupEvent::Completed { balance, tx_count } => ScanState {
            index: (s.index + 1) as u32,
            consecutive_unused: if balance == 0 && tx_count == 0 {
                (s.consecutive_unused + 1) as u32
            } else {
                0
            },
            api_calls: (s.api_calls + 1) as u32,
        },
        LookupEvent::Failed => ScanState {
            index: (s.index + 1) as u32,
            consecutive_unused: s.consecutive_unused,
            api_calls: s.api_calls,
        },
    }
}

/// Whether the event adds a record: only a completed lookup of a used
/// address (a nonzero figure) is materialized.
pub open spec fn spec_step_emits(ev: LookupEvent) -> bool {
    match ev {
        LookupEvent::Completed { balance, tx_count } => !(balance == 0 && tx_count == 0),
        LookupEvent::Failed => false,
    }
}

/// Whether the scan stops on the gap limit right after this event: only
/// a completed lookup can finish the streak.
pub open spec fn spec_step_gap_stop(s: ScanState, ev: LookupEvent, threshold: u32) -> bool {
    ev is Completed && spec_step_state(s, ev).consecutive_unused >= threshold
}

/// The model of a whole scan from state `s` against the per-index lookup
/// events in `events` (event `i` answers index `s.index + i`).
pub open spec fn spec_scan(
    s: ScanState,
    events: Seq<LookupEvent>,
    end: Option<u32>,
    threshold: u32,
) -> ScanOutcome
    decreases events.len(),
{
    match spec_should_stop(s, end) {
        Option::Some(reason) => ScanOutcome {
            records: Seq::empty(),
            state: s,
            stop: Option::Some(reason),
            lookups: 0,
        },
        Option::None => {
            if events.len() == 0 {
                ScanOutcome { records: Seq::empty(), state: s, stop: Option::None, lookups: 0 }
            } else {
                let ev = events[0];
                let s2 = spec_step_state(s, ev);
                let head: Seq<ScanRecord> = if spec_step_emits(ev) {
                    seq![
                        ScanRecord {
                            index: s.index,
                            balance: spec_event_balance(ev),
                            tx_count: spec_event_tx_count(ev),
                        },
                    ]
                } else {
                    Seq::empty()
                };
                if spec_step_gap_stop(s, ev, threshold) {
                    ScanOutcome {
                        records: head,
                        state: s2,
                        stop: Option::Some(StopReason::GapReached),
                        lookups: 1,
                    }
                } else {
                    let rest = spec_scan(s2, events.drop_first(), end, threshold);
                    ScanOutcome {
                        records: head + rest.records,
                        state: rest.state,
                        stop: rest.stop,
                        lookups: 1 + rest.lookups,
                    }
                }
            }
        },
    }
}

/// Decide whether the scanner must stop before deriving the next index.
pub fn should_stop(state: &ScanState, end: Option<u32>) -> (r: Option<StopReason>)
    ensures
        r == spec_should_stop(*state, end),
{
    match end {
        Option::Some(e) => {
            if state.index >= e {
                return Option::Some(StopReason::EndReached);
            }
        },
        Option::None => {},
    }
    if state.api_calls >= MAX_API_CALLS {
        Option::Some(StopReason::BudgetExhausted)
    } else {
        Option::None
    }
}

/// Process one lookup event for the address derived at the current
/// index: classify it, advance the state, and say whether the gap limit
/// stops the scan. Returns the new state, the record to append (if the
/// address is used), and the gap-stop verdict.
pub fn scan_step(state: &ScanState, address: String, event: &LookupEvent, unused_threshold: u32) -> (r: (
    ScanState,
    Option<AddressInfo>,
    bool,
))
    requires
        state.index < 0xFFFF_FFFFu32,
        state.consecutive_unused < 0xFFFF_FFFFu32,
        state.api_calls < MAX_API_CALLS,
    ensures
        r.0 == spec_step_state(*state, *event),
        r.2 == spec_step_gap_stop(*state, *event, unused_threshold),
        spec_step_emits(*event) ==> (r.1 matches Some(info) && info.address == address
            && info.balance == spec_event_balance(*event) && info.tx_count == spec_event_tx_count(
            *event,
        )),
        !spec_step_emits(*event) ==> r.1 is None,
{
    match event {
        LookupEvent::Completed { balance, tx_count } => {
            let used = !(*balance == 0 && *tx_count == 0);
            let next = ScanState {
                index: state.index + 1,
                consecutive_unused: if used {
                    0
                } else {
                    state.consecutive_unused + 1
                },
                api_calls: state.api_calls + 1,
            };
            let info = if used {
                Option::Some(
                    AddressInfo { address, balance: *balance, tx_count: *tx_count },
                )
            } else {
                Option::None
            };
            let gap = next.consecutive_unused >= unused_threshold;
            (next, info, gap)
        },
        LookupEvent::Failed => {
            let next = ScanState {
                index: state.index + 1,
                consecutive_unused: state.consecutive_unused,
                api_calls: state.api_calls,
            };
            (next, Option::None, false)
        },
    }
}

/// Every index in the half-open window `start .. start + n` lies in the
/// non-hardened space and derives a child key under `k`. The scanner
/// derives exactly the indices whose lookup the scan model performs, so
/// this predicate over the model's lookup count says whether a scan runs
/// to its regular end or aborts on a derivation failure.
pub open spec fn spec_all_derivable(k: KeyFields, start: u32, n: nat) -> bool {
    forall|i: u32|
        start <= i < start + n ==> i < 0x8000_0000 && (#[trigger] spec_child_pubkey(k, i)) is Some
}

/// Derive addresses from `start` on and gather the used ones, one lookup
/// event per index: the executable discovery loop, run against the given
/// per-index events. Key normalization failures and derivation failures
/// are fatal; the result lists exactly the used addresses the model
/// records, in derivation order, each carrying the address string its
/// index derives to.
///
/// Success is owed: the scan returns `Ok` exactly when the key
/// normalizes and every index the model scans derives a child key. A
/// normalization failure is returned as that very error; a derivation
/// failure inside the scanned window — and nothing else — aborts the
/// scan with `DerivationError`.
pub fn derive_addresses(
    pubkey: &str,
    start: u32,
    end: Option<u32>,
    unused_threshold: u32,
    network_type: &NetworkType,
    key_type: &ExtendedKeyType,
    lookups: &Vec<LookupEvent>,
) -> (r: Result<Vec<AddressInfo>, CustomError>)
    requires
        start + lookups@.len() <= u32::MAX,
    ensures
        match r {
            Ok(infos) => spec_normalize(pubkey@, *key_type) matches Ok(k) && {
                let out = spec_scan(spec_initial_state(start), lookups@, end, unused_threshold);
                &&& spec_all_derivable(k, start, out.lookups)
                &&& infos@.len() == out.records.len()
                &&& forall|j: int|
                    0 <= j < infos@.len() ==> infos@[j].balance == out.records[j].balance
                        && infos@[j].tx_count == out.records[j].tx_count && infos@[j].address@
                        == spec_address(k, out.records[j].index, *key_type, *network_type)
            },
            Err(e) => match spec_normalize(pubkey@, *key_type) {
                Err(e2) => e == e2,
                Ok(k) => e == CustomError::DerivationError && !spec_all_derivable(
                    k,
                    start,
                    spec_scan(spec_initial_state(start), lookups@, end, unused_threshold).lookups,
                ),
            },
        },
{
    let key: CanonicalExtendedKey = match key_type.convert_to_xpub(pubkey) {
        Ok(k) => k,
        Err(e) => {
            return Err(e);
        },
    };
    let ghost out = spec_scan(spec_initial_state(start), lookups@, end, unused_threshold);
    let mut state = ScanState { index: start, consecutive_unused: 0, api_calls: 0 };
    let mut infos: Vec<AddressInfo> = Vec::new();
    let mut j: usize = 0;
    let ghost mut recs: Seq<ScanRecord> = Seq::empty();
    proof {
        assert(lookups@.skip(0) =~= lookups@);
        assert(Seq::<ScanRecord>::empty() + out.records =~= out.records);
    }
    loop
        invariant_except_break
            out.records == recs + spec_scan(
                state,
                lookups@.skip(j as int),
                end,
                unused_threshold,
            ).records,
            out.lookups == j + spec_scan(
                state,
                lookups@.skip(j as int),
                end,
                unused_threshold,
            ).lookups,
        invariant
            key.wf(),
            spec_normalize(pubkey@, *key_type) == Ok::<KeyFields, CustomError>(key@),
            out == spec_scan(spec_initial_state(start), lookups@, end, unused_threshold),
            start + lookups@.len() <= u32::MAX,
            j <= lookups@.len(),
            state.index == start + j,
            state.consecutive_unused <= j,
            spec_all_derivable(key@, start, j as nat),
            infos@.len() == recs.len(),
            forall|m: int|
                0 <= m < infos@.len() ==> infos@[m].balance == recs[m].balance
                    && infos@[m].tx_count == recs[m].tx_count && infos@[m].address@
                    == spec_address(key@, recs[m].index, *key_type, *network_type),
        ensures
            out.records == recs,
            out.lookups == j as nat,
        decreases lookups@.len() - j,
    {
        let ghost tail = spec_scan(state, lookups@.skip(j as int), end, unused_threshold);
        match should_stop(&state, end) {
            Option::Some(_) => {
                proof {
                    assert(tail.records =~= Seq::<ScanRecord>::empty());
                    assert(recs + tail.records =~= recs);
                    assert(tail.lookups == 0);
                }
                break ;
            },
            Option::None => {},
        }
        if j >= lookups.len() {
            proof {
                assert(lookups@.skip(j as int).len() == 0);
                assert(tail.records =~= Seq::<ScanRecord>::empty());
                assert(recs + tail.records =~= recs);
                assert(tail.lookups == 0);
            }
            break ;
        }
        let address = match derive_address(&key, state.index, key_type, network_type) {
            Ok(a) => a,
            Err(e) => {
                proof {
                    // The model performs at least this lookup, so the
                    // failing index lies inside the scanned window.
                    assert(tail.lookups >= 1);
                    assert(start <= state.index < start + out.lookups);
                    assert(!(state.index < 0x8000_0000 && spec_child_pubkey(
                        key@,
                        state.index,
                    ) is Some));
                    assert(!spec_all_derivable(key@, start, out.lookups));
                }
                return Err(e);
            },
        };
        proof {
            // The window of derivable indices grows by the one just done.
            assert forall|i: u32| start <= i < start + (j + 1) implies i < 0x8000_0000 && (
            #[trigger] spec_child_pubkey(key@, i)) is Some by {
                if i < start + j {
                    assert(spec_all_derivable(key@, start, j as nat));
                } else {
                    assert(i == state.index);
                }
            }
        }
        let event = lookups[j];
        proof {
            assert(lookups@.skip(j as int)[0] == lookups@[j as int]);
            assert(lookups@.skip(j as int).drop_first() =~= lookups@.skip(j as int + 1));
        }
        let ghost head: Seq<ScanRecord> = if spec_step_emits(event) {
            seq![
                ScanRecord {
                    index: state.index,
                    balance: spec_event_balance(event),
                    tx_count: spec_event_tx_count(event),
                },
            ]
        } else {
            Seq::empty()
        };
        let (next, info, gap) = scan_step(&state, address, &event, unused_threshold);
        let ghost recs_old = recs;
        proof {
            recs = recs + head;
        }
        match info {
            Option::Some(record) => {
                infos.push(record);
            },
            Option::None => {},
        }
        state = next;
        j = j + 1;
        if gap {
            proof {
                assert(tail.records == head);
                assert(out.records =~= recs);
                assert(tail.lookups == 1);
            }
            break ;
        }
        proof {
            let rest = spec_scan(state, lookups@.skip(j as int), end, unused_threshold);
            assert(tail.records == head + rest.records);
            assert(recs_old + (head + rest.records) =~= (recs_old + head) + rest.records);
            assert(tail.lookups == 1 + rest.lookups);
        }
    }
    proof {
        assert(infos@.len() == out.records.len());
        assert forall|m: int| 0 <= m < infos@.len() implies infos@[m].balance
            == out.records[m].balance && infos@[m].tx_count == out.records[m].tx_count
            && infos@[m].address@ == spec_address(key@, out.records[m].index, *key_type, *network_type) by {
            assert(recs[m] == out.records[m]);
        }
    }
    Ok(infos)
}

/// Every event reports an unused address: a completed lookup with both
/// figures zero.
pub open spec fn spec_all_unused(events: Seq<LookupEvent>) -> bool {
    forall|i: int|
        0 <= i < events.len() ==> events[i] == (LookupEvent::Completed {
            balance: 0u64,
            tx_count: 0u64,
        })
}

/// Every event reports a used address: a completed lookup with a nonzero
/// figure.
pub open spec fn spec_all_used(events: Seq<LookupEvent>) -> bool {
    forall|i: int| 0 <= i < events.len() ==> #[trigger] spec_step_emits(events[i])
}

/// Gap-limit termination from any live state: when every lookup reports
/// an unused address, the scan stops with `GapReached` after exactly the
/// lookups still missing from the streak, and records nothing.
pub proof fn lemma_gap_limit_termination_from(
    s: ScanState,
    events: Seq<LookupEvent>,
    end: Option<u32>,
    threshold: u32,
)
    requires
        spec_all_unused(events),
        s.consecutive_unused < threshold,
        events.len() >= threshold - s.consecutive_unused,
        s.api_calls + (threshold - s.consecutive_unused) <= MAX_API_CALLS,
        s.index + (threshold - s.consecutive_unused) <= u32::MAX,
        end matches Some(e) ==> e >= s.index + (threshold - s.consecutive_unused),
    ensures
        spec_scan(s, events, end, threshold).records =~= Seq::<ScanRecord>::empty(),
        spec_scan(s, events, end, threshold).lookups == threshold - s.consecutive_unused,
        spec_scan(s, events, end, threshold).stop == Some(StopReason::GapReached),
    decreases threshold - s.consecutive_unused,
{
    let ev = events[0];
    let s2 = spec_step_state(s, ev);
    assert(spec_should_stop(s, end) is None);
    assert(!spec_step_emits(ev));
    assert(s2.consecutive_unused == s.consecutive_unused + 1);
    if s2.consecutive_unused >= threshold {
        assert(spec_step_gap_stop(s, ev, threshold));
    } else {
        lemma_gap_limit_termination_from(s2, events.drop_first(), end, threshold);
        assert(Seq::<ScanRecord>::empty() + spec_scan(
            s2,
            events.drop_first(),
            end,
            threshold,
        ).records =~= spec_scan(s2, events.drop_first(), end, threshold).records);
    }
}

/// Gap-limit termination: when every lookup reports an unused address, a
/// scan from a fresh state stops with `GapReached` after exactly
/// `threshold` lookups and an empty result — provided the end bound and
/// the call budget leave room for the whole streak.
pub proof fn lemma_gap_limit_termination(
    start: u32,
    events: Seq<LookupEvent>,
    end: Option<u32>,
    threshold: u32,
)
    requires
        spec_all_unused(events),
        1 <= threshold,
        events.len() >= threshold,
        threshold <= MAX_API_CALLS,
        start + threshold <= u32::MAX,
        end matches Some(e) ==> e >= start + threshold,
    ensures
        spec_scan(spec_initial_state(start), events, end, threshold).records =~= Seq::<
            ScanRecord,
        >::empty(),
        spec_scan(spec_initial_state(start), events, end, threshold).lookups == threshold,
        spec_scan(spec_initial_state(start), events, end, threshold).stop == Some(
            StopReason::GapReached,
        ),
{
    lemma_gap_limit_termination_from(spec_initial_state(start), events, end, threshold);
}

/// Budget termination from any live state: with no end bound and every
/// lookup reporting a used address, the scan stops with
/// `BudgetExhausted` after exactly the remaining budget, recording one
/// address per lookup at consecutive indices.
pub proof fn lemma_budget_termination_from(s: ScanState, events: Seq<LookupEvent>, threshold: u32)
    requires
        spec_all_used(events),
        1 <= threshold,
        s.api_calls < MAX_API_CALLS,
        events.len() >= MAX_API_CALLS - s.api_calls,
        s.index + (MAX_API_CALLS - s.api_calls) <= u32::MAX,
    ensures
        spec_scan(s, events, Option::None, threshold).records.len() == MAX_API_CALLS
            - s.api_calls,
        spec_scan(s, events, Option::None, threshold).lookups == MAX_API_CALLS - s.api_calls,
        spec_scan(s, events, Option::None, threshold).stop == Some(StopReason::BudgetExhausted),
        forall|i: int|
            0 <= i < spec_scan(s, events, Option::None, threshold).records.len()
                ==> #[trigger] spec_scan(s, events, Option::None, threshold).records[i].index
                == s.index + i,
    decreases MAX_API_CALLS - s.api_calls,
{
    let ev = events[0];
    let s2 = spec_step_state(s, ev);
    assert(spec_step_emits(ev));
    assert(s2.consecutive_unused == 0);
    assert(!spec_step_gap_stop(s, ev, threshold));
    let head = seq![
        ScanRecord {
            index: s.index,
            balance: spec_event_balance(ev),
            tx_count: spec_event_tx_count(ev),
        },
    ];
    let rest = spec_scan(s2, events.drop_first(), Option::None, threshold);
    if s2.api_calls >= MAX_API_CALLS {
        assert(rest.records =~= Seq::<ScanRecord>::empty());
        assert((head + rest.records).len() == 1);
    } else {
        lemma_budget_termination_from(s2, events.drop_first(), threshold);
        assert forall|i: int|
            0 <= i < (head + rest.records).len() implies #[trigger] (head + rest.records)[i].index
            == s.index + i by {
            if i > 0 {
                assert(rest.records[i - 1].index == s2.index + (i - 1));
            }
        }
    }
}

/// Budget termination: with no end bound and every lookup reporting a
/// used address, a fresh scan performs exactly the whole budget of
/// lookups, stops with `BudgetExhausted`, and records one address per
/// lookup, at consecutive indices from `start` on — in particular the
/// result is nonempty and index-ordered.
pub proof fn lemma_budget_termination(start: u32, events: Seq<LookupEvent>, threshold: u32)
    requires
        spec_all_used(events),
        1 <= threshold,
        events.len() >= MAX_API_CALLS,
        start + MAX_API_CALLS <= u32::MAX,
    ensures
        spec_scan(spec_initial_state(start), events, Option::None, threshold).records.len()
            == MAX_API_CALLS,
        spec_scan(spec_initial_state(start), events, Option::None, threshold).stop == Some(
            StopReason::BudgetExhausted,
        ),
        forall|i: int|
            0 <= i < MAX_API_CALLS ==> #[trigger] spec_scan(
                spec_initial_state(start),
                events,
                Option::None,
                threshold,
            ).records[i].index == start + i,
{
    lemma_budget_termination_from(spec_initial_state(start), events, threshold);
}

/// A failed lookup is skipped: it adds no record, leaves the unused
/// streak and the budget untouched, advances the index, and the scan
/// goes on exactly as it would from the advanced state.
pub proof fn lemma_failed_lookup_skipped(
    s: ScanState,
    events: Seq<LookupEvent>,
    end: Option<u32>,
    threshold: u32,
)
    requires
        events.len() >= 1,
        events[0] == LookupEvent::Failed,
        spec_should_stop(s, end) is None,
    ensures
        spec_step_state(s, LookupEvent::Failed).consecutive_unused == s.consecutive_unused,
        spec_step_state(s, LookupEvent::Failed).api_calls == s.api_calls,
        spec_scan(s, events, end, threshold).records == spec_scan(
            spec_step_state(s, LookupEvent::Failed),
            events.drop_first(),
            end,
            threshold,
        ).records,
        spec_scan(s, events, end, threshold).lookups == 1 + spec_scan(
            spec_step_state(s, LookupEvent::Failed),
            events.drop_first(),
            end,
            threshold,
        ).lookups,
        spec_scan(s, events, end, threshold).stop == spec_scan(
            spec_step_state(s, LookupEvent::Failed),
            events.drop_first(),
            end,
            threshold,
        ).stop,
{
    let s2 = spec_step_state(s, LookupEvent::Failed);
    let rest = spec_scan(s2, events.drop_first(), end, threshold);
    assert(!spec_step_emits(events[0]));
    assert(!spec_step_gap_stop(s, events[0], threshold));
    assert(Seq::<ScanRecord>::empty() + rest.records =~= rest.records);
}

/// Bounds: a scan whose end bound equals its start index stops at once
/// with `EndReached`, an empty result and zero lookups performed.
pub proof fn lemma_empty_range(start: u32, events: Seq<LookupEvent>, threshold: u32)
    ensures
        spec_scan(spec_initial_state(start), events, Some(start), threshold).records =~= Seq::<
            ScanRecord,
        >::empty(),
        spec_scan(spec_initial_state(start), events, Some(start), threshold).lookups == 0,
        spec_scan(spec_initial_state(start), events, Some(start), threshold).stop == Some(
            StopReason::EndReached,
        ),
{
}

/// Scan records are index-ordered: every record's index is at least the
/// scan's starting index, and indices are strictly increasing along the
/// result — insertion order is derivation order.
pub proof fn lemma_scan_records_ordered(
    s: ScanState,
    events: Seq<LookupEvent>,
    end: Option<u32>,
    threshold: u32,
)
    requires
        s.index + events.len() <= u32::MAX,
    ensures
        forall|i: int|
            0 <= i < spec_scan(s, events, end, threshold).records.len() ==> #[trigger] spec_scan(
                s,
                events,
                end,
                threshold,
            ).records[i].index >= s.index,
        forall|i: int, j: int|
            0 <= i < j < spec_scan(s, events, end, threshold).records.len() ==> spec_scan(
                s,
                events,
                end,
                threshold,
            ).records[i].index < spec_scan(s, events, end, threshold).records[j].index,
    decreases events.len(),
{
    let out = spec_scan(s, events, end, threshold);
    if spec_should_stop(s, end) is Some || events.len() == 0 {
    } else {
        let ev = events[0];
        let s2 = spec_step_state(s, ev);
        if spec_step_gap_stop(s, ev, threshold) {
        } else {
            let rest = spec_scan(s2, events.drop_first(), end, threshold);
            lemma_scan_records_ordered(s2, events.drop_first(), end, threshold);
            if spec_step_emits(ev) {
                assert forall|i: int| 0 <= i < out.records.len() implies #[trigger] out.records[i].index
                    >= s.index by {
                    if i > 0 {
                        assert(rest.records[i - 1].index >= s2.index);
                    }
                }
                assert forall|i: int, j: int|
                    0 <= i < j < out.records.len() implies out.records[i].index
                    < out.records[j].index by {
                    assert(rest.records[j - 1].index >= s2.index);
                    if i > 0 {
                        assert(rest.records[i - 1].index < rest.records[j - 1].index);
                    }
                }
            } else {
                assert(Seq::<ScanRecord>::empty() + rest.records =~= rest.records);
            }
        }
    }
}

} // verus!
