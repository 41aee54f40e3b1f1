use vstd::prelude::*;

use crate::ledger::{complete_spec, ledger_wf, pending_spec, send_spec};
use crate::record::{RemittanceError, Status};
use crate::store::LedgerState;

verus! {

/// One call that changes the ledger, with its arguments.
pub enum LedgerCall {
    Send { sender: String, recipient: String, amount: i128, currency: String, timestamp: u64 },
    Complete { tx_id: u64 },
}

/// The state after one call.
pub open spec fn apply_call(s: LedgerState, call: LedgerCall) -> LedgerState {
    match call {
        LedgerCall::Send { sender, recipient, amount, currency, timestamp } => send_spec(
            s,
            sender,
            recipient,
            amount,
            currency,
            timestamp,
        ).0,
        LedgerCall::Complete { tx_id } => complete_spec(s, tx_id).0,
    }
}

/// The state after a sequence of calls, made in order from `s`.
pub open spec fn run_calls(s: LedgerState, calls: Seq<LedgerCall>) -> LedgerState
    decreases calls.len(),
{
    if calls.len() == 0 {
        s
    } else {
        apply_call(run_calls(s, calls.drop_last()), calls.last())
    }
}

/// The identifiers returned by the successful creations among `calls`, in
/// call order.
pub open spec fn issued_ids(s: LedgerState, calls: Seq<LedgerCall>) -> Seq<u64>
    decreases calls.len(),
{
    if calls.len() == 0 {
        Seq::empty()
    } else {
        let before = run_calls(s, calls.drop_last());
        let earlier = issued_ids(s, calls.drop_last());
        match calls.last() {
            LedgerCall::Send { sender, recipient, amount, currency, timestamp } => {
                match send_spec(before, sender, recipient, amount, currency, timestamp).1 {
                    Ok(id) => earlier.push(id),
                    Err(_) => earlier,
                }
            },
            LedgerCall::Complete { .. } => earlier,
        }
    }
}

/// Creation keeps the ledger's invariant, and a successful one takes the
/// identifier after every identifier in use.
pub proof fn lemma_send_takes_next_id(
    s: LedgerState,
    sender: String,
    recipient: String,
    amount: i128,
    currency: String,
    timestamp: u64,
)
    requires
        ledger_wf(s),
        amount > 0 ==> s.counter < u64::MAX,
    ensures
        ledger_wf(send_spec(s, sender, recipient, amount, currency, timestamp).0),
        amount > 0 ==> {
            let id = (s.counter + 1) as u64;
            &&& send_spec(s, sender, recipient, amount, currency, timestamp).1 == Ok::<
                u64,
                RemittanceError,
            >(id)
            &&& !s.records.contains_key(id)
            &&& forall|k: u64| #[trigger] s.records.contains_key(k) ==> k < id
        },
{
    let post = send_spec(s, sender, recipient, amount, currency, timestamp).0;
    if amount > 0 {
        let id = (s.counter + 1) as u64;
        assert(forall|k: u64| #[trigger]
            post.records.contains_key(k) <==> (s.records.contains_key(k) || k == id));
    }
}

/// Completion keeps the ledger's invariant and never changes the counter.
pub proof fn lemma_complete_keeps_invariant(s: LedgerState, tx_id: u64)
    requires
        ledger_wf(s),
    ensures
        ledger_wf(complete_spec(s, tx_id).0),
        complete_spec(s, tx_id).0.counter == s.counter,
{
    let post = complete_spec(s, tx_id).0;
    assert(forall|k: u64| #[trigger]
        post.records.contains_key(k) <==> s.records.contains_key(k));
}

/// From an empty ledger, whatever mix of creations and completions is made,
/// the successful creations receive the identifiers `1, 2, 3, ...` in call
/// order, and the counter equals the number of successful creations.
pub proof fn lemma_ids_count_up_from_one(calls: Seq<LedgerCall>)
    requires
        calls.len() < u64::MAX,
    ensures
        ledger_wf(run_calls(LedgerState::empty(), calls)),
        run_calls(LedgerState::empty(), calls).counter == issued_ids(
            LedgerState::empty(),
            calls,
        ).len(),
        forall|i: int|
            0 <= i < issued_ids(LedgerState::empty(), calls).len() ==> #[trigger] issued_ids(
                LedgerState::empty(),
                calls,
            )[i] == i + 1,
    decreases calls.len(),
{
    let e = LedgerState::empty();
    if calls.len() == 0 {
        assert(ledger_wf(e));
    } else {
        let prefix = calls.drop_last();
        lemma_ids_count_up_from_one(prefix);
        let before = run_calls(e, prefix);
        assert(before.counter <= prefix.len()) by {
            lemma_counter_bounded_by_calls(prefix);
        }
        match calls.last() {
            LedgerCall::Send { sender, recipient, amount, currency, timestamp } => {
                lemma_send_takes_next_id(before, sender, recipient, amount, currency, timestamp);
            },
            LedgerCall::Complete { tx_id } => {
                lemma_complete_keeps_invariant(before, tx_id);
            },
        }
    }
}

/// No call raises the counter by more than one.
proof fn lemma_counter_bounded_by_calls(calls: Seq<LedgerCall>)
    requires
        calls.len() < u64::MAX,
    ensures
        run_calls(LedgerState::empty(), calls).counter <= calls.len(),
    decreases calls.len(),
{
    if calls.len() > 0 {
        lemma_counter_bounded_by_calls(calls.drop_last());
    }
}

/// A successful creation stores, under the identifier it returns, a pending
/// record with exactly the sender, recipient, amount, currency and time that
/// were given.
pub proof fn lemma_sent_record_is_stored(
    s: LedgerState,
    sender: String,
    recipient: String,
    amount: i128,
    currency: String,
    timestamp: u64,
)
    requires
        ledger_wf(s),
        amount > 0,
        s.counter < u64::MAX,
    ensures
        ({
            let (post, r) = send_spec(s, sender, recipient, amount, currency, timestamp);
            &&& r is Ok
            &&& post.records.contains_key(r->Ok_0)
            &&& post.records[r->Ok_0] == pending_spec(
                sender,
                recipient,
                amount,
                currency,
                timestamp,
                r->Ok_0,
            )
            &&& post.records[r->Ok_0].status == Status::Pending
        }),
{
}

/// Completing a pending record makes it complete; completing it again fails
/// as already processed and leaves it complete.
pub proof fn lemma_complete_only_once(s: LedgerState, tx_id: u64)
    requires
        ledger_wf(s),
        s.records.contains_key(tx_id),
        s.records[tx_id].status == Status::Pending,
    ensures
        ({
            let (once, r1) = complete_spec(s, tx_id);
            let (twice, r2) = complete_spec(once, tx_id);
            &&& r1 == Ok::<(), RemittanceError>(())
            &&& once.records[tx_id].status == Status::Complete
            &&& r2 == Err::<(), RemittanceError>(RemittanceError::AlreadyProcessed)
            &&& twice == once
            &&& twice.records[tx_id].status == Status::Complete
        }),
{
}

/// Completing an identifier that no creation has issued fails as not found
/// and changes nothing.
pub proof fn lemma_complete_unknown_not_found(s: LedgerState, tx_id: u64)
    requires
        ledger_wf(s),
        tx_id == 0 || tx_id > s.counter,
    ensures
        complete_spec(s, tx_id) == (s, Err::<(), RemittanceError>(RemittanceError::NotFound)),
{
}

} // verus!
