use vstd::prelude::*;

use crate::record::{completed_spec, is_placeholder, Remittance, RemittanceError, Status};
use crate::store::{LedgerState, LedgerStore};

verus! {

/// The ledger's invariant: identifiers `1..=counter` are exactly the stored
/// ones, each record carries its own identifier, a positive amount and a
/// status of the lifecycle.
pub open spec fn ledger_wf(s: LedgerState) -> bool {
    &&& forall|k: u64| #[trigger] s.records.contains_key(k) <==> 1 <= k <= s.counter
    &&& forall|k: u64|
        #[trigger] s.records.contains_key(k) ==> {
            &&& s.records[k].tx_id == k
            &&& s.records[k].amount > 0
            &&& s.records[k].status != Status::NotFound
        }
}

/// The record that a new remittance is stored as.
pub open spec fn pending_spec(
    sender: String,
    recipient: String,
    amount: i128,
    currency: String,
    timestamp: u64,
    tx_id: u64,
) -> Remittance {
    Remittance { sender, recipient, amount, currency, timestamp, status: Status::Pending, tx_id }
}

/// State and result after a request to create a remittance.
pub open spec fn send_spec(
    s: LedgerState,
    sender: String,
    recipient: String,
    amount: i128,
    currency: String,
    timestamp: u64,
) -> (LedgerState, Result<u64, RemittanceError>) {
    if amount <= 0 {
        (s, Err(RemittanceError::InvalidAmount))
    } else {
        let id = (s.counter + 1) as u64;
        (
            LedgerState {
                counter: id,
                records: s.records.insert(
                    id,
                    pending_spec(sender, recipient, amount, currency, timestamp, id),
                ),
            },
            Ok(id),
        )
    }
}

/// State and result after a request to complete the remittance `tx_id`.
pub open spec fn complete_spec(s: LedgerState, tx_id: u64) -> (
    LedgerState,
    Result<(), RemittanceError>,
) {
    if !s.records.contains_key(tx_id) {
        (s, Err(RemittanceError::NotFound))
    } else if s.records[tx_id].status != Status::Pending {
        (s, Err(RemittanceError::AlreadyProcessed))
    } else {
        (
            LedgerState {
                counter: s.counter,
                records: s.records.insert(tx_id, completed_spec(s.records[tx_id])),
            },
            Ok(()),
        )
    }
}

/// Validates a new remittance and builds its record, numbered one past
/// `counter`.
pub fn open_remittance(
    counter: u64,
    sender: String,
    recipient: String,
    amount: i128,
    currency: String,
    timestamp: u64,
) -> (r: Result<Remittance, RemittanceError>)
    requires
        amount > 0 ==> counter < u64::MAX,
    ensures
        amount <= 0 ==> r == Err::<Remittance, RemittanceError>(RemittanceError::InvalidAmount),
        amount > 0 ==> r == Ok::<Remittance, RemittanceError>(
            pending_spec(sender, recipient, amount, currency, timestamp, (counter + 1) as u64),
        ),
{
    if amount <= 0 {
        return Err(RemittanceError::InvalidAmount);
    }
    let tx_id: u64 = counter + 1;
    Ok(Remittance::pending(sender, recipient, amount, currency, timestamp, tx_id))
}

/// Decides the completion of the record found under an identifier: absent
/// is not found, anything but pending is already processed, and a pending
/// record becomes complete.
pub fn settle_remittance(found: Option<Remittance>) -> (r: Result<Remittance, RemittanceError>)
    ensures
        found is None ==> r == Err::<Remittance, RemittanceError>(RemittanceError::NotFound),
        found is Some && found->0.status != Status::Pending ==> r == Err::<
            Remittance,
            RemittanceError,
        >(RemittanceError::AlreadyProcessed),
        found is Some && found->0.status == Status::Pending ==> r == Ok::<
            Remittance,
            RemittanceError,
        >(completed_spec(found->0)),
{
    match found {
        None => Err(RemittanceError::NotFound),
        Some(mut rec) => {
            if rec.status != Status::Pending {
                return Err(RemittanceError::AlreadyProcessed);
            }
            rec.status = Status::Complete;
            Ok(rec)
        },
    }
}

/// The remittance ledger: creation, completion and lookup of transfers over
/// a keyed store.
///
/// Callers are expected to have had the acting identity (the sender on
/// creation, the processor on completion) authorised by the host before
/// calling.
pub struct RemittanceContract {
    store: LedgerStore,
}

impl View for RemittanceContract {
    type V = LedgerState;

    closed spec fn view(&self) -> LedgerState {
        self.store@
    }
}

impl RemittanceContract {
    /// A ledger with no transactions.
    pub fn new() -> (c: RemittanceContract)
        ensures
            c@ == LedgerState::empty(),
            ledger_wf(c@),
    {
        RemittanceContract { store: LedgerStore::new() }
    }

    /// Records a new remittance and returns its identifier, one past the
    /// number of remittances created so far.
    pub fn send_remittance(
        &mut self,
        sender: String,
        recipient: String,
        amount: i128,
        currency: String,
        timestamp: u64,
    ) -> (r: Result<u64, RemittanceError>)
        requires
            ledger_wf(old(self)@),
            amount > 0 ==> old(self)@.counter < u64::MAX,
        ensures
            ledger_wf(final(self)@),
            (final(self)@, r) == send_spec(
                old(self)@,
                sender,
                recipient,
                amount,
                currency,
                timestamp,
            ),
            amount <= 0 ==> r == Err::<u64, RemittanceError>(RemittanceError::InvalidAmount)
                && final(self)@ == old(self)@,
            amount > 0 ==> r == Ok::<u64, RemittanceError>((old(self)@.counter + 1) as u64),
    {
        let counter = self.store.get_counter();
        match open_remittance(counter, sender, recipient, amount, currency, timestamp) {
            Err(e) => Err(e),
            Ok(rec) => {
                let tx_id = rec.tx_id;
                self.store.put_record(tx_id, rec);
                self.store.set_counter(tx_id);
                assert(forall|k: u64| #[trigger]
                    final(self)@.records.contains_key(k) <==> (old(self)@.records.contains_key(k)
                        || k == tx_id));
                Ok(tx_id)
            },
        }
    }

    /// Marks the pending remittance `tx_id` as complete.
    ///
    /// `processor` is the identity that completes it; the host has
    /// authorised it.
    pub fn complete_remittance(&mut self, tx_id: u64, processor: String) -> (r: Result<
        (),
        RemittanceError,
    >)
        requires
            ledger_wf(old(self)@),
        ensures
            ledger_wf(final(self)@),
            (final(self)@, r) == complete_spec(old(self)@, tx_id),
    {
        let found = self.store.get_record(tx_id);
        match settle_remittance(found) {
            Err(e) => Err(e),
            Ok(rec) => {
                self.store.put_record(tx_id, rec);
                Ok(())
            },
        }
    }

    /// The record stored under `tx_id`, if any.
    pub fn find_remittance(&self, tx_id: u64) -> (r: Option<Remittance>)
        ensures
            r == (if self@.records.contains_key(tx_id) {
                Some(self@.records[tx_id])
            } else {
                None::<Remittance>
            }),
    {
        self.store.get_record(tx_id)
    }

    /// The record stored under `tx_id`, or the placeholder record (identifier
    /// zero, status `NotFound`) when there is none.
    pub fn get_remittance(&self, tx_id: u64) -> (r: Remittance)
        ensures
            self@.records.contains_key(tx_id) ==> r == self@.records[tx_id],
            !self@.records.contains_key(tx_id) ==> is_placeholder(r),
    {
        match self.find_remittance(tx_id) {
            Some(rec) => rec,
            None => Remittance::not_found(),
        }
    }

    /// Number of remittances ever created.
    pub fn get_total_transactions(&self) -> (n: u64)
        ensures
            n == self@.counter,
    {
        self.store.get_counter()
    }
}

} // verus!
