use vstd::prelude::*;

verus! {

/// Lifecycle state of a remittance record.
///
/// A stored record is `Pending` or `Complete`; `NotFound` only marks the
/// placeholder handed out for an identifier that has no record.
#[derive(Clone, Copy, Debug, PartialEq, Eq, Structural)]
pub enum Status {
    Pending,
    Complete,
    NotFound,
}

/// Why a call on the ledger was rejected.
#[derive(Clone, Copy, Debug, PartialEq, Eq, Structural)]
pub enum RemittanceError {
    /// The amount of a new remittance was zero or negative.
    InvalidAmount,
    /// No record is stored under the requested identifier.
    NotFound,
    /// The record is no longer pending.
    AlreadyProcessed,
}

impl RemittanceError {
    /// The text with which a call that hits this error is aborted.
    pub fn message(&self) -> (r: &'static str)
        ensures
            *self == RemittanceError::InvalidAmount ==> r@ == "Invalid amount"@,
            *self == RemittanceError::NotFound ==> r@ == "Transaction not found"@,
            *self == RemittanceError::AlreadyProcessed ==> r@ == "Transaction already processed"@,
    {
        match self {
            RemittanceError::InvalidAmount => "Invalid amount",
            RemittanceError::NotFound => "Transaction not found",
            RemittanceError::AlreadyProcessed => "Transaction already processed",
        }
    }
}

/// One cross-border transfer as the ledger records it.
///
/// Identities are account addresses in their textual form; the currency is a
/// short symbolic code such as `USD`.
#[derive(Clone, Debug)]
pub struct Remittance {
    pub sender: String,
    pub recipient: String,
    pub amount: i128,
    pub currency: String,
    pub timestamp: u64,
    pub status: Status,
    pub tx_id: u64,
}

/// Storage key of a record in the ledger's keyed store.
#[derive(Clone, Copy, Debug, PartialEq, Eq, Structural)]
pub enum RemittanceBook {
    Transaction(u64),
}

impl RemittanceBook {
    /// Identifier of the transaction that the key names.
    pub fn tx_id(&self) -> (r: u64)
        ensures
            *self == RemittanceBook::Transaction(r),
    {
        match self {
            RemittanceBook::Transaction(id) => *id,
        }
    }
}

/// Address that stands for "nobody" in the placeholder record.
pub const PLACEHOLDER_ADDRESS: &'static str = "GAAAAAAAAAAAAAAAAAAAAAAAAAAAAAAAAAAAAAAAAAAAAAAAAAAAAWHF";

/// Currency code carried by the placeholder record.
pub const PLACEHOLDER_CURRENCY: &'static str = "NOTFOUND";

/// The record as it stands once it has been completed.
pub open spec fn completed_spec(r: Remittance) -> Remittance {
    Remittance {
        sender: r.sender,
        recipient: r.recipient,
        amount: r.amount,
        currency: r.currency,
        timestamp: r.timestamp,
        status: Status::Complete,
        tx_id: r.tx_id,
    }
}

/// Whether `r` is the placeholder record that lookups return for an absent
/// identifier.
pub open spec fn is_placeholder(r: Remittance) -> bool {
    &&& r.sender@ == PLACEHOLDER_ADDRESS@
    &&& r.recipient@ == PLACEHOLDER_ADDRESS@
    &&& r.amount == 0
    &&& r.currency@ == PLACEHOLDER_CURRENCY@
    &&& r.timestamp == 0
    &&& r.status == Status::NotFound
    &&& r.tx_id == 0
}

impl Remittance {
    /// A fresh `Pending` record numbered `tx_id`.
    pub fn pending(
        sender: String,
        recipient: String,
        amount: i128,
        currency: String,
        timestamp: u64,
        tx_id: u64,
    ) -> (r: Remittance)
        ensures
            r == (Remittance {
                sender,
                recipient,
                amount,
                currency,
                timestamp,
                status: Status::Pending,
                tx_id,
            }),
    {
        Remittance { sender, recipient, amount, currency, timestamp, status: Status::Pending, tx_id }
    }

    /// The placeholder record returned for an identifier with no record.
    pub fn not_found() -> (r: Remittance)
        ensures
            is_placeholder(r),
    {
        Remittance {
            sender: PLACEHOLDER_ADDRESS.to_owned(),
            recipient: PLACEHOLDER_ADDRESS.to_owned(),
            amount: 0,
            currency: PLACEHOLDER_CURRENCY.to_owned(),
            timestamp: 0,
            status: Status::NotFound,
            tx_id: 0,
        }
    }

    /// A field-by-field copy of the record.
    pub fn duplicate(&self) -> (r: Remittance)
        ensures
            r == *self,
    {
        Remittance {
            sender: self.sender.clone(),
            recipient: self.recipient.clone(),
            amount: self.amount,
            currency: self.currency.clone(),
            timestamp: self.timestamp,
            status: self.status,
            tx_id: self.tx_id,
        }
    }
}

} // verus!
