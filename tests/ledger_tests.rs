use remittance::ledger::{open_remittance, settle_remittance, RemittanceContract};
use remittance::record::{
    Remittance, RemittanceBook, RemittanceError, Status, PLACEHOLDER_ADDRESS, PLACEHOLDER_CURRENCY,
};
use remittance::store::LedgerStore;

fn s(text: &str) -> String {
    text.to_owned()
}

fn send(c: &mut RemittanceContract, amount: i128) -> Result<u64, RemittanceError> {
    c.send_remittance(s("ALICE"), s("BOB"), amount, s("USD"), 1_700_000_000)
}

#[test]
fn scenario_create_complete_and_look_up() {
    let mut c = RemittanceContract::new();
    let id = c.send_remittance(s("A"), s("B"), 100, s("USD"), 42).unwrap();
    assert_eq!(id, 1);
    assert_eq!(c.get_remittance(1).status, Status::Pending);
    assert_eq!(c.complete_remittance(1, s("C")), Ok(()));
    assert_eq!(c.get_remittance(1).status, Status::Complete);
    assert_eq!(c.get_total_transactions(), 1);
    assert_eq!(c.get_remittance(2).tx_id, 0);
}

#[test]
fn identifiers_count_up_from_one() {
    let mut c = RemittanceContract::new();
    for expected in 1..=5u64 {
        assert_eq!(send(&mut c, 10 * expected as i128), Ok(expected));
    }
}

#[test]
fn identifiers_skip_nothing_after_rejections_and_completions() {
    let mut c = RemittanceContract::new();
    assert_eq!(send(&mut c, 5), Ok(1));
    assert_eq!(send(&mut c, 0), Err(RemittanceError::InvalidAmount));
    assert_eq!(c.complete_remittance(1, s("P")), Ok(()));
    assert_eq!(send(&mut c, -3), Err(RemittanceError::InvalidAmount));
    assert_eq!(send(&mut c, 7), Ok(2));
}

#[test]
fn zero_amount_is_rejected_and_changes_nothing() {
    let mut c = RemittanceContract::new();
    assert_eq!(send(&mut c, 50), Ok(1));
    assert_eq!(send(&mut c, 0), Err(RemittanceError::InvalidAmount));
    assert_eq!(c.get_total_transactions(), 1);
    assert!(c.find_remittance(2).is_none());
    assert_eq!(c.get_remittance(1).amount, 50);
}

#[test]
fn negative_amount_is_rejected_and_changes_nothing() {
    let mut c = RemittanceContract::new();
    assert_eq!(send(&mut c, -1), Err(RemittanceError::InvalidAmount));
    assert_eq!(send(&mut c, i128::MIN), Err(RemittanceError::InvalidAmount));
    assert_eq!(c.get_total_transactions(), 0);
    assert!(c.find_remittance(1).is_none());
}

#[test]
fn created_record_holds_the_given_fields() {
    let mut c = RemittanceContract::new();
    let id = c.send_remittance(s("GSENDER"), s("GRECIPIENT"), 2500, s("EUR"), 99).unwrap();
    let r = c.get_remittance(id);
    assert_eq!(r.sender, "GSENDER");
    assert_eq!(r.recipient, "GRECIPIENT");
    assert_eq!(r.amount, 2500);
    assert_eq!(r.currency, "EUR");
    assert_eq!(r.timestamp, 99);
    assert_eq!(r.status, Status::Pending);
    assert_eq!(r.tx_id, id);
}

#[test]
fn largest_amount_is_accepted() {
    let mut c = RemittanceContract::new();
    assert_eq!(send(&mut c, i128::MAX), Ok(1));
    assert_eq!(c.get_remittance(1).amount, i128::MAX);
}

#[test]
fn completing_twice_is_a_state_conflict() {
    let mut c = RemittanceContract::new();
    let id = send(&mut c, 100).unwrap();
    assert_eq!(c.complete_remittance(id, s("P")), Ok(()));
    assert_eq!(
        c.complete_remittance(id, s("P")),
        Err(RemittanceError::AlreadyProcessed)
    );
    let r = c.get_remittance(id);
    assert_eq!(r.status, Status::Complete);
    assert_eq!(r.amount, 100);
    assert_eq!(r.sender, "ALICE");
}

#[test]
fn completing_an_unknown_identifier_is_not_found() {
    let mut c = RemittanceContract::new();
    assert_eq!(
        c.complete_remittance(1, s("P")),
        Err(RemittanceError::NotFound)
    );
    assert_eq!(send(&mut c, 1), Ok(1));
    assert_eq!(
        c.complete_remittance(0, s("P")),
        Err(RemittanceError::NotFound)
    );
    assert_eq!(
        c.complete_remittance(2, s("P")),
        Err(RemittanceError::NotFound)
    );
    assert_eq!(c.get_remittance(1).status, Status::Pending);
}

#[test]
fn total_counts_creations_not_completions() {
    let mut c = RemittanceContract::new();
    assert_eq!(c.get_total_transactions(), 0);
    for _ in 0..3 {
        send(&mut c, 10).unwrap();
    }
    assert_eq!(c.complete_remittance(2, s("P")), Ok(()));
    assert_eq!(c.complete_remittance(3, s("P")), Ok(()));
    assert_eq!(c.get_total_transactions(), 3);
}

#[test]
fn absent_lookup_gives_the_placeholder() {
    let c = RemittanceContract::new();
    let r = c.get_remittance(7);
    assert_eq!(r.tx_id, 0);
    assert_eq!(r.amount, 0);
    assert_eq!(r.timestamp, 0);
    assert_eq!(r.status, Status::NotFound);
    assert_eq!(r.currency, PLACEHOLDER_CURRENCY);
    assert_eq!(r.sender, PLACEHOLDER_ADDRESS);
    assert_eq!(r.recipient, PLACEHOLDER_ADDRESS);
    assert!(c.find_remittance(7).is_none());
}

#[test]
fn open_remittance_numbers_past_the_counter() {
    let r = open_remittance(41, s("A"), s("B"), 3, s("USD"), 8).unwrap();
    assert_eq!(r.tx_id, 42);
    assert_eq!(r.status, Status::Pending);
    assert_eq!(r.amount, 3);
    assert_eq!(
        open_remittance(41, s("A"), s("B"), 0, s("USD"), 8).unwrap_err(),
        RemittanceError::InvalidAmount
    );
    assert_eq!(
        open_remittance(u64::MAX, s("A"), s("B"), -5, s("USD"), 8).unwrap_err(),
        RemittanceError::InvalidAmount
    );
}

#[test]
fn settle_remittance_decides_each_case() {
    assert_eq!(
        settle_remittance(None).unwrap_err(),
        RemittanceError::NotFound
    );
    let pending = Remittance::pending(s("A"), s("B"), 9, s("USD"), 1, 3);
    let done = settle_remittance(Some(pending)).unwrap();
    assert_eq!(done.status, Status::Complete);
    assert_eq!(done.tx_id, 3);
    assert_eq!(done.amount, 9);
    assert_eq!(
        settle_remittance(Some(done)).unwrap_err(),
        RemittanceError::AlreadyProcessed
    );
}

#[test]
fn store_starts_empty_and_overwrites() {
    let mut st = LedgerStore::new();
    assert_eq!(st.get_counter(), 0);
    assert!(st.get_record(1).is_none());
    st.put_record(1, Remittance::pending(s("A"), s("B"), 5, s("USD"), 0, 1));
    st.put_record(1, Remittance::pending(s("A"), s("B"), 6, s("USD"), 0, 1));
    assert_eq!(st.get_record(1).unwrap().amount, 6);
    st.set_counter(9);
    assert_eq!(st.get_counter(), 9);
}

#[test]
fn duplicate_copies_every_field() {
    let r = Remittance::pending(s("A"), s("B"), 5, s("JPY"), 77, 4);
    let d = r.duplicate();
    assert_eq!(d.sender, "A");
    assert_eq!(d.recipient, "B");
    assert_eq!(d.amount, 5);
    assert_eq!(d.currency, "JPY");
    assert_eq!(d.timestamp, 77);
    assert_eq!(d.status, Status::Pending);
    assert_eq!(d.tx_id, 4);
}

#[test]
fn book_key_names_its_transaction() {
    assert_eq!(RemittanceBook::Transaction(12).tx_id(), 12);
}

#[test]
fn error_messages() {
    assert_eq!(RemittanceError::InvalidAmount.message(), "Invalid amount");
    assert_eq!(RemittanceError::NotFound.message(), "Transaction not found");
    assert_eq!(
        RemittanceError::AlreadyProcessed.message(),
        "Transaction already processed"
    );
}
