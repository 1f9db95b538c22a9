use escrow_engine::engine::Engine;
use escrow_engine::error::{ContractError, QueryError, StoreError};
use escrow_engine::state::{EscrowRecord, EscrowStore};

fn fresh_engine() -> Engine {
    Engine::new("owner".to_string(), "token".to_string())
}

#[test]
fn uniqueness_second_receive_rejected() {
    let token = "token".to_string();
    let alice = "alice".to_string();
    let mut engine = fresh_engine();

    engine
        .execute_receive(&token, alice.clone(), 100, 10, 1000)
        .unwrap();

    // a second deposit for the same depositor fails, even with other values
    let err = engine
        .execute_receive(&token, alice.clone(), 55, 99, 2000)
        .unwrap_err();
    assert_eq!(err, ContractError::ExistingEscrow);

    // and the existing record is unaltered
    let res = engine.query_escrow(&alice).unwrap();
    assert_eq!(res.amount, 100);
    assert_eq!(res.time, 1010);
}

#[test]
fn conservation_exact_amount_released() {
    let token = "token".to_string();
    let alice = "alice".to_string();
    let mut engine = fresh_engine();

    engine
        .execute_receive(&token, alice.clone(), 777, 5, 100)
        .unwrap();
    let res = engine.execute_redeem(&alice, 200).unwrap();

    let transfer = res.transfer.unwrap();
    assert_eq!(transfer.recipient, alice);
    assert_eq!(transfer.amount, 777);
}

#[test]
fn expiry_boundary() {
    let token = "token".to_string();
    let alice = "alice".to_string();

    // escrow at clock 100 with a 10-second lock: expiry is 110
    let mut engine = fresh_engine();
    engine
        .execute_receive(&token, alice.clone(), 1, 10, 100)
        .unwrap();

    // strictly before the expiry: rejected
    let err = engine.execute_redeem(&alice, 109).unwrap_err();
    assert_eq!(err, ContractError::EscrowNotExpired);

    // at the boundary: permitted
    engine.execute_redeem(&alice, 110).unwrap();

    // after the expiry: permitted
    let mut engine = fresh_engine();
    engine
        .execute_receive(&token, alice.clone(), 1, 10, 100)
        .unwrap();
    engine.execute_redeem(&alice, 111).unwrap();
}

#[test]
fn post_redeem_reusability() {
    let token = "token".to_string();
    let alice = "alice".to_string();
    let mut engine = fresh_engine();

    engine
        .execute_receive(&token, alice.clone(), 100, 10, 1000)
        .unwrap();
    engine.execute_redeem(&alice, 1010).unwrap();

    // the cycle repeats: a fresh escrow for the same depositor succeeds
    engine
        .execute_receive(&token, alice.clone(), 200, 20, 1020)
        .unwrap();
    let res = engine.query_escrow(&alice).unwrap();
    assert_eq!(res.amount, 200);
    assert_eq!(res.time, 1040);
}

#[test]
fn not_found_query_message() {
    let engine = fresh_engine();
    let err = engine.query_escrow(&"nobody".to_string()).unwrap_err();
    assert_eq!(err, QueryError::NotFound);
    assert_eq!(err.message(), "No escrow found");
}

#[test]
fn receive_from_unauthorized_token() {
    let alice = "alice".to_string();
    let mut engine = fresh_engine();

    let err = engine
        .execute_receive(&"impostor".to_string(), alice.clone(), 100, 10, 1000)
        .unwrap_err();
    assert_eq!(err, ContractError::Unauthorized);

    // nothing was recorded
    assert_eq!(
        engine.query_escrow(&alice).unwrap_err(),
        QueryError::NotFound
    );
}

#[test]
fn receive_zero_amount_rejected() {
    let token = "token".to_string();
    let alice = "alice".to_string();
    let mut engine = fresh_engine();

    let err = engine
        .execute_receive(&token, alice.clone(), 0, 10, 1000)
        .unwrap_err();
    assert_eq!(err, ContractError::InvalidAmount);
}

#[test]
fn redeem_without_escrow_rejected() {
    let mut engine = fresh_engine();
    let err = engine
        .execute_redeem(&"alice".to_string(), 5000)
        .unwrap_err();
    assert_eq!(err, ContractError::NotFound);
    assert_eq!(err.message(), "No escrow found");
}

#[test]
fn independent_depositors() {
    let token = "token".to_string();
    let alice = "alice".to_string();
    let bob = "bob".to_string();
    let mut engine = fresh_engine();

    engine
        .execute_receive(&token, alice.clone(), 100, 10, 1000)
        .unwrap();
    engine
        .execute_receive(&token, bob.clone(), 300, 50, 1000)
        .unwrap();

    // redeeming alice's escrow leaves bob's untouched
    let res = engine.execute_redeem(&alice, 1010).unwrap();
    assert_eq!(res.transfer.unwrap().amount, 100);

    let res = engine.query_escrow(&bob).unwrap();
    assert_eq!(res.amount, 300);
    assert_eq!(res.time, 1050);
    assert_eq!(
        engine.query_escrow(&alice).unwrap_err(),
        QueryError::NotFound
    );
}

#[test]
fn store_primitives() {
    let mut store = EscrowStore::new();
    let rec = EscrowRecord {
        depositor: "alice".to_string(),
        amount: 42,
        expires_at: 7,
    };
    store.insert_new(rec.clone()).unwrap();

    // a duplicate insert is refused
    let err = store.insert_new(rec).unwrap_err();
    assert_eq!(err, StoreError::DuplicateEscrow);

    // lookup finds the committed record
    let found = store.get(&"alice".to_string()).unwrap();
    assert_eq!(found.amount, 42);
    assert_eq!(found.expires_at, 7);
    assert!(store.get(&"bob".to_string()).is_none());

    // removing a missing address is refused; removing a live one returns it
    let err = store.remove(&"bob".to_string()).unwrap_err();
    assert_eq!(err, StoreError::NotFound);
    let removed = store.remove(&"alice".to_string()).unwrap();
    assert_eq!(removed.amount, 42);
    assert!(store.records().is_empty());
}

#[test]
fn error_messages() {
    assert_eq!(ContractError::Unauthorized.message(), "Unauthorized");
    assert_eq!(ContractError::ExistingEscrow.message(), "Existing escrow");
    assert_eq!(ContractError::NotFound.message(), "No escrow found");
    assert_eq!(
        ContractError::EscrowNotExpired.message(),
        "Escrow not expired"
    );
    assert_eq!(ContractError::InvalidAmount.message(), "Invalid zero amount");
}
