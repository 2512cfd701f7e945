//! The creation and transition operations: authorization, status gating,
//! timestamps, and the error for each refused request.

use payment_escrow::ledger::EscrowLedger;
use payment_escrow::payment::{Identity, PaymentError, PaymentStatus};

fn ident(tag: u8) -> Identity {
    Identity { bytes: vec![tag] }
}

#[test]
fn create_with_positive_amount_yields_fresh_pending_record() {
    let client = ident(1);
    let freelancer = ident(2);
    let mut ledger = EscrowLedger::new();

    let p = ledger.create_payment(&client, 7, ident(2), 100, 10).unwrap();
    assert_eq!(p.id, 1);
    assert_eq!(p.project_id, 7);
    assert_eq!(p.amount, 100);
    assert_eq!(p.status, PaymentStatus::Pending);
    assert_eq!(p.created_at, 10);
    assert_eq!(p.updated_at, 10);
    assert!(p.client.same_as(&client));
    assert!(p.freelancer.same_as(&freelancer));

    let q = ledger.create_payment(&client, 7, ident(2), 1, 11).unwrap();
    assert_eq!(q.id, 2);
    assert_eq!(ledger.payment_count(), 2);
}

#[test]
fn create_with_zero_amount_fails_and_records_nothing() {
    let client = ident(1);
    let mut ledger = EscrowLedger::new();

    let r = ledger.create_payment(&client, 7, ident(2), 0, 10);
    assert_eq!(r.unwrap_err(), PaymentError::AmountTooLow);
    assert_eq!(ledger.payment_count(), 0);
    assert_eq!(ledger.get_payment(1).unwrap_err(), PaymentError::NotFound);

    let p = ledger.create_payment(&client, 7, ident(2), 5, 11).unwrap();
    assert_eq!(p.id, 1);
}

#[test]
fn escrow_requires_the_client_and_a_pending_record() {
    let client = ident(1);
    let freelancer = ident(2);
    let outsider = ident(3);
    let mut ledger = EscrowLedger::new();
    ledger.create_payment(&client, 7, ident(2), 100, 10).unwrap();

    let r = ledger.escrow_payment(&outsider, 1, 11);
    assert_eq!(r.unwrap_err(), PaymentError::Unauthorized);
    assert_eq!(ledger.get_payment(1).unwrap().status, PaymentStatus::Pending);

    let r = ledger.escrow_payment(&freelancer, 1, 11);
    assert_eq!(r.unwrap_err(), PaymentError::Unauthorized);

    let r = ledger.escrow_payment(&client, 99, 11);
    assert_eq!(r.unwrap_err(), PaymentError::NotFound);

    let p = ledger.escrow_payment(&client, 1, 11).unwrap();
    assert_eq!(p.status, PaymentStatus::Escrowed);
    assert_eq!(p.created_at, 10);
    assert_eq!(p.updated_at, 11);

    let r = ledger.escrow_payment(&client, 1, 12);
    assert_eq!(r.unwrap_err(), PaymentError::InvalidStatus);
    let stored = ledger.get_payment(1).unwrap();
    assert_eq!(stored.status, PaymentStatus::Escrowed);
    assert_eq!(stored.updated_at, 11);
}

#[test]
fn settlement_consumes_the_escrowed_state() {
    let client = ident(1);
    let mut ledger = EscrowLedger::new();
    for project in 1..=3u64 {
        let p = ledger.create_payment(&client, project, ident(2), 100, 10).unwrap();
        ledger.escrow_payment(&client, p.id, 11).unwrap();
    }

    let p = ledger.release_payment(&client, 1, 12).unwrap();
    assert_eq!(p.status, PaymentStatus::Released);
    assert_eq!(ledger.release_payment(&client, 1, 13).unwrap_err(), PaymentError::InvalidStatus);
    assert_eq!(ledger.refund_payment(&client, 1, 13).unwrap_err(), PaymentError::InvalidStatus);
    assert_eq!(ledger.dispute_payment(&client, 1, 13).unwrap_err(), PaymentError::InvalidStatus);
    assert_eq!(ledger.get_payment(1).unwrap().status, PaymentStatus::Released);

    let p = ledger.refund_payment(&client, 2, 12).unwrap();
    assert_eq!(p.status, PaymentStatus::Refunded);
    assert_eq!(ledger.refund_payment(&client, 2, 13).unwrap_err(), PaymentError::InvalidStatus);
    assert_eq!(ledger.release_payment(&client, 2, 13).unwrap_err(), PaymentError::InvalidStatus);

    let p = ledger.dispute_payment(&client, 3, 12).unwrap();
    assert_eq!(p.status, PaymentStatus::Disputed);
    assert_eq!(ledger.dispute_payment(&client, 3, 13).unwrap_err(), PaymentError::InvalidStatus);
    assert_eq!(ledger.release_payment(&client, 3, 13).unwrap_err(), PaymentError::InvalidStatus);
}

#[test]
fn release_and_refund_require_the_client_and_an_escrowed_record() {
    let client = ident(1);
    let freelancer = ident(2);
    let mut ledger = EscrowLedger::new();
    ledger.create_payment(&client, 7, ident(2), 100, 10).unwrap();

    assert_eq!(ledger.release_payment(&client, 1, 11).unwrap_err(), PaymentError::InvalidStatus);
    assert_eq!(ledger.refund_payment(&client, 1, 11).unwrap_err(), PaymentError::InvalidStatus);
    assert_eq!(ledger.release_payment(&client, 2, 11).unwrap_err(), PaymentError::NotFound);
    assert_eq!(ledger.refund_payment(&client, 2, 11).unwrap_err(), PaymentError::NotFound);

    ledger.escrow_payment(&client, 1, 11).unwrap();
    assert_eq!(ledger.release_payment(&freelancer, 1, 12).unwrap_err(), PaymentError::Unauthorized);
    assert_eq!(ledger.refund_payment(&freelancer, 1, 12).unwrap_err(), PaymentError::Unauthorized);
    assert_eq!(ledger.get_payment(1).unwrap().status, PaymentStatus::Escrowed);

    let p = ledger.refund_payment(&client, 1, 13).unwrap();
    assert_eq!(p.status, PaymentStatus::Refunded);
    assert_eq!(p.updated_at, 13);
}

#[test]
fn dispute_is_open_to_both_parties_and_no_one_else() {
    let client = ident(1);
    let freelancer = ident(2);
    let outsider = ident(3);
    let mut ledger = EscrowLedger::new();

    ledger.create_payment(&client, 7, ident(2), 100, 10).unwrap();
    ledger.escrow_payment(&client, 1, 11).unwrap();
    assert_eq!(ledger.dispute_payment(&outsider, 1, 12).unwrap_err(), PaymentError::Unauthorized);
    assert_eq!(ledger.get_payment(1).unwrap().status, PaymentStatus::Escrowed);
    let p = ledger.dispute_payment(&freelancer, 1, 12).unwrap();
    assert_eq!(p.status, PaymentStatus::Disputed);

    ledger.create_payment(&client, 8, ident(2), 100, 13).unwrap();
    ledger.escrow_payment(&client, 2, 14).unwrap();
    let p = ledger.dispute_payment(&client, 2, 15).unwrap();
    assert_eq!(p.status, PaymentStatus::Disputed);

    assert_eq!(ledger.dispute_payment(&client, 3, 16).unwrap_err(), PaymentError::NotFound);
}

#[test]
fn scenario_full_release_lifecycle() {
    let c = ident(10);
    let f = ident(20);
    let mut ledger = EscrowLedger::new();

    let p = ledger.create_payment(&c, 1, ident(20), 100, 100).unwrap();
    assert_eq!(p.status, PaymentStatus::Pending);
    assert!(p.freelancer.same_as(&f));
    let id = p.id;

    let p = ledger.escrow_payment(&c, id, 101).unwrap();
    assert_eq!(p.status, PaymentStatus::Escrowed);

    let p = ledger.release_payment(&c, id, 102).unwrap();
    assert_eq!(p.status, PaymentStatus::Released);

    assert_eq!(ledger.release_payment(&c, id, 103).unwrap_err(), PaymentError::InvalidStatus);
    assert_eq!(ledger.get_payment(id).unwrap().status, PaymentStatus::Released);
}

#[test]
fn scenario_escrow_by_the_freelancer_is_refused() {
    let c = ident(10);
    let f = ident(20);
    let mut ledger = EscrowLedger::new();

    let p = ledger.create_payment(&c, 2, ident(20), 50, 100).unwrap();
    assert_eq!(p.status, PaymentStatus::Pending);
    let id = p.id;

    assert_eq!(ledger.escrow_payment(&f, id, 101).unwrap_err(), PaymentError::Unauthorized);
    let stored = ledger.get_payment(id).unwrap();
    assert_eq!(stored.status, PaymentStatus::Pending);
    assert_eq!(stored.updated_at, 100);
}
