use agri_ledger::codec::{decode_debt, encode_debt};
use agri_ledger::service::State;
use agri_ledger::types::{
    CropInsurancePayload, Debt, DebtPayload, Error, EscrowPayload, InsuranceClaimPayload,
};

fn debt_payload(debtor: &str, creditor: &str, amount: u64) -> DebtPayload {
    DebtPayload { debtor: debtor.to_string(), creditor: creditor.to_string(), amount }
}

fn insurance_payload(farmer: &str, crop: &str, coverage: u64, start: u64, end: u64) -> CropInsurancePayload {
    CropInsurancePayload {
        farmer: farmer.to_string(),
        crop_type: crop.to_string(),
        coverage_amount: coverage,
        coverage_start_date: start,
        coverage_end_date: end,
    }
}

fn not_found_msg(e: &Error) -> &str {
    match e {
        Error::NotFound { msg } => msg,
        Error::InvalidInput { .. } => panic!("expected NotFound"),
    }
}

fn invalid_input_msg(e: &Error) -> &str {
    match e {
        Error::InvalidInput { msg } => msg,
        Error::NotFound { .. } => panic!("expected InvalidInput"),
    }
}

#[test]
fn add_debt_then_get_debt_round_trip() {
    let mut s = State::new();
    let added = s.add_debt(debt_payload("alice", "bob", 100), 7).expect("valid payload");
    let got = match s.get_debt(added.id) {
        Ok(d) => d,
        Err(_) => panic!("stored debt must be retrievable"),
    };
    assert_eq!(got.id, added.id);
    assert_eq!(got.debtor, added.debtor);
    assert_eq!(got.creditor, added.creditor);
    assert_eq!(got.amount, added.amount);
    assert_eq!(got.created_at, added.created_at);
    assert_eq!(got.created_at, 7);
}

#[test]
fn add_debt_rejects_invalid_payloads() {
    let mut s = State::new();
    assert!(s.add_debt(debt_payload("", "bob", 100), 1).is_none());
    assert!(s.add_debt(debt_payload("alice", "", 100), 1).is_none());
    assert!(s.add_debt(debt_payload("alice", "bob", 0), 1).is_none());
    // Nothing was stored and no identifier was spent: the next debt gets id 1.
    assert!(s.get_debt(1).is_err());
    let d = s.add_debt(debt_payload("alice", "bob", 100), 1).expect("valid payload");
    assert_eq!(d.id, 1);
}

#[test]
fn update_debt_missing_id_yields_not_found() {
    let mut s = State::new();
    match s.update_debt(999, debt_payload("a", "b", 5)) {
        Ok(_) => panic!("update of a missing debt must fail"),
        Err(e) => assert_eq!(
            not_found_msg(&e),
            "couldn't update a debt with id=999. debt not found"
        ),
    }
    // Storage is untouched: still empty.
    assert!(s.get_debt(999).is_err());

    let d = s.add_debt(debt_payload("alice", "bob", 100), 3).expect("valid payload");
    assert!(s.update_debt(d.id + 1, debt_payload("a", "b", 5)).is_err());
    let kept = s.get_debt(d.id).ok().expect("stored debt still present");
    assert_eq!(kept.amount, 100);
    assert_eq!(kept.debtor, "alice");
}

#[test]
fn update_debt_replaces_fields_and_keeps_created_at() {
    let mut s = State::new();
    let d = s.add_debt(debt_payload("alice", "bob", 100), 7).expect("valid payload");
    let updated = match s.update_debt(d.id, debt_payload("carol", "dave", 250)) {
        Ok(u) => u,
        Err(_) => panic!("update of an existing debt must succeed"),
    };
    assert_eq!(updated.id, d.id);
    assert_eq!(updated.debtor, "carol");
    assert_eq!(updated.creditor, "dave");
    assert_eq!(updated.amount, 250);
    assert_eq!(updated.created_at, 7);
    let got = s.get_debt(d.id).ok().expect("still retrievable");
    assert_eq!(got.amount, 250);
    assert_eq!(got.created_at, 7);
}

#[test]
fn create_escrow_missing_debt_allocates_no_id() {
    let mut s = State::new();
    match s.create_escrow(EscrowPayload { debt_id: 1, amount: 50 }, 2) {
        Ok(_) => panic!("escrow for a missing debt must fail"),
        Err(e) => assert_eq!(
            not_found_msg(&e),
            "couldn't create escrow for debt_id=1. debt not found"
        ),
    }
    // The counter did not move: the next debt still gets id 1.
    let d = s.add_debt(debt_payload("alice", "bob", 100), 2).expect("valid payload");
    assert_eq!(d.id, 1);
}

#[test]
fn create_escrow_overwrites_previous() {
    let mut s = State::new();
    let d = s.add_debt(debt_payload("alice", "bob", 100), 1).expect("valid payload");
    s.create_escrow(EscrowPayload { debt_id: d.id, amount: 50 }, 2).ok().expect("first escrow");
    s.create_escrow(EscrowPayload { debt_id: d.id, amount: 75 }, 3).ok().expect("second escrow");
    let e = s.get_escrow(d.id).ok().expect("latest escrow retrievable");
    assert_eq!(e.debt_id, d.id);
    assert_eq!(e.amount, 75);
    assert_eq!(e.created_at, 3);
}

#[test]
fn claim_above_coverage_is_accepted() {
    let mut s = State::new();
    let pol = s
        .purchase_crop_insurance(insurance_payload("farmerA", "wheat", 1000, 100, 200))
        .expect("valid policy");
    let claim = match s.submit_insurance_claim(
        InsuranceClaimPayload { insurance_id: pol.id, claim_amount: 1500 },
        9,
    ) {
        Ok(c) => c,
        Err(_) => panic!("claim against an existing policy must succeed"),
    };
    assert_eq!(claim.insurance_id, pol.id);
    assert_eq!(claim.claim_amount, 1500);
    assert_eq!(claim.claim_date, 9);
}

#[test]
fn identifiers_strictly_increase_across_kinds() {
    let mut s = State::new();
    let d1 = s.add_debt(debt_payload("alice", "bob", 10), 1).expect("valid payload");
    assert_eq!(d1.id, 1);
    let pol = s
        .purchase_crop_insurance(insurance_payload("farmerA", "wheat", 1000, 1, 2))
        .expect("valid policy");
    assert_eq!(pol.id, 2);
    let d2 = s.add_debt(debt_payload("carol", "dave", 20), 1).expect("valid payload");
    assert_eq!(d2.id, 3);
    // An escrow draws an identifier too, although it is keyed by the debt.
    s.create_escrow(EscrowPayload { debt_id: 1, amount: 5 }, 1).ok().expect("escrow");
    let d3 = s.add_debt(debt_payload("erin", "frank", 30), 1).expect("valid payload");
    assert_eq!(d3.id, 5);
}

#[test]
fn scenario_debt_escrow_update() {
    let mut s = State::new();
    let d = s.add_debt(debt_payload("alice", "bob", 100), 1).expect("valid payload");
    assert_eq!(d.id, 1);
    assert_eq!(d.amount, 100);
    let e = s.create_escrow(EscrowPayload { debt_id: 1, amount: 50 }, 2).ok().expect("escrow");
    assert_eq!(e.debt_id, 1);
    assert_eq!(e.amount, 50);
    let got = s.get_escrow(1).ok().expect("escrow retrievable");
    assert_eq!(got.debt_id, e.debt_id);
    assert_eq!(got.amount, e.amount);
    assert_eq!(got.created_at, e.created_at);
    match s.update_debt(1, debt_payload("alice", "bob", 0)) {
        Ok(_) => panic!("zero amount must be rejected"),
        Err(err) => assert_eq!(invalid_input_msg(&err), "Invalid input data"),
    }
}

#[test]
fn scenario_insurance_and_oversized_claim() {
    let mut s = State::new();
    s.add_debt(debt_payload("alice", "bob", 100), 1).expect("valid payload");
    let pol = s
        .purchase_crop_insurance(insurance_payload("farmerA", "wheat", 1000, 100, 200))
        .expect("valid policy");
    assert_eq!(pol.id, 2);
    assert_eq!(pol.farmer, "farmerA");
    assert_eq!(pol.crop_type, "wheat");
    assert_eq!(pol.coverage_amount, 1000);
    assert_eq!(pol.coverage_start_date, 100);
    assert_eq!(pol.coverage_end_date, 200);
    let claim = s
        .submit_insurance_claim(InsuranceClaimPayload { insurance_id: 2, claim_amount: 1500 }, 5)
        .ok()
        .expect("claim accepted despite exceeding coverage");
    assert_eq!(claim.insurance_id, 2);
    assert_eq!(claim.claim_amount, 1500);
    // The claim was stored under the identifier drawn for it.
    let stored = s.get_insurance_claim(3).ok().expect("claim under its own id");
    assert_eq!(stored.insurance_id, 2);
    assert_eq!(stored.claim_amount, 1500);
}

#[test]
fn get_debt_missing_message_names_the_id() {
    let s = State::new();
    match s.get_debt(999) {
        Ok(_) => panic!("empty storage has no debt"),
        Err(e) => {
            let msg = not_found_msg(&e);
            assert!(msg.contains("999"));
            assert_eq!(msg, "a debt with id=999 not found");
            assert_eq!(e.message().as_str(), "a debt with id=999 not found");
        }
    }
}

#[test]
fn missing_lookups_report_each_store() {
    let s = State::new();
    match s.get_escrow(7) {
        Ok(_) => panic!("no escrow stored"),
        Err(e) => assert_eq!(not_found_msg(&e), "escrow for debt_id=7 not found"),
    }
    match s.get_crop_insurance(8) {
        Ok(_) => panic!("no policy stored"),
        Err(e) => assert_eq!(not_found_msg(&e), "crop insurance with id=8 not found"),
    }
    match s.get_insurance_claim(9) {
        Ok(_) => panic!("no claim stored"),
        Err(e) => assert_eq!(not_found_msg(&e), "insurance claim with id=9 not found"),
    }
}

#[test]
fn invalid_escrow_amount_is_reported() {
    let mut s = State::new();
    s.add_debt(debt_payload("alice", "bob", 100), 1).expect("valid payload");
    match s.create_escrow(EscrowPayload { debt_id: 1, amount: 0 }, 2) {
        Ok(_) => panic!("zero escrow amount must be rejected"),
        Err(e) => assert_eq!(invalid_input_msg(&e), "Invalid escrow amount"),
    }
}

#[test]
fn claim_against_missing_policy_is_reported() {
    let mut s = State::new();
    match s.submit_insurance_claim(InsuranceClaimPayload { insurance_id: 4, claim_amount: 1 }, 2) {
        Ok(_) => panic!("claim against a missing policy must fail"),
        Err(e) => assert_eq!(
            not_found_msg(&e),
            "couldn't submit a claim for crop insurance with id=4. insurance not found"
        ),
    }
}

#[test]
fn purchase_rejects_invalid_payloads() {
    let mut s = State::new();
    assert!(s.purchase_crop_insurance(insurance_payload("", "wheat", 10, 1, 2)).is_none());
    assert!(s.purchase_crop_insurance(insurance_payload("farmerA", "", 10, 1, 2)).is_none());
    assert!(s.purchase_crop_insurance(insurance_payload("farmerA", "wheat", 0, 1, 2)).is_none());
    assert!(s.get_crop_insurance(1).is_err());
}

#[test]
fn unicode_fields_survive_storage() {
    let mut s = State::new();
    let d = s
        .add_debt(debt_payload("Ægir φ", "Bjørn 北", 42), 11)
        .expect("valid payload");
    let got = s.get_debt(d.id).ok().expect("retrievable");
    assert_eq!(got.debtor, "Ægir φ");
    assert_eq!(got.creditor, "Bjørn 北");
    assert_eq!(got.amount, 42);
}

#[test]
fn helper_lookups_match_queries() {
    let mut s = State::new();
    let d = s.add_debt(debt_payload("alice", "bob", 100), 1).expect("valid payload");
    let via_helper = s._get_debt(&d.id).expect("present");
    assert_eq!(via_helper.amount, 100);
    assert_eq!(via_helper.debtor, "alice");
    assert!(s._get_escrow(&d.id).is_none());
    assert!(s._get_crop_insurance(&9).is_none());
    assert!(s._get_insurance_claim(&9).is_none());
}

#[test]
fn do_insert_upserts_by_own_key() {
    let mut s = State::new();
    let debt = Debt {
        id: 10,
        debtor: "x".to_string(),
        creditor: "y".to_string(),
        amount: 1,
        created_at: 0,
    };
    s.do_insert_debt(&debt);
    let got = s.get_debt(10).ok().expect("inserted under its id field");
    assert_eq!(got.amount, 1);
    let escrow = agri_ledger::types::Escrow { debt_id: 10, amount: 4, created_at: 2 };
    s.do_insert_escrow(&escrow);
    let got = s.get_escrow(10).ok().expect("inserted under its debt_id field");
    assert_eq!(got.amount, 4);
    assert_eq!(got.created_at, 2);
}

#[test]
fn debt_encoding_round_trips() {
    let debt = Debt {
        id: 12,
        debtor: "alice".to_string(),
        creditor: "bob".to_string(),
        amount: 100,
        created_at: 77,
    };
    let bytes = encode_debt(&debt);
    let back = decode_debt(&bytes).expect("an encoded debt decodes");
    assert_eq!(back.id, 12);
    assert_eq!(back.debtor, "alice");
    assert_eq!(back.creditor, "bob");
    assert_eq!(back.amount, 100);
    assert_eq!(back.created_at, 77);
    // A truncated encoding is rejected rather than misread.
    assert!(decode_debt(&bytes[..bytes.len() - 1].to_vec()).is_none());
    assert!(decode_debt(&vec![1, 2, 3]).is_none());
}
