//! The service: the application state (one shared identifier counter and one
//! persistent store per record kind) and the query and update operations
//! over it.

use vstd::prelude::*;
use crate::codec::{decode_claim, decode_claim_spec, decode_debt, decode_debt_spec, decode_escrow,
    decode_escrow_spec, decode_insurance, decode_insurance_spec, encode_claim, encode_debt,
    encode_escrow, encode_insurance};
use crate::store::{byte_map_get, byte_map_insert, byte_map_new, id_cell_get, id_cell_new,
    id_cell_set, id_cell_value, map_contents, ByteMap, IdCell};
use crate::text::{claim_insurance_not_found_msg, claim_not_found_msg, debt_not_found_msg,
    escrow_debt_not_found_msg, escrow_not_found_msg, insurance_not_found_msg, invalid_escrow_amount_msg,
    invalid_input_msg, message_with_id, update_debt_not_found_msg};
use crate::types::{CropInsurance, CropInsurancePayload, CropInsuranceV, Debt, DebtPayload, DebtV,
    Error, Escrow, EscrowPayload, EscrowV, InsuranceClaim, InsuranceClaimPayload, InsuranceClaimV};
use vstd::string::StringExecFns;

verus! {

/// The debt store, read through the codec.
pub open spec fn debts_view(m: Map<u64, Seq<u8>>) -> Map<u64, DebtV> {
    Map::new(|k: u64| m.contains_key(k), |k: u64| decode_debt_spec(m[k]).unwrap())
}

/// The escrow store, read through the codec.
pub open spec fn escrows_view(m: Map<u64, Seq<u8>>) -> Map<u64, EscrowV> {
    Map::new(|k: u64| m.contains_key(k), |k: u64| decode_escrow_spec(m[k]).unwrap())
}

/// The policy store, read through the codec.
pub open spec fn insurances_view(m: Map<u64, Seq<u8>>) -> Map<u64, CropInsuranceV> {
    Map::new(|k: u64| m.contains_key(k), |k: u64| decode_insurance_spec(m[k]).unwrap())
}

/// The claim store, read through the codec.
pub open spec fn claims_view(m: Map<u64, Seq<u8>>) -> Map<u64, InsuranceClaimV> {
    Map::new(|k: u64| m.contains_key(k), |k: u64| decode_claim_spec(m[k]).unwrap())
}

/// The whole application state: one shared identifier counter and one
/// persistent store per record kind.
pub struct State {
    pub counter: IdCell,
    pub debts: ByteMap,
    pub escrows: ByteMap,
    pub insurances: ByteMap,
    pub claims: ByteMap,
}

/// Mathematical model of the whole [`State`].
#[verifier::ext_equal]
pub struct StateV {
    pub counter: u64,
    pub debts: Map<u64, DebtV>,
    pub escrows: Map<u64, EscrowV>,
    pub insurances: Map<u64, CropInsuranceV>,
    pub claims: Map<u64, InsuranceClaimV>,
}

impl StateV {
    /// The model of a fresh state: counter at zero, all stores empty.
    pub open spec fn initial() -> StateV {
        StateV {
            counter: 0,
            debts: Map::empty(),
            escrows: Map::empty(),
            insurances: Map::empty(),
            claims: Map::empty(),
        }
    }
}

impl View for State {
    type V = StateV;

    open spec fn view(&self) -> StateV {
        StateV {
            counter: id_cell_value(self.counter),
            debts: debts_view(map_contents(self.debts)),
            escrows: escrows_view(map_contents(self.escrows)),
            insurances: insurances_view(map_contents(self.insurances)),
            claims: claims_view(map_contents(self.claims)),
        }
    }
}

/// Each stored record sits under the key its own reference field names: a
/// debt or policy under its identifier, an escrow under its debt's.
pub open spec fn keyed_by_id(sv: StateV) -> bool {
    &&& forall|k: u64| #[trigger] sv.debts.contains_key(k) ==> sv.debts[k].id == k
    &&& forall|k: u64| #[trigger] sv.insurances.contains_key(k) ==> sv.insurances[k].id == k
    &&& forall|k: u64| #[trigger] sv.escrows.contains_key(k) ==> sv.escrows[k].debt_id == k
}

/// Every identifier-keyed record lies at or below the counter, so every
/// identifier above the counter — in particular the next one issued — is
/// fresh across all identifier-keyed stores.
pub open spec fn ids_bounded(sv: StateV) -> bool {
    &&& forall|k: u64| #[trigger] sv.debts.contains_key(k) ==> 1 <= k <= sv.counter
    &&& forall|k: u64| #[trigger] sv.insurances.contains_key(k) ==> 1 <= k <= sv.counter
    &&& forall|k: u64| #[trigger] sv.claims.contains_key(k) ==> 1 <= k <= sv.counter
}

impl State {
    /// Every stored byte value is a well-formed record encoding, so every
    /// lookup decodes.
    pub open spec fn decodable(self) -> bool {
        &&& forall|k: u64| #[trigger] map_contents(self.debts).contains_key(k)
            ==> decode_debt_spec(map_contents(self.debts)[k]) is Some
        &&& forall|k: u64| #[trigger] map_contents(self.escrows).contains_key(k)
            ==> decode_escrow_spec(map_contents(self.escrows)[k]) is Some
        &&& forall|k: u64| #[trigger] map_contents(self.insurances).contains_key(k)
            ==> decode_insurance_spec(map_contents(self.insurances)[k]) is Some
        &&& forall|k: u64| #[trigger] map_contents(self.claims).contains_key(k)
            ==> decode_claim_spec(map_contents(self.claims)[k]) is Some
    }

    /// The state invariant: stores decode, records sit under their own keys,
    /// and issued identifiers bound the stored keys.
    pub open spec fn inv(self) -> bool {
        self.decodable() && keyed_by_id(self@) && ids_bounded(self@)
    }

    /// A fresh application state. The counter starts at zero, so the first
    /// issued identifier is 1.
    pub fn new() -> (s: State)
        ensures
            s.inv(),
            s@ == StateV::initial(),
    {
        let s = State {
            counter: id_cell_new(0),
            debts: byte_map_new(),
            escrows: byte_map_new(),
            insurances: byte_map_new(),
            claims: byte_map_new(),
        };
        proof {
            assert(s@.debts =~= Map::<u64, DebtV>::empty());
            assert(s@.escrows =~= Map::<u64, EscrowV>::empty());
            assert(s@.insurances =~= Map::<u64, CropInsuranceV>::empty());
            assert(s@.claims =~= Map::<u64, InsuranceClaimV>::empty());
            assert(s@ =~= StateV::initial());
        }
        s
    }

    /// Looks up the debt stored under `id`.
    pub fn _get_debt(&self, id: &u64) -> (r: Option<Debt>)
        requires
            self.decodable(),
        ensures
            match r {
                Some(d) => self@.debts.contains_key(*id) && d@ == self@.debts[*id],
                None => !self@.debts.contains_key(*id),
            },
    {
        match byte_map_get(&self.debts, id) {
            Some(bytes) => match decode_debt(&bytes) {
                Some(d) => Some(d),
                None => None,
            },
            None => None,
        }
    }

    /// Looks up the escrow stored under `debt_id`.
    pub fn _get_escrow(&self, debt_id: &u64) -> (r: Option<Escrow>)
        requires
            self.decodable(),
        ensures
            match r {
                Some(e) => self@.escrows.contains_key(*debt_id) && e@ == self@.escrows[*debt_id],
                None => !self@.escrows.contains_key(*debt_id),
            },
    {
        match byte_map_get(&self.escrows, debt_id) {
            Some(bytes) => match decode_escrow(&bytes) {
                Some(e) => Some(e),
                None => None,
            },
            None => None,
        }
    }

    /// Looks up the crop insurance policy stored under `id`.
    pub fn _get_crop_insurance(&self, id: &u64) -> (r: Option<CropInsurance>)
        requires
            self.decodable(),
        ensures
            match r {
                Some(c) => self@.insurances.contains_key(*id) && c@ == self@.insurances[*id],
                None => !self@.insurances.contains_key(*id),
            },
    {
        match byte_map_get(&self.insurances, id) {
            Some(bytes) => match decode_insurance(&bytes) {
                Some(c) => Some(c),
                None => None,
            },
            None => None,
        }
    }

    /// Looks up the insurance claim stored under `claim_id`.
    pub fn _get_insurance_claim(&self, claim_id: &u64) -> (r: Option<InsuranceClaim>)
        requires
            self.decodable(),
        ensures
            match r {
                Some(c) => self@.claims.contains_key(*claim_id) && c@ == self@.claims[*claim_id],
                None => !self@.claims.contains_key(*claim_id),
            },
    {
        match byte_map_get(&self.claims, claim_id) {
            Some(bytes) => match decode_claim(&bytes) {
                Some(c) => Some(c),
                None => None,
            },
            None => None,
        }
    }

    /// Returns the debt stored under `id`, or says that none is.
    pub fn get_debt(&self, id: u64) -> (r: Result<Debt, Error>)
        requires
            self.decodable(),
        ensures
            match r {
                Ok(d) => self@.debts.contains_key(id) && d@ == self@.debts[id],
                Err(e) => {
                    &&& !self@.debts.contains_key(id)
                    &&& e matches Error::NotFound { msg } && msg@ == debt_not_found_msg(id)
                },
            },
    {
        match self._get_debt(&id) {
            Some(debt) => Ok(debt),
            None => Err(
                Error::NotFound { msg: message_with_id("a debt with id=", id, " not found") },
            ),
        }
    }

    /// Returns the escrow stored under `debt_id`, or says that none is.
    pub fn get_escrow(&self, debt_id: u64) -> (r: Result<Escrow, Error>)
        requires
            self.decodable(),
        ensures
            match r {
                Ok(e) => self@.escrows.contains_key(debt_id) && e@ == self@.escrows[debt_id],
                Err(e) => {
                    &&& !self@.escrows.contains_key(debt_id)
                    &&& e matches Error::NotFound { msg } && msg@ == escrow_not_found_msg(debt_id)
                },
            },
    {
        match self._get_escrow(&debt_id) {
            Some(escrow) => Ok(escrow),
            None => Err(
                Error::NotFound {
                    msg: message_with_id("escrow for debt_id=", debt_id, " not found"),
                },
            ),
        }
    }

    /// Returns the policy stored under `id`, or says that none is.
    pub fn get_crop_insurance(&self, id: u64) -> (r: Result<CropInsurance, Error>)
        requires
            self.decodable(),
        ensures
            match r {
                Ok(c) => self@.insurances.contains_key(id) && c@ == self@.insurances[id],
                Err(e) => {
                    &&& !self@.insurances.contains_key(id)
                    &&& e matches Error::NotFound { msg } && msg@ == insurance_not_found_msg(id)
                },
            },
    {
        match self._get_crop_insurance(&id) {
            Some(insurance) => Ok(insurance),
            None => Err(
                Error::NotFound {
                    msg: message_with_id("crop insurance with id=", id, " not found"),
                },
            ),
        }
    }

    /// Returns the claim stored under `claim_id`, or says that none is.
    pub fn get_insurance_claim(&self, claim_id: u64) -> (r: Result<InsuranceClaim, Error>)
        requires
            self.decodable(),
        ensures
            match r {
                Ok(c) => self@.claims.contains_key(claim_id) && c@ == self@.claims[claim_id],
                Err(e) => {
                    &&& !self@.claims.contains_key(claim_id)
                    &&& e matches Error::NotFound { msg } && msg@ == claim_not_found_msg(claim_id)
                },
            },
    {
        match self._get_insurance_claim(&claim_id) {
            Some(claim) => Ok(claim),
            None => Err(
                Error::NotFound {
                    msg: message_with_id("insurance claim with id=", claim_id, " not found"),
                },
            ),
        }
    }

    /// Issues the next identifier: one more than any identifier issued so
    /// far, starting from 1.
    fn next_id(&mut self) -> (id: u64)
        requires
            old(self)@.counter < u64::MAX,
        ensures
            id == old(self)@.counter + 1,
            final(self)@.counter == id,
            final(self)@.debts == old(self)@.debts,
            final(self)@.escrows == old(self)@.escrows,
            final(self)@.insurances == old(self)@.insurances,
            final(self)@.claims == old(self)@.claims,
            final(self).decodable() == old(self).decodable(),
    {
        let current = id_cell_get(&self.counter);
        let new_value = current + 1;
        id_cell_set(&mut self.counter, new_value);
        new_value
    }

    /// Upserts a debt into the debt store, keyed by its identifier field.
    pub fn do_insert_debt(&mut self, debt: &Debt)
        requires
            old(self).decodable(),
        ensures
            final(self).decodable(),
            final(self)@.debts == old(self)@.debts.insert(debt.id, debt@),
            final(self)@.counter == old(self)@.counter,
            final(self)@.escrows == old(self)@.escrows,
            final(self)@.insurances == old(self)@.insurances,
            final(self)@.claims == old(self)@.claims,
    {
        let bytes = encode_debt(debt);
        byte_map_insert(&mut self.debts, debt.id, bytes);
        proof {
            assert(self@.debts =~= old(self)@.debts.insert(debt.id, debt@));
        }
    }

    /// Upserts an escrow into the escrow store, keyed by the debt it refers
    /// to.
    pub fn do_insert_escrow(&mut self, escrow: &Escrow)
        requires
            old(self).decodable(),
        ensures
            final(self).decodable(),
            final(self)@.escrows == old(self)@.escrows.insert(escrow.debt_id, escrow@),
            final(self)@.counter == old(self)@.counter,
            final(self)@.debts == old(self)@.debts,
            final(self)@.insurances == old(self)@.insurances,
            final(self)@.claims == old(self)@.claims,
    {
        let bytes = encode_escrow(escrow);
        byte_map_insert(&mut self.escrows, escrow.debt_id, bytes);
        proof {
            assert(self@.escrows =~= old(self)@.escrows.insert(escrow.debt_id, escrow@));
        }
    }

    /// Creates a debt from the payload, stamped with a fresh identifier and
    /// the given creation time. Returns `None`, changing nothing, when the
    /// payload fails validation; validation failures carry no error detail.
    pub fn add_debt(&mut self, debt: DebtPayload, now: u64) -> (r: Option<Debt>)
        requires
            old(self).inv(),
            debt.valid() ==> old(self)@.counter < u64::MAX,
        ensures
            final(self).inv(),
            match r {
                Some(d) => {
                    &&& debt.valid()
                    &&& d@ == (DebtV {
                        id: (old(self)@.counter + 1) as u64,
                        debtor: debt.debtor@,
                        creditor: debt.creditor@,
                        amount: debt.amount,
                        created_at: now,
                    })
                    &&& !old(self)@.debts.contains_key(d@.id)
                    &&& !old(self)@.insurances.contains_key(d@.id)
                    &&& !old(self)@.claims.contains_key(d@.id)
                    &&& final(self)@.counter == old(self)@.counter + 1
                    &&& final(self)@.debts == old(self)@.debts.insert(d@.id, d@)
                    &&& final(self)@.escrows == old(self)@.escrows
                    &&& final(self)@.insurances == old(self)@.insurances
                    &&& final(self)@.claims == old(self)@.claims
                },
                None => !debt.valid() && final(self)@ == old(self)@,
            },
    {
        if debt.debtor.as_str().is_empty() || debt.creditor.as_str().is_empty() || debt.amount
            == 0 {
            return None;
        }
        let id = self.next_id();
        let new_debt = Debt {
            id,
            debtor: debt.debtor,
            creditor: debt.creditor,
            amount: debt.amount,
            created_at: now,
        };
        self.do_insert_debt(&new_debt);
        Some(new_debt)
    }

    /// Replaces the fields of the debt stored under `id` with the payload's,
    /// keeping the stored identifier and creation time. Reports invalid
    /// input, or that no such debt exists, without changing anything.
    pub fn update_debt(&mut self, id: u64, payload: DebtPayload) -> (r: Result<Debt, Error>)
        requires
            old(self).inv(),
        ensures
            final(self).inv(),
            match r {
                Ok(d) => {
                    &&& payload.valid()
                    &&& old(self)@.debts.contains_key(id)
                    &&& d@ == (DebtV {
                        id: old(self)@.debts[id].id,
                        debtor: payload.debtor@,
                        creditor: payload.creditor@,
                        amount: payload.amount,
                        created_at: old(self)@.debts[id].created_at,
                    })
                    &&& final(self)@.debts == old(self)@.debts.insert(d@.id, d@)
                    &&& final(self)@.counter == old(self)@.counter
                    &&& final(self)@.escrows == old(self)@.escrows
                    &&& final(self)@.insurances == old(self)@.insurances
                    &&& final(self)@.claims == old(self)@.claims
                },
                Err(e) => {
                    &&& final(self)@ == old(self)@
                    &&& if !payload.valid() {
                        e matches Error::InvalidInput { msg } && msg@ == invalid_input_msg()
                    } else {
                        &&& !old(self)@.debts.contains_key(id)
                        &&& e matches Error::NotFound { msg } && msg@ == update_debt_not_found_msg(
                            id,
                        )
                    }
                },
            },
    {
        if payload.debtor.as_str().is_empty() || payload.creditor.as_str().is_empty()
            || payload.amount == 0 {
            return Err(Error::InvalidInput { msg: String::from_str("Invalid input data") });
        }
        match self._get_debt(&id) {
            Some(stored) => {
                let updated = Debt {
                    id: stored.id,
                    debtor: payload.debtor,
                    creditor: payload.creditor,
                    amount: payload.amount,
                    created_at: stored.created_at,
                };
                self.do_insert_debt(&updated);
                Ok(updated)
            },
            None => Err(
                Error::NotFound {
                    msg: message_with_id(
                        "couldn't update a debt with id=",
                        id,
                        ". debt not found",
                    ),
                },
            ),
        }
    }

    /// Creates an escrow against the debt named by the payload, stamped with
    /// the given creation time, overwriting any escrow already held for that
    /// debt. An identifier is drawn for the operation although the escrow is
    /// keyed by the debt's identifier. Reports a zero amount, or an absent
    /// debt, without changing anything.
    pub fn create_escrow(&mut self, payload: EscrowPayload, now: u64) -> (r: Result<Escrow, Error>)
        requires
            old(self).inv(),
            payload.amount > 0 && old(self)@.debts.contains_key(payload.debt_id) ==> old(
                self,
            )@.counter < u64::MAX,
        ensures
            final(self).inv(),
            match r {
                Ok(e) => {
                    &&& payload.amount > 0
                    &&& old(self)@.debts.contains_key(payload.debt_id)
                    &&& e@ == (EscrowV {
                        debt_id: payload.debt_id,
                        amount: payload.amount,
                        created_at: now,
                    })
                    &&& final(self)@.escrows == old(self)@.escrows.insert(payload.debt_id, e@)
                    &&& final(self)@.counter == old(self)@.counter + 1
                    &&& final(self)@.debts == old(self)@.debts
                    &&& final(self)@.insurances == old(self)@.insurances
                    &&& final(self)@.claims == old(self)@.claims
                },
                Err(err) => {
                    &&& final(self)@ == old(self)@
                    &&& if payload.amount == 0 {
                        err matches Error::InvalidInput { msg } && msg@
                            == invalid_escrow_amount_msg()
                    } else {
                        &&& !old(self)@.debts.contains_key(payload.debt_id)
                        &&& err matches Error::NotFound { msg } && msg@
                            == escrow_debt_not_found_msg(payload.debt_id)
                    }
                },
            },
    {
        if payload.amount == 0 {
            return Err(Error::InvalidInput { msg: String::from_str("Invalid escrow amount") });
        }
        match self._get_debt(&payload.debt_id) {
            Some(_) => {
                self.next_id();
                let escrow = Escrow {
                    debt_id: payload.debt_id,
                    amount: payload.amount,
                    created_at: now,
                };
                self.do_insert_escrow(&escrow);
                Ok(escrow)
            },
            None => Err(
                Error::NotFound {
                    msg: message_with_id(
                        "couldn't create escrow for debt_id=",
                        payload.debt_id,
                        ". debt not found",
                    ),
                },
            ),
        }
    }

    /// Creates a crop insurance policy from the payload, stamped with a fresh
    /// identifier. Returns `None`, changing nothing, when the payload fails
    /// validation; validation failures carry no error detail.
    pub fn purchase_crop_insurance(&mut self, payload: CropInsurancePayload) -> (r: Option<
        CropInsurance,
    >)
        requires
            old(self).inv(),
            payload.valid() ==> old(self)@.counter < u64::MAX,
        ensures
            final(self).inv(),
            match r {
                Some(c) => {
                    &&& payload.valid()
                    &&& c@ == (CropInsuranceV {
                        id: (old(self)@.counter + 1) as u64,
                        farmer: payload.farmer@,
                        crop_type: payload.crop_type@,
                        coverage_amount: payload.coverage_amount,
                        coverage_start_date: payload.coverage_start_date,
                        coverage_end_date: payload.coverage_end_date,
                    })
                    &&& !old(self)@.debts.contains_key(c@.id)
                    &&& !old(self)@.insurances.contains_key(c@.id)
                    &&& !old(self)@.claims.contains_key(c@.id)
                    &&& final(self)@.counter == old(self)@.counter + 1
                    &&& final(self)@.insurances == old(self)@.insurances.insert(c@.id, c@)
                    &&& final(self)@.debts == old(self)@.debts
                    &&& final(self)@.escrows == old(self)@.escrows
                    &&& final(self)@.claims == old(self)@.claims
                },
                None => !payload.valid() && final(self)@ == old(self)@,
            },
    {
        if payload.farmer.as_str().is_empty() || payload.crop_type.as_str().is_empty()
            || payload.coverage_amount == 0 {
            return None;
        }
        let id = self.next_id();
        let insurance = CropInsurance {
            id,
            farmer: payload.farmer,
            crop_type: payload.crop_type,
            coverage_amount: payload.coverage_amount,
            coverage_start_date: payload.coverage_start_date,
            coverage_end_date: payload.coverage_end_date,
        };
        let bytes = encode_insurance(&insurance);
        byte_map_insert(&mut self.insurances, id, bytes);
        proof {
            assert(self@.insurances =~= old(self)@.insurances.insert(insurance@.id, insurance@));
        }
        Some(insurance)
    }

    /// Records a claim against the policy named by the payload, stamped with
    /// the given claim date and stored under a fresh claim identifier. The
    /// claim amount is deliberately unchecked: a claim above the policy's
    /// coverage is accepted. Reports an absent policy without changing
    /// anything.
    pub fn submit_insurance_claim(&mut self, payload: InsuranceClaimPayload, now: u64) -> (r:
        Result<InsuranceClaim, Error>)
        requires
            old(self).inv(),
            old(self)@.insurances.contains_key(payload.insurance_id) ==> old(self)@.counter
                < u64::MAX,
        ensures
            final(self).inv(),
            match r {
                Ok(c) => {
                    &&& old(self)@.insurances.contains_key(payload.insurance_id)
                    &&& c@ == (InsuranceClaimV {
                        insurance_id: payload.insurance_id,
                        claim_amount: payload.claim_amount,
                        claim_date: now,
                    })
                    &&& !old(self)@.claims.contains_key((old(self)@.counter + 1) as u64)
                    &&& final(self)@.counter == old(self)@.counter + 1
                    &&& final(self)@.claims == old(self)@.claims.insert(
                        (old(self)@.counter + 1) as u64,
                        c@,
                    )
                    &&& final(self)@.debts == old(self)@.debts
                    &&& final(self)@.escrows == old(self)@.escrows
                    &&& final(self)@.insurances == old(self)@.insurances
                },
                Err(e) => {
                    &&& !old(self)@.insurances.contains_key(payload.insurance_id)
                    &&& final(self)@ == old(self)@
                    &&& e matches Error::NotFound { msg } && msg@ == claim_insurance_not_found_msg(
                        payload.insurance_id,
                    )
                },
            },
    {
        match self._get_crop_insurance(&payload.insurance_id) {
            Some(_) => {
                let claim_id = self.next_id();
                let claim = InsuranceClaim {
                    insurance_id: payload.insurance_id,
                    claim_amount: payload.claim_amount,
                    claim_date: now,
                };
                let bytes = encode_claim(&claim);
                byte_map_insert(&mut self.claims, claim_id, bytes);
                proof {
                    assert(self@.claims =~= old(self)@.claims.insert(claim_id, claim@));
                }
                Ok(claim)
            },
            None => Err(
                Error::NotFound {
                    msg: message_with_id(
                        "couldn't submit a claim for crop insurance with id=",
                        payload.insurance_id,
                        ". insurance not found",
                    ),
                },
            ),
        }
    }
}

/// Law: a debt created from a valid payload is retrievable under the
/// identifier it came back with, equal to the record that came back. The
/// hypothesis is what a successful creation ensures of the debt store; the
/// conclusion is what a lookup of that identifier then returns.
pub proof fn lemma_add_then_get_debt(pre: StateV, post: StateV, d: DebtV)
    requires
        post.debts == pre.debts.insert(d.id, d),
    ensures
        post.debts.contains_key(d.id),
        post.debts[d.id] == d,
{
}

/// Law: a second escrow created for the same debt overwrites the first; only
/// the latest is retrievable under that debt's identifier.
pub proof fn lemma_escrow_overwrites(m: Map<u64, EscrowV>, debt_id: u64, e1: EscrowV, e2: EscrowV)
    ensures
        m.insert(debt_id, e1).insert(debt_id, e2).contains_key(debt_id),
        m.insert(debt_id, e1).insert(debt_id, e2)[debt_id] == e2,
{
}

/// Law: identifiers issued by two creating operations, in that order, are
/// strictly increasing, whatever operations run in between: every operation
/// leaves the counter no smaller, and each issued identifier is one more
/// than the counter it was drawn from, which the draw moves up to it.
pub proof fn lemma_issued_ids_strictly_increase(c0: u64, id1: u64, c2: u64, id2: u64)
    requires
        id1 == c0 + 1,
        id1 <= c2,
        id2 == c2 + 1,
    ensures
        id2 > id1,
{
}

/// Law: an identifier above the counter is absent from every
/// identifier-keyed store, so an issued identifier never repeats a stored
/// one, whichever entity kind either was issued for.
pub proof fn lemma_fresh_identifier(sv: StateV, id: u64)
    requires
        ids_bounded(sv),
        id > sv.counter,
    ensures
        !sv.debts.contains_key(id),
        !sv.insurances.contains_key(id),
        !sv.claims.contains_key(id),
{
}

} // verus!
