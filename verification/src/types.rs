//! The record kinds the ledger stores, the request payloads, the error
//! taxonomy, and the mathematical model (view) of each record.

use vstd::prelude::*;

verus! {

/// One debt record: who owes whom, how much, and when it was recorded.
pub struct Debt {
    pub id: u64,
    pub debtor: String,
    pub creditor: String,
    pub amount: u64,
    pub created_at: u64,
}

/// Mathematical model of a [`Debt`].
#[verifier::ext_equal]
pub struct DebtV {
    pub id: u64,
    pub debtor: Seq<char>,
    pub creditor: Seq<char>,
    pub amount: u64,
    pub created_at: u64,
}

impl View for Debt {
    type V = DebtV;

    open spec fn view(&self) -> DebtV {
        DebtV {
            id: self.id,
            debtor: self.debtor@,
            creditor: self.creditor@,
            amount: self.amount,
            created_at: self.created_at,
        }
    }
}

/// Funds held against one debt. An escrow is keyed by the debt it refers to,
/// so at most one escrow exists per debt.
pub struct Escrow {
    pub debt_id: u64,
    pub amount: u64,
    pub created_at: u64,
}

/// Mathematical model of an [`Escrow`].
#[verifier::ext_equal]
pub struct EscrowV {
    pub debt_id: u64,
    pub amount: u64,
    pub created_at: u64,
}

impl View for Escrow {
    type V = EscrowV;

    open spec fn view(&self) -> EscrowV {
        EscrowV { debt_id: self.debt_id, amount: self.amount, created_at: self.created_at }
    }
}

/// One crop insurance policy.
pub struct CropInsurance {
    pub id: u64,
    pub farmer: String,
    pub crop_type: String,
    pub coverage_amount: u64,
    pub coverage_start_date: u64,
    pub coverage_end_date: u64,
}

/// Mathematical model of a [`CropInsurance`].
#[verifier::ext_equal]
pub struct CropInsuranceV {
    pub id: u64,
    pub farmer: Seq<char>,
    pub crop_type: Seq<char>,
    pub coverage_amount: u64,
    pub coverage_start_date: u64,
    pub coverage_end_date: u64,
}

impl View for CropInsurance {
    type V = CropInsuranceV;

    open spec fn view(&self) -> CropInsuranceV {
        CropInsuranceV {
            id: self.id,
            farmer: self.farmer@,
            crop_type: self.crop_type@,
            coverage_amount: self.coverage_amount,
            coverage_start_date: self.coverage_start_date,
            coverage_end_date: self.coverage_end_date,
        }
    }
}

/// One claim submitted against a crop insurance policy. The claim amount is
/// deliberately unchecked: it may be zero or exceed the policy's coverage.
pub struct InsuranceClaim {
    pub insurance_id: u64,
    pub claim_amount: u64,
    pub claim_date: u64,
}

/// Mathematical model of an [`InsuranceClaim`].
#[verifier::ext_equal]
pub struct InsuranceClaimV {
    pub insurance_id: u64,
    pub claim_amount: u64,
    pub claim_date: u64,
}

impl View for InsuranceClaim {
    type V = InsuranceClaimV;

    open spec fn view(&self) -> InsuranceClaimV {
        InsuranceClaimV {
            insurance_id: self.insurance_id,
            claim_amount: self.claim_amount,
            claim_date: self.claim_date,
        }
    }
}

/// Request payload for creating or updating a debt.
pub struct DebtPayload {
    pub debtor: String,
    pub creditor: String,
    pub amount: u64,
}

impl DebtPayload {
    /// A debt payload is valid when both parties are named and the amount is
    /// positive.
    pub open spec fn valid(&self) -> bool {
        self.debtor@.len() > 0 && self.creditor@.len() > 0 && self.amount > 0
    }
}

/// Request payload for creating an escrow against an existing debt.
pub struct EscrowPayload {
    pub debt_id: u64,
    pub amount: u64,
}

/// Request payload for purchasing a crop insurance policy.
pub struct CropInsurancePayload {
    pub farmer: String,
    pub crop_type: String,
    pub coverage_amount: u64,
    pub coverage_start_date: u64,
    pub coverage_end_date: u64,
}

impl CropInsurancePayload {
    /// A policy payload is valid when the farmer and the crop are named and
    /// the coverage amount is positive. The two coverage dates are
    /// deliberately unchecked, even for ordering.
    pub open spec fn valid(&self) -> bool {
        self.farmer@.len() > 0 && self.crop_type@.len() > 0 && self.coverage_amount > 0
    }
}

/// Request payload for submitting a claim against an existing policy.
pub struct InsuranceClaimPayload {
    pub insurance_id: u64,
    pub claim_amount: u64,
}

/// Why an operation failed: either a requested or referenced identifier is
/// absent, or a required field failed validation. The message is meant to be
/// surfaced to the caller verbatim.
pub enum Error {
    NotFound { msg: String },
    InvalidInput { msg: String },
}

impl Error {
    /// The message carried by either error variant.
    pub fn message(&self) -> (m: &String)
        ensures
            m@ == self.msg_view(),
    {
        match self {
            Error::NotFound { msg } => msg,
            Error::InvalidInput { msg } => msg,
        }
    }

    /// The message carried by either error variant, as a character sequence.
    pub open spec fn msg_view(&self) -> Seq<char> {
        match self {
            Error::NotFound { msg } => msg@,
            Error::InvalidInput { msg } => msg@,
        }
    }
}

} // verus!
