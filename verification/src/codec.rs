//! The byte encoding under which records are persisted: every field is either
//! a little-endian 64-bit integer or a length-prefixed UTF-8 string, and a
//! record is the concatenation of its fields. Decoding is proved to undo
//! encoding exactly.

use vstd::prelude::*;
use vstd::slice::{slice_subrange, slice_to_vec};
use vstd::utf8::{decode_utf8, encode_utf8, encode_utf8_decode_utf8, encode_utf8_valid_utf8,
    valid_utf8};
use crate::types::{CropInsurance, CropInsuranceV, Debt, DebtV, Escrow, EscrowV, InsuranceClaim,
    InsuranceClaimV};

verus! {

/// The eight bytes of `x`, least significant first.
pub open spec fn le64(x: u64) -> Seq<u8> {
    seq![
        (x & 0xff) as u8,
        ((x >> 8) & 0xff) as u8,
        ((x >> 16) & 0xff) as u8,
        ((x >> 24) & 0xff) as u8,
        ((x >> 32) & 0xff) as u8,
        ((x >> 40) & 0xff) as u8,
        ((x >> 48) & 0xff) as u8,
        ((x >> 56) & 0xff) as u8,
    ]
}

/// The integer read back from eight little-endian bytes.
pub open spec fn u64_from_le(b: Seq<u8>) -> u64
    recommends
        b.len() == 8,
{
    (b[0] as u64) | ((b[1] as u64) << 8) | ((b[2] as u64) << 16) | ((b[3] as u64) << 24)
        | ((b[4] as u64) << 32) | ((b[5] as u64) << 40) | ((b[6] as u64) << 48) | ((b[7]
        as u64) << 56)
}

/// Reading back the eight bytes of `x` yields `x`.
pub proof fn lemma_le64_round_trip(x: u64)
    ensures
        u64_from_le(le64(x)) == x,
{
    assert((((x & 0xff) as u8) as u64) | ((((x >> 8) & 0xff) as u8) as u64) << 8 | ((((x >> 16)
        & 0xff) as u8) as u64) << 16 | ((((x >> 24) & 0xff) as u8) as u64) << 24 | ((((x >> 32)
        & 0xff) as u8) as u64) << 32 | ((((x >> 40) & 0xff) as u8) as u64) << 40 | ((((x >> 48)
        & 0xff) as u8) as u64) << 48 | ((((x >> 56) & 0xff) as u8) as u64) << 56 == x)
        by (bit_vector);
}

/// A length-prefixed byte field: eight bytes of length, then the payload.
pub open spec fn enc_bytes(payload: Seq<u8>) -> Seq<u8> {
    le64(payload.len() as u64) + payload
}

/// A string field: its UTF-8 bytes, length-prefixed.
pub open spec fn enc_str(s: Seq<char>) -> Seq<u8> {
    enc_bytes(encode_utf8(s))
}

/// Reads an integer field at `pos`, if eight bytes are available.
pub open spec fn parse_u64(b: Seq<u8>, pos: int) -> Option<(u64, int)> {
    if 0 <= pos && pos + 8 <= b.len() {
        Some((u64_from_le(b.subrange(pos, pos + 8)), pos + 8))
    } else {
        None
    }
}

/// Reads a length-prefixed string field at `pos`, if its bytes are available
/// and are valid UTF-8.
pub open spec fn parse_str(b: Seq<u8>, pos: int) -> Option<(Seq<char>, int)> {
    match parse_u64(b, pos) {
        Some((n, p)) => {
            if p + n <= b.len() && valid_utf8(b.subrange(p, p + n)) {
                Some((decode_utf8(b.subrange(p, p + n)), p + n))
            } else {
                None
            }
        },
        None => None,
    }
}

/// Parsing an integer field succeeds where the bytes are `le64(x)`.
proof fn lemma_parse_u64_at(b: Seq<u8>, pos: int, x: u64)
    requires
        0 <= pos,
        pos + 8 <= b.len(),
        b.subrange(pos, pos + 8) =~= le64(x),
    ensures
        parse_u64(b, pos) == Some((x, pos + 8)),
{
    lemma_le64_round_trip(x);
}

/// Parsing a string field succeeds where the bytes are `enc_str(s)`.
proof fn lemma_parse_str_at(b: Seq<u8>, pos: int, s: Seq<char>)
    requires
        0 <= pos,
        encode_utf8(s).len() <= u64::MAX,
        pos + 8 + encode_utf8(s).len() <= b.len(),
        b.subrange(pos, pos + 8 + encode_utf8(s).len() as int) =~= enc_str(s),
    ensures
        parse_str(b, pos) == Some((s, pos + 8 + encode_utf8(s).len())),
{
    let eb = encode_utf8(s);
    let n = eb.len() as u64;
    let whole = b.subrange(pos, pos + 8 + eb.len() as int);
    assert forall|i: int| 0 <= i < 8 implies b.subrange(pos, pos + 8)[i] == le64(n)[i] by {
        assert(whole[i] == enc_str(s)[i]);
        assert(enc_str(s)[i] == le64(n)[i]);
    }
    assert(b.subrange(pos, pos + 8) =~= le64(n));
    lemma_parse_u64_at(b, pos, n);
    assert forall|i: int| 0 <= i < eb.len() implies b.subrange(
        pos + 8,
        pos + 8 + eb.len() as int,
    )[i] == eb[i] by {
        assert(whole[8 + i] == enc_str(s)[8 + i]);
        assert(enc_str(s)[8 + i] == eb[i]);
    }
    assert(b.subrange(pos + 8, pos + 8 + eb.len() as int) =~= eb);
    broadcast use encode_utf8_valid_utf8;

    encode_utf8_decode_utf8(s);
}

/// Appends the eight little-endian bytes of `x` to `out`.
pub fn push_le64(out: &mut Vec<u8>, x: u64)
    ensures
        final(out)@ == old(out)@ + le64(x),
{
    out.push((x & 0xff) as u8);
    out.push(((x >> 8) & 0xff) as u8);
    out.push(((x >> 16) & 0xff) as u8);
    out.push(((x >> 24) & 0xff) as u8);
    out.push(((x >> 32) & 0xff) as u8);
    out.push(((x >> 40) & 0xff) as u8);
    out.push(((x >> 48) & 0xff) as u8);
    out.push(((x >> 56) & 0xff) as u8);
    assert(out@ =~= old(out)@ + le64(x));
}

/// Appends a length-prefixed string field to `out`.
pub fn push_str_field(out: &mut Vec<u8>, s: &String)
    ensures
        final(out)@ == old(out)@ + enc_str(s@),
        encode_utf8(s@).len() <= u64::MAX,
{
    let bytes: &[u8] = s.as_str().as_bytes();
    let n: usize = bytes.len();
    push_le64(out, n as u64);
    let mut tail = slice_to_vec(bytes);
    out.append(&mut tail);
    assert(out@ =~= old(out)@ + enc_str(s@));
}

/// Reads the integer field at `pos`.
pub fn read_le64(b: &Vec<u8>, pos: usize) -> (x: u64)
    requires
        pos + 8 <= b@.len(),
    ensures
        Some((x, pos + 8 as int)) == parse_u64(b@, pos as int),
{
    let total: usize = b.len();
    let x = (b[pos] as u64) | ((b[pos + 1] as u64) << 8) | ((b[pos + 2] as u64) << 16) | ((b[pos
        + 3] as u64) << 24) | ((b[pos + 4] as u64) << 32) | ((b[pos + 5] as u64) << 40) | ((b[pos
        + 6] as u64) << 48) | ((b[pos + 7] as u64) << 56);
    proof {
        assert(pos + 8 <= total);
        assert(u64_from_le(b@.subrange(pos as int, pos as int + 8)) == x);
    }
    x
}

/// Relies on `String::from_utf8`: succeeds exactly on valid UTF-8 input,
/// returning the string whose UTF-8 encoding is that input.
#[verifier::external_body]
fn string_from_utf8(v: Vec<u8>) -> (r: Option<String>)
    ensures
        match r {
            Some(s) => valid_utf8(v@) && encode_utf8(s@) == v@,
            None => !valid_utf8(v@),
        },
{
    String::from_utf8(v).ok()
}

/// Reads the length-prefixed string field at `pos`.
pub fn read_str(b: &Vec<u8>, pos: usize) -> (r: Option<(String, usize)>)
    ensures
        match r {
            Some((s, p)) => parse_str(b@, pos as int) == Some((s@, p as int)),
            None => parse_str(b@, pos as int) is None,
        },
{
    let total: usize = b.len();
    if pos > total || total - pos < 8 {
        return None;
    }
    let n64 = read_le64(b, pos);
    let p: usize = pos + 8;
    if n64 > (total - p) as u64 {
        return None;
    }
    let n: usize = n64 as usize;
    let sub: &[u8] = slice_subrange(b.as_slice(), p, p + n);
    let v: Vec<u8> = slice_to_vec(sub);
    match string_from_utf8(v) {
        Some(s) => {
            proof {
                encode_utf8_decode_utf8(s@);
            }
            Some((s, p + n))
        },
        None => None,
    }
}

/// The encoding of a debt: three integer fields, then the two parties.
pub open spec fn encode_debt_spec(d: DebtV) -> Seq<u8> {
    le64(d.id) + le64(d.amount) + le64(d.created_at) + enc_str(d.debtor) + enc_str(d.creditor)
}

/// Decodes a debt, if `b` is exactly an encoded debt.
pub open spec fn decode_debt_spec(b: Seq<u8>) -> Option<DebtV> {
    match parse_u64(b, 0) {
        Some((id, p1)) => match parse_u64(b, p1) {
            Some((amount, p2)) => match parse_u64(b, p2) {
                Some((created_at, p3)) => match parse_str(b, p3) {
                    Some((debtor, p4)) => match parse_str(b, p4) {
                        Some((creditor, p5)) => if p5 == b.len() {
                            Some(DebtV { id, debtor, creditor, amount, created_at })
                        } else {
                            None
                        },
                        None => None,
                    },
                    None => None,
                },
                None => None,
            },
            None => None,
        },
        None => None,
    }
}

/// Decoding undoes encoding on every debt whose string fields fit the length
/// prefix.
pub proof fn lemma_debt_round_trip(d: DebtV)
    requires
        encode_utf8(d.debtor).len() <= u64::MAX,
        encode_utf8(d.creditor).len() <= u64::MAX,
    ensures
        decode_debt_spec(encode_debt_spec(d)) == Some(d),
{
    let b = encode_debt_spec(d);
    let n1 = encode_utf8(d.debtor).len() as int;
    let n2 = encode_utf8(d.creditor).len() as int;
    assert(b.len() == 40 + n1 + n2);
    assert(b.subrange(0, 8) =~= le64(d.id));
    lemma_parse_u64_at(b, 0, d.id);
    assert(b.subrange(8, 16) =~= le64(d.amount));
    lemma_parse_u64_at(b, 8, d.amount);
    assert(b.subrange(16, 24) =~= le64(d.created_at));
    lemma_parse_u64_at(b, 16, d.created_at);
    assert(b.subrange(24, 32 + n1) =~= enc_str(d.debtor));
    lemma_parse_str_at(b, 24, d.debtor);
    assert(b.subrange(32 + n1, 40 + n1 + n2) =~= enc_str(d.creditor));
    lemma_parse_str_at(b, 32 + n1, d.creditor);
}

/// Encodes a debt for storage. The result decodes back to the same record.
pub fn encode_debt(d: &Debt) -> (out: Vec<u8>)
    ensures
        out@ == encode_debt_spec(d@),
        decode_debt_spec(out@) == Some(d@),
{
    let mut out: Vec<u8> = Vec::new();
    push_le64(&mut out, d.id);
    push_le64(&mut out, d.amount);
    push_le64(&mut out, d.created_at);
    push_str_field(&mut out, &d.debtor);
    push_str_field(&mut out, &d.creditor);
    proof {
        assert(out@ =~= encode_debt_spec(d@));
        lemma_debt_round_trip(d@);
    }
    out
}

/// Decodes a stored debt.
pub fn decode_debt(b: &Vec<u8>) -> (r: Option<Debt>)
    ensures
        match r {
            Some(d) => decode_debt_spec(b@) == Some(d@),
            None => decode_debt_spec(b@) is None,
        },
{
    let total: usize = b.len();
    if total < 24 {
        return None;
    }
    let id = read_le64(b, 0);
    let amount = read_le64(b, 8);
    let created_at = read_le64(b, 16);
    let (debtor, p4) = match read_str(b, 24) {
        Some(x) => x,
        None => {
            return None;
        },
    };
    let (creditor, p5) = match read_str(b, p4) {
        Some(x) => x,
        None => {
            return None;
        },
    };
    if p5 != total {
        return None;
    }
    Some(Debt { id, debtor, creditor, amount, created_at })
}

/// The encoding of an escrow: three integer fields.
pub open spec fn encode_escrow_spec(e: EscrowV) -> Seq<u8> {
    le64(e.debt_id) + le64(e.amount) + le64(e.created_at)
}

/// Decodes an escrow, if `b` is exactly an encoded escrow.
pub open spec fn decode_escrow_spec(b: Seq<u8>) -> Option<EscrowV> {
    match parse_u64(b, 0) {
        Some((debt_id, p1)) => match parse_u64(b, p1) {
            Some((amount, p2)) => match parse_u64(b, p2) {
                Some((created_at, p3)) => if p3 == b.len() {
                    Some(EscrowV { debt_id, amount, created_at })
                } else {
                    None
                },
                None => None,
            },
            None => None,
        },
        None => None,
    }
}

/// Decoding undoes encoding on every escrow.
pub proof fn lemma_escrow_round_trip(e: EscrowV)
    ensures
        decode_escrow_spec(encode_escrow_spec(e)) == Some(e),
{
    let b = encode_escrow_spec(e);
    assert(b.len() == 24);
    assert(b.subrange(0, 8) =~= le64(e.debt_id));
    lemma_parse_u64_at(b, 0, e.debt_id);
    assert(b.subrange(8, 16) =~= le64(e.amount));
    lemma_parse_u64_at(b, 8, e.amount);
    assert(b.subrange(16, 24) =~= le64(e.created_at));
    lemma_parse_u64_at(b, 16, e.created_at);
}

/// Encodes an escrow for storage. The result decodes back to the same record.
pub fn encode_escrow(e: &Escrow) -> (out: Vec<u8>)
    ensures
        out@ == encode_escrow_spec(e@),
        decode_escrow_spec(out@) == Some(e@),
{
    let mut out: Vec<u8> = Vec::new();
    push_le64(&mut out, e.debt_id);
    push_le64(&mut out, e.amount);
    push_le64(&mut out, e.created_at);
    proof {
        assert(out@ =~= encode_escrow_spec(e@));
        lemma_escrow_round_trip(e@);
    }
    out
}

/// Decodes a stored escrow.
pub fn decode_escrow(b: &Vec<u8>) -> (r: Option<Escrow>)
    ensures
        match r {
            Some(e) => decode_escrow_spec(b@) == Some(e@),
            None => decode_escrow_spec(b@) is None,
        },
{
    let total: usize = b.len();
    if total != 24 {
        return None;
    }
    let debt_id = read_le64(b, 0);
    let amount = read_le64(b, 8);
    let created_at = read_le64(b, 16);
    Some(Escrow { debt_id, amount, created_at })
}

/// The encoding of a policy: four integer fields, then the farmer and the
/// crop.
pub open spec fn encode_insurance_spec(c: CropInsuranceV) -> Seq<u8> {
    le64(c.id) + le64(c.coverage_amount) + le64(c.coverage_start_date) + le64(
        c.coverage_end_date,
    ) + enc_str(c.farmer) + enc_str(c.crop_type)
}

/// Decodes a policy, if `b` is exactly an encoded policy.
pub open spec fn decode_insurance_spec(b: Seq<u8>) -> Option<CropInsuranceV> {
    match parse_u64(b, 0) {
        Some((id, p1)) => match parse_u64(b, p1) {
            Some((coverage_amount, p2)) => match parse_u64(b, p2) {
                Some((coverage_start_date, p3)) => match parse_u64(b, p3) {
                    Some((coverage_end_date, p4)) => match parse_str(b, p4) {
                        Some((farmer, p5)) => match parse_str(b, p5) {
                            Some((crop_type, p6)) => if p6 == b.len() {
                                Some(
                                    CropInsuranceV {
                                        id,
                                        farmer,
                                        crop_type,
                                        coverage_amount,
                                        coverage_start_date,
                                        coverage_end_date,
                                    },
                                )
                            } else {
                                None
                            },
                            None => None,
                        },
                        None => None,
                    },
                    None => None,
                },
                None => None,
            },
            None => None,
        },
        None => None,
    }
}

/// Decoding undoes encoding on every policy whose string fields fit the
/// length prefix.
pub proof fn lemma_insurance_round_trip(c: CropInsuranceV)
    requires
        encode_utf8(c.farmer).len() <= u64::MAX,
        encode_utf8(c.crop_type).len() <= u64::MAX,
    ensures
        decode_insurance_spec(encode_insurance_spec(c)) == Some(c),
{
    let b = encode_insurance_spec(c);
    let n1 = encode_utf8(c.farmer).len() as int;
    let n2 = encode_utf8(c.crop_type).len() as int;
    assert(b.len() == 48 + n1 + n2);
    assert(b.subrange(0, 8) =~= le64(c.id));
    lemma_parse_u64_at(b, 0, c.id);
    assert(b.subrange(8, 16) =~= le64(c.coverage_amount));
    lemma_parse_u64_at(b, 8, c.coverage_amount);
    assert(b.subrange(16, 24) =~= le64(c.coverage_start_date));
    lemma_parse_u64_at(b, 16, c.coverage_start_date);
    assert(b.subrange(24, 32) =~= le64(c.coverage_end_date));
    lemma_parse_u64_at(b, 24, c.coverage_end_date);
    assert(b.subrange(32, 40 + n1) =~= enc_str(c.farmer));
    lemma_parse_str_at(b, 32, c.farmer);
    assert(b.subrange(40 + n1, 48 + n1 + n2) =~= enc_str(c.crop_type));
    lemma_parse_str_at(b, 40 + n1, c.crop_type);
}

/// Encodes a policy for storage. The result decodes back to the same record.
pub fn encode_insurance(c: &CropInsurance) -> (out: Vec<u8>)
    ensures
        out@ == encode_insurance_spec(c@),
        decode_insurance_spec(out@) == Some(c@),
{
    let mut out: Vec<u8> = Vec::new();
    push_le64(&mut out, c.id);
    push_le64(&mut out, c.coverage_amount);
    push_le64(&mut out, c.coverage_start_date);
    push_le64(&mut out, c.coverage_end_date);
    push_str_field(&mut out, &c.farmer);
    push_str_field(&mut out, &c.crop_type);
    proof {
        assert(out@ =~= encode_insurance_spec(c@));
        lemma_insurance_round_trip(c@);
    }
    out
}

/// Decodes a stored policy.
pub fn decode_insurance(b: &Vec<u8>) -> (r: Option<CropInsurance>)
    ensures
        match r {
            Some(c) => decode_insurance_spec(b@) == Some(c@),
            None => decode_insurance_spec(b@) is None,
        },
{
    let total: usize = b.len();
    if total < 32 {
        return None;
    }
    let id = read_le64(b, 0);
    let coverage_amount = read_le64(b, 8);
    let coverage_start_date = read_le64(b, 16);
    let coverage_end_date = read_le64(b, 24);
    let (farmer, p5) = match read_str(b, 32) {
        Some(x) => x,
        None => {
            return None;
        },
    };
    let (crop_type, p6) = match read_str(b, p5) {
        Some(x) => x,
        None => {
            return None;
        },
    };
    if p6 != total {
        return None;
    }
    Some(
        CropInsurance { id, farmer, crop_type, coverage_amount, coverage_start_date, coverage_end_date },
    )
}

/// The encoding of a claim: three integer fields.
pub open spec fn encode_claim_spec(c: InsuranceClaimV) -> Seq<u8> {
    le64(c.insurance_id) + le64(c.claim_amount) + le64(c.claim_date)
}

/// Decodes a claim, if `b` is exactly an encoded claim.
pub open spec fn decode_claim_spec(b: Seq<u8>) -> Option<InsuranceClaimV> {
    match parse_u64(b, 0) {
        Some((insurance_id, p1)) => match parse_u64(b, p1) {
            Some((claim_amount, p2)) => match parse_u64(b, p2) {
                Some((claim_date, p3)) => if p3 == b.len() {
                    Some(InsuranceClaimV { insurance_id, claim_amount, claim_date })
                } else {
                    None
                },
                None => None,
            },
            None => None,
        },
        None => None,
    }
}

/// Decoding undoes encoding on every claim.
pub proof fn lemma_claim_round_trip(c: InsuranceClaimV)
    ensures
        decode_claim_spec(encode_claim_spec(c)) == Some(c),
{
    let b = encode_claim_spec(c);
    assert(b.len() == 24);
    assert(b.subrange(0, 8) =~= le64(c.insurance_id));
    lemma_parse_u64_at(b, 0, c.insurance_id);
    assert(b.subrange(8, 16) =~= le64(c.claim_amount));
    lemma_parse_u64_at(b, 8, c.claim_amount);
    assert(b.subrange(16, 24) =~= le64(c.claim_date));
    lemma_parse_u64_at(b, 16, c.claim_date);
}

/// Encodes a claim for storage. The result decodes back to the same record.
pub fn encode_claim(c: &InsuranceClaim) -> (out: Vec<u8>)
    ensures
        out@ == encode_claim_spec(c@),
        decode_claim_spec(out@) == Some(c@),
{
    let mut out: Vec<u8> = Vec::new();
    push_le64(&mut out, c.insurance_id);
    push_le64(&mut out, c.claim_amount);
    push_le64(&mut out, c.claim_date);
    proof {
        assert(out@ =~= encode_claim_spec(c@));
        lemma_claim_round_trip(c@);
    }
    out
}

/// Decodes a stored claim.
pub fn decode_claim(b: &Vec<u8>) -> (r: Option<InsuranceClaim>)
    ensures
        match r {
            Some(c) => decode_claim_spec(b@) == Some(c@),
            None => decode_claim_spec(b@) is None,
        },
{
    let total: usize = b.len();
    if total != 24 {
        return None;
    }
    let insurance_id = read_le64(b, 0);
    let claim_amount = read_le64(b, 8);
    let claim_date = read_le64(b, 16);
    Some(InsuranceClaim { insurance_id, claim_amount, claim_date })
}

} // verus!
