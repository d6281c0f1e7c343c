use vstd::prelude::*;

use crate::dump::{dump, pass_dump};
use crate::external::{default_hash, hash_groups, parsed_view};
use vstd::utf8::decode_utf8;
use crate::field_id::{BcbpFieldId, BcbpFlightLegFieldId, BcbpSecurityFieldId};
use crate::ingest::{read_pass, readable_pass};
use crate::record::{
    content_groups, leg_field, opt_bytes, pass_wf, root_field, security_field, BoardingPass,
    PassView,
};

verus! {

/// The number of bytes of a field value; an absent value has none.
pub open spec fn value_len(v: Option<Seq<u8>>) -> nat {
    match v {
        Some(s) => s.len(),
        None => 0,
    }
}

/// Equality of two handles: both absent, or both present with the same content.
pub open spec fn handles_equal(lhs: Option<&BoardingPass>, rhs: Option<&BoardingPass>) -> bool {
    match (lhs, rhs) {
        (None, None) => true,
        (Some(a), Some(b)) => a@ == b@,
        _ => false,
    }
}

/// The structural hash of a boarding pass's content.
pub open spec fn pass_hash(v: PassView) -> u64 {
    default_hash(content_groups(v))
}

/// The number of legs behind a handle; an absent handle has none.
pub open spec fn leg_count(h: Option<&BoardingPass>) -> int {
    match h {
        Some(p) => p.legs@.len() as int,
        None => 0,
    }
}

/// Whether a leg index names a leg of the boarding pass behind a handle.
pub open spec fn leg_in_range(h: Option<&BoardingPass>, leg: int) -> bool {
    h is Some && 0 <= leg < leg_count(h)
}

/// Hands a field value to the caller: the value into `result`, its exact byte count into
/// `length` when the caller asked for it.
fn deliver(value: Option<Vec<u8>>, result: &mut Option<Vec<u8>>, length: Option<&mut usize>)
    ensures
        *final(result) == value,
        length matches Some(n) ==> *final(n) == value_len(opt_bytes(value)),
{
    match length {
        Some(n) => {
            *n = match &value {
                Some(v) => v.len(),
                None => 0,
            };
        },
        None => {},
    }
    *result = value;
}

/// Parses raw input bytes into a new boarding pass; absent when the bytes are absent, are not
/// valid UTF-8, or are not a boarding pass.
#[allow(non_snake_case)]
pub fn BcbpCreateWithCString(input: Option<&[u8]>) -> (r: Option<Box<BoardingPass>>)
    ensures
        r.is_some() == (input matches Some(b) && readable_pass(b@)),
        r matches Some(p) ==> p@ == parsed_view(decode_utf8(input->Some_0@)) && pass_wf(p@),
        input matches Some(b) && b@.len() == 0 ==> r.is_none(),
{
    match input {
        None => None,
        Some(bytes) => match read_pass(bytes) {
            Some(pass) => Some(Box::new(pass)),
            None => None,
        },
    }
}

/// A new, independent boarding pass with the same content; absent for an absent handle.
#[allow(non_snake_case)]
pub fn BcbpCreateCopy(bcbp: Option<&BoardingPass>) -> (r: Option<Box<BoardingPass>>)
    ensures
        r.is_some() == bcbp.is_some(),
        bcbp matches Some(p) ==> r->Some_0@ == p@ && (pass_wf(p@) ==> pass_wf(r->Some_0@)),
{
    match bcbp {
        Some(p) => Some(Box::new(p.copy())),
        None => None,
    }
}

/// The structural hash of a boarding pass; 0 for an absent handle.
#[allow(non_snake_case)]
pub fn BcbpHash(bcbp: Option<&BoardingPass>) -> (r: u64)
    ensures
        bcbp is None ==> r == 0,
        bcbp matches Some(p) ==> r == pass_hash(p@),
{
    match bcbp {
        Some(p) => hash_groups(&p.groups()),
        None => 0,
    }
}

/// Whether two handles are equal: both absent, or both present with the same content.
#[allow(non_snake_case)]
pub fn BcbpIsEqual(lhs: Option<&BoardingPass>, rhs: Option<&BoardingPass>) -> (r: bool)
    ensures
        r == handles_equal(lhs, rhs),
{
    match (lhs, rhs) {
        (None, None) => true,
        (Some(a), Some(b)) => a.same_content(b),
        _ => false,
    }
}

/// A human-readable dump of a boarding pass (see `pass_dump`); absent for an absent handle.
#[allow(non_snake_case)]
pub fn BcbpCopyDebugDesc(bcbp: Option<&BoardingPass>) -> (r: Option<Vec<u8>>)
    ensures
        r.is_some() == bcbp.is_some(),
        bcbp matches Some(p) ==> r->Some_0@ == pass_dump(p@),
{
    match bcbp {
        Some(p) => Some(dump(p)),
        None => None,
    }
}

/// Releases a boarding pass; nothing happens for an absent handle.
#[allow(non_snake_case)]
pub fn BcbpDestroy(bcbp: Option<Box<BoardingPass>>) {
    match bcbp {
        Some(p) => {
            let _released: Box<BoardingPass> = p;
        },
        None => {},
    }
}

/// Releases a buffer handed out by this library; nothing happens for an absent buffer.
#[allow(non_snake_case)]
pub fn BcbpDestroyString(string: Option<Vec<u8>>) {
    match string {
        Some(s) => {
            let _released: Vec<u8> = s;
        },
        None => {},
    }
}

/// The number of legs of a boarding pass; 0 for an absent handle.
#[allow(non_snake_case)]
pub fn BcbpGetNumberOfLegs(bcbp: Option<&BoardingPass>) -> (r: i32)
    requires
        leg_count(bcbp) <= i32::MAX,
    ensures
        r == leg_count(bcbp),
{
    match bcbp {
        Some(p) => p.legs.len() as i32,
        None => 0,
    }
}

/// Copies out a document-level field. Fails, writing nothing, when the handle or `result` is
/// absent; otherwise writes the field's value (absent where the document lacks it) and its byte
/// count, and succeeds.
#[allow(non_snake_case)]
pub fn BcbpCopyField(
    bcbp: Option<&BoardingPass>,
    field_id: BcbpFieldId,
    result: Option<&mut Option<Vec<u8>>>,
    length: Option<&mut usize>,
) -> (r: bool)
    ensures
        r == (bcbp.is_some() && result.is_some()),
        r ==> (result matches Some(x) && opt_bytes(*final(x)) == root_field(
            *bcbp->Some_0,
            field_id,
        )),
        r ==> (length matches Some(n) ==> *final(n) == value_len(
            root_field(*bcbp->Some_0, field_id),
        )),
        (bcbp matches Some(p) && root_field(*p, field_id) is None) ==> (result matches Some(x) ==> (
        r && *final(x) is None && (length matches Some(n) ==> *final(n) == 0))),
        !r ==> (result matches Some(x) ==> *final(x) == *x),
        !r ==> (length matches Some(n) ==> *final(n) == *n),
{
    match (bcbp, result) {
        (Some(p), Some(out)) => {
            deliver(p.field(field_id), out, length);
            true
        },
        _ => false,
    }
}

/// Copies out a field of the security block. Fails, writing nothing, when the handle or
/// `result` is absent; otherwise writes the field's value (absent where the document lacks it)
/// and its byte count, and succeeds.
#[allow(non_snake_case)]
pub fn BcbpCopySecurityField(
    bcbp: Option<&BoardingPass>,
    field_id: BcbpSecurityFieldId,
    result: Option<&mut Option<Vec<u8>>>,
    length: Option<&mut usize>,
) -> (r: bool)
    ensures
        r == (bcbp.is_some() && result.is_some()),
        r ==> (result matches Some(x) && opt_bytes(*final(x)) == security_field(
            bcbp->Some_0.security,
            field_id,
        )),
        r ==> (length matches Some(n) ==> *final(n) == value_len(
            security_field(bcbp->Some_0.security, field_id),
        )),
        !r ==> (result matches Some(x) ==> *final(x) == *x),
        !r ==> (length matches Some(n) ==> *final(n) == *n),
{
    match (bcbp, result) {
        (Some(p), Some(out)) => {
            deliver(p.security.field(field_id), out, length);
            true
        },
        _ => false,
    }
}

/// Copies out a field of one leg. Fails, writing nothing, when the handle or `result` is
/// absent or when `leg` names no leg; otherwise writes the field's value (absent where the leg
/// lacks it) and its byte count, and succeeds.
#[allow(non_snake_case)]
pub fn BcbpCopyFlightLegField(
    bcbp: Option<&BoardingPass>,
    leg: i32,
    field_id: BcbpFlightLegFieldId,
    result: Option<&mut Option<Vec<u8>>>,
    length: Option<&mut usize>,
) -> (r: bool)
    ensures
        r == (leg_in_range(bcbp, leg as int) && result.is_some()),
        r ==> (result matches Some(x) && opt_bytes(*final(x)) == leg_field(
            bcbp->Some_0.legs@[leg as int],
            field_id,
        )),
        r ==> (length matches Some(n) ==> *final(n) == value_len(
            leg_field(bcbp->Some_0.legs@[leg as int], field_id),
        )),
        !r ==> (result matches Some(x) ==> *final(x) == *x),
        !r ==> (length matches Some(n) ==> *final(n) == *n),
{
    match (bcbp, result) {
        (Some(p), Some(out)) => {
            if leg < 0 || leg as usize >= p.legs.len() {
                return false;
            }
            deliver(p.legs[leg as usize].field(field_id), out, length);
            true
        },
        _ => false,
    }
}

/// Every handle equals itself, and a structurally equal pair of records hash alike, so the
/// hash of one record is the same on every call.
pub proof fn lemma_equality_reflexive_and_hash_consistent(a: &BoardingPass, b: &BoardingPass)
    ensures
        handles_equal(Some(a), Some(a)),
        handles_equal(Some(a), Some(b)) ==> pass_hash(a@) == pass_hash(b@),
{
}

/// Two absent handles are equal; an absent handle never equals a present one.
pub proof fn lemma_absent_handles(h: &BoardingPass)
    ensures
        handles_equal(None, None),
        !handles_equal(Some(h), None),
        !handles_equal(None, Some(h)),
{
}

/// A duplicate equals its original.
pub proof fn lemma_duplicate_equals(h: &BoardingPass, copy: &BoardingPass)
    requires
        copy@ == h@,
    ensures
        handles_equal(Some(h), Some(copy)),
        handles_equal(Some(copy), Some(h)),
{
}

/// Leg reads succeed exactly on the indices below the leg count: on every index from 0 up to
/// the count, and neither on the count itself nor on -1.
pub proof fn lemma_leg_reads_follow_leg_count(h: &BoardingPass, index: int)
    ensures
        leg_in_range(Some(h), index) == (0 <= index < leg_count(Some(h))),
        !leg_in_range(Some(h), leg_count(Some(h))),
        !leg_in_range(Some(h), -1),
{
}

/// Whether every read gives the same answer on two records: each document-level field, each
/// security field, the number of legs, and each field of each leg.
pub open spec fn reads_alike(a: &BoardingPass, b: &BoardingPass) -> bool {
    &&& forall|id: BcbpFieldId| root_field(*a, id) == root_field(*b, id)
    &&& forall|id: BcbpSecurityFieldId|
        security_field(a.security, id) == security_field(b.security, id)
    &&& a.legs@.len() == b.legs@.len()
    &&& forall|i: int, id: BcbpFlightLegFieldId|
        0 <= i < a.legs@.len() ==> leg_field(a.legs@[i], id) == leg_field(b.legs@[i], id)
}

/// Two records are equal exactly when every read gives the same answer on both.
pub proof fn lemma_equal_records_read_alike(a: &BoardingPass, b: &BoardingPass)
    ensures
        handles_equal(Some(a), Some(b)) <==> reads_alike(a, b),
{
    if a@ == b@ {
        assert forall|id: BcbpFieldId| root_field(*a, id) == root_field(*b, id) by {
            assert(a@.root[id.code() - 1] == b@.root[id.code() - 1]);
        }
        assert forall|id: BcbpSecurityFieldId|
            security_field(a.security, id) == security_field(b.security, id) by {
            assert(a@.security[id.code() - 1] == b@.security[id.code() - 1]);
        }
        assert(a.legs@.len() == b.legs@.len()) by {
            assert(a@.legs.len() == b@.legs.len());
        }
        assert forall|i: int, id: BcbpFlightLegFieldId| 0 <= i < a.legs@.len() implies leg_field(
            a.legs@[i],
            id,
        ) == leg_field(b.legs@[i], id) by {
            assert(a@.legs[i] == b@.legs[i]);
            assert(a@.legs[i][id.code() - 1] == b@.legs[i][id.code() - 1]);
        }
    }
    if reads_alike(a, b) {
        assert(a@.root =~= b@.root);
        assert(a@.security =~= b@.security);
        assert forall|i: int| 0 <= i < a@.legs.len() implies a@.legs[i] == b@.legs[i] by {
            assert(a@.legs[i] =~= b@.legs[i]);
        }
        assert(a@.legs =~= b@.legs);
    }
}

/// Creating two records from the same input bytes gives equal records.
pub proof fn lemma_same_input_equal_records(input: Seq<u8>, a: &BoardingPass, b: &BoardingPass)
    requires
        a@ == parsed_view(decode_utf8(input)),
        b@ == parsed_view(decode_utf8(input)),
    ensures
        handles_equal(Some(a), Some(b)),
{
}

} // verus!
