//! Record populator: assembles one fully populated alignment record from an
//! optional mapping result plus raw sequence, quality and name bytes.
//!
//! The populator fills every field of the output record before handing it
//! over, so the downstream record writer never supplies defaults of its own.
//! Two states exist, selected once per call by presence or absence of the
//! mapping: the mapped state takes position and mapping quality from the
//! mapping, while the unmapped state sets the record format's "no value"
//! sentinels. Absent quality and absent name are expected and replaced by
//! fixed placeholders; an invalid operation code in the mapping's trace is a
//! contract violation and fails the whole call.

use vstd::prelude::*;
use vstd::slice::slice_to_vec;

use crate::ops::{
    AlignmentOperation, InvalidOperationCode, all_codes_valid, reports_first_invalid_code,
    translate_operations, translated,
};

verus! {

/// "No position" sentinel of the record format, also used for the mate
/// position.
pub const NO_POSITION: i64 = -1;

/// "No reference" sentinel of the record format, also used for the mate
/// target id.
pub const NO_TARGET_ID: i32 = -1;

/// "Quality not available" sentinel, both for a whole-record mapping quality
/// and for one per-base quality byte.
pub const NO_QUALITY: u8 = 255;

/// "No insert size" sentinel, used only in the unmapped state; a mapped
/// record without a mate carries insert size 0 instead.
pub const NO_INSERT_SIZE: i64 = -1;

/// The alignment detail a mapping may carry: an optional raw operation
/// trace, as `(run length, operation code)` pairs. A mapping may report a
/// hit without a full trace.
#[derive(Clone, Debug)]
pub struct AlignmentDetail {
    pub cigar: Option<Vec<(u32, u8)>>,
}

/// One best-hit result of the alignment engine: a 0-based offset into the
/// reference, a confidence score for the hit, and optional alignment
/// detail.
#[derive(Clone, Debug)]
pub struct MappingResult {
    pub target_start: i32,
    pub mapping_quality: u32,
    pub alignment: Option<AlignmentDetail>,
}

/// Externally supplied description of the reference sequences, as ordered
/// (name, length) pairs. It is consulted for completeness only: resolving a
/// target id from it by name is left open, and the populator leaves the
/// target id unassigned in the mapped state.
#[derive(Clone, Debug)]
pub struct HeaderContext {
    pub references: Vec<(Vec<u8>, u64)>,
}

/// One fully populated alignment record, owned by the caller. Sentinel
/// values of the record format (`NO_POSITION`, `NO_TARGET_ID`, `NO_QUALITY`,
/// `NO_INSERT_SIZE`) stand in the fields exactly as downstream consumers
/// expect them; `target_id` is `None` when the populator left it to the
/// caller-managed default of the record format.
#[derive(Clone, Debug)]
pub struct OutputRecord {
    pub query_name: Vec<u8>,
    pub sequence: Vec<u8>,
    pub quality: Vec<u8>,
    pub operations: Option<Vec<AlignmentOperation>>,
    pub unmapped: bool,
    pub target_id: Option<i32>,
    pub position: i64,
    pub mapping_quality: u8,
    pub mate_position: i64,
    pub mate_target_id: i32,
    pub insert_size: i64,
}

/// The fixed placeholder name substituted when no query name is supplied:
/// the bytes of "query".
pub open spec fn default_query_name() -> Seq<u8> {
    seq![113u8, 117u8, 101u8, 114u8, 121u8]
}

/// The quality bytes synthesized when no quality is supplied: one
/// "quality not available" sentinel per sequence position.
pub open spec fn default_quality(len: nat) -> Seq<u8> {
    Seq::new(len, |i: int| NO_QUALITY)
}

/// The raw operation trace the mapping carries, if any.
pub open spec fn raw_trace(mapping: Option<&MappingResult>) -> Option<Seq<(u32, u8)>> {
    match mapping {
        Some(m) => match m.alignment {
            Some(a) => match a.cigar {
                Some(c) => Some(c@),
                None => None,
            },
            None => None,
        },
        None => None,
    }
}

/// Field assignment of the mapped state: position and mapping quality come
/// from the mapping (the quality truncated to 8 bits), the target id is
/// left to the caller-managed default, the mate fields carry the "no value"
/// sentinels, and the insert size is 0.
pub open spec fn mapped_fields(rec: OutputRecord, m: MappingResult) -> bool {
    &&& !rec.unmapped
    &&& rec.target_id is None
    &&& rec.position == m.target_start as i64
    &&& rec.mapping_quality == m.mapping_quality as u8
    &&& rec.mate_position == NO_POSITION
    &&& rec.mate_target_id == NO_TARGET_ID
    &&& rec.insert_size == 0
}

/// Field assignment of the unmapped state: the unmapped flag is set and
/// every position-family field carries its "no value" sentinel.
pub open spec fn unmapped_fields(rec: OutputRecord) -> bool {
    &&& rec.unmapped
    &&& rec.target_id == Some(NO_TARGET_ID)
    &&& rec.position == NO_POSITION
    &&& rec.mapping_quality == NO_QUALITY
    &&& rec.mate_position == NO_POSITION
    &&& rec.mate_target_id == NO_TARGET_ID
    &&& rec.insert_size == NO_INSERT_SIZE
}

/// The placeholder name, as bytes.
fn make_default_query_name() -> (n: Vec<u8>)
    ensures
        n@ == default_query_name(),
{
    let mut n: Vec<u8> = Vec::new();
    n.push(113);
    n.push(117);
    n.push(101);
    n.push(114);
    n.push(121);
    proof {
        assert(n@ =~= default_query_name());
    }
    n
}

/// The synthesized quality bytes: `len` copies of the "quality not
/// available" sentinel.
fn make_default_quality(len: usize) -> (q: Vec<u8>)
    ensures
        q@ == default_quality(len as nat),
{
    let mut q: Vec<u8> = Vec::new();
    let mut i: usize = 0;
    while i < len
        invariant
            i <= len,
            q@.len() == i,
            forall|j: int| 0 <= j < i ==> q@[j] == NO_QUALITY,
        decreases len - i,
    {
        q.push(NO_QUALITY);
        i = i + 1;
    }
    proof {
        assert(q@ =~= default_quality(len as nat));
    }
    q
}

/// Populate one alignment record from an optional mapping result, the query
/// sequence, and optional quality and name bytes.
///
/// Every field of the returned record is set: the payload fields carry the
/// sequence, the supplied or placeholder name, and the supplied or
/// synthesized quality; the position-family fields follow the mapped or the
/// unmapped assignment, chosen once by presence of `mapping`. When the
/// mapping carries a raw operation trace, its translation is attached;
/// otherwise the record carries no operation sequence. A trace with an
/// operation code outside the nine-value space fails the call and no record
/// is returned. The header context is read for completeness only: no
/// name-to-id resolution is performed.
#[allow(unused_variables)]
pub fn mapping_to_record(
    mapping: Option<&MappingResult>,
    sequence: &[u8],
    header: HeaderContext,
    quality: Option<&[u8]>,
    query_name: Option<&[u8]>,
) -> (r: Result<OutputRecord, InvalidOperationCode>)
    ensures
        r is Ok <==> (match raw_trace(mapping) {
            Some(t) => all_codes_valid(t),
            None => true,
        }),
        r matches Ok(rec) ==> {
            &&& rec.sequence@ == sequence@
            &&& (query_name matches Some(n) ==> rec.query_name@ == n@)
            &&& (query_name is None ==> rec.query_name@ == default_query_name())
            &&& (quality matches Some(q) ==> rec.quality@ == q@)
            &&& (quality is None ==> rec.quality@ == default_quality(sequence@.len()))
            &&& (match raw_trace(mapping) {
                Some(t) => rec.operations matches Some(ops) && ops@ == translated(t),
                None => rec.operations is None,
            })
            &&& (mapping matches Some(m) ==> mapped_fields(rec, *m))
            &&& (mapping is None ==> unmapped_fields(rec))
        },
        r matches Err(e) ==> (raw_trace(mapping) matches Some(t) && reports_first_invalid_code(
            t,
            e,
        )),
{
    let name: Vec<u8> = match query_name {
        Some(n) => slice_to_vec(n),
        None => make_default_query_name(),
    };
    let qual: Vec<u8> = match quality {
        Some(q) => slice_to_vec(q),
        None => make_default_quality(sequence.len()),
    };
    let operations: Option<Vec<AlignmentOperation>> = match mapping {
        Some(m) => match &m.alignment {
            Some(a) => match &a.cigar {
                Some(c) => match translate_operations(c) {
                    Ok(ops) => Some(ops),
                    Err(e) => {
                        return Err(e);
                    },
                },
                None => None,
            },
            None => None,
        },
        None => None,
    };
    let sequence_bytes: Vec<u8> = slice_to_vec(sequence);
    let rec: OutputRecord = match mapping {
        Some(m) => OutputRecord {
            query_name: name,
            sequence: sequence_bytes,
            quality: qual,
            operations,
            unmapped: false,
            target_id: None,
            position: m.target_start as i64,
            mapping_quality: #[verifier::truncate] (m.mapping_quality as u8),
            mate_position: NO_POSITION,
            mate_target_id: NO_TARGET_ID,
            insert_size: 0,
        },
        None => OutputRecord {
            query_name: name,
            sequence: sequence_bytes,
            quality: qual,
            operations,
            unmapped: true,
            target_id: Some(NO_TARGET_ID),
            position: NO_POSITION,
            mapping_quality: NO_QUALITY,
            mate_position: NO_POSITION,
            mate_target_id: NO_TARGET_ID,
            insert_size: NO_INSERT_SIZE,
        },
    };
    Ok(rec)
}

} // verus!
