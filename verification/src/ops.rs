//! Operation-code translator: converts raw `(run length, operation code)`
//! pairs, as emitted by the alignment engine, into typed alignment
//! operations.
//!
//! The engine encodes an alignment trace as a sequence of pairs whose code
//! selects one of nine operation kinds. Any code outside that space is an
//! input-contract violation: translation fails and reports the offending
//! code, so that a corrupted trace is never attached to a record.

use vstd::prelude::*;

verus! {

/// One step of an alignment trace, carrying its run length.
#[derive(Clone, Copy, Debug, PartialEq, Eq, Structural)]
pub enum AlignmentOperation {
    Match(u32),
    Insertion(u32),
    Deletion(u32),
    ReferenceSkip(u32),
    SoftClip(u32),
    HardClip(u32),
    Padding(u32),
    SequenceMatch(u32),
    SequenceMismatch(u32),
}

/// Error reported when a raw pair carries an operation code outside the
/// nine-value code space. The offending code is kept for diagnosis.
#[derive(Clone, Copy, Debug, PartialEq, Eq, Structural)]
pub struct InvalidOperationCode {
    pub code: u8,
}

/// The operation codes the alignment engine may emit.
pub open spec fn valid_code(code: u8) -> bool {
    code <= 8
}

/// The operation that a valid raw pair denotes.
pub open spec fn op_for(run_length: u32, code: u8) -> AlignmentOperation
    recommends
        valid_code(code),
{
    if code == 0 {
        AlignmentOperation::Match(run_length)
    } else if code == 1 {
        AlignmentOperation::Insertion(run_length)
    } else if code == 2 {
        AlignmentOperation::Deletion(run_length)
    } else if code == 3 {
        AlignmentOperation::ReferenceSkip(run_length)
    } else if code == 4 {
        AlignmentOperation::SoftClip(run_length)
    } else if code == 5 {
        AlignmentOperation::HardClip(run_length)
    } else if code == 6 {
        AlignmentOperation::Padding(run_length)
    } else if code == 7 {
        AlignmentOperation::SequenceMatch(run_length)
    } else {
        AlignmentOperation::SequenceMismatch(run_length)
    }
}

/// The code of an operation.
pub open spec fn op_code(op: AlignmentOperation) -> u8 {
    match op {
        AlignmentOperation::Match(_) => 0,
        AlignmentOperation::Insertion(_) => 1,
        AlignmentOperation::Deletion(_) => 2,
        AlignmentOperation::ReferenceSkip(_) => 3,
        AlignmentOperation::SoftClip(_) => 4,
        AlignmentOperation::HardClip(_) => 5,
        AlignmentOperation::Padding(_) => 6,
        AlignmentOperation::SequenceMatch(_) => 7,
        AlignmentOperation::SequenceMismatch(_) => 8,
    }
}

/// The run length of an operation.
pub open spec fn op_len(op: AlignmentOperation) -> u32 {
    match op {
        AlignmentOperation::Match(l) => l,
        AlignmentOperation::Insertion(l) => l,
        AlignmentOperation::Deletion(l) => l,
        AlignmentOperation::ReferenceSkip(l) => l,
        AlignmentOperation::SoftClip(l) => l,
        AlignmentOperation::HardClip(l) => l,
        AlignmentOperation::Padding(l) => l,
        AlignmentOperation::SequenceMatch(l) => l,
        AlignmentOperation::SequenceMismatch(l) => l,
    }
}

/// Law: translating a valid `(run length, code)` pair and reading the
/// operation back yields the original pair, for every code in the
/// nine-value space and every run length.
pub proof fn lemma_pair_round_trip(run_length: u32, code: u8)
    requires
        valid_code(code),
    ensures
        op_code(op_for(run_length, code)) == code,
        op_len(op_for(run_length, code)) == run_length,
{
}

/// Translate one raw pair into its operation; a code outside the nine-value
/// space is rejected and reported.
pub fn operation_from_pair(run_length: u32, code: u8) -> (r: Result<
    AlignmentOperation,
    InvalidOperationCode,
>)
    ensures
        valid_code(code) ==> (r matches Ok(op) && op == op_for(run_length, code)),
        !valid_code(code) ==> (r matches Err(e) && e.code == code),
{
    match code {
        0 => Ok(AlignmentOperation::Match(run_length)),
        1 => Ok(AlignmentOperation::Insertion(run_length)),
        2 => Ok(AlignmentOperation::Deletion(run_length)),
        3 => Ok(AlignmentOperation::ReferenceSkip(run_length)),
        4 => Ok(AlignmentOperation::SoftClip(run_length)),
        5 => Ok(AlignmentOperation::HardClip(run_length)),
        6 => Ok(AlignmentOperation::Padding(run_length)),
        7 => Ok(AlignmentOperation::SequenceMatch(run_length)),
        8 => Ok(AlignmentOperation::SequenceMismatch(run_length)),
        _ => Err(InvalidOperationCode { code }),
    }
}

/// Re-encode an operation as the raw `(run length, code)` pair it came from.
pub fn operation_to_pair(op: &AlignmentOperation) -> (r: (u32, u8))
    ensures
        r.0 == op_len(*op),
        r.1 == op_code(*op),
{
    match op {
        AlignmentOperation::Match(l) => (*l, 0),
        AlignmentOperation::Insertion(l) => (*l, 1),
        AlignmentOperation::Deletion(l) => (*l, 2),
        AlignmentOperation::ReferenceSkip(l) => (*l, 3),
        AlignmentOperation::SoftClip(l) => (*l, 4),
        AlignmentOperation::HardClip(l) => (*l, 5),
        AlignmentOperation::Padding(l) => (*l, 6),
        AlignmentOperation::SequenceMatch(l) => (*l, 7),
        AlignmentOperation::SequenceMismatch(l) => (*l, 8),
    }
}

/// Every pair of a raw trace carries a code in the nine-value space.
pub open spec fn all_codes_valid(pairs: Seq<(u32, u8)>) -> bool {
    forall|i: int| 0 <= i < pairs.len() ==> valid_code(#[trigger] pairs[i].1)
}

/// The operation sequence that a raw trace denotes: same length, and
/// element-wise the operation of the pair at that position.
pub open spec fn translated(pairs: Seq<(u32, u8)>) -> Seq<AlignmentOperation> {
    Seq::new(pairs.len(), |i: int| op_for(pairs[i].0, pairs[i].1))
}

/// The error names the code of the first pair whose code is outside the
/// nine-value space.
pub open spec fn reports_first_invalid_code(pairs: Seq<(u32, u8)>, e: InvalidOperationCode) -> bool {
    exists|i: int|
        {
            &&& 0 <= i < pairs.len()
            &&& !valid_code(#[trigger] pairs[i].1)
            &&& e.code == pairs[i].1
            &&& forall|j: int| 0 <= j < i ==> valid_code(#[trigger] pairs[j].1)
        }
}

/// Translate a raw trace into its operation sequence, preserving order and
/// run lengths exactly. Translation succeeds if and only if every code is in
/// the nine-value space; otherwise it stops at the first invalid pair and
/// reports that pair's code, so no partially translated trace escapes.
pub fn translate_operations(pairs: &Vec<(u32, u8)>) -> (r: Result<
    Vec<AlignmentOperation>,
    InvalidOperationCode,
>)
    ensures
        r is Ok <==> all_codes_valid(pairs@),
        (r matches Ok(ops) ==> ops@ == translated(pairs@)),
        (r matches Err(e) ==> reports_first_invalid_code(pairs@, e)),
{
    let mut ops: Vec<AlignmentOperation> = Vec::new();
    let mut i: usize = 0;
    while i < pairs.len()
        invariant
            i <= pairs@.len(),
            ops@.len() == i,
            forall|j: int| 0 <= j < i ==> valid_code(#[trigger] pairs@[j].1),
            forall|j: int| 0 <= j < i ==> ops@[j] == op_for(pairs@[j].0, pairs@[j].1),
        decreases pairs@.len() - i,
    {
        let (run_length, code) = pairs[i];
        match operation_from_pair(run_length, code) {
            Ok(op) => {
                ops.push(op);
            },
            Err(e) => {
                proof {
                    assert(!valid_code(pairs@[i as int].1));
                }
                return Err(e);
            },
        }
        i = i + 1;
    }
    proof {
        assert(ops@ =~= translated(pairs@));
    }
    Ok(ops)
}

} // verus!
