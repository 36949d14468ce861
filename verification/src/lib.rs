//! Translation of in-memory sequence-alignment results into fully populated
//! alignment records.
//!
//! The crate has two components: an operation-code translator, which turns
//! `(run length, code)` pairs into typed alignment operations, and a record
//! populator, which assembles one output record from an optional mapping
//! result plus raw sequence, quality and name bytes.

pub mod ops;
pub mod record;

pub use ops::{
    AlignmentOperation, InvalidOperationCode, operation_from_pair, operation_to_pair,
    translate_operations,
};
pub use record::{
    AlignmentDetail, HeaderContext, MappingResult, OutputRecord, mapping_to_record, NO_INSERT_SIZE,
    NO_POSITION, NO_QUALITY, NO_TARGET_ID,
};
