//! Code-generation core for structs defined in the Slice interface-definition
//! language, which supports two incompatible binary wire encodings (Slice1 and
//! Slice2). Given a struct's field list and its statically-known set of
//! supported encodings, the library decides the per-field (de)serialization
//! instructions for each encoding, detects when the two encodings need
//! identical code, and otherwise emits a single runtime branch on the encoding
//! tag with exhaustive, non-overlapping arms. Instructions are modeled as a
//! tagged variant so that the merge decision is a structural comparison of
//! instruction sequences rather than a comparison of rendered text.

pub mod schema;
pub mod instructions;
pub mod synthesis;
pub mod merge;
pub mod assembly;
pub mod laws;
