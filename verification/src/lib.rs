//! Per-block extraction pipeline for the tracked USDC contract.
//!
//! The library scans a materialized block's receipts and call traces,
//! keeps the entries addressed to one fixed contract, matches each against a
//! compiled-in catalogue of event and function signatures, decodes the
//! matched payloads into typed records, and assembles the per-kind batches
//! for the block, suppressing an all-empty output.

pub mod model;
pub mod scan;
pub mod abi;
pub mod records;
pub mod events;
pub mod calls;
pub mod pipeline;
pub mod laws;
