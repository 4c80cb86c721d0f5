//! A transactional ledger module with two independent state machines — a
//! lifecycle-tracked booking record and an overflow-checked counter — behind a
//! signature-based authorization step, plus a namespaced offchain signing
//! identity that can construct authorized calls for resubmission.

pub mod booking;
pub mod laws;
pub mod offchain;
pub mod origin;
pub mod pallet;
