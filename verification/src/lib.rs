//! Confidential biometric authentication.
//!
//! The crate has two halves. `circuit` is the fuzzy-matching circuit: it
//! compares two fixed-width feature vectors segment by segment, obliviously
//! (no branch depends on a secret value), and decides authentication against
//! a 75% threshold. `protocol` is the computation lifecycle around it: it
//! enrolls encrypted templates, builds uniquely-identified requests for the
//! Arcium computation network in the circuit's fixed argument order, and
//! verifies and decodes the asynchronous callback before raising an
//! authentication event. `arcium` holds the trusted bindings to the Arcium
//! client crates that the protocol submits through.

pub mod arcium;
pub mod circuit;
pub mod protocol;
