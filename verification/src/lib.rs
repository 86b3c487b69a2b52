//! A verified model of a zero-knowledge transfer pipeline: key registry,
//! credits/microcredits conversion, funding validation, authorization,
//! execution tracing, fee binding, and transaction assembly with a
//! self-verification gate.

pub mod amount;
pub mod engine;
pub mod errors;
pub mod ids;
pub mod pipeline;
pub mod record;
pub mod registry;
