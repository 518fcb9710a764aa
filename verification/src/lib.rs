//! A deterministic execution-cost metering model.
//!
//! The library maps an operation kind and its runtime parameter values to a
//! bounded resource estimate (compute units plus storage read/write counts)
//! through a saturating linear formula. Formulas are registered once, during
//! construction; the built model is immutable and its estimates are pure
//! functions of the registered table and the call's inputs.

pub mod laws;
pub mod model;
pub mod proxy;
pub mod saturating;
