//! Diagnoses implicit graphics-API loader layers that break application startup.
//!
//! The library holds the data model of a diagnosis run, the plan of trials and
//! their assembly into a result matrix, the classification of that matrix into a
//! single conclusion, the normalisation of a probe process's outcome, and the
//! remediation derived from a conclusion.

pub mod definitions;
pub mod logic;
pub mod trials;
pub mod probe;
pub mod remediation;
pub mod registry;
