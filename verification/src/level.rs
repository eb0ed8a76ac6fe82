//! Severity thresholds.

use vstd::prelude::*;

verus! {

/// The most verbose level that a sink lets through. `OFF` lets nothing through;
/// each of the others lets through its own level and every more severe one, so
/// that from least to most verbose they stand as declared.
#[allow(non_camel_case_types)]
#[derive(Debug, Clone, Copy, PartialEq, Eq, Structural, Hash)]
pub enum LevelFilter {
    OFF,
    ERROR,
    WARN,
    INFO,
    DEBUG,
    TRACE,
}

} // verus!
