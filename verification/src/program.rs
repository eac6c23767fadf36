//! Metadata of lighting programs.

use vstd::prelude::*;

verus! {

/// A level of a discrete program parameter.
#[derive(Debug, Clone)]
pub struct DiscreteParameterLevel {
    pub description: String,
}

} // verus!
