//! Requests to set outputs.

use crate::{Address, OutputValue};
use vstd::prelude::*;

verus! {

/// The target for a set request.
#[derive(Debug, Clone)]
pub enum SetRequestTarget {
    Address(Address),
    Alias(String),
}

/// A request to set one or more outputs to a value.
#[derive(Debug, Clone)]
pub struct SetRequest {
    pub value: OutputValue,
    pub target: SetRequestTarget,
}

} // verus!
