//! The errors of the object model.

use vstd::prelude::*;
use crate::characteristic::Format;

verus! {

/// What can go wrong in the object model.
#[derive(Clone, Copy, Debug, PartialEq, Eq, Structural)]
pub enum HapError {
    /// A value was assigned to a characteristic whose format does not admit it.
    InvalidValue(Format),
}

} // verus!
