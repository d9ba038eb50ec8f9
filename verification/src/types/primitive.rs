//! Primitive types of the remote API.

use vstd::prelude::*;

verus! {

/// The API's integer: identifiers, dates and amounts.
pub type Integer = i64;

} // verus!
