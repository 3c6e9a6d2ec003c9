//! Reading all circles.

use crate::aggregate::circle::Circle;
use vstd::prelude::*;

verus! {

#[derive(Debug)]
pub struct Input;

/// The circles that the cache holds.
#[derive(Debug)]
pub struct Output(pub Vec<Circle>);

} // verus!
