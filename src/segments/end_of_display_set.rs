use vstd::prelude::*;

verus! {

/// Marks the end of a display set; it carries no fields.
#[derive(Debug, Clone, Copy, PartialEq, Eq, Structural)]
pub struct EndOfDisplaySet;

} // verus!
