use vstd::prelude::*;

verus! {

/// A small element type with a visible payload, handy for exercising the
/// container with a non-trivial element.
#[derive(Debug, PartialEq, Eq, Structural)]
pub struct DropItem {
    pub value: i32,
}

} // verus!
