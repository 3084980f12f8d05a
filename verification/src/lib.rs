//! A minimal growable, contiguous container with manual capacity management.
//!
//! The container grows its storage in steps of four slots, supports reads by
//! index, removal from the end, and two traversal modes: a borrowing cursor
//! that yields references in insertion order, and a consuming cursor that
//! drains the container from its end.

pub mod array;
pub mod growth;
pub mod item;
pub mod iter;

pub use array::MyVec;
pub use growth::growth_target;
pub use item::DropItem;
pub use iter::Iter;
pub use iter::OwnerIter;
