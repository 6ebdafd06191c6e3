//! Runtime type identity and storage-strategy selection.
//!
//! A language without verified function pointers cannot carry a table of
//! capability entry points around at runtime, so dispatch goes by matching
//! on the type tag instead; the table keeps its other role unchanged: it is
//! the sole runtime witness of a handle's concrete type, and two handles are
//! the same concrete type exactly when their tables are equal.

use vstd::prelude::*;

verus! {

/// The identity of a storable concrete type.
#[derive(Clone, Copy, Debug, PartialEq, Eq, Structural)]
pub enum Tag {
    /// The zero-sized null type.
    Null,
    /// The inline 64-bit integer type.
    Int,
    /// The heap-boxed string type.
    Str,
    /// The erased marker type; no handle is ever built with this tag.
    Petty,
}

/// How a value of a given type is physically stored in a handle's slot.
#[derive(Clone, Copy, Debug, PartialEq, Eq, Structural)]
pub enum Strategy {
    /// Zero-sized: no storage at all; reads rebuild the default instance.
    Empty,
    /// Pointer-sized and `Copy`: the bits live directly in the slot.
    Inline,
    /// Everything else: the value lives in a counted heap cell.
    Boxed,
}

/// The storage strategy is selected once per concrete type, never per
/// instance.
pub open spec fn strategy(t: Tag) -> Strategy {
    match t {
        Tag::Null => Strategy::Empty,
        Tag::Int => Strategy::Inline,
        Tag::Str => Strategy::Boxed,
        Tag::Petty => Strategy::Empty,
    }
}

/// Compute the strategy of a tag at run time.
pub fn strategy_of(t: Tag) -> (s: Strategy)
    ensures
        s == strategy(t),
{
    match t {
        Tag::Null => Strategy::Empty,
        Tag::Int => Strategy::Inline,
        Tag::Str => Strategy::Boxed,
        Tag::Petty => Strategy::Empty,
    }
}

/// The per-type dispatch identity carried by every handle.
#[derive(Clone, Copy, Debug, PartialEq, Eq, Structural)]
pub struct Vtable {
    pub tag: Tag,
}

impl Vtable {
    /// Build the dispatch identity of a storable type.  Construction has no
    /// side effect at all; the same type always yields the same table.
    pub fn new<T: crate::object::CanObj>() -> (v: Vtable)
        ensures
            v.tag == T::tag(),
    {
        Vtable { tag: T::exec_tag() }
    }
}

} // verus!
