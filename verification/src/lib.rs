//! Object substrate for a small dynamically-typed scripting language,
//! together with the language's parser.
//!
//! The object layer offers a uniform handle (`Obj<T>`) that can hold any
//! storable value behind one fixed shape, with a per-type storage strategy
//! (heap-boxed and reference-counted, inline in the slot, or no storage at
//! all), a dispatch identity (`Vtable`) used for runtime type recovery, and
//! a capability contract (`CanObj`) routed through the erased form
//! (`Obj<PtyPtr>`).
//!
//! The parser turns source text into the abstract syntax tree of `expr`.

pub mod core_types;
pub mod expr;
pub mod laws;
pub mod object;
pub mod parse;
pub mod parse_binop;
pub mod ptyptr;
pub mod vm;
pub mod vtable;
