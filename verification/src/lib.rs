//! Compact, type-distinct references to the entities of a function's
//! intermediate representation: basic blocks, instructions, stack slots,
//! jump tables, and SSA values.
//!
//! Each reference wraps a `u32` index into a table owned by the surrounding
//! function, with the maximum representable value reserved as a sentinel
//! meaning "no such entity". The value reference additionally folds a
//! direct/table discriminant into the low bit of its payload, so that it
//! stays the same size as a plain index.

pub mod entities;
pub mod text;

pub use entities::Ebb;
pub use entities::ExpandedValue;
pub use entities::Inst;
pub use entities::JumpTable;
pub use entities::StackSlot;
pub use entities::Value;
