//! The core of a terminal UI layout binding: translating a tree of nodes
//! and styles into the model a box-layout engine consumes, measuring text
//! leaves with a grapheme-aware, whitespace-preserving line wrap,
//! collecting the solved tree into absolute screen-space geometry, and
//! timing the phases of a call as a tree of spans.  The engine itself and
//! the terminal reads and writes stay outside; what is here is specified
//! and verified.
use vstd::prelude::*;

pub mod span;
pub mod style;
pub mod terminal;
pub mod text;
pub mod tree;

verus! {

} // verus!
