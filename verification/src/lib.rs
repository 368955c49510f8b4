//! Verified core of a small line-oriented file concatenator.
//!
//! The library classifies command-line tokens into options and file paths,
//! and renders output lines, optionally prefixed with a 1-based per-source
//! line number. Opening files and moving bytes is left to the surrounding
//! program; everything the program decides or formats is specified and
//! proved here.

use vstd::prelude::*;

pub mod args;
pub mod render;

verus! {

/// The character sequences of a sequence of strings, for contracts that
/// speak of the strings' contents.
pub open spec fn views_of(v: Seq<String>) -> Seq<Seq<char>> {
    v.map_values(|s: String| s@)
}

} // verus!
