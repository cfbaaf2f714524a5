//! What the caller found at a path.

use vstd::prelude::*;

verus! {

/// Outcome of looking at a path and, where there is a regular file,
/// reading it.
#[derive(Clone, Debug, PartialEq, Eq)]
pub enum Probe<T> {
    /// Nothing exists at the path.
    Missing,
    /// Something exists there, but no regular file.
    NotAFile,
    /// A regular file that could not be read; holds the reader's error in
    /// its `Debug` form.
    Unreadable(String),
    /// What was read.
    Found(T),
}

} // verus!
