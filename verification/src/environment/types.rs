//! Small types shared by providers and their callers.

use vstd::prelude::*;

verus! {

/// Where the freshest status of a timeline belongs: at the head of the
/// sequence or at its tail.
#[derive(Debug, Clone, Copy, PartialEq, Eq, Structural)]
pub enum TimelineDirection {
    NewestTop,
    OldestTop,
}

} // verus!
