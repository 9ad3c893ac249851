//! Traits for values that carry volume information.

use vstd::prelude::*;

verus! {

/// Types that have volume information.
pub trait HasVolume {
    /// Get the volume level (0-100).
    fn volume(&self) -> i32;

    /// Check if audio is muted.
    fn is_muted(&self) -> bool;
}

} // verus!
