//! Queue family identification.

use vstd::prelude::*;

verus! {

/// Index of a queue family of a physical device.
#[derive(Clone, Copy, Debug, PartialEq, Eq, Structural, Hash)]
pub struct FamilyIndex(pub u32);

} // verus!
