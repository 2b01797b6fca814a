//! Queue capabilities and the markers that narrow them.

use vstd::prelude::*;

verus! {

/// Bit of a queue that supports graphics operations.
pub const GRAPHICS: u32 = 1;

/// Bit of a queue that supports compute operations.
pub const COMPUTE: u32 = 2;

/// Bit of a queue that supports transfer operations.
pub const TRANSFER: u32 = 4;

/// Set of operation classes that a queue family supports, one bit each.
#[derive(Clone, Copy, Debug, PartialEq, Eq, Structural, Hash)]
pub struct QueueFlags(pub u32);

/// True when every bit of `required` is set in `flags`.
pub open spec fn includes(flags: u32, required: u32) -> bool {
    flags & required == required
}

/// Capability that a pool or buffer is known to have.
pub trait Capability: Copy + Sized {
    /// The bits a queue family must support for this capability.
    spec fn required() -> u32;

    /// The flags that this capability stands for.
    spec fn spec_into_flags(self) -> QueueFlags;

    /// The capability that `flags` narrow to, if any.
    spec fn spec_from_flags(flags: QueueFlags) -> Option<Self>;

    /// Narrow `flags` to this capability, if every bit it requires is present.
    fn from_flags(flags: QueueFlags) -> (r: Option<Self>)
        ensures
            r == Self::spec_from_flags(flags),
            r is Some <==> includes(flags.0, Self::required()),
            r matches Some(c) ==> includes(flags.0, c.spec_into_flags().0),
    ;

    /// Flags that this capability stands for.
    fn into_flags(self) -> (r: QueueFlags)
        ensures
            r == self.spec_into_flags(),
    ;
}

impl Capability for QueueFlags {
    open spec fn required() -> u32 {
        0
    }

    open spec fn spec_into_flags(self) -> QueueFlags {
        self
    }

    open spec fn spec_from_flags(flags: QueueFlags) -> Option<Self> {
        Some(flags)
    }

    fn from_flags(flags: QueueFlags) -> (r: Option<Self>) {
        assert(flags.0 & 0 == 0) by (bit_vector);
        assert(flags.0 & flags.0 == flags.0) by (bit_vector);
        Some(flags)
    }

    fn into_flags(self) -> (r: QueueFlags) {
        self
    }
}

/// Capability of transfer operations.
#[derive(Clone, Copy, Debug, Default, PartialEq, Eq, Structural)]
pub struct Transfer;

/// Capability of compute operations.
#[derive(Clone, Copy, Debug, Default, PartialEq, Eq, Structural)]
pub struct Compute;

/// Capability of graphics operations.
#[derive(Clone, Copy, Debug, Default, PartialEq, Eq, Structural)]
pub struct Graphics;

/// Capability of both graphics and compute operations.
#[derive(Clone, Copy, Debug, Default, PartialEq, Eq, Structural)]
pub struct General;

/// Shared by the markers: narrow `flags` to `required`.
fn narrow(flags: QueueFlags, required: u32) -> (r: bool)
    ensures
        r == includes(flags.0, required),
{
    flags.0 & required == required
}

impl Capability for Transfer {
    open spec fn required() -> u32 {
        TRANSFER
    }

    open spec fn spec_into_flags(self) -> QueueFlags {
        QueueFlags(TRANSFER)
    }

    open spec fn spec_from_flags(flags: QueueFlags) -> Option<Self> {
        if includes(flags.0, TRANSFER) {
            Some(Transfer)
        } else {
            None
        }
    }

    fn from_flags(flags: QueueFlags) -> (r: Option<Self>) {
        if narrow(flags, TRANSFER) {
            Some(Transfer)
        } else {
            None
        }
    }

    fn into_flags(self) -> (r: QueueFlags) {
        QueueFlags(TRANSFER)
    }
}

impl Capability for Compute {
    open spec fn required() -> u32 {
        COMPUTE
    }

    open spec fn spec_into_flags(self) -> QueueFlags {
        QueueFlags(COMPUTE)
    }

    open spec fn spec_from_flags(flags: QueueFlags) -> Option<Self> {
        if includes(flags.0, COMPUTE) {
            Some(Compute)
        } else {
            None
        }
    }

    fn from_flags(flags: QueueFlags) -> (r: Option<Self>) {
        if narrow(flags, COMPUTE) {
            Some(Compute)
        } else {
            None
        }
    }

    fn into_flags(self) -> (r: QueueFlags) {
        QueueFlags(COMPUTE)
    }
}

impl Capability for Graphics {
    open spec fn required() -> u32 {
        GRAPHICS
    }

    open spec fn spec_into_flags(self) -> QueueFlags {
        QueueFlags(GRAPHICS)
    }

    open spec fn spec_from_flags(flags: QueueFlags) -> Option<Self> {
        if includes(flags.0, GRAPHICS) {
            Some(Graphics)
        } else {
            None
        }
    }

    fn from_flags(flags: QueueFlags) -> (r: Option<Self>) {
        if narrow(flags, GRAPHICS) {
            Some(Graphics)
        } else {
            None
        }
    }

    fn into_flags(self) -> (r: QueueFlags) {
        QueueFlags(GRAPHICS)
    }
}

impl Capability for General {
    open spec fn required() -> u32 {
        GRAPHICS | COMPUTE
    }

    open spec fn spec_into_flags(self) -> QueueFlags {
        QueueFlags(GRAPHICS | COMPUTE)
    }

    open spec fn spec_from_flags(flags: QueueFlags) -> Option<Self> {
        if includes(flags.0, GRAPHICS | COMPUTE) {
            Some(General)
        } else {
            None
        }
    }

    fn from_flags(flags: QueueFlags) -> (r: Option<Self>) {
        if narrow(flags, GRAPHICS | COMPUTE) {
            Some(General)
        } else {
            None
        }
    }

    fn into_flags(self) -> (r: QueueFlags) {
        QueueFlags(GRAPHICS | COMPUTE)
    }
}

} // verus!
