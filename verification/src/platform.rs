//! Platform identification.

use vstd::prelude::*;

verus! {

/// Implemented by platform-specific crates.
pub trait PlatformImpl {
    fn name() -> &'static str;
}

/// The name of the generic platform layer.
pub fn platform_name() -> (r: &'static str)
    ensures
        r@ == "generic-platform"@,
{
    "generic-platform"
}

} // verus!
