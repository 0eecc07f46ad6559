use vstd::prelude::*;

use crate::scalar_order::{less_than, lt, rank};

verus! {

/// Bit pattern of `5e-5`: a body whose inverse mass lies below it is static.
pub const STATIC_INVERSE_MASS: u32 = 0x3851_b717;

/// A body with inverse mass `inv_mass` is static: it neither integrates nor
/// takes impulses or penetration correction.
pub open spec fn is_static(inv_mass: u32) -> bool {
    lt(inv_mass, STATIC_INVERSE_MASS)
}

/// Whether a body with inverse mass `inv_mass` is static. A zero inverse
/// mass (infinite mass), of either sign, always is.
pub fn is_static_inverse_mass(inv_mass: u32) -> (r: bool)
    ensures
        r == is_static(inv_mass),
        rank(inv_mass) == 0 ==> r,
{
    less_than(inv_mass, STATIC_INVERSE_MASS)
}

} // verus!
