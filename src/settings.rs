use vstd::prelude::*;

verus! {

/// Default for a setting that is on unless configured.
pub fn bool_true() -> (r: bool)
    ensures
        r,
{
    true
}

/// Default for a setting that is off unless configured.
pub fn bool_false() -> (r: bool)
    ensures
        !r,
{
    false
}

/// Default for an unsigned setting: the value `V`.
pub fn default_u32<const V: u32>() -> (r: u32)
    ensures
        r == V,
{
    V
}

} // verus!
