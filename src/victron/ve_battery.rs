use vstd::prelude::*;

verus! {

/// Address of the battery capacity register.
pub const CAPACITY_REGISTER: u16 = 309;

/// Battery capacity, in Wh, from its register, which counts tenths of a kWh.
pub fn capacity_wh(v: u16) -> (r: u32)
    ensures
        r == v * 100,
{
    v as u32 * 100
}

} // verus!
