use crate::victron::VictronError;
use vstd::prelude::*;

verus! {

/// Reads a register as a flag: 0 is false, 1 is true; anything else is an error.
pub fn bool_from_register(v: u16) -> (r: Result<bool, VictronError>)
    ensures
        r is Ok <==> v <= 1,
        r matches Ok(b) ==> b == (v == 1),
        r matches Err(e) ==> e.0@ == "Unknown bool state!"@,
{
    if v == 0 {
        Ok(false)
    } else if v == 1 {
        Ok(true)
    } else {
        Err(VictronError("Unknown bool state!".to_owned()))
    }
}

/// A register read as a signed value, in two's complement.
pub fn i16_from_register(v: u16) -> (r: i16)
    ensures
        r == (if v < 0x8000 { v as int } else { v - 0x10000 }),
{
    if v < 0x8000 {
        v as i16
    } else {
        (v as i32 - 0x10000) as i16
    }
}

/// The register value that holds the signed `v`, in two's complement.
pub fn register_from_i16(v: i16) -> (r: u16)
    ensures
        r == (if v >= 0 { v as int } else { v + 0x10000 }),
{
    if v >= 0 {
        v as u16
    } else {
        (v as i32 + 0x10000) as u16
    }
}

} // verus!
