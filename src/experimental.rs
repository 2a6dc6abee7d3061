//! Reading of the two leading header bytes of a raw payload.
use vstd::prelude::*;

verus! {

/// The version byte and the type byte that open a payload.
pub fn payload_header(data: &[u8]) -> (r: (u8, u8))
    requires
        data@.len() >= 2,
    ensures
        r.0 == data@[0],
        r.1 == data@[1],
{
    (data[0], data[1])
}

} // verus!
