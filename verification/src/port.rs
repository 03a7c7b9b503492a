//! Serial-port identifiers as the driver takes them: null-terminated bytes.

use vstd::prelude::*;
use vstd::string::StringSliceAdditionalSpecFns;

verus! {

/// Whether bytes can be handed to the driver as a string: none of them is the
/// null byte, which would end the string early.
pub open spec fn well_formed(bytes: Seq<u8>) -> bool {
    forall|at: int| 0 <= at < bytes.len() ==> bytes[at] != 0
}

/// The driver's form of a port identifier: its bytes followed by the
/// terminating null byte, or `None` where the identifier holds a null byte.
pub open spec fn terminated(bytes: Seq<u8>) -> Option<Seq<u8>> {
    if well_formed(bytes) {
        Some(bytes.push(0u8))
    } else {
        None
    }
}

/// Lays a port identifier out as the driver reads it. An identifier with an
/// embedded null byte has no such form and yields `None`.
pub fn native_string(port: &str) -> (native: Option<Vec<u8>>)
    ensures
        match terminated(port.spec_bytes()) {
            Some(bytes) => native is Some && native->Some_0@ == bytes,
            None => native is None,
        },
{
    let bytes = port.as_bytes();
    let mut native: Vec<u8> = Vec::new();
    let mut at: usize = 0;
    while at < bytes.len()
        invariant
            at <= bytes.len(),
            bytes@ == port.spec_bytes(),
            native@ == bytes@.take(at as int),
            well_formed(native@),
        decreases bytes.len() - at,
    {
        if bytes[at] == 0 {
            assert(port.spec_bytes()[at as int] == 0);
            return None;
        }
        native.push(bytes[at]);
        assert(bytes@.take(at + 1) == bytes@.take(at as int).push(bytes@[at as int]));
        at += 1;
    }
    assert(bytes@.take(at as int) == bytes@);
    native.push(0);
    Some(native)
}

} // verus!
