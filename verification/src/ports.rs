use vstd::prelude::*;
use crate::errors::BridgeError;

verus! {

/// Finds the wanted device among the available ports' queried names:
/// returns the index of the first port whose name equals the wanted name
/// exactly, in insertion order, or reports that no port matches. A failed
/// resolution is fatal to startup; there is no retry.
pub fn resolve_port(names: &Vec<String>, wanted: &String) -> (r: Result<usize, BridgeError>)
    ensures
        (match r {
            Ok(i) => {
                &&& i < names@.len()
                &&& names@[i as int]@ == wanted@
                &&& forall|j: int| 0 <= j < i ==> names@[j]@ != wanted@
            },
            Err(e) => {
                &&& forall|j: int| 0 <= j < names@.len() ==> names@[j]@ != wanted@
                &&& (e matches BridgeError::PortNotFound { name } && name@ == wanted@)
            },
        }),
{
    let mut i: usize = 0;
    while i < names.len()
        invariant
            i <= names@.len(),
            forall|j: int| 0 <= j < i ==> names@[j]@ != wanted@,
        decreases names@.len() - i,
    {
        if names[i].eq(wanted) {
            return Ok(i);
        }
        i += 1;
    }
    Err(BridgeError::PortNotFound { name: wanted.clone() })
}

} // verus!
