//! Checks made before handing names to the C runtime API: a registry's name
//! goes to C as a NUL-terminated string.

use vstd::prelude::*;
use vstd::string::StringSliceAdditionalSpecFns;

verus! {

/// Whether `bytes` is a C string: it ends with a NUL byte and holds no
/// other NUL byte.
pub open spec fn is_c_string(bytes: Seq<u8>) -> bool {
    &&& bytes.len() > 0
    &&& bytes.last() == 0
    &&& forall|i: int| 0 <= i < bytes.len() - 1 ==> bytes[i] != 0
}

/// Whether `bytes` is a C string (`CStr::from_bytes_with_nul` accepts it).
pub fn is_c_string_bytes(bytes: &[u8]) -> (r: bool)
    ensures
        r == is_c_string(bytes@),
{
    let n = bytes.len();
    if n == 0 || bytes[n - 1] != 0 {
        return false;
    }
    let mut i: usize = 0;
    while i < n - 1
        invariant
            n == bytes@.len(),
            n > 0,
            i <= n - 1,
            forall|j: int| 0 <= j < i ==> bytes@[j] != 0,
        decreases n - 1 - i,
    {
        if bytes[i] == 0 {
            return false;
        }
        i = i + 1;
    }
    true
}

/// The C string that names a registry: the name's UTF-8 bytes followed by
/// NUL; `None` where the name itself holds a NUL character.
pub fn try_registry_c_name(registry_name: &str) -> (r: Option<Vec<u8>>)
    ensures
        match r {
            Some(bytes) => bytes@ == registry_name.spec_bytes().push(0u8) && is_c_string(bytes@),
            None => !is_c_string(registry_name.spec_bytes().push(0u8)),
        },
{
    let src = registry_name.as_bytes();
    let mut bytes: Vec<u8> = Vec::new();
    let mut i: usize = 0;
    while i < src.len()
        invariant
            src@ == registry_name.spec_bytes(),
            i <= src.len(),
            bytes@ == src@.take(i as int),
        decreases src.len() - i,
    {
        bytes.push(src[i]);
        i = i + 1;
        assert(bytes@ =~= src@.take(i as int));
    }
    bytes.push(0u8);
    assert(bytes@ =~= src@.push(0u8));
    if is_c_string_bytes(bytes.as_slice()) {
        Some(bytes)
    } else {
        None
    }
}

/// The C string that names a registry whose name holds no NUL character:
/// the name's UTF-8 bytes followed by NUL.
pub fn registry_c_name(registry_name: &str) -> (r: Vec<u8>)
    requires
        !registry_name.spec_bytes().contains(0u8),
    ensures
        r@ == registry_name.spec_bytes().push(0u8),
        is_c_string(r@),
{
    let ghost b = registry_name.spec_bytes();
    assert(is_c_string(b.push(0u8))) by {
        assert forall|i: int| 0 <= i < b.push(0u8).len() - 1 implies b.push(0u8)[i] != 0 by {
            if b.push(0u8)[i] == 0 {
                assert(b[i] == 0u8);
            }
        }
    }
    try_registry_c_name(registry_name).unwrap()
}

} // verus!
