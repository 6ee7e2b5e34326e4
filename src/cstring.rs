use vstd::prelude::*;
use vstd::string::StringSliceAdditionalSpecFns;

verus! {

/// A byte sequence can be written as a C string when it holds no null byte.
pub open spec fn has_null(b: Seq<u8>) -> bool {
    exists|i: int| 0 <= i < b.len() && b[i] == 0u8
}

/// The bytes of a C string: the text's bytes, then one null terminator.
pub open spec fn spec_c_string(b: Seq<u8>) -> Seq<u8> {
    b.push(0u8)
}

/// Encodes `s` as a null-terminated C string. `None` when `s` holds a null
/// byte, which a C string cannot carry.
pub fn to_c_string(s: &str) -> (r: Option<Vec<u8>>)
    ensures
        r is None <==> has_null(s.spec_bytes()),
        r matches Some(v) ==> v@ == spec_c_string(s.spec_bytes()),
{
    let b = s.as_bytes();
    let mut v: Vec<u8> = Vec::new();
    let mut i: usize = 0;
    while i < b.len()
        invariant
            b@ == s.spec_bytes(),
            i <= b@.len(),
            v@ == b@.subrange(0, i as int),
            !has_null(b@.subrange(0, i as int)),
        decreases b@.len() - i,
    {
        if b[i] == 0u8 {
            assert(b@[i as int] == 0u8);
            return None;
        }
        v.push(b[i]);
        assert(b@.subrange(0, i + 1) =~= b@.subrange(0, i as int).push(b@[i as int]));
        i = i + 1;
    }
    assert(b@.subrange(0, i as int) =~= b@);
    v.push(0u8);
    Some(v)
}

} // verus!
