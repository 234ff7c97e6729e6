//! Utilities for binding generators.
use vstd::prelude::*;
use vstd::string::StringSliceAdditionalSpecFns;

verus! {

/// Whether `suffix` ends `s`.
pub open spec fn ends_with_bytes(s: Seq<u8>, suffix: Seq<u8>) -> bool {
    suffix.len() <= s.len() && s.subrange(s.len() - suffix.len(), s.len() as int) == suffix
}

/// Whether the path `path` ends in `extension`; such files are the ones
/// that get copied.
pub fn has_extension(path: &str, extension: &str) -> (r: bool)
    ensures
        r == ends_with_bytes(path.spec_bytes(), extension.spec_bytes()),
{
    let p = path.as_bytes();
    let e = extension.as_bytes();
    if e.len() > p.len() {
        return false;
    }
    let start = p.len() - e.len();
    let mut i: usize = 0;
    while i < e.len()
        invariant
            p@ == path.spec_bytes(),
            e@ == extension.spec_bytes(),
            e@.len() <= p@.len() <= usize::MAX,
            start == p@.len() - e@.len(),
            i <= e@.len(),
            forall|k: int| 0 <= k < i ==> p@[start + k] == e@[k],
        decreases e@.len() - i,
    {
        if p[start + i] != e[i] {
            assert(p@.subrange(start as int, p@.len() as int)[i as int] != e@[i as int]);
            return false;
        }
        i = i + 1;
    }
    assert(p@.subrange(start as int, p@.len() as int) =~= e@);
    true
}

} // verus!
