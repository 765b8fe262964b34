use vstd::prelude::*;

verus! {

/// Appends the bytes of `s` to `v`.
pub fn append_bytes(v: &mut Vec<u8>, s: &[u8])
    ensures
        final(v)@ == old(v)@ + s@,
{
    let ghost start = v@;
    let mut i: usize = 0;
    while i < s.len()
        invariant
            i <= s@.len(),
            v@ == start + s@.subrange(0, i as int),
        decreases s@.len() - i,
    {
        v.push(s[i]);
        i = i + 1;
        assert(v@ =~= start + s@.subrange(0, i as int));
    }
    assert(s@.subrange(0, s@.len() as int) =~= s@);
}

/// Whether `s[start..start + t.len()]` equals `t`.
pub fn bytes_match_at(s: &[u8], start: usize, t: &[u8]) -> (r: bool)
    requires
        start + t@.len() <= s@.len(),
    ensures
        r == (s@.subrange(start as int, start + t@.len()) == t@),
{
    let n = s.len();
    let mut i: usize = 0;
    while i < t.len()
        invariant
            n == s@.len(),
            start + t@.len() <= s@.len(),
            i <= t@.len(),
            forall|j: int| 0 <= j < i ==> s@[start + j] == t@[j],
        decreases t@.len() - i,
    {
        if s[start + i] != t[i] {
            assert(s@.subrange(start as int, start + t@.len())[i as int] != t@[i as int]);
            return false;
        }
        i = i + 1;
    }
    assert(s@.subrange(start as int, start + t@.len()) =~= t@);
    true
}

/// Whether two byte strings are equal.
pub fn bytes_eq(a: &[u8], b: &[u8]) -> (r: bool)
    ensures
        r == (a@ == b@),
{
    if a.len() != b.len() {
        return false;
    }
    let r = bytes_match_at(a, 0, b);
    assert(a@.subrange(0, b@.len() as int) =~= a@);
    r
}

/// The bytes `s[start..]`, copied.
pub fn bytes_from(s: &[u8], start: usize) -> (r: Vec<u8>)
    requires
        start <= s@.len(),
    ensures
        r@ == s@.subrange(start as int, s@.len() as int),
{
    let mut r: Vec<u8> = Vec::new();
    let mut i: usize = start;
    while i < s.len()
        invariant
            start <= i <= s@.len(),
            r@ == s@.subrange(start as int, i as int),
        decreases s@.len() - i,
    {
        r.push(s[i]);
        i = i + 1;
        assert(r@ =~= s@.subrange(start as int, i as int));
    }
    r
}

} // verus!
