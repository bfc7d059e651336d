//! Fixed-size, NUL-terminated name buffers.
//!
//! The kernel reports names (of modes, properties, enum entries) as
//! fixed-length byte arrays terminated by a NUL; the bytes before the
//! first NUL are the name. The helpers below read such buffers and copy
//! byte vectors.

use vstd::prelude::*;

verus! {

/// Index of the first NUL byte of `s`, or its length when none occurs.
pub open spec fn nul_index(s: Seq<u8>) -> int
    decreases s.len(),
{
    if s.len() == 0 {
        0
    } else if s[0] == 0 {
        0
    } else {
        1 + nul_index(s.drop_first())
    }
}

/// The bytes of `s` before its first NUL: how the kernel reads a name out
/// of a fixed buffer.
pub open spec fn name_before_nul(s: Seq<u8>) -> Seq<u8> {
    s.take(nul_index(s))
}

/// `nul_index` points at the first NUL: everything before it is nonzero,
/// and it lands on a NUL unless there is none.
pub proof fn lemma_nul_index_is_first(s: Seq<u8>)
    ensures
        0 <= nul_index(s) <= s.len(),
        forall|i: int| 0 <= i < nul_index(s) ==> s[i] != 0,
        nul_index(s) < s.len() ==> s[nul_index(s)] == 0,
    decreases s.len(),
{
    if s.len() == 0 {
    } else if s[0] == 0 {
    } else {
        let t = s.drop_first();
        lemma_nul_index_is_first(t);
        assert forall|i: int| 0 <= i < nul_index(s) implies s[i] != 0 by {
            if i > 0 {
                assert(t[i - 1] != 0);
            }
        }
    }
}

/// A position whose prefix is NUL-free and which lands on a NUL, or is the
/// end, is exactly `nul_index`.
pub proof fn lemma_nul_index_unique(s: Seq<u8>, k: int)
    requires
        0 <= k <= s.len(),
        forall|i: int| 0 <= i < k ==> s[i] != 0,
        k < s.len() ==> s[k] == 0,
    ensures
        nul_index(s) == k,
{
    lemma_nul_index_is_first(s);
    if nul_index(s) < k {
        assert(s[nul_index(s)] != 0);
    }
    if k < nul_index(s) {
        assert(s[k] != 0);
    }
}

/// Reads the name out of a NUL-terminated buffer: the bytes before the
/// first NUL, or the whole buffer when none occurs.
pub fn read_name(buf: &Vec<u8>) -> (r: Vec<u8>)
    ensures
        r@ == name_before_nul(buf@),
{
    let mut name: Vec<u8> = Vec::new();
    let mut i: usize = 0;
    while i < buf.len()
        invariant
            i <= buf@.len(),
            name@ == buf@.take(i as int),
            forall|k: int| 0 <= k < i ==> buf@[k] != 0,
        decreases buf@.len() - i,
    {
        let b = buf[i];
        if b == 0 {
            proof {
                lemma_nul_index_unique(buf@, i as int);
            }
            return name;
        }
        name.push(b);
        proof {
            assert(name@ =~= buf@.take(i + 1int));
        }
        i = i + 1;
    }
    proof {
        lemma_nul_index_unique(buf@, buf@.len() as int);
        assert(name@ =~= name_before_nul(buf@));
    }
    name
}

/// Copies a byte vector, element for element.
pub fn copy_bytes(v: &Vec<u8>) -> (r: Vec<u8>)
    ensures
        r@ == v@,
{
    let mut out: Vec<u8> = Vec::new();
    let mut i: usize = 0;
    while i < v.len()
        invariant
            i <= v@.len(),
            out@ == v@.take(i as int),
        decreases v@.len() - i,
    {
        out.push(v[i]);
        proof {
            assert(out@ =~= v@.take(i + 1int));
        }
        i = i + 1;
    }
    proof {
        assert(out@ =~= v@);
    }
    out
}

} // verus!
