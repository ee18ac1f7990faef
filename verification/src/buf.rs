//! Copies into fixed-size byte buffers, as the kernel's probe-read helpers
//! perform them.

use vstd::prelude::*;

verus! {

/// Number of string bytes a copy into a buffer of `dest_len` bytes keeps:
/// the buffer always ends up zero-terminated.
pub open spec fn str_copy_len(dest_len: nat, src: Seq<u8>) -> nat {
    if src.len() < dest_len {
        src.len()
    } else {
        (dest_len - 1) as nat
    }
}

/// `dest` after a zero-terminated copy of the string `src` into it: the
/// string, truncated to leave room for the terminator, then a zero byte;
/// bytes after the terminator are kept.
pub open spec fn str_copy(dest: Seq<u8>, src: Seq<u8>) -> Seq<u8> {
    let n = str_copy_len(dest.len(), src) as int;
    Seq::new(dest.len(), |i: int| if i < n { src[i] } else if i == n { 0u8 } else { dest[i] })
}

/// `dest` with its first bytes replaced by `src`.
pub open spec fn buf_overwrite(dest: Seq<u8>, src: Seq<u8>) -> Seq<u8> {
    Seq::new(dest.len(), |i: int| if i < src.len() { src[i] } else { dest[i] })
}

/// Copies the string `src` into `dest`, zero-terminated and truncated to
/// fit; returns the number of string bytes copied.
pub fn str_copy_into(dest: &mut [u8], src: &[u8]) -> (n: usize)
    requires
        old(dest)@.len() > 0,
    ensures
        n == str_copy_len(old(dest)@.len(), src@),
        final(dest)@ == str_copy(old(dest)@, src@),
{
    let ghost orig = dest@;
    let dlen = dest.len();
    let n: usize = if src.len() < dlen {
        src.len()
    } else {
        dlen - 1
    };
    let mut i: usize = 0;
    while i < n
        invariant
            n == str_copy_len(orig.len(), src@),
            dlen == orig.len(),
            dest@.len() == dlen,
            n < dlen,
            n <= src@.len(),
            i <= n,
            forall|j: int| 0 <= j < i ==> dest@[j] == src@[j],
            forall|j: int| i <= j < dlen ==> dest@[j] == orig[j],
        decreases n - i,
    {
        dest[i] = src[i];
        i += 1;
    }
    dest[n] = 0;
    assert(dest@ =~= str_copy(orig, src@));
    n
}

/// Overwrites the first bytes of `dest` with `src`.
pub fn buf_copy_into(dest: &mut [u8], src: &[u8])
    requires
        src@.len() <= old(dest)@.len(),
    ensures
        final(dest)@ == buf_overwrite(old(dest)@, src@),
{
    let ghost orig = dest@;
    let mut i: usize = 0;
    while i < src.len()
        invariant
            src@.len() <= orig.len(),
            dest@.len() == orig.len(),
            i <= src@.len(),
            forall|j: int| 0 <= j < i ==> dest@[j] == src@[j],
            forall|j: int| i <= j < orig.len() ==> dest@[j] == orig[j],
        decreases src.len() - i,
    {
        dest[i] = src[i];
        i += 1;
    }
    assert(dest@ =~= buf_overwrite(orig, src@));
}

} // verus!
