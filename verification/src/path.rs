//! Reading the one nul-terminated path that a buffer holds.

use crate::catalog::PATH_MAX;
use vstd::prelude::*;

verus! {

/// `n` is where the text in `bytes` ends: the place of its first nul byte.
pub open spec fn is_terminator(bytes: Seq<u8>, n: int) -> bool {
    &&& 0 <= n < bytes.len()
    &&& bytes[n] == 0
    &&& forall|i: int| 0 <= i < n ==> bytes[i] != 0
}

/// The buffer holds a path: its text ends within the first [`PATH_MAX`]
/// bytes.
pub open spec fn holds_path(bytes: Seq<u8>) -> bool {
    exists|n: int| is_terminator(bytes, n) && n < PATH_MAX
}

/// The path that a buffer holds: all of its bytes before the first nul, and
/// none where the buffer holds no path.
pub open spec fn path_of(bytes: Seq<u8>) -> Option<Seq<u8>> {
    if holds_path(bytes) {
        Some(bytes.subrange(0, choose|n: int| is_terminator(bytes, n) && n < PATH_MAX))
    } else {
        None
    }
}

/// A buffer's text ends in one place only, and that place decides which
/// path the buffer holds.
pub proof fn lemma_path_of(bytes: Seq<u8>, n: int)
    requires
        is_terminator(bytes, n),
    ensures
        n < PATH_MAX ==> path_of(bytes) == Some(bytes.subrange(0, n)),
        n >= PATH_MAX ==> path_of(bytes) is None,
{
    assert forall|m: int| is_terminator(bytes, m) implies m == n by {
        if m < n {
            assert(bytes[m] != 0);
        } else if n < m {
            assert(bytes[n] != 0);
        }
    }
}

/// A path that a buffer holds is whole: it is the buffer's text from its
/// first byte up to the nul that ends it, and with that nul it takes no more
/// than [`PATH_MAX`] bytes.
pub proof fn path_is_whole(bytes: Seq<u8>)
    requires
        path_of(bytes) is Some,
    ensures
        path_of(bytes).unwrap().len() < PATH_MAX,
        is_terminator(bytes, path_of(bytes).unwrap().len() as int),
        path_of(bytes).unwrap() == bytes.subrange(0, path_of(bytes).unwrap().len() as int),
{
    let n: int = choose|n: int| is_terminator(bytes, n) && n < PATH_MAX;
    assert(bytes.subrange(0, n).len() == n);
}

/// What follows the terminating nul does not matter: two buffers that agree
/// up to and including the first nul of one of them hold the same path, or
/// both hold none.
pub proof fn bytes_after_terminator_do_not_matter(a: Seq<u8>, b: Seq<u8>, n: int)
    requires
        is_terminator(a, n),
        n < b.len(),
        forall|i: int| 0 <= i <= n ==> a[i] == b[i],
    ensures
        path_of(a) == path_of(b),
{
    assert(is_terminator(b, n));
    lemma_path_of(a, n);
    lemma_path_of(b, n);
    assert(a.subrange(0, n) =~= b.subrange(0, n));
}

/// Reads the path out of a buffer that the platform has written to.
///
/// The path is every byte before the first nul, the nul left out. There is
/// none where the first [`PATH_MAX`] bytes hold no nul: a path cut off at the
/// buffer's end is never handed out as if it were whole.
pub fn read_path(buffer: &[u8]) -> (path: Option<Vec<u8>>)
    ensures
        match path {
            Some(p) => path_of(buffer@) == Some(p@),
            None => path_of(buffer@) is None,
        },
{
    let limit: usize = if buffer.len() < PATH_MAX as usize {
        buffer.len()
    } else {
        PATH_MAX as usize
    };
    let mut path: Vec<u8> = Vec::new();
    let mut i: usize = 0;
    while i < limit
        invariant
            i <= limit,
            limit <= buffer@.len(),
            limit <= PATH_MAX,
            path@ == buffer@.subrange(0, i as int),
            forall|j: int| 0 <= j < i ==> buffer@[j] != 0,
        decreases limit - i,
    {
        let byte: u8 = buffer[i];
        if byte == 0 {
            proof {
                lemma_path_of(buffer@, i as int);
            }
            return Some(path);
        }
        path.push(byte);
        i += 1;
    }
    None
}

} // verus!
