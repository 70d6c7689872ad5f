//! Byte-block routines over slices: copy, fill and compare.

use vstd::prelude::*;

verus! {

/// The byte that a fill value stands for: its low eight bits.
pub open spec fn low_byte(c: i32) -> u8 {
    (c % 256) as u8
}

/// Whether `a` and `b` hold the same byte at each of their first `n` positions.
pub open spec fn prefixes_agree(a: Seq<u8>, b: Seq<u8>, n: usize) -> bool {
    forall|i: int| 0 <= i < n ==> a[i] == b[i]
}

/// Copies the first `n` bytes of `src` over the first `n` bytes of `dest`
/// and leaves the rest of `dest` as it was.
pub fn memcpy(dest: &mut [u8], src: &[u8], n: usize)
    requires
        n <= old(dest)@.len(),
        n <= src@.len(),
    ensures
        final(dest)@ == src@.subrange(0, n as int) + old(dest)@.subrange(
            n as int,
            old(dest)@.len() as int,
        ),
{
    let mut i: usize = 0;
    while i < n
        invariant
            i <= n,
            n <= src@.len(),
            dest@.len() == old(dest)@.len(),
            n <= dest@.len(),
            forall|k: int| 0 <= k < i ==> dest@[k] == src@[k],
            forall|k: int| i <= k < dest@.len() ==> dest@[k] == old(dest)@[k],
        decreases n - i,
    {
        dest[i] = src[i];
        i += 1;
    }
}

/// Writes the low byte of `c` into the first `n` bytes of `dest` and leaves
/// the rest of `dest` as it was.
pub fn memset(dest: &mut [u8], c: i32, n: usize)
    requires
        n <= old(dest)@.len(),
    ensures
        final(dest)@ == Seq::new(n as nat, |i: int| low_byte(c)) + old(dest)@.subrange(
            n as int,
            old(dest)@.len() as int,
        ),
{
    let byte: u8 = #[verifier::truncate] (c as u8);
    assert(byte == low_byte(c)) by (bit_vector)
        requires
            byte == c as u8,
    ;
    let mut i: usize = 0;
    while i < n
        invariant
            i <= n,
            dest@.len() == old(dest)@.len(),
            n <= dest@.len(),
            byte == low_byte(c),
            forall|k: int| 0 <= k < i ==> dest@[k] == byte,
            forall|k: int| i <= k < dest@.len() ==> dest@[k] == old(dest)@[k],
        decreases n - i,
    {
        dest[i] = byte;
        i += 1;
    }
}

/// The first position from `from` on, and below `n`, at which `a` and `b`
/// hold different bytes; `n` if there is none.
pub open spec fn first_difference(a: Seq<u8>, b: Seq<u8>, from: usize, n: usize) -> int
    decreases n - from,
{
    if from >= n {
        n as int
    } else if a[from as int] != b[from as int] {
        from as int
    } else {
        first_difference(a, b, (from + 1) as usize, n)
    }
}

/// How the first `n` bytes of `a` stand to those of `b`: 0 if they agree
/// everywhere; otherwise the first pair of bytes that differ decides, -1 if
/// the byte of `a` is the smaller one and 1 if it is the larger one.
pub open spec fn order_of_prefixes(a: Seq<u8>, b: Seq<u8>, n: usize) -> int {
    let j = first_difference(a, b, 0, n);
    if j >= n {
        0
    } else if a[j] < b[j] {
        -1
    } else {
        1
    }
}

/// `first_difference` names the first differing position: it lies between
/// `from` and `n`, the bytes agree at every position from `from` up to it,
/// and they differ at it unless it is `n`.
pub proof fn lemma_first_difference(a: Seq<u8>, b: Seq<u8>, from: usize, n: usize)
    requires
        from <= n,
    ensures
        from <= first_difference(a, b, from, n) <= n,
        forall|k: int| from <= k < first_difference(a, b, from, n) ==> a[k] == b[k],
        first_difference(a, b, from, n) < n ==> a[first_difference(a, b, from, n)]
            != b[first_difference(a, b, from, n)],
    decreases n - from,
{
    if from < n && a[from as int] == b[from as int] {
        lemma_first_difference(a, b, (from + 1) as usize, n);
    }
}

/// The order is 0 exactly when the prefixes agree; it is negative exactly
/// when `a` holds the smaller byte at the first position where they differ,
/// and positive exactly when it holds the larger one.
pub proof fn lemma_order_of_prefixes(a: Seq<u8>, b: Seq<u8>, n: usize)
    ensures
        order_of_prefixes(a, b, n) == 0 <==> prefixes_agree(a, b, n),
        forall|j: int|
            0 <= j < n && a[j] != b[j] && (forall|k: int| 0 <= k < j ==> a[k] == b[k])
                ==> order_of_prefixes(a, b, n) == if a[j] < b[j] {
                -1int
            } else {
                1int
            },
{
    lemma_first_difference(a, b, 0, n);
    let first = first_difference(a, b, 0, n);
    assert forall|j: int|
        0 <= j < n && a[j] != b[j] && (forall|k: int| 0 <= k < j ==> a[k] == b[k]) implies j
        == first by {
        if j < first {
            assert(a[j] == b[j]);
        } else if first < j {
            assert(a[first] == b[first]);
        }
    }
}

/// Swapping the arguments reverses the order, and every prefix stands to
/// itself as equal.
pub proof fn lemma_order_is_antisymmetric(a: Seq<u8>, b: Seq<u8>, n: usize)
    ensures
        order_of_prefixes(b, a, n) == -order_of_prefixes(a, b, n),
        order_of_prefixes(a, a, n) == 0,
{
    lemma_same_first_difference(a, b, 0, n);
    lemma_first_difference(a, b, 0, n);
    lemma_first_difference(a, a, 0, n);
}

/// The first differing position does not depend on the order of the arguments.
pub proof fn lemma_same_first_difference(a: Seq<u8>, b: Seq<u8>, from: usize, n: usize)
    ensures
        first_difference(a, b, from, n) == first_difference(b, a, from, n),
    decreases n - from,
{
    if from < n && a[from as int] == b[from as int] {
        lemma_same_first_difference(a, b, (from + 1) as usize, n);
    }
}

/// Compares the first `n` bytes of `a` and `b` position by position, as
/// unsigned bytes. The result is 0 if they agree everywhere. Otherwise the
/// first position where they differ decides: the result is -1 if `a` holds
/// the smaller byte there and 1 if it holds the larger one. No byte at
/// position `n` or beyond is looked at.
pub fn memcmp(a: &[u8], b: &[u8], n: usize) -> (result: i32)
    requires
        n <= a@.len(),
        n <= b@.len(),
    ensures
        result == order_of_prefixes(a@, b@, n),
        result == 0 <==> prefixes_agree(a@, b@, n),
        forall|j: int|
            0 <= j < n && a@[j] != b@[j] && (forall|k: int| 0 <= k < j ==> a@[k] == b@[k])
                ==> result == if a@[j] < b@[j] {
                -1int
            } else {
                1int
            },
{
    proof {
        lemma_order_of_prefixes(a@, b@, n);
    }
    let mut i: usize = 0;
    while i < n
        invariant
            i <= n,
            n <= a@.len(),
            n <= b@.len(),
            first_difference(a@, b@, 0, n) == first_difference(a@, b@, i, n),
        decreases n - i,
    {
        proof {
            lemma_order_of_prefixes(a@, b@, n);
        }
        if a[i] < b[i] {
            return -1;
        }
        if a[i] > b[i] {
            return 1;
        }
        i += 1;
    }
    0
}

} // verus!
