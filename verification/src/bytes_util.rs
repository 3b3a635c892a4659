use vstd::prelude::*;

verus! {

/// True iff the two byte slices hold the same bytes.
pub fn bytes_eq(a: &[u8], b: &[u8]) -> (r: bool)
    ensures
        r <==> a@ == b@,
{
    if a.len() != b.len() {
        return false;
    }
    let mut i: usize = 0;
    while i < a.len()
        invariant
            0 <= i <= a@.len(),
            a@.len() == b@.len(),
            forall|j: int| 0 <= j < i ==> a@[j] == b@[j],
        decreases a@.len() - i,
    {
        if a[i] != b[i] {
            return false;
        }
        i = i + 1;
    }
    proof {
        assert(a@ =~= b@);
    }
    true
}

/// The decimal digit string of a natural number, most significant digit first.
pub open spec fn dec_digits(n: nat) -> Seq<u8>
    decreases n,
{
    if n < 10 {
        seq![(0x30 + n) as u8]
    } else {
        dec_digits(n / 10).push((0x30 + n % 10) as u8)
    }
}

/// Renders `n` in decimal.
pub fn u64_digits(n: u64) -> (r: Vec<u8>)
    ensures
        r@ == dec_digits(n as nat),
    decreases n,
{
    if n < 10 {
        let mut v: Vec<u8> = Vec::new();
        v.push(0x30u8 + (n as u8));
        proof {
            assert(v@ =~= dec_digits(n as nat));
        }
        v
    } else {
        let mut v = u64_digits(n / 10);
        v.push(0x30u8 + ((n % 10) as u8));
        proof {
            assert(v@ =~= dec_digits(n as nat));
        }
        v
    }
}

/// `needle` occurs contiguously somewhere inside `hay`.
pub open spec fn contains_sub(hay: Seq<u8>, needle: Seq<u8>) -> bool {
    exists|i: int|
        0 <= i && i + needle.len() <= hay.len() && #[trigger] hay.subrange(
            i,
            i + needle.len() as int,
        ) == needle
}

/// A middle piece of a concatenation occurs in the whole.
pub proof fn lemma_concat_contains(pre: Seq<u8>, mid: Seq<u8>, post: Seq<u8>)
    ensures
        contains_sub(pre + mid + post, mid),
{
    let whole = pre + mid + post;
    let i = pre.len() as int;
    assert(whole.subrange(i, i + mid.len() as int) =~= mid);
}

} // verus!
