use vstd::prelude::*;

verus! {

// --- JSON string escaping ---------------------------------------------

/// Lower-case hexadecimal digit for `n < 16`.
pub open spec fn hex_digit(n: u8) -> u8 {
    if n < 10 {
        (0x30 + n) as u8
    } else {
        (0x61 + (n - 10)) as u8
    }
}

/// How one byte of a string appears inside a JSON string literal.
pub open spec fn esc_byte(b: u8) -> Seq<u8> {
    if b == 0x22 {
        seq![0x5cu8, 0x22u8]
    } else if b == 0x5c {
        seq![0x5cu8, 0x5cu8]
    } else if b == 0x08 {
        seq![0x5cu8, 0x62u8]
    } else if b == 0x0c {
        seq![0x5cu8, 0x66u8]
    } else if b == 0x0a {
        seq![0x5cu8, 0x6eu8]
    } else if b == 0x0d {
        seq![0x5cu8, 0x72u8]
    } else if b == 0x09 {
        seq![0x5cu8, 0x74u8]
    } else if b < 0x20 {
        seq![0x5cu8, 0x75u8, 0x30u8, 0x30u8, hex_digit(b / 16), hex_digit(b % 16)]
    } else {
        seq![b]
    }
}

/// JSON string escaping of a whole byte string.
pub open spec fn esc_bytes(s: Seq<u8>) -> Seq<u8>
    decreases s.len(),
{
    if s.len() == 0 {
        Seq::empty()
    } else {
        esc_bytes(s.drop_last()) + esc_byte(s.last())
    }
}

/// Escapes `s` for inclusion inside a JSON string literal.
pub fn escape_json(s: &[u8]) -> (r: Vec<u8>)
    ensures
        r@ == esc_bytes(s@),
{
    let mut out: Vec<u8> = Vec::new();
    let mut i: usize = 0;
    proof {
        assert(s@.take(0) =~= Seq::<u8>::empty());
    }
    while i < s.len()
        invariant
            0 <= i <= s@.len(),
            out@ == esc_bytes(s@.take(i as int)),
        decreases s@.len() - i,
    {
        let b = s[i];
        if b == 0x22 || b == 0x5c {
            out.push(0x5c);
            out.push(b);
        } else if b == 0x08 {
            out.push(0x5c);
            out.push(0x62);
        } else if b == 0x0c {
            out.push(0x5c);
            out.push(0x66);
        } else if b == 0x0a {
            out.push(0x5c);
            out.push(0x6e);
        } else if b == 0x0d {
            out.push(0x5c);
            out.push(0x72);
        } else if b == 0x09 {
            out.push(0x5c);
            out.push(0x74);
        } else if b < 0x20 {
            out.push(0x5c);
            out.push(0x75);
            out.push(0x30);
            out.push(0x30);
            let hi = b / 16;
            let lo = b % 16;
            out.push(if hi < 10 { 0x30 + hi } else { 0x61 + (hi - 10) });
            out.push(if lo < 10 { 0x30 + lo } else { 0x61 + (lo - 10) });
        } else {
            out.push(b);
        }
        proof {
            assert(s@.take(i + 1).drop_last() =~= s@.take(i as int));
            assert(s@.take(i + 1).last() == s@[i as int]);
            assert(out@ =~= esc_bytes(s@.take(i as int)) + esc_byte(s@[i as int]));
        }
        i = i + 1;
    }
    proof {
        assert(s@.take(i as int) =~= s@);
    }
    out
}

// --- Markdown fence stripping -----------------------------------------

/// ASCII whitespace, as trimmed from the ends of the reply text.
pub open spec fn is_ws(b: u8) -> bool {
    b == 0x20 || (0x09 <= b && b <= 0x0d)
}

pub open spec fn trim_front(s: Seq<u8>) -> Seq<u8>
    decreases s.len(),
{
    if s.len() > 0 && is_ws(s[0]) {
        trim_front(s.skip(1))
    } else {
        s
    }
}

pub open spec fn trim_back(s: Seq<u8>) -> Seq<u8>
    decreases s.len(),
{
    if s.len() > 0 && is_ws(s.last()) {
        trim_back(s.drop_last())
    } else {
        s
    }
}

/// Both ends trimmed of ASCII whitespace.
pub open spec fn spec_trim(s: Seq<u8>) -> Seq<u8> {
    trim_back(trim_front(s))
}

/// The three-backtick fence marker.
pub open spec fn fence() -> Seq<u8> {
    seq![0x60u8, 0x60u8, 0x60u8]
}

/// The fence marker with a `json` language tag.
pub open spec fn fence_json() -> Seq<u8> {
    seq![0x60u8, 0x60u8, 0x60u8, 0x6au8, 0x73u8, 0x6fu8, 0x6eu8]
}

pub open spec fn starts_with(s: Seq<u8>, p: Seq<u8>) -> bool {
    p.len() <= s.len() && s.take(p.len() as int) == p
}

pub open spec fn ends_with(s: Seq<u8>, p: Seq<u8>) -> bool {
    p.len() <= s.len() && s.skip(s.len() - p.len()) == p
}

pub open spec fn strip_front_json(s: Seq<u8>) -> Seq<u8>
    decreases s.len(),
{
    if starts_with(s, fence_json()) {
        strip_front_json(s.skip(7))
    } else {
        s
    }
}

pub open spec fn strip_front_fence(s: Seq<u8>) -> Seq<u8>
    decreases s.len(),
{
    if starts_with(s, fence()) {
        strip_front_fence(s.skip(3))
    } else {
        s
    }
}

pub open spec fn strip_back_fence(s: Seq<u8>) -> Seq<u8>
    decreases s.len(),
{
    if ends_with(s, fence()) {
        strip_back_fence(s.take(s.len() - 3))
    } else {
        s
    }
}

/// The reply text after defensive Markdown-fence cleanup: whitespace is
/// trimmed, repeated ```` ```json ```` and ```` ``` ```` markers are
/// dropped from the front, repeated ```` ``` ```` markers from the back,
/// and the remainder is trimmed again.
pub open spec fn spec_clean(s: Seq<u8>) -> Seq<u8> {
    spec_trim(strip_back_fence(strip_front_fence(strip_front_json(spec_trim(s)))))
}

/// Does the cleanup that `spec_clean` describes.
#[verifier::rlimit(60)]
pub fn clean_text(s: &[u8]) -> (r: Vec<u8>)
    ensures
        r@ == spec_clean(s@),
{
    let mut lo: usize = 0;
    let mut hi: usize = s.len();
    proof {
        assert(s@.subrange(0, s@.len() as int) =~= s@);
    }

    // leading whitespace
    while lo < hi && is_ws_byte(s[lo])
        invariant
            0 <= lo <= hi <= s@.len(),
            hi == s@.len(),
            trim_front(s@) == trim_front(s@.subrange(lo as int, hi as int)),
        decreases hi - lo,
    {
        proof {
            let u = s@.subrange(lo as int, hi as int);
            assert(u.skip(1) =~= s@.subrange(lo + 1, hi as int));
        }
        lo = lo + 1;
    }
    proof {
        assert(trim_front(s@) == s@.subrange(lo as int, hi as int));
    }
    let ghost t0 = trim_front(s@);

    // trailing whitespace
    while hi > lo && is_ws_byte(s[hi - 1])
        invariant
            0 <= lo <= hi <= s@.len(),
            t0 == trim_front(s@),
            trim_back(t0) == trim_back(s@.subrange(lo as int, hi as int)),
        decreases hi - lo,
    {
        proof {
            let u = s@.subrange(lo as int, hi as int);
            assert(u.drop_last() =~= s@.subrange(lo as int, hi - 1));
        }
        hi = hi - 1;
    }
    let ghost t1 = spec_trim(s@);
    proof {
        assert(t1 == s@.subrange(lo as int, hi as int));
    }

    // leading ```json markers
    while hi - lo >= 7 && s[lo] == 0x60 && s[lo + 1] == 0x60 && s[lo + 2] == 0x60 && s[lo + 3]
        == 0x6a && s[lo + 4] == 0x73 && s[lo + 5] == 0x6f && s[lo + 6] == 0x6e
        invariant
            0 <= lo <= hi <= s@.len(),
            t1 == spec_trim(s@),
            strip_front_json(t1) == strip_front_json(s@.subrange(lo as int, hi as int)),
        decreases hi - lo,
    {
        proof {
            let u = s@.subrange(lo as int, hi as int);
            assert(u.take(7) =~= fence_json());
            assert(u.skip(7) =~= s@.subrange(lo + 7, hi as int));
        }
        lo = lo + 7;
    }
    let ghost t2 = strip_front_json(t1);
    proof {
        let u = s@.subrange(lo as int, hi as int);
        if starts_with(u, fence_json()) {
            assert(u.take(7) =~= fence_json());
            assert(false);
        }
        assert(t2 == u);
    }

    // leading ``` markers
    while hi - lo >= 3 && s[lo] == 0x60 && s[lo + 1] == 0x60 && s[lo + 2] == 0x60
        invariant
            0 <= lo <= hi <= s@.len(),
            t2 == strip_front_json(spec_trim(s@)),
            strip_front_fence(t2) == strip_front_fence(s@.subrange(lo as int, hi as int)),
        decreases hi - lo,
    {
        proof {
            let u = s@.subrange(lo as int, hi as int);
            assert(u.take(3) =~= fence());
            assert(u.skip(3) =~= s@.subrange(lo + 3, hi as int));
        }
        lo = lo + 3;
    }
    let ghost t3 = strip_front_fence(t2);
    proof {
        let u = s@.subrange(lo as int, hi as int);
        if starts_with(u, fence()) {
            assert(u.take(3) =~= fence());
            assert(false);
        }
        assert(t3 == u);
    }

    // trailing ``` markers
    while hi - lo >= 3 && s[hi - 1] == 0x60 && s[hi - 2] == 0x60 && s[hi - 3] == 0x60
        invariant
            0 <= lo <= hi <= s@.len(),
            t3 == strip_front_fence(strip_front_json(spec_trim(s@))),
            strip_back_fence(t3) == strip_back_fence(s@.subrange(lo as int, hi as int)),
        decreases hi - lo,
    {
        proof {
            let u = s@.subrange(lo as int, hi as int);
            assert(u.skip(u.len() - 3) =~= fence());
            assert(u.take(u.len() - 3) =~= s@.subrange(lo as int, hi - 3));
        }
        hi = hi - 3;
    }
    let ghost t4 = strip_back_fence(t3);
    proof {
        let u = s@.subrange(lo as int, hi as int);
        if ends_with(u, fence()) {
            assert(u.skip(u.len() - 3) =~= fence());
            assert(false);
        }
        assert(t4 == u);
    }

    // final whitespace trim
    while lo < hi && is_ws_byte(s[lo])
        invariant
            0 <= lo <= hi <= s@.len(),
            t4 == strip_back_fence(strip_front_fence(strip_front_json(spec_trim(s@)))),
            trim_front(t4) == trim_front(s@.subrange(lo as int, hi as int)),
        decreases hi - lo,
    {
        proof {
            let u = s@.subrange(lo as int, hi as int);
            assert(u.skip(1) =~= s@.subrange(lo + 1, hi as int));
        }
        lo = lo + 1;
    }
    let ghost t5 = trim_front(t4);
    proof {
        assert(t5 == s@.subrange(lo as int, hi as int));
    }
    while hi > lo && is_ws_byte(s[hi - 1])
        invariant
            0 <= lo <= hi <= s@.len(),
            t5 == trim_front(strip_back_fence(strip_front_fence(strip_front_json(spec_trim(s@))))),
            trim_back(t5) == trim_back(s@.subrange(lo as int, hi as int)),
        decreases hi - lo,
    {
        proof {
            let u = s@.subrange(lo as int, hi as int);
            assert(u.drop_last() =~= s@.subrange(lo as int, hi - 1));
        }
        hi = hi - 1;
    }
    proof {
        assert(spec_clean(s@) == s@.subrange(lo as int, hi as int));
    }
    vstd::slice::slice_to_vec(vstd::slice::slice_subrange(s, lo, hi))
}

/// A reply wrapped in a Markdown ```` ```json ```` fence — with a
/// newline before and after the array and a space at either end — cleans
/// to exactly the bare array text, so both parse identically.
pub proof fn lemma_fenced_cleans_like_raw(x: Seq<u8>)
    requires
        x.len() > 0,
        x[0] == 0x5b,
        x.last() == 0x5d,
    ensures
        spec_clean(
            seq![0x20u8] + fence_json() + seq![0x0au8] + x + seq![0x0au8] + fence()
                + seq![0x20u8],
        ) == x,
        spec_clean(x) == x,
{
    // the bare array is already clean
    assert(!is_ws(x[0]) && !is_ws(x.last()));
    assert(trim_front(x) == x);
    assert(trim_back(x) == x);
    if starts_with(x, fence_json()) {
        assert(x.take(7)[0] == x[0]);
        assert(fence_json()[0] == 0x60);
        assert(false);
    }
    if starts_with(x, fence()) {
        assert(x.take(3)[0] == x[0]);
        assert(fence()[0] == 0x60);
        assert(false);
    }
    if ends_with(x, fence()) {
        assert(x.skip(x.len() - 3).last() == x.last());
        assert(fence().last() == 0x60);
        assert(false);
    }
    assert(spec_clean(x) == x);

    // the wrapped text sheds its decoration step by step
    let w = seq![0x20u8] + fence_json() + seq![0x0au8] + x + seq![0x0au8] + fence()
        + seq![0x20u8];
    let w1 = fence_json() + seq![0x0au8] + x + seq![0x0au8] + fence() + seq![0x20u8];
    assert(w[0] == 0x20 && is_ws(w[0]));
    assert(w.skip(1) =~= w1);
    assert(w1[0] == 0x60 && !is_ws(w1[0]));
    assert(trim_front(w1) == w1);
    assert(trim_front(w) == trim_front(w.skip(1)));
    assert(trim_front(w) == w1);

    let w2 = fence_json() + seq![0x0au8] + x + seq![0x0au8] + fence();
    assert(w1.last() == 0x20 && is_ws(w1.last()));
    assert(w1.drop_last() =~= w2);
    assert(w2.last() == 0x60 && !is_ws(w2.last()));
    assert(trim_back(w2) == w2);
    assert(trim_back(w1) == trim_back(w1.drop_last()));
    assert(trim_back(w1) == w2);
    assert(spec_trim(w) == w2);

    let w3 = seq![0x0au8] + x + seq![0x0au8] + fence();
    assert(w2.take(7) =~= fence_json());
    assert(starts_with(w2, fence_json()));
    assert(w2.skip(7) =~= w3);
    if starts_with(w3, fence_json()) {
        assert(w3.take(7)[0] == w3[0]);
        assert(false);
    }
    assert(strip_front_json(w2) == strip_front_json(w2.skip(7)));
    assert(strip_front_json(w3) == w3);
    assert(strip_front_json(w2) == w3);
    if starts_with(w3, fence()) {
        assert(w3.take(3)[0] == w3[0]);
        assert(false);
    }
    assert(strip_front_fence(w3) == w3);

    let w4 = seq![0x0au8] + x + seq![0x0au8];
    assert(w3.skip(w3.len() - 3) =~= fence());
    assert(ends_with(w3, fence()));
    assert(w3.take(w3.len() - 3) =~= w4);
    if ends_with(w4, fence()) {
        assert(w4.skip(w4.len() - 3).last() == w4.last());
        assert(false);
    }
    assert(strip_back_fence(w3) == strip_back_fence(w3.take(w3.len() - 3)));
    assert(strip_back_fence(w4) == w4);
    assert(strip_back_fence(w3) == w4);

    let w5 = x + seq![0x0au8];
    assert(is_ws(w4[0]));
    assert(w4.skip(1) =~= w5);
    assert(w5[0] == x[0] && !is_ws(w5[0]));
    assert(trim_front(w4) == trim_front(w4.skip(1)));
    assert(trim_front(w5) == w5);
    assert(trim_front(w4) == w5);
    assert(is_ws(w5.last()));
    assert(w5.drop_last() =~= x);
    assert(trim_back(w5) == trim_back(w5.drop_last()));
    assert(trim_back(w5) == trim_back(x));
    assert(spec_clean(w) == x);
}

/// Executable twin of `is_ws`.
pub fn is_ws_byte(b: u8) -> (r: bool)
    ensures
        r == is_ws(b),
{
    b == 0x20 || (0x09 <= b && b <= 0x0d)
}

} // verus!
