use vstd::prelude::*;

verus! {

broadcast use vstd::seq_lib::group_to_multiset_ensures;

/// The exponent field of an IEEE-754 double, given by its bit pattern.
pub open spec fn exponent_bits(bits: u64) -> u64 {
    (bits >> 52u64) & 0x7ffu64
}

/// The significand field of an IEEE-754 double, given by its bit pattern.
pub open spec fn fraction_bits(bits: u64) -> u64 {
    bits & 0xf_ffff_ffff_ffffu64
}

/// Whether a bit pattern is a not-a-number double: every exponent bit set,
/// and a significand other than zero.
pub open spec fn is_nan_bits(bits: u64) -> bool {
    exponent_bits(bits) == 0x7ffu64 && fraction_bits(bits) != 0
}

/// Whether a bit pattern is a finite double: not every exponent bit set.
pub open spec fn is_finite_bits(bits: u64) -> bool {
    exponent_bits(bits) != 0x7ffu64
}

/// Whether a bit pattern is a double in [-1, 1]: a magnitude below one
/// (exponent field under the bias), or exactly one.
pub open spec fn is_unit_bits(bits: u64) -> bool {
    exponent_bits(bits) < 0x3ffu64 || (exponent_bits(bits) == 0x3ffu64 && fraction_bits(bits) == 0)
}

/// A score as it enters aggregation: a non-finite score (not-a-number or
/// infinite) becomes the neutral `+0.0`, whose bit pattern is zero; every
/// finite score is kept.
pub open spec fn normalized(bits: u64) -> u64 {
    if is_finite_bits(bits) {
        bits
    } else {
        0
    }
}

/// The key by which scores are ordered: the bit pattern with every bit
/// flipped for a negative sign, and with the sign bit set for a positive
/// one. Unsigned comparison of keys orders the doubles from negative to
/// positive.
pub open spec fn key_of(bits: u64) -> u64 {
    if bits >> 63u64 == 1 {
        !bits
    } else {
        bits | 0x8000_0000_0000_0000u64
    }
}

/// Whether `s` is in ascending order.
pub open spec fn is_ascending(s: Seq<u64>) -> bool {
    forall|i: int, j: int| 0 <= i <= j < s.len() ==> s[i] <= s[j]
}

/// Whether `t` is `s` sorted in ascending order.
pub open spec fn is_sorted_copy(t: Seq<u64>, s: Seq<u64>) -> bool {
    is_ascending(t) && t.to_multiset() == s.to_multiset()
}

/// Whether `v` is the median of `s`: the element at position `len / 2` once
/// `s` is sorted, the upper of the two middle elements for an even count.
pub open spec fn is_median_of(v: u64, s: Seq<u64>) -> bool {
    exists|t: Seq<u64>| #[trigger] is_sorted_copy(t, s) && t[s.len() as int / 2] == v
}

/// The bit pattern of the score that aggregation uses for a raw score.
pub fn normalize_score(bits: u64) -> (r: u64)
    ensures
        r == normalized(bits),
        is_finite_bits(r),
        is_unit_bits(bits) ==> r == bits,
        is_nan_bits(bits) ==> is_unit_bits(r),
{
    assert(exponent_bits(0u64) == 0u64) by (bit_vector);
    let exponent = (bits >> 52u64) & 0x7ffu64;
    if exponent == 0x7ffu64 {
        0
    } else {
        bits
    }
}

/// The ordering key of a score's bit pattern.
pub fn score_key(bits: u64) -> (r: u64)
    ensures
        r == key_of(bits),
{
    if bits >> 63u64 == 1 {
        !bits
    } else {
        bits | 0x8000_0000_0000_0000u64
    }
}

/// A copy of `keys` in ascending order.
pub fn sorted_keys(keys: &Vec<u64>) -> (t: Vec<u64>)
    ensures
        is_sorted_copy(t@, keys@),
{
    let mut t: Vec<u64> = Vec::new();
    let mut i: usize = 0;
    while i < keys.len()
        invariant
            i <= keys@.len(),
            is_ascending(t@),
            t@.to_multiset() == keys@.take(i as int).to_multiset(),
        decreases keys@.len() - i,
    {
        let x = keys[i];
        let mut j: usize = 0;
        while j < t.len() && t[j] <= x
            invariant
                j <= t@.len(),
                forall|k: int| 0 <= k < j ==> t@[k] <= x,
            decreases t@.len() - j,
        {
            j = j + 1;
        }
        let ghost before = t@;
        t.insert(j, x);
        assert(t@ == before.insert(j as int, x));
        assert forall|a: int, b: int| 0 <= a <= b < t@.len() implies t@[a] <= t@[b] by {
            if a < j && b > j {
                assert(t@[a] == before[a]);
                assert(t@[b] == before[b - 1]);
            }
        }
        assert(keys@.take(i + 1) == keys@.take(i as int).push(x));
        i = i + 1;
    }
    assert(keys@.take(keys@.len() as int) == keys@);
    t
}

/// The position in `keys` of their median, or `None` where `keys` is empty.
pub fn median_index(keys: &Vec<u64>) -> (r: Option<usize>)
    ensures
        r is None <==> keys@.len() == 0,
        r matches Some(i) ==> i < keys@.len() && is_median_of(keys@[i as int], keys@),
{
    if keys.len() == 0 {
        return None;
    }
    let t = sorted_keys(keys);
    proof {
        assert(t@.len() == keys@.len()) by {
            assert(t@.to_multiset().len() == keys@.to_multiset().len());
        }
    }
    let v = t[keys.len() / 2];
    proof {
        assert(t@.contains(v)) by {
            assert(t@[keys@.len() as int / 2] == v);
        }
        assert(keys@.contains(v)) by {
            assert(t@.to_multiset().count(v) > 0);
        }
    }
    let mut i: usize = 0;
    while i < keys.len()
        invariant
            i <= keys@.len(),
            keys@.contains(v),
            forall|k: int| 0 <= k < i ==> keys@[k] != v,
            is_sorted_copy(t@, keys@),
            t@.len() == keys@.len(),
            t@[keys@.len() as int / 2] == v,
        decreases keys@.len() - i,
    {
        if keys[i] == v {
            return Some(i);
        }
        i = i + 1;
    }
    None
}

proof fn lemma_sorted_copies_equal(a: Seq<u64>, b: Seq<u64>)
    requires
        is_ascending(a),
        is_ascending(b),
        a.to_multiset() == b.to_multiset(),
    ensures
        a == b,
    decreases a.len(),
{
    assert(a.len() == b.len()) by {
        vstd::seq_lib::to_multiset_len(a);
        vstd::seq_lib::to_multiset_len(b);
    }
    if a.len() > 0 {
        assert(b.contains(a[0])) by {
            assert(a.contains(a[0]));
            assert(a.to_multiset().count(a[0]) > 0);
        }
        assert(a.contains(b[0])) by {
            assert(b.contains(b[0]));
            assert(b.to_multiset().count(b[0]) > 0);
        }
        let j = choose|j: int| 0 <= j < b.len() && b[j] == a[0];
        let k = choose|k: int| 0 <= k < a.len() && a[k] == b[0];
        assert(b[0] <= b[j]);
        assert(a[0] <= a[k]);
        let a1 = a.remove(0);
        let b1 = b.remove(0);
        assert(a1.to_multiset() == a.to_multiset().remove(a[0]));
        assert(b1.to_multiset() == b.to_multiset().remove(b[0]));
        assert forall|x: int, y: int| 0 <= x <= y < a1.len() implies a1[x] <= a1[y] by {
            assert(a1[x] == a[x + 1] && a1[y] == a[y + 1]);
        }
        assert forall|x: int, y: int| 0 <= x <= y < b1.len() implies b1[x] <= b1[y] by {
            assert(b1[x] == b[x + 1] && b1[y] == b[y + 1]);
        }
        lemma_sorted_copies_equal(a1, b1);
        assert forall|i: int| 0 <= i < a.len() implies a[i] == b[i] by {
            if i > 0 {
                assert(a[i] == a1[i - 1] && b[i] == b1[i - 1]);
            }
        }
        assert(a =~= b);
    }
}

/// A collection has a single median, and the order in which its elements
/// come does not change it.
pub proof fn lemma_median_unique(s1: Seq<u64>, s2: Seq<u64>, v: u64, w: u64)
    requires
        s1.to_multiset() == s2.to_multiset(),
        is_median_of(v, s1),
        is_median_of(w, s2),
    ensures
        v == w,
{
    let t1 = choose|t: Seq<u64>| #[trigger] is_sorted_copy(t, s1) && t[s1.len() as int / 2] == v;
    let t2 = choose|t: Seq<u64>| #[trigger] is_sorted_copy(t, s2) && t[s2.len() as int / 2] == w;
    assert(s1.len() == s2.len()) by {
        vstd::seq_lib::to_multiset_len(s1);
        vstd::seq_lib::to_multiset_len(s2);
    }
    lemma_sorted_copies_equal(t1, t2);
}

} // verus!
