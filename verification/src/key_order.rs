//! The order of keys: that of their bytes, place by place.

use vstd::prelude::*;

verus! {

/// How one key stands to another.
#[derive(Debug, Clone, Copy, PartialEq, Eq)]
pub enum KeyOrder {
    Before,
    Same,
    After,
}

/// Whether `a` and `b` hold the same bytes at every place before `k`.
pub open spec fn agree_before(a: Seq<u8>, b: Seq<u8>, k: int) -> bool {
    &&& 0 <= k <= a.len()
    &&& k <= b.len()
    &&& a.take(k) == b.take(k)
}

/// Whether `a` comes before `b`: at the first place where the two differ,
/// `a` has ended or holds the smaller byte.
pub open spec fn precedes(a: Seq<u8>, b: Seq<u8>) -> bool {
    exists|k: int| #[trigger] agree_before(a, b, k) && k < b.len() && (k == a.len() || a[k] < b[k])
}

/// How `a` stands to `b`.
pub open spec fn key_order(a: Seq<u8>, b: Seq<u8>) -> KeyOrder {
    if a == b {
        KeyOrder::Same
    } else if precedes(a, b) {
        KeyOrder::Before
    } else {
        KeyOrder::After
    }
}

/// Two keys that agree before `k` agree at every place below `k`.
proof fn lemma_agree_at(a: Seq<u8>, b: Seq<u8>, k: int, j: int)
    requires
        agree_before(a, b, k),
        0 <= j < k,
    ensures
        a[j] == b[j],
        agree_before(a, b, j),
{
    assert(a.take(k)[j] == a[j]);
    assert(b.take(k)[j] == b[j]);
    assert forall|i: int| 0 <= i < j implies a.take(j)[i] == b.take(j)[i] by {
        assert(a.take(k)[i] == a[i]);
        assert(b.take(k)[i] == b[i]);
    }
    assert(a.take(j) =~= b.take(j));
}

/// No key comes before itself, and of two keys at most one comes before the
/// other.
pub proof fn law_precedes_is_asymmetric(a: Seq<u8>, b: Seq<u8>)
    requires
        precedes(a, b),
    ensures
        a != b,
        !precedes(b, a),
{
    let k = choose|k: int| #[trigger] agree_before(a, b, k) && k < b.len() && (k == a.len() || a[k] < b[k]);
    if precedes(b, a) {
        let m = choose|m: int| #[trigger] agree_before(b, a, m) && m < a.len() && (m == b.len() || b[m] < a[m]);
        if k < m {
            lemma_agree_at(b, a, m, k);
        } else if m < k {
            lemma_agree_at(a, b, k, m);
        }
    }
}

/// Two keys that agree before `k` and are not the same differ at some place
/// from `k` on, and there one of them comes before the other.
proof fn lemma_some_precedes(a: Seq<u8>, b: Seq<u8>, k: int)
    requires
        agree_before(a, b, k),
        a != b,
    ensures
        precedes(a, b) || precedes(b, a),
    decreases a.len() - k,
{
    if k == a.len() {
        if k == b.len() {
            assert(a.take(k) =~= a);
            assert(b.take(k) =~= b);
        } else {
            assert(agree_before(a, b, k) && k < b.len());
        }
    } else if k == b.len() {
        assert(agree_before(b, a, k) && k < a.len());
    } else if a[k] < b[k] {
        assert(agree_before(a, b, k) && k < b.len() && a[k] < b[k]);
    } else if b[k] < a[k] {
        assert(agree_before(b, a, k) && k < a.len() && b[k] < a[k]);
    } else {
        assert(a.take(k + 1) =~= a.take(k).push(a[k]));
        assert(b.take(k + 1) =~= b.take(k).push(b[k]));
        lemma_some_precedes(a, b, k + 1);
    }
}

/// Of two keys exactly one holds: they are the same, the first comes before
/// the second, or the second comes before the first.
pub proof fn law_key_order_is_total(a: Seq<u8>, b: Seq<u8>)
    ensures
        key_order(a, b) is Same <==> a == b,
        key_order(a, b) is Before <==> precedes(a, b),
        key_order(a, b) is After <==> precedes(b, a),
{
    if precedes(a, b) {
        law_precedes_is_asymmetric(a, b);
    }
    if precedes(b, a) {
        law_precedes_is_asymmetric(b, a);
    }
    if a != b {
        assert(a.take(0) =~= b.take(0));
        lemma_some_precedes(a, b, 0);
    }
}

/// What comes before a key that comes before a third comes before the third.
pub proof fn law_precedes_is_transitive(a: Seq<u8>, b: Seq<u8>, c: Seq<u8>)
    requires
        precedes(a, b),
        precedes(b, c),
    ensures
        precedes(a, c),
{
    let k = choose|k: int| #[trigger] agree_before(a, b, k) && k < b.len() && (k == a.len() || a[k] < b[k]);
    let m = choose|m: int| #[trigger] agree_before(b, c, m) && m < c.len() && (m == b.len() || b[m] < c[m]);
    if k <= m {
        if k < m {
            lemma_agree_at(b, c, m, k);
        }
        assert(a.take(k) == c.take(k));
        assert(agree_before(a, c, k) && k < c.len() && (k == a.len() || a[k] < c[k]));
    } else {
        lemma_agree_at(a, b, k, m);
        assert(a.take(m) == c.take(m));
        assert(agree_before(a, c, m) && m < c.len() && a[m] < c[m]);
    }
}

/// Compares two keys byte by byte.
pub fn order_of_bytes(a: &[u8], b: &[u8]) -> (r: KeyOrder)
    ensures
        r == key_order(a@, b@),
{
    let mut i: usize = 0;
    proof {
        assert(a@.take(0) =~= b@.take(0));
    }
    while i < a.len() && i < b.len()
        invariant
            agree_before(a@, b@, i as int),
        decreases a.len() - i,
    {
        if a[i] < b[i] {
            proof {
                assert(agree_before(a@, b@, i as int) && i < b@.len() && a@[i as int] < b@[i as int]);
                law_precedes_is_asymmetric(a@, b@);
            }
            return KeyOrder::Before;
        }
        if b[i] < a[i] {
            proof {
                assert(agree_before(b@, a@, i as int) && i < a@.len() && b@[i as int] < a@[i as int]);
                law_precedes_is_asymmetric(b@, a@);
            }
            return KeyOrder::After;
        }
        proof {
            assert(a@.take(i + 1) =~= a@.take(i as int).push(a@[i as int]));
            assert(b@.take(i + 1) =~= b@.take(i as int).push(b@[i as int]));
        }
        i += 1;
    }
    if i < b.len() {
        proof {
            assert(agree_before(a@, b@, i as int) && i < b@.len() && i == a@.len());
            law_precedes_is_asymmetric(a@, b@);
        }
        KeyOrder::Before
    } else if i < a.len() {
        proof {
            assert(agree_before(b@, a@, i as int) && i < a@.len() && i == b@.len());
            law_precedes_is_asymmetric(b@, a@);
        }
        KeyOrder::After
    } else {
        proof {
            assert(a@.take(i as int) =~= a@);
            assert(b@.take(i as int) =~= b@);
        }
        KeyOrder::Same
    }
}

} // verus!
