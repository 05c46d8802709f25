//! The dictionary order of sequences of numbers.
use vstd::prelude::*;

verus! {

/// Two sequences agree up to a place where the first ends or holds the smaller
/// number.
pub open spec fn falls_behind_at(a: Seq<int>, b: Seq<int>, i: int) -> bool {
    &&& 0 <= i < b.len()
    &&& i <= a.len()
    &&& forall|j: int| 0 <= j < i ==> a[j] == b[j]
    &&& i < a.len() ==> a[i] < b[i]
}

/// The first sequence stands before the second one in dictionary order.
pub open spec fn before(a: Seq<int>, b: Seq<int>) -> bool {
    exists|i: int| falls_behind_at(a, b, i)
}

pub open spec fn byte_numbers(bytes: Seq<u8>) -> Seq<int> {
    bytes.map_values(|b: u8| b as int)
}

pub open spec fn char_numbers(chars: Seq<char>) -> Seq<int> {
    chars.map_values(|c: char| c as int)
}

proof fn lemma_total_from(a: Seq<int>, b: Seq<int>, k: int)
    requires
        0 <= k <= a.len(),
        k <= b.len(),
        forall|j: int| 0 <= j < k ==> a[j] == b[j],
    ensures
        before(a, b) || a == b || before(b, a),
    decreases a.len() - k,
{
    if k == a.len() && k == b.len() {
        assert(a =~= b);
    } else if k == a.len() {
        assert(falls_behind_at(a, b, k));
    } else if k == b.len() {
        assert(falls_behind_at(b, a, k));
    } else if a[k] < b[k] {
        assert(falls_behind_at(a, b, k));
    } else if b[k] < a[k] {
        assert(falls_behind_at(b, a, k));
    } else {
        lemma_total_from(a, b, k + 1);
    }
}

/// Of two sequences that differ, one stands before the other, and not both ways.
pub proof fn lemma_total_order(a: Seq<int>, b: Seq<int>)
    ensures
        before(a, b) || a == b || before(b, a),
        !(before(a, b) && before(b, a)),
        !before(a, a),
        !before(b, b),
{
    lemma_total_from(a, b, 0);
    if before(a, b) && before(b, a) {
        let i = choose|i: int| falls_behind_at(a, b, i);
        let k = choose|k: int| falls_behind_at(b, a, k);
        if i < k {
            assert(b[i] == a[i]);
        } else if k < i {
            assert(a[k] == b[k]);
        }
        assert(false);
    }
}

/// Where the front parts are equally long, they decide before the rest does.
pub proof fn lemma_joined(a: Seq<int>, c: Seq<int>, b: Seq<int>, d: Seq<int>)
    requires
        a.len() == b.len(),
    ensures
        before(a + c, b + d) <==> before(a, b) || (a == b && before(c, d)),
{
    let n = a.len() as int;
    if before(a + c, b + d) {
        let i = choose|i: int| falls_behind_at(a + c, b + d, i);
        if i < n {
            assert forall|j: int| 0 <= j < i implies a[j] == b[j] by {
                assert((a + c)[j] == (b + d)[j]);
            }
            assert(falls_behind_at(a, b, i));
        } else {
            assert forall|j: int| 0 <= j < n implies a[j] == b[j] by {
                assert((a + c)[j] == (b + d)[j]);
            }
            assert(a =~= b);
            assert forall|j: int| 0 <= j < i - n implies c[j] == d[j] by {
                assert((a + c)[j + n] == (b + d)[j + n]);
            }
            assert(falls_behind_at(c, d, i - n));
        }
    }
    if before(a, b) {
        let i = choose|i: int| falls_behind_at(a, b, i);
        assert(falls_behind_at(a + c, b + d, i));
    }
    if a == b && before(c, d) {
        let i = choose|i: int| falls_behind_at(c, d, i);
        assert(falls_behind_at(a + c, b + d, n + i));
    }
}

/// One number alone is ordered as itself.
pub proof fn lemma_single(x: int, y: int)
    ensures
        before(seq![x], seq![y]) <==> x < y,
{
    if x < y {
        assert(falls_behind_at(seq![x], seq![y], 0));
    }
    if before(seq![x], seq![y]) {
        let i = choose|i: int| falls_behind_at(seq![x], seq![y], i);
        assert(i == 0);
    }
}

} // verus!
