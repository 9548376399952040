//! Mean, median and mode of a list of integers, together with the slow
//! exchange sort the median is defined through.
//!
//! The mean is the truncating integer division of the sum by the length, the
//! median is the middle element of the sorted list, and the mode is an
//! element that occurs at least as often as every other.

use vstd::prelude::*;

verus! {

/// The sum of a sequence of integers, as an unbounded integer.
pub open spec fn sum_of(s: Seq<i32>) -> int
    decreases s.len(),
{
    if s.len() == 0 {
        0
    } else {
        sum_of(s.drop_last()) + s.last()
    }
}

/// Integer division that truncates toward zero, as Rust's `/` does; `b` must
/// be positive.
pub open spec fn div_toward_zero(a: int, b: int) -> int {
    if a >= 0 {
        a / b
    } else {
        -((-a) / b)
    }
}

/// How often `x` occurs in `s`.
pub open spec fn count_of(s: Seq<i32>, x: i32) -> int
    decreases s.len(),
{
    if s.len() == 0 {
        0
    } else {
        count_of(s.drop_last(), x) + if s.last() == x {
            1int
        } else {
            0int
        }
    }
}

/// The sequence is ordered from smallest to largest.
pub open spec fn sorted(s: Seq<i32>) -> bool {
    forall|i: int, j: int| 0 <= i < j < s.len() ==> s[i] <= s[j]
}

proof fn lemma_sum_take_step(s: Seq<i32>, i: int)
    requires
        0 <= i < s.len(),
    ensures
        sum_of(s.take(i + 1)) == sum_of(s.take(i)) + s[i],
{
    assert(s.take(i + 1).drop_last() =~= s.take(i));
}

proof fn lemma_count_take_step(s: Seq<i32>, x: i32, i: int)
    requires
        0 <= i < s.len(),
    ensures
        count_of(s.take(i + 1), x) == count_of(s.take(i), x) + if s[i] == x {
            1int
        } else {
            0int
        },
{
    assert(s.take(i + 1).drop_last() =~= s.take(i));
}

/// `x` occurs in `s` exactly when it occurs at least once.
proof fn lemma_count_contains(s: Seq<i32>, x: i32)
    ensures
        count_of(s, x) > 0 <==> s.contains(x),
        count_of(s, x) >= 0,
    decreases s.len(),
{
    if s.len() > 0 {
        lemma_count_contains(s.drop_last(), x);
        if s.contains(x) && s.last() != x {
            let i = choose|i: int| 0 <= i < s.len() && s[i] == x;
            assert(s.drop_last()[i] == x);
        }
        assert(s.drop_last().contains(x) ==> s.contains(x)) by {
            if s.drop_last().contains(x) {
                let i = choose|i: int| 0 <= i < s.drop_last().len() && s.drop_last()[i] == x;
                assert(s[i] == x);
            }
        }
    }
}

/// Replacing the element at `i` removes the old value from the contents and
/// inserts the new one.
pub proof fn lemma_update_to_multiset<A>(s: Seq<A>, i: int, v: A)
    requires
        0 <= i < s.len(),
    ensures
        s.update(i, v).to_multiset() =~= s.to_multiset().remove(s[i]).insert(v),
{
    broadcast use vstd::seq_lib::group_to_multiset_ensures;

    let t = s.update(i, v);
    assert(t.remove(i) =~= s.remove(i));
    assert(t.remove(i).to_multiset() =~= t.to_multiset().remove(v));
    assert(s.remove(i).to_multiset() =~= s.to_multiset().remove(s[i]));
    assert(t.contains(v)) by {
        assert(t[i] == v);
    }
    assert(t.to_multiset() =~= t.to_multiset().remove(v).insert(v));
}

/// Swapping two elements leaves the contents unchanged.
pub proof fn lemma_swap_to_multiset<A>(s: Seq<A>, i: int, j: int)
    requires
        0 <= i < s.len(),
        0 <= j < s.len(),
        i != j,
    ensures
        s.update(i, s[j]).update(j, s[i]).to_multiset() =~= s.to_multiset(),
{
    broadcast use vstd::seq_lib::group_to_multiset_ensures;

    let t = s.update(i, s[j]);
    lemma_update_to_multiset(s, i, s[j]);
    lemma_update_to_multiset(t, j, t[j]);
    assert(t[j] == s[j]);
    assert(s.to_multiset().count(s[i]) > 0) by {
        assert(s.contains(s[i]));
    }
    assert(s.to_multiset().remove(s[i]).insert(s[j]).remove(s[j]).insert(s[i]) =~= s.to_multiset());
}

/// The average of the list, rounded toward zero.
pub fn get_average(arr: &Vec<i32>) -> (r: i32)
    requires
        arr.len() > 0,
        arr.len() <= i32::MAX,
        forall|j: int| 0 <= j <= arr@.len() ==> i32::MIN <= sum_of(#[trigger] arr@.take(j)) <= i32::MAX,
    ensures
        r == div_toward_zero(sum_of(arr@), arr@.len() as int),
{
    let mut counter: i32 = 0;
    let mut i: usize = 0;
    while i < arr.len()
        invariant
            0 <= i <= arr.len(),
            counter == sum_of(arr@.take(i as int)),
            forall|j: int| 0 <= j <= arr@.len() ==> i32::MIN <= sum_of(#[trigger] arr@.take(j)) <= i32::MAX,
        decreases arr.len() - i,
    {
        proof {
            lemma_sum_take_step(arr@, i as int);
            assert(arr@.take(arr@.len() as int) =~= arr@);
        }
        counter = counter + arr[i];
        i = i + 1;
    }
    proof {
        assert(arr@.take(arr@.len() as int) =~= arr@);
    }
    let len = arr.len() as i64;
    let c = counter as i64;
    let neg = c < 0;
    let mag: u64 = if neg {
        (-c) as u64
    } else {
        c as u64
    };
    let q = mag / (len as u64);
    let signed: i64 = if neg {
        -(q as i64)
    } else {
        q as i64
    };
    proof {
        assert(q <= mag) by (nonlinear_arith)
            requires len >= 1 && q == mag / (len as u64);
    }
    signed as i32
}

/// Sorts the list from smallest to largest by repeatedly exchanging adjacent
/// elements that are out of order.
pub fn sort_slow(arr: &Vec<i32>) -> (r: Vec<i32>)
    ensures
        sorted(r@),
        r@.to_multiset() == arr@.to_multiset(),
        r@.len() == arr@.len(),
{
    broadcast use vstd::seq_lib::group_to_multiset_ensures;

    let mut v: Vec<i32> = Vec::new();
    let mut i: usize = 0;
    while i < arr.len()
        invariant
            0 <= i <= arr.len(),
            v@ =~= arr@.take(i as int),
        decreases arr.len() - i,
    {
        v.push(arr[i]);
        i = i + 1;
    }
    proof {
        assert(v@ =~= arr@);
    }
    if v.len() < 2 {
        return v;
    }
    let length = v.len();
    let mut p: usize = 0;
    while p < length - 1
        invariant
            v@.len() == length,
            length == arr@.len(),
            2 <= length,
            0 <= p <= length - 1,
            v@.to_multiset() == arr@.to_multiset(),
            forall|a: int, b: int|
                0 <= a < b < length && length - p <= b ==> v@[a] <= v@[b],
        decreases length - p,
    {
        let mut i: usize = 0;
        while i < length - 1 - p
            invariant
                v@.len() == length,
                2 <= length,
                0 <= p < length - 1,
                0 <= i <= length - 1 - p,
                v@.to_multiset() == arr@.to_multiset(),
                forall|a: int, b: int|
                    0 <= a < b < length && length - p <= b ==> v@[a] <= v@[b],
                forall|k: int| 0 <= k < i ==> v@[k] <= v@[i as int],
            decreases length - 1 - p - i,
        {
            if v[i] > v[i + 1] {
                let ghost old_v = v@;
                let a = v[i];
                let b = v[i + 1];
                v.set(i, b);
                v.set(i + 1, a);
                proof {
                    lemma_swap_to_multiset(old_v, i as int, i as int + 1);
                    assert(v@ =~= old_v.update(i as int, old_v[i as int + 1]).update(
                        i as int + 1,
                        old_v[i as int],
                    ));
                }
            }
            i = i + 1;
        }
        p = p + 1;
    }
    v
}

/// The middle element of the list once sorted.
pub fn get_median(arr: &Vec<i32>) -> (r: i32)
    requires
        arr.len() > 0,
    ensures
        exists|s: Seq<i32>|
            sorted(s) && s.to_multiset() == arr@.to_multiset() && r == s[arr@.len() as int / 2],
{
    let sorted_v = sort_slow(arr);
    proof {
        broadcast use vstd::seq_lib::group_to_multiset_ensures;

        assert(sorted_v@.len() == arr@.len());
    }
    let r = sorted_v[arr.len() / 2];
    proof {
        let s = sorted_v@;
        assert(sorted(s) && s.to_multiset() == arr@.to_multiset() && r == s[
            arr@.len() as int / 2
        ]);
    }
    r
}

/// How often `x` occurs in `arr`.
fn count_matches(arr: &Vec<i32>, x: i32) -> (r: usize)
    ensures
        r == count_of(arr@, x),
{
    let mut c: usize = 0;
    let mut i: usize = 0;
    while i < arr.len()
        invariant
            0 <= i <= arr.len(),
            c == count_of(arr@.take(i as int), x),
            c <= i,
        decreases arr.len() - i,
    {
        proof {
            lemma_count_take_step(arr@, x, i as int);
        }
        if arr[i] == x {
            c = c + 1;
        }
        i = i + 1;
    }
    proof {
        assert(arr@.take(arr@.len() as int) =~= arr@);
    }
    c
}

/// An element that occurs at least as often as every other; among several
/// such elements, the one that appears first in the list.
pub fn get_mode(arr: &Vec<i32>) -> (r: i32)
    requires
        arr.len() > 0,
    ensures
        forall|x: i32| count_of(arr@, x) <= count_of(arr@, r),
        exists|k: int|
            0 <= k < arr@.len() && arr@[k] == r && forall|j: int|
                0 <= j < k ==> count_of(arr@, #[trigger] arr@[j]) < count_of(arr@, r),
{
    let mut best = arr[0];
    let mut best_count = count_matches(arr, best);
    let ghost mut best_idx: int = 0;
    let mut i: usize = 1;
    proof {
        assert(arr@[0] == best);
    }
    while i < arr.len()
        invariant
            1 <= i <= arr.len(),
            0 <= best_idx < i,
            arr@[best_idx] == best,
            best_count == count_of(arr@, best),
            forall|k: int| 0 <= k < i ==> count_of(arr@, #[trigger] arr@[k]) <= best_count,
            forall|j: int| 0 <= j < best_idx ==> count_of(arr@, #[trigger] arr@[j]) < best_count,
        decreases arr.len() - i,
    {
        let c = count_matches(arr, arr[i]);
        if c > best_count {
            best = arr[i];
            best_count = c;
            proof {
                best_idx = i as int;
                assert(arr@[i as int] == best);
            }
        }
        i = i + 1;
    }
    proof {
        assert(arr@.contains(best)) by {
            assert(arr@[best_idx] == best);
        }
    }
    proof {
        assert forall|x: i32| count_of(arr@, x) <= count_of(arr@, best) by {
            lemma_count_contains(arr@, x);
            if count_of(arr@, x) > 0 {
                let k = choose|k: int| 0 <= k < arr@.len() && arr@[k] == x;
                assert(count_of(arr@, arr@[k]) <= best_count);
            }
        }
    }
    best
}

} // verus!
