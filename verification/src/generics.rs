//! Finding the largest element of a slice, first for fixed types and then
//! generically, together with the small generic point and pair types.

use vstd::prelude::*;
use vstd::std_specs::cmp::PartialOrdSpec;
use core::cmp::Ordering;

verus! {

/// The largest of a non-empty slice of numbers.
pub fn largest_i32(list: &[i32]) -> (r: i32)
    requires
        list@.len() > 0,
    ensures
        list@.contains(r),
        forall|k: int| 0 <= k < list@.len() ==> list@[k] <= r,
{
    let mut largest = list[0];
    let mut i: usize = 0;
    while i < list.len()
        invariant
            list@.len() > 0,
            0 <= i <= list@.len(),
            list@.contains(largest),
            forall|k: int| 0 <= k < i ==> list@[k] <= largest,
        decreases list@.len() - i,
    {
        if list[i] > largest {
            largest = list[i];
        }
        i = i + 1;
    }
    largest
}

/// The largest of a non-empty slice of characters.
pub fn largest_char(list: &[char]) -> (r: char)
    requires
        list@.len() > 0,
    ensures
        list@.contains(r),
        forall|k: int| 0 <= k < list@.len() ==> list@[k] <= r,
{
    let mut largest = list[0];
    let mut i: usize = 0;
    while i < list.len()
        invariant
            list@.len() > 0,
            0 <= i <= list@.len(),
            list@.contains(largest),
            forall|k: int| 0 <= k < i ==> list@[k] <= largest,
        decreases list@.len() - i,
    {
        if list[i] > largest {
            largest = list[i];
        }
        i = i + 1;
    }
    largest
}

/// The ordering `T` reports makes `greater than` a strict order: nothing
/// compares greater than itself, and `greater than` carries over through a
/// middle value. Lawful orders such as the integers' have this; nothing
/// forces an arbitrary `PartialOrd` implementation to.
pub open spec fn gt_is_strict_order<T: PartialOrd>() -> bool {
    (forall|a: T| #[trigger] a.partial_cmp_spec(&a) != Some(Ordering::Greater)) && (forall|
        a: T,
        b: T,
        c: T,
    |
        #[trigger] a.partial_cmp_spec(&b) == Some(Ordering::Greater) && #[trigger] b.partial_cmp_spec(
            &c,
        ) == Some(Ordering::Greater) ==> a.partial_cmp_spec(&c) == Some(Ordering::Greater))
}

/// The largest element of a non-empty slice, found by keeping whichever
/// value compares greater. The result is always an element of the slice;
/// when the type's comparison is specified and `greater than` is
/// transitive, no element compares greater than the result.
pub fn largest<T: PartialOrd + Copy>(list: &[T]) -> (r: T)
    requires
        list@.len() > 0,
    ensures
        exists|k: int| 0 <= k < list@.len() && r == list@[k],
        T::obeys_partial_cmp_spec() && gt_is_strict_order::<T>() ==> forall|k: int|
            0 <= k < list@.len() ==> #[trigger] list@[k].partial_cmp_spec(&r) != Some(
                Ordering::Greater,
            ),
{
    let mut largest: T = list[0];
    let mut i: usize = 0;
    while i < list.len()
        invariant
            list@.len() > 0,
            0 <= i <= list@.len(),
            exists|k: int| 0 <= k < list@.len() && largest == list@[k],
            T::obeys_partial_cmp_spec() && gt_is_strict_order::<T>() ==> forall|k: int|
                0 <= k < i ==> #[trigger] list@[k].partial_cmp_spec(&largest) != Some(
                    Ordering::Greater,
                ),
        decreases list@.len() - i,
    {
        let ghost prev = largest;
        let item = list[i];
        let gt = item > largest;
        if gt {
            largest = item;
        }
        proof {
            if T::obeys_partial_cmp_spec() && gt_is_strict_order::<T>() {
                assert forall|k: int| 0 <= k < i + 1 implies #[trigger] list@[k].partial_cmp_spec(
                    &largest,
                ) != Some(Ordering::Greater) by {
                    if gt && k < i && list@[k].partial_cmp_spec(&largest) == Some(
                        Ordering::Greater,
                    ) {
                        assert(largest.partial_cmp_spec(&prev) == Some(Ordering::Greater));
                        assert(list@[k].partial_cmp_spec(&prev) == Some(Ordering::Greater));
                    }
                }
            }
        }
        i = i + 1;
    }
    largest
}

/// The same search without `Copy`, returning a reference into the slice.
pub fn largest2<T: PartialOrd>(list: &[T]) -> (r: &T)
    requires
        list@.len() > 0,
    ensures
        exists|k: int| 0 <= k < list@.len() && *r == list@[k],
        T::obeys_partial_cmp_spec() && gt_is_strict_order::<T>() ==> forall|k: int|
            0 <= k < list@.len() ==> #[trigger] list@[k].partial_cmp_spec(r) != Some(
                Ordering::Greater,
            ),
{
    let mut idx: usize = 0;
    let mut i: usize = 0;
    while i < list.len()
        invariant
            list@.len() > 0,
            0 <= i <= list@.len(),
            0 <= idx < list@.len(),
            T::obeys_partial_cmp_spec() && gt_is_strict_order::<T>() ==> forall|k: int|
                0 <= k < i ==> #[trigger] list@[k].partial_cmp_spec(&list@[idx as int]) != Some(
                    Ordering::Greater,
                ),
        decreases list@.len() - i,
    {
        let ghost prev = idx as int;
        let gt = &list[i] > &list[idx];
        if gt {
            idx = i;
        }
        proof {
            if T::obeys_partial_cmp_spec() && gt_is_strict_order::<T>() {
                assert forall|k: int| 0 <= k < i + 1 implies #[trigger] list@[k].partial_cmp_spec(
                    &list@[idx as int],
                ) != Some(Ordering::Greater) by {
                    if gt && k < i && list@[k].partial_cmp_spec(&list@[idx as int]) == Some(
                        Ordering::Greater,
                    ) {
                        assert(list@[idx as int].partial_cmp_spec(&list@[prev]) == Some(
                            Ordering::Greater,
                        ));
                        assert(list@[k].partial_cmp_spec(&list@[prev]) == Some(Ordering::Greater));
                    }
                }
            }
        }
        i = i + 1;
    }
    &list[idx]
}

/// A point whose two coordinates share one type.
pub struct Point<T> {
    pub x: T,
    pub y: T,
}

impl<T> Point<T> {
    /// A borrow of the first coordinate.
    pub fn x(&self) -> (r: &T)
        ensures
            *r == self.x,
    {
        &self.x
    }
}

/// A point whose two coordinates may differ in type.
pub struct PointMult<T, U> {
    pub x: T,
    pub y: U,
}

impl<T, U> PointMult<T, U> {
    /// A point taking its first coordinate from `self` and its second
    /// from `other`.
    pub fn mixup<V, W>(self, other: PointMult<V, W>) -> (r: PointMult<T, W>)
        ensures
            r.x == self.x,
            r.y == other.y,
    {
        PointMult { x: self.x, y: other.y }
    }
}

/// A pair of two values of one type.
pub struct Pair<T> {
    pub x: T,
    pub y: T,
}

impl<T> Pair<T> {
    pub fn new(x: T, y: T) -> (r: Pair<T>)
        ensures
            r.x == x,
            r.y == y,
    {
        Pair { x, y }
    }
}

} // verus!
