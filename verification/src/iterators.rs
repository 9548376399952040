//! The iterator exercises: filtering shoes by size and a counter that
//! yields the numbers one through five.

use vstd::prelude::*;

verus! {

/// A shoe with its size and style name.
#[derive(PartialEq, Debug)]
pub struct Shoe {
    pub size: u32,
    pub style: String,
}

/// The shoes of `shoes` whose size is exactly `size`, in order.
pub open spec fn shoes_of_size(shoes: Seq<Shoe>, size: u32) -> Seq<Shoe>
    decreases shoes.len(),
{
    if shoes.len() == 0 {
        Seq::empty()
    } else {
        let rest = shoes_of_size(shoes.drop_first(), size);
        if shoes.first().size == size {
            seq![shoes.first()] + rest
        } else {
            rest
        }
    }
}

/// Keeps exactly the shoes of the given size, in their original order.
pub fn shoes_in_size(shoes: Vec<Shoe>, shoe_size: u32) -> (r: Vec<Shoe>)
    ensures
        r@ == shoes_of_size(shoes@, shoe_size),
{
    let ghost orig = shoes@;
    let mut shoes = shoes;
    let mut r: Vec<Shoe> = Vec::new();
    while shoes.len() > 0
        invariant
            shoes_of_size(orig, shoe_size) == r@ + shoes_of_size(shoes@, shoe_size),
        decreases shoes@.len(),
    {
        let ghost before = shoes@;
        let s = shoes.remove(0);
        proof {
            assert(shoes@ =~= before.drop_first());
            assert(before.first() == s);
        }
        if s.size == shoe_size {
            r.push(s);
        }
    }
    proof {
        assert(shoes_of_size(shoes@, shoe_size) =~= Seq::<Shoe>::empty());
        assert(r@ =~= r@ + Seq::<Shoe>::empty());
    }
    r
}

/// Counts from one to five, then stops.
pub struct Counter {
    pub count: u32,
}

impl Counter {
    /// A counter that has not yielded anything yet.
    pub fn new() -> (r: Counter)
        ensures
            r.count == 0,
    {
        Counter { count: 0 }
    }

    /// The next number, while any are left: the first five calls yield
    /// one through five, every later call yields nothing.
    pub fn next(&mut self) -> (r: Option<u32>)
        ensures
            old(self).count < 5 ==> final(self).count == old(self).count + 1 && r == Some(
                final(self).count,
            ),
            old(self).count >= 5 ==> final(self).count == old(self).count && r is None,
    {
        if self.count < 5 {
            self.count = self.count + 1;
            Some(self.count)
        } else {
            None
        }
    }
}

} // verus!
