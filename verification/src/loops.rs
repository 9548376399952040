//! The iterative Fibonacci computation from the loop exercises.

use vstd::prelude::*;

verus! {

/// The Fibonacci numbers, starting 0, 1, 1, 2, 3, ...
pub open spec fn fib(n: nat) -> nat
    decreases n,
{
    if n == 0 {
        0
    } else if n <= 2 {
        1
    } else {
        fib((n - 1) as nat) + fib((n - 2) as nat)
    }
}

pub proof fn lemma_fib_is_monotonic(i: nat, j: nat)
    requires
        i <= j,
    ensures
        fib(i) <= fib(j),
    decreases j - i,
{
    if i < j {
        lemma_fib_is_monotonic(i, (j - 1) as nat);
    }
}

/// The `nth_number`-th Fibonacci number, computed with a running pair.
/// The bound keeps every intermediate value inside `u128` (position 186 is
/// the last that fits).
pub fn fibonacci(nth_number: u128) -> (r: u128)
    requires
        fib(nth_number as nat) <= u128::MAX,
    ensures
        r == fib(nth_number as nat),
{
    let mut fibonacci_left: u128 = 1;
    let mut fibonacci_right: u128 = 1;
    let mut fibonacci: u128 = 0;

    if nth_number == 1 || nth_number == 2 {
        return 1;
    }
    let mut x: u128 = 2;
    while x < nth_number
        invariant
            nth_number != 1 && nth_number != 2,
            2 <= x,
            nth_number >= 3 ==> x <= nth_number,
            nth_number < 3 ==> x == 2,
            fib(nth_number as nat) <= u128::MAX,
            fibonacci_left == fib((x - 1) as nat),
            fibonacci_right == fib(x as nat),
            x >= 3 ==> fibonacci == fib(x as nat),
            x == 2 ==> fibonacci == 0,
        decreases nth_number - x,
    {
        proof {
            lemma_fib_is_monotonic((x + 1) as nat, nth_number as nat);
        }
        fibonacci = fibonacci_left + fibonacci_right;
        fibonacci_left = fibonacci_right;
        fibonacci_right = fibonacci;
        x = x + 1;
    }
    fibonacci
}

} // verus!
