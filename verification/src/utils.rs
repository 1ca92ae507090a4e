//! Helpers: classification of column types, search for a first position, and
//! decimal text.

use crate::array::Array;
use vstd::prelude::*;

verus! {

/// Tells whether the column holds one of the ten numeric primitives.
pub fn is_numeric_type(arr: &Array) -> (b: bool)
    ensures
        b == arr.dtype().is_numeric(),
{
    arr.data_type().is_numeric_type()
}

/// Tells whether the column holds one of the reserved temporal types.
pub fn is_temporal_type(arr: &Array) -> (b: bool)
    ensures
        b == arr.dtype().is_temporal(),
{
    arr.data_type().is_temporal_type()
}

/// Tells whether the column is numeric or temporal.
pub fn is_arrow_numeric_type(arr: &Array) -> (b: bool)
    ensures
        b == (arr.dtype().is_numeric() || arr.dtype().is_temporal()),
{
    is_numeric_type(arr) || is_temporal_type(arr)
}

/// The least position in `0..n` of which `bad` holds, or `n` if there is none.
pub open spec fn first_where(n: int, bad: spec_fn(int) -> bool) -> int
    decreases n,
{
    if n <= 0 {
        0
    } else {
        let before = first_where(n - 1, bad);
        if before < n - 1 || bad(n - 1) {
            before
        } else {
            n
        }
    }
}

/// What `first_where` finds: `bad` holds of no position before it, and of the
/// one at it, if it is below `n`.
pub proof fn lemma_first_where(n: int, bad: spec_fn(int) -> bool)
    requires
        0 <= n,
    ensures
        0 <= first_where(n, bad) <= n,
        forall|i: int| 0 <= i < first_where(n, bad) ==> !#[trigger] bad(i),
        first_where(n, bad) < n ==> bad(first_where(n, bad)),
    decreases n,
{
    if n > 0 {
        lemma_first_where(n - 1, bad);
    }
}

/// The character of a decimal digit.
pub open spec fn digit(d: nat) -> char {
    if d == 0 {
        '0'
    } else if d == 1 {
        '1'
    } else if d == 2 {
        '2'
    } else if d == 3 {
        '3'
    } else if d == 4 {
        '4'
    } else if d == 5 {
        '5'
    } else if d == 6 {
        '6'
    } else if d == 7 {
        '7'
    } else if d == 8 {
        '8'
    } else {
        '9'
    }
}

/// A number in decimal, without leading zeros.
pub open spec fn decimal(n: nat) -> Seq<char>
    decreases n,
{
    if n < 10 {
        seq![digit(n)]
    } else {
        decimal(n / 10).push(digit(n % 10))
    }
}

/// The text of one decimal digit.
fn digit_str(d: usize) -> (s: &'static str)
    requires
        d < 10,
    ensures
        s@ == seq![digit(d as nat)],
{
    proof {
        reveal_strlit("0");
        reveal_strlit("1");
        reveal_strlit("2");
        reveal_strlit("3");
        reveal_strlit("4");
        reveal_strlit("5");
        reveal_strlit("6");
        reveal_strlit("7");
        reveal_strlit("8");
        reveal_strlit("9");
    }
    let s = match d {
        0 => "0",
        1 => "1",
        2 => "2",
        3 => "3",
        4 => "4",
        5 => "5",
        6 => "6",
        7 => "7",
        8 => "8",
        _ => "9",
    };
    assert(s@ =~= seq![digit(d as nat)]);
    s
}

/// A number as decimal text.
pub fn decimal_string(n: usize) -> (s: String)
    ensures
        s@ == decimal(n as nat),
    decreases n,
{
    if n < 10 {
        String::from_str(digit_str(n))
    } else {
        let s = decimal_string(n / 10).concat(digit_str(n % 10));
        proof {
            assert(s@ =~= decimal((n / 10) as nat).push(digit((n % 10) as nat)));
        }
        s
    }
}

} // verus!
