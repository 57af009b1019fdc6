//! The coordinate axes with a tick mark at every integer inside the visible area.
use vstd::prelude::*;

verus! {

/// The integers from `lo` to `hi`, both included, in increasing order.
pub open spec fn integers_between(lo: i32, hi: i32) -> Seq<i32> {
    Seq::new(
        if lo <= hi { (hi - lo + 1) as nat } else { 0 },
        |i: int| (lo + i) as i32,
    )
}

/// Every integer from `lo` to `hi`, both included, in increasing order.
pub fn integer_range(lo: i32, hi: i32) -> (values: Vec<i32>)
    ensures
        values@ == integers_between(lo, hi),
{
    let mut values: Vec<i32> = Vec::new();
    let mut next: i64 = lo as i64;
    while next <= hi as i64
        invariant
            lo <= next <= hi as int + 1 || (next == lo && lo > hi),
            values@ == Seq::new((next - lo) as nat, |i: int| (lo + i) as i32),
        decreases hi as int + 1 - next,
    {
        values.push(next as i32);
        assert(values@ =~= Seq::new((next + 1 - lo) as nat, |i: int| (lo + i) as i32));
        next = next + 1;
    }
    assert(values@ =~= integers_between(lo, hi));
    values
}

/// The positions of the tick marks on the x axis and on the y axis: every integer of the
/// visible range `x_min..=x_max`, and of `y_min..=y_max`.
///
/// The visible range is the area of the canvas widened by one unit on each side, rounded
/// towards zero; the axes themselves run through the origin.
pub fn render(x_min: i32, x_max: i32, y_min: i32, y_max: i32) -> (ticks: (Vec<i32>, Vec<i32>))
    ensures
        ticks.0@ == integers_between(x_min, x_max),
        ticks.1@ == integers_between(y_min, y_max),
{
    (integer_range(x_min, x_max), integer_range(y_min, y_max))
}

} // verus!
