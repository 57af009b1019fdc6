//! The acceleration field, drawn as one arrow at every lattice point of the visible area.
use vstd::prelude::*;

verus! {

/// `a` comes before `b` when points are ordered by x first and by y second.
pub open spec fn lex_less(a: (int, int), b: (int, int)) -> bool {
    a.0 < b.0 || (a.0 == b.0 && a.1 < b.1)
}

/// The lattice point `p` lies in the rectangle `x_min..=x_max` by `y_min..=y_max`.
pub open spec fn in_rectangle(p: (i32, i32), x_min: i32, x_max: i32, y_min: i32, y_max: i32) -> bool {
    x_min <= p.0 <= x_max && y_min <= p.1 <= y_max
}

/// The lattice points at which the field is drawn: every point `(x, y)` with integer
/// coordinates in `x_min..=x_max` by `y_min..=y_max`, each once, ordered by x and then by y.
pub fn render(x_min: i32, x_max: i32, y_min: i32, y_max: i32) -> (points: Vec<(i32, i32)>)
    ensures
        forall|p: (i32, i32)|
            #[trigger] points@.contains(p) <==> in_rectangle(p, x_min, x_max, y_min, y_max),
        forall|i: int, j: int|
            0 <= i < j < points@.len() ==> lex_less(
                (points@[i].0 as int, points@[i].1 as int),
                (points@[j].0 as int, points@[j].1 as int),
            ),
{
    let mut points: Vec<(i32, i32)> = Vec::new();
    let mut x: i64 = x_min as i64;
    while x <= x_max as i64
        invariant
            x_min <= x,
            x <= x_max as int + 1 || x == x_min,
            forall|i: int|
                0 <= i < points@.len() ==> in_rectangle(#[trigger] points@[i], x_min, x_max, y_min, y_max)
                    && points@[i].0 < x,
            forall|i: int, j: int|
                0 <= i < j < points@.len() ==> lex_less(
                    (points@[i].0 as int, points@[i].1 as int),
                    (points@[j].0 as int, points@[j].1 as int),
                ),
            forall|p: (i32, i32)|
                in_rectangle(p, x_min, x_max, y_min, y_max) && p.0 < x ==> #[trigger] points@.contains(p),
        decreases x_max as int + 1 - x,
    {
        let mut y: i64 = y_min as i64;
        while y <= y_max as i64
            invariant
                x_min <= x <= x_max,
                y_min <= y,
                y <= y_max as int + 1 || y == y_min,
                forall|i: int|
                    0 <= i < points@.len() ==> in_rectangle(#[trigger] points@[i], x_min, x_max, y_min, y_max)
                        && lex_less((points@[i].0 as int, points@[i].1 as int), (x as int, y as int)),
                forall|i: int, j: int|
                    0 <= i < j < points@.len() ==> lex_less(
                        (points@[i].0 as int, points@[i].1 as int),
                        (points@[j].0 as int, points@[j].1 as int),
                    ),
                forall|p: (i32, i32)|
                    in_rectangle(p, x_min, x_max, y_min, y_max) && lex_less(
                        (p.0 as int, p.1 as int),
                        (x as int, y as int),
                    ) ==> #[trigger] points@.contains(p),
            decreases y_max as int + 1 - y,
        {
            let ghost before = points@;
            let point = (x as i32, y as i32);
            points.push(point);
            proof {
                assert(points@[before.len() as int] == point);
                assert forall|p: (i32, i32)|
                    in_rectangle(p, x_min, x_max, y_min, y_max) && lex_less(
                        (p.0 as int, p.1 as int),
                        (x as int, y + 1),
                    ) implies #[trigger] points@.contains(p) by {
                    if p == point {
                        assert(points@[before.len() as int] == p);
                    } else {
                        assert(before.contains(p));
                        let k = choose|k: int| 0 <= k < before.len() && before[k] == p;
                        assert(points@[k] == p);
                    }
                }
            }
            y = y + 1;
        }
        x = x + 1;
    }
    points
}

} // verus!
