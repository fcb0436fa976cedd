//! Piecewise-linear lookup in a table of breakpoints.
use vstd::prelude::*;
use crate::fixed::Fixed;

verus! {

/// The breakpoints never decrease from left to right.
pub open spec fn non_decreasing(xs: Seq<Fixed>) -> bool {
    forall|i: int, j: int| 0 <= i <= j < xs.len() ==> xs[i].raw <= xs[j].raw
}

/// A table that can be looked up: two axes of the same length, at least two
/// points, breakpoints in order.
pub open spec fn valid_table(xs: Seq<Fixed>, ys: Seq<Fixed>) -> bool {
    &&& xs.len() == ys.len()
    &&& xs.len() >= 2
    &&& non_decreasing(xs)
}

/// `x` lies in the segment that ends at breakpoint `i`.
pub open spec fn in_segment(xs: Seq<Fixed>, x: Fixed, i: int) -> bool {
    1 <= i < xs.len() && xs[i - 1].raw <= x.raw < xs[i].raw
}

/// The segment that holds `x`, for `x` strictly between the first and the
/// last breakpoint.
pub open spec fn segment_of(xs: Seq<Fixed>, x: Fixed) -> int {
    choose|i: int| in_segment(xs, x, i)
}

/// Raw value at `x` on the line from `(x0, y0)` to `(x1, y1)`, where
/// `x0 <= x < x1`. The offset from `y0` is rounded toward zero.
pub open spec fn on_line(x0: int, y0: int, x1: int, y1: int, x: int) -> int {
    if y1 >= y0 {
        y0 + ((x - x0) * (y1 - y0)) / (x1 - x0)
    } else {
        y0 - ((x - x0) * (y0 - y1)) / (x1 - x0)
    }
}

/// Value of the table at `x`: the end values outside the breakpoints, the
/// connecting line inside.
pub open spec fn interpolated(xs: Seq<Fixed>, ys: Seq<Fixed>, x: Fixed) -> Fixed {
    if x.raw <= xs[0].raw {
        ys[0]
    } else if x.raw >= xs[xs.len() - 1].raw {
        ys[ys.len() - 1]
    } else {
        let i = segment_of(xs, x);
        Fixed {
            raw: on_line(
                xs[i - 1].raw as int,
                ys[i - 1].raw as int,
                xs[i].raw as int,
                ys[i].raw as int,
                x.raw as int,
            ) as i64,
        }
    }
}

/// In an ordered table at most one segment holds `x`.
pub proof fn lemma_segment_unique(xs: Seq<Fixed>, x: Fixed, i: int)
    requires
        non_decreasing(xs),
        in_segment(xs, x, i),
    ensures
        segment_of(xs, x) == i,
{
    let j = segment_of(xs, x);
    assert(in_segment(xs, x, j));
    if j < i {
        assert(xs[j].raw <= xs[i - 1].raw);
    }
    if i < j {
        assert(xs[i].raw <= xs[j - 1].raw);
    }
}

/// A point of a line segment lies between the values at its ends.
pub proof fn lemma_on_line_between(x0: int, y0: int, x1: int, y1: int, x: int)
    requires
        x0 <= x < x1,
    ensures
        y0 <= y1 ==> y0 <= on_line(x0, y0, x1, y1, x) <= y1,
        y1 <= y0 ==> y1 <= on_line(x0, y0, x1, y1, x) <= y0,
{
    let dx = x - x0;
    let w = x1 - x0;
    if y1 >= y0 {
        lemma_scaled_share(dx, y1 - y0, w);
    } else {
        lemma_scaled_share(dx, y0 - y1, w);
    }
}

/// On a segment that does not rise, a point further right lies no higher.
pub proof fn lemma_on_line_non_increasing(x0: int, y0: int, x1: int, y1: int, a: int, b: int)
    requires
        x0 <= a <= b < x1,
        y1 <= y0,
    ensures
        on_line(x0, y0, x1, y1, b) <= on_line(x0, y0, x1, y1, a),
{
    let w = x1 - x0;
    if y1 == y0 {
        assert((a - x0) * 0 == 0 && (b - x0) * 0 == 0) by (nonlinear_arith);
    } else {
        let dy = y0 - y1;
        assert((a - x0) * dy <= (b - x0) * dy) by (nonlinear_arith)
            requires
                a <= b,
                dy > 0,
        ;
        vstd::arithmetic::div_mod::lemma_div_is_ordered((a - x0) * dy, (b - x0) * dy, w);
    }
}

/// For `0 <= dx <= w` and `dy >= 0`, the share `dx * dy / w` of `dy` lies in
/// `0 ..= dy`.
pub proof fn lemma_scaled_share(dx: int, dy: int, w: int)
    requires
        0 <= dx <= w,
        0 < w,
        0 <= dy,
    ensures
        0 <= (dx * dy) / w <= dy,
        0 <= dx * dy <= w * dy,
{
    assert(0 <= dx * dy <= w * dy) by (nonlinear_arith)
        requires
            0 <= dx <= w,
            0 <= dy,
    ;
    vstd::arithmetic::div_mod::lemma_div_is_ordered(dx * dy, w * dy, w);
    vstd::arithmetic::div_mod::lemma_div_is_ordered(0, dx * dy, w);
    vstd::arithmetic::div_mod::lemma_div_multiples_vanish(dy, w);
    assert(w * dy == dy * w) by (nonlinear_arith);
}

/// Looks `intermediate_x` up in the table `xs -> ys`.
///
/// Left of the first breakpoint the result is the first value, right of the
/// last breakpoint the last value, and in between the point on the line that
/// joins the two neighbouring table points.
pub fn interpolation(xs: &[Fixed], ys: &[Fixed], intermediate_x: Fixed) -> (y: Fixed)
    requires
        valid_table(xs@, ys@),
    ensures
        y == interpolated(xs@, ys@, intermediate_x),
{
    let n: usize = xs.len();
    if intermediate_x.raw <= xs[0].raw {
        ys[0]
    } else if intermediate_x.raw >= xs[n - 1].raw {
        ys[n - 1]
    } else {
        let mut idx: usize = 1;
        while idx < n - 1 && intermediate_x.raw >= xs[idx].raw
            invariant
                n == xs@.len(),
                n >= 2,
                1 <= idx <= n - 1,
                xs@[idx - 1].raw <= intermediate_x.raw,
                intermediate_x.raw < xs@[n - 1].raw,
            decreases n - idx,
        {
            idx += 1;
        }
        proof {
            lemma_segment_unique(xs@, intermediate_x, idx as int);
        }
        let x0: i128 = xs[idx - 1].raw as i128;
        let x1: i128 = xs[idx].raw as i128;
        let y0: i128 = ys[idx - 1].raw as i128;
        let y1: i128 = ys[idx].raw as i128;
        let dx: u128 = (intermediate_x.raw as i128 - x0) as u128;
        let w: u128 = (x1 - x0) as u128;
        if y1 >= y0 {
            let dy: u128 = (y1 - y0) as u128;
            proof {
                lemma_scaled_share(dx as int, dy as int, w as int);
                lemma_share_fits(w as int, dy as int);
            }
            let q: u128 = (dx * dy) / w;
            Fixed { raw: (y0 + q as i128) as i64 }
        } else {
            let dy: u128 = (y0 - y1) as u128;
            proof {
                lemma_scaled_share(dx as int, dy as int, w as int);
                lemma_share_fits(w as int, dy as int);
            }
            let q: u128 = (dx * dy) / w;
            Fixed { raw: (y0 - q as i128) as i64 }
        }
    }
}

/// The product of two differences of 64-bit values fits in 128 bits.
proof fn lemma_share_fits(w: int, dy: int)
    requires
        0 <= w <= 0xFFFF_FFFF_FFFF_FFFF,
        0 <= dy <= 0xFFFF_FFFF_FFFF_FFFF,
    ensures
        w * dy <= 0xFFFF_FFFF_FFFF_FFFF_FFFF_FFFF_FFFF_FFFF,
{
    assert(w * dy <= 0xFFFF_FFFF_FFFF_FFFF * 0xFFFF_FFFF_FFFF_FFFF) by (nonlinear_arith)
        requires
            0 <= w <= 0xFFFF_FFFF_FFFF_FFFF,
            0 <= dy <= 0xFFFF_FFFF_FFFF_FFFF,
    ;
}

} // verus!
