//! Straight lines between two pixels.

use crate::braille::BrailleFrame;
use vstd::prelude::*;

verus! {

/// The distance between two coordinates.
pub open spec fn distance(a: int, b: int) -> int {
    if a <= b {
        b - a
    } else {
        a - b
    }
}

/// The direction that leads from `a` to `b`.
pub open spec fn direction(a: int, b: int) -> int {
    if a < b {
        1
    } else {
        -1
    }
}

/// `n / d` rounded to the nearest integer, halves upwards.
pub open spec fn nearest(n: int, d: int) -> int {
    if d == 0 {
        0
    } else {
        (2 * n + d) / (2 * d)
    }
}

/// `v` lies between `a` and `b`, ends included.
pub open spec fn between(a: int, b: int, v: int) -> bool {
    a <= v <= b || b <= v <= a
}

/// The pixel is one of the line from `(x0, y0)` to `(x1, y1)`. The line takes one pixel per step
/// along its longer axis; on the other axis that pixel is the one nearest to the ideal line,
/// and of two equally near ones the one farther from the start.
pub open spec fn on_line(x0: int, y0: int, x1: int, y1: int, px: int, py: int) -> bool {
    let dx = distance(x0, x1);
    let dy = distance(y0, y1);
    if dx >= dy {
        &&& between(x0, x1, px)
        &&& py == y0 + direction(y0, y1) * nearest(dy * distance(x0, px), dx)
    } else {
        &&& between(y0, y1, py)
        &&& px == x0 + direction(x0, x1) * nearest(dx * distance(y0, py), dy)
    }
}

/// How far the pixel is from the start of the line along its longer axis.
spec fn progress(x0: int, y0: int, x1: int, y1: int, px: int, py: int) -> int {
    if distance(x0, x1) >= distance(y0, y1) {
        distance(x0, px)
    } else {
        distance(y0, py)
    }
}

/// The rounded quotient is the only integer within half of the exact one.
pub proof fn lemma_nearest(n: int, d: int, q: int)
    requires
        d > 0,
        -d < 2 * (d * q - n) <= d,
    ensures
        nearest(n, d) == q,
{
    let m = 2 * n + d;
    let e = 2 * d;
    assert(e * q == 2 * (d * q)) by (nonlinear_arith)
        requires
            e == 2 * d,
    ;
    let r = m - e * q;
    assert(0 <= r < e);
    assert(q == m / e) by (nonlinear_arith)
        requires
            0 <= r < e,
            m == e * q + r,
    ;
}

/// Facts about one step along the longer axis: `a` is the length of that axis, `b` of the other,
/// `i` and `j` the steps made so far, and `2 * |a * j - b * i|` is at most `a`.
proof fn lemma_steps(a: int, b: int, i: int, j: int)
    requires
        0 <= b <= a,
        0 <= i <= a,
        0 <= j,
        2 * (a * j - b * i) <= a,
        -a <= 2 * (a * j - b * i),
        a > 0,
    ensures
        j <= b,
        i == a ==> j == b,
{
    assert(j <= b) by (nonlinear_arith)
        requires
            0 <= b <= a,
            0 <= i <= a,
            2 * (a * j - b * i) <= a,
            a > 0,
    ;
    if i == a {
        assert(j >= b) by (nonlinear_arith)
            requires
                -a <= 2 * (a * j - b * a),
                a > 0,
        ;
    }
}

proof fn lemma_mul_step(a: int, k: int)
    ensures
        a * (k + 1) == a * k + a,
{
    assert(a * (k + 1) == a * k + a) by (nonlinear_arith);
}

/// A signed step count applied to a direction.
pub proof fn lemma_signed(s: int, k: int)
    requires
        s == 1 || s == -1,
    ensures
        s == 1 ==> s * k == k,
        s == -1 ==> s * k == -k,
{
}

/// Draws the line from `(x0, y0)` to `(x1, y1)`, ends included. Pixels off the frame are skipped.
pub fn draw_line(frame: &mut BrailleFrame, x0: i32, y0: i32, x1: i32, y1: i32)
    requires
        old(frame).wf(),
    ensures
        final(frame).wf(),
        final(frame).same_size(*old(frame)),
        forall|px: int, py: int| #[trigger]
            final(frame).lit(px, py) == (old(frame).lit(px, py) || (old(frame).drawable(px, py)
                && on_line(x0 as int, y0 as int, x1 as int, y1 as int, px, py))),
{
    let mut x: i64 = x0 as i64;
    let mut y: i64 = y0 as i64;
    let ex: i64 = x1 as i64;
    let ey: i64 = y1 as i64;

    let dx: i64 = if x < ex {
        ex - x
    } else {
        x - ex
    };
    let sx: i64 = if x < ex {
        1
    } else {
        -1
    };
    let dy: i64 = if y < ey {
        y - ey
    } else {
        ey - y
    };
    let sy: i64 = if y < ey {
        1
    } else {
        -1
    };
    let mut err: i64 = dx + dy;

    let ghost a = dx as int;
    let ghost b = -dy as int;
    let ghost mut i: int = 0;
    let ghost mut j: int = 0;
    let ghost fx = x0 as int;
    let ghost fy = y0 as int;
    let ghost gx = x1 as int;
    let ghost gy = y1 as int;

    loop
        invariant_except_break
            forall|px: int, py: int| #[trigger]
                frame.lit(px, py) == (old(frame).lit(px, py) || (old(frame).drawable(px, py)
                    && on_line(fx, fy, gx, gy, px, py) && progress(fx, fy, gx, gy, px, py) < (
                if a >= b {
                    i
                } else {
                    j
                }))),
        invariant
            frame.wf(),
            frame.same_size(*old(frame)),
            fx == x0,
            fy == y0,
            gx == x1,
            gy == y1,
            ex == x1,
            ey == y1,
            a == dx,
            b == -dy,
            a == distance(fx, gx),
            b == distance(fy, gy),
            0 <= a <= u32::MAX,
            0 <= b <= u32::MAX,
            sx == direction(fx, gx),
            sy == direction(fy, gy),
            0 <= i <= a,
            0 <= j <= b,
            x == fx + sx * i,
            y == fy + sy * j,
            err == a * j - b * i + a - b,
            a >= b && a > 0 ==> -a < 2 * (a * j - b * i) <= a,
            a < b ==> -b <= 2 * (a * j - b * i) < b,
        ensures
            frame.wf(),
            frame.same_size(*old(frame)),
            forall|px: int, py: int| #[trigger]
                frame.lit(px, py) == (old(frame).lit(px, py) || (old(frame).drawable(px, py)
                    && on_line(fx, fy, gx, gy, px, py))),
        decreases a - i + b - j,
    {
        let ghost t = if a >= b {
            i
        } else {
            j
        };
        let ghost before = *frame;
        proof {
            lemma_signed(sx as int, i);
            lemma_signed(sy as int, j);
            if a >= b {
                if a > 0 {
                    lemma_nearest(b * i, a, j);
                }
            } else {
                lemma_nearest(a * j, b, i);
            }
            assert(distance(fx, x as int) == i);
            assert(distance(fy, y as int) == j);
            assert(on_line(fx, fy, gx, gy, x as int, y as int));
        }
        frame.set_pixel(x as i32, y as i32);
        assert forall|px: int, py: int| #[trigger]
            frame.lit(px, py) == (old(frame).lit(px, py) || (old(frame).drawable(px, py) && on_line(
                fx,
                fy,
                gx,
                gy,
                px,
                py,
            ) && progress(fx, fy, gx, gy, px, py) < t + 1)) by {
            assert(before.lit(px, py) == before.lit(px, py));
            if on_line(fx, fy, gx, gy, px, py) && progress(fx, fy, gx, gy, px, py) == t {
                assert(px == x && py == y);
            }
        }
        if x == ex && y == ey {
            proof {
                assert(i == a && j == b);
                assert forall|px: int, py: int| on_line(fx, fy, gx, gy, px, py) implies progress(
                    fx,
                    fy,
                    gx,
                    gy,
                    px,
                    py,
                ) < t + 1 by {}
            }
            break;
        }
        proof {
            if a >= b {
                if a > 0 {
                    lemma_steps(a, b, i, j);
                }
                assert(i < a);
            } else {
                lemma_steps(b, a, j, i);
                assert(j < b);
            }
            lemma_mul_step(a, j);
            lemma_mul_step(b, i);
            lemma_mul_step(sx as int, i);
            lemma_mul_step(sy as int, j);
        }
        let e2: i64 = 2 * err;
        if e2 >= dy {
            err = err + dy;
            x = x + sx;
            proof {
                i = i + 1;
            }
        }
        if e2 <= dx {
            err = err + dx;
            y = y + sy;
            proof {
                j = j + 1;
            }
        }
        proof {
            if a >= b {
                lemma_steps(a, b, i, j);
            } else {
                lemma_steps(b, a, j, i);
            }
        }
    }
}

/// A line reaches both of its ends, and leaves the box around them nowhere.
pub proof fn law_line_joins_its_ends(x0: int, y0: int, x1: int, y1: int)
    ensures
        on_line(x0, y0, x1, y1, x0, y0),
        on_line(x0, y0, x1, y1, x1, y1),
        forall|px: int, py: int|
            #![trigger on_line(x0, y0, x1, y1, px, py)]
            on_line(x0, y0, x1, y1, px, py) ==> between(x0, x1, px) && between(y0, y1, py),
{
    let dx = distance(x0, x1);
    let dy = distance(y0, y1);
    let long = if dx >= dy {
        dx
    } else {
        dy
    };
    let short = if dx >= dy {
        dy
    } else {
        dx
    };
    assert(short * 0 == 0);
    if long > 0 {
        assert(long * 0 == 0);
        lemma_nearest(short * 0, long, 0);
        assert(long * short == short * long) by (nonlinear_arith);
        lemma_nearest(short * long, long, short);
    }
    lemma_signed(direction(x0, x1), dx);
    lemma_signed(direction(y0, y1), dy);
    assert forall|px: int, py: int|
        #![trigger on_line(x0, y0, x1, y1, px, py)]
        on_line(x0, y0, x1, y1, px, py) implies between(x0, x1, px) && between(y0, y1, py) by {
        let k = progress(x0, y0, x1, y1, px, py);
        lemma_nearest_bound(short, long, k);
        lemma_signed(direction(x0, x1), nearest(short * k, long));
        lemma_signed(direction(y0, y1), nearest(short * k, long));
    }
}

pub proof fn lemma_nearest_bound(short: int, long: int, k: int)
    requires
        0 <= short <= long,
        0 <= k <= long,
    ensures
        0 <= nearest(short * k, long) <= short,
{
    if long > 0 {
        let n = short * k;
        assert(0 <= n <= short * long) by (nonlinear_arith)
            requires
                n == short * k,
                0 <= short,
                0 <= k <= long,
        ;
        let q = (2 * n + long) / (2 * long);
        assert(0 <= q <= short) by (nonlinear_arith)
            requires
                q == (2 * n + long) / (2 * long),
                0 <= n <= short * long,
                long > 0,
                0 <= short,
        ;
    }
}

} // verus!
