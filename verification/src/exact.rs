//! Vectors of exact numbers. The rules of the crate are the same for every
//! number type; on these vectors, where nothing is rounded, they are shown to
//! be right.
use vstd::prelude::*;

verus! {

/// The dot product of two vectors with as many coordinates.
pub open spec fn dot(u: Seq<int>, v: Seq<int>) -> int
    decreases u.len(),
{
    if u.len() == 0 || v.len() == 0 {
        0
    } else {
        dot(u.drop_last(), v.drop_last()) + u.last() * v.last()
    }
}

/// The square of a dot product is at most the product of the squared lengths.
pub proof fn lemma_cauchy_schwarz(u: Seq<int>, v: Seq<int>)
    requires
        u.len() == v.len(),
    ensures
        dot(u, v) * dot(u, v) <= dot(u, u) * dot(v, v),
        0 <= dot(u, u),
        0 <= dot(v, v),
    decreases u.len(),
{
    if u.len() > 0 {
        lemma_cauchy_schwarz(u.drop_last(), v.drop_last());
        lemma_cauchy_schwarz_step(
            dot(u.drop_last(), v.drop_last()),
            dot(u.drop_last(), u.drop_last()),
            dot(v.drop_last(), v.drop_last()),
            u.last(),
            v.last(),
        );
    }
}

/// One more coordinate keeps the inequality of Cauchy and Schwarz: `a`, `b`
/// and `c` are the dot product and the two squared lengths so far, `x` and `y`
/// the new coordinates.
proof fn lemma_cauchy_schwarz_step(a: int, b: int, c: int, x: int, y: int)
    requires
        a * a <= b * c,
        0 <= b,
        0 <= c,
    ensures
        (a + x * y) * (a + x * y) <= (b + x * x) * (c + y * y),
        0 <= b + x * x,
        0 <= c + y * y,
{
    let cross = a * (x * y);
    let byy = b * (y * y);
    let cxx = c * (x * x);
    assert(0 <= x * x && 0 <= y * y) by (nonlinear_arith);
    assert(0 <= byy && 0 <= cxx) by (nonlinear_arith)
        requires
            0 <= b,
            0 <= c,
            0 <= x * x,
            0 <= y * y,
            byy == b * (y * y),
            cxx == c * (x * x),
    ;
    if b == 0 {
        assert(a == 0) by (nonlinear_arith)
            requires
                a * a <= b * c,
                b == 0,
        ;
        assert(cross == 0) by (nonlinear_arith)
            requires
                a == 0,
                cross == a * (x * y),
        ;
    } else {
        let p = b * y - a * x;
        let slack = (b * c - a * a) * (x * x);
        assert(0 <= p * p) by (nonlinear_arith);
        assert(0 <= slack) by (nonlinear_arith)
            requires
                a * a <= b * c,
                0 <= x * x,
                slack == (b * c - a * a) * (x * x),
        ;
        let by = b * y;
        let ax = a * x;
        let aaxx = (a * a) * (x * x);
        assert(p * p == by * by - 2 * (by * ax) + ax * ax) by (nonlinear_arith)
            requires
                p == by - ax,
        ;
        assert(by * by == b * byy) by (nonlinear_arith)
            requires
                by == b * y,
                byy == b * (y * y),
        ;
        assert(by * ax == b * cross) by (nonlinear_arith)
            requires
                by == b * y,
                ax == a * x,
                cross == a * (x * y),
        ;
        assert(ax * ax == aaxx) by (nonlinear_arith)
            requires
                ax == a * x,
                aaxx == (a * a) * (x * x),
        ;
        assert(slack == b * cxx - aaxx) by (nonlinear_arith)
            requires
                slack == (b * c - a * a) * (x * x),
                cxx == c * (x * x),
                aaxx == (a * a) * (x * x),
        ;
        assert(b * byy - 2 * (b * cross) + b * cxx == b * (byy + cxx - 2 * cross))
            by (nonlinear_arith);
        assert(0 <= byy + cxx - 2 * cross) by (nonlinear_arith)
            requires
                0 < b,
                0 <= b * (byy + cxx - 2 * cross),
        ;
    }
    assert((a + x * y) * (a + x * y) == a * a + 2 * cross + (x * x) * (y * y)) by (nonlinear_arith)
        requires
            cross == a * (x * y),
    ;
    assert((b + x * x) * (c + y * y) == b * c + byy + cxx + (x * x) * (y * y)) by (nonlinear_arith)
        requires
            byy == b * (y * y),
            cxx == c * (x * x),
    ;
}

/// The dot product of a vector no longer than `r` with one no longer than `l`
/// lies between `-r * l` and `r * l`.
pub proof fn lemma_dot_within_lengths(u: Seq<int>, v: Seq<int>, r: nat, l: nat)
    requires
        u.len() == v.len(),
        dot(u, u) <= r * r,
        dot(v, v) <= l * l,
    ensures
        -(r * l) <= dot(u, v) <= r * l,
{
    lemma_cauchy_schwarz(u, v);
    let d = dot(u, v);
    let uu = dot(u, u);
    let vv = dot(v, v);
    assert(-(r * l) <= d <= r * l) by (nonlinear_arith)
        requires
            d * d <= uu * vv,
            0 <= uu <= r * r,
            0 <= vv <= l * l,
    {
        assert(uu * vv <= (r * r) * (l * l));
        assert((r * r) * (l * l) == (r * l) * (r * l));
        if d > r * l {
            assert(d * d > (r * l) * (r * l));
        }
        if d < -(r * l) {
            assert(d * d > (r * l) * (r * l));
        }
    }
}

/// No coordinate of a vector is longer than the vector.
pub proof fn lemma_coordinate_within_length(u: Seq<int>, i: int, r: nat)
    requires
        0 <= i < u.len(),
        dot(u, u) <= r * r,
    ensures
        -r <= u[i] <= r,
    decreases u.len(),
{
    lemma_cauchy_schwarz(u.drop_last(), u.drop_last());
    let rest = dot(u.drop_last(), u.drop_last());
    let x = u.last();
    if i == u.len() - 1 {
        assert(-r <= x <= r) by (nonlinear_arith)
            requires
                0 <= rest,
                rest + x * x <= r * r,
        {
            if x > r {
                assert(x * x > r * r);
            }
            if x < -r {
                assert(x * x > r * r);
            }
        }
    } else {
        assert(rest <= r * r) by (nonlinear_arith)
            requires
                rest + x * x <= r * r,
        ;
        lemma_coordinate_within_length(u.drop_last(), i, r);
    }
}

} // verus!
