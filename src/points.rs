//! The point assembler: merges per-axis coordinate sequences into points.
//!
//! Some entities carry a list of points as separate runs of x, y and z
//! values. The runs are zipped in arrival order. Where their lengths differ
//! the result stops at the shortest run: no coordinate is invented.

use vstd::prelude::*;
use crate::code_pair::Point;

verus! {

pub open spec fn min2(a: int, b: int) -> int {
    if a <= b { a } else { b }
}

/// The points of three coordinate runs, zipped.
pub open spec fn zip_points_3(xs: Seq<u64>, ys: Seq<u64>, zs: Seq<u64>) -> Seq<Point> {
    Seq::new(
        min2(min2(xs.len() as int, ys.len() as int), zs.len() as int) as nat,
        |i: int| Point { x: xs[i], y: ys[i], z: zs[i] },
    )
}

/// The points of two coordinate runs, zipped, on the plane z = 0.
pub open spec fn zip_points_2(xs: Seq<u64>, ys: Seq<u64>) -> Seq<Point> {
    Seq::new(min2(xs.len() as int, ys.len() as int) as nat, |i: int| Point { x: xs[i], y: ys[i], z: 0 })
}

/// Zips x, y and z runs into points, in order.
pub fn combine_points_3(xs: &Vec<u64>, ys: &Vec<u64>, zs: &Vec<u64>) -> (r: Vec<Point>)
    ensures
        r@ == zip_points_3(xs@, ys@, zs@),
{
    let mut n = xs.len();
    if ys.len() < n {
        n = ys.len();
    }
    if zs.len() < n {
        n = zs.len();
    }
    let mut r: Vec<Point> = Vec::new();
    let mut i: usize = 0;
    while i < n
        invariant
            i <= n,
            n == min2(min2(xs@.len() as int, ys@.len() as int), zs@.len() as int),
            r@ == zip_points_3(xs@, ys@, zs@).take(i as int),
        decreases n - i,
    {
        r.push(Point { x: xs[i], y: ys[i], z: zs[i] });
        i = i + 1;
        assert(r@ == zip_points_3(xs@, ys@, zs@).take(i as int));
    }
    assert(r@ == zip_points_3(xs@, ys@, zs@));
    r
}

/// Zips x and y runs into points on the plane z = 0, in order.
pub fn combine_points_2(xs: &Vec<u64>, ys: &Vec<u64>) -> (r: Vec<Point>)
    ensures
        r@ == zip_points_2(xs@, ys@),
{
    let n = if ys.len() < xs.len() { ys.len() } else { xs.len() };
    let mut r: Vec<Point> = Vec::new();
    let mut i: usize = 0;
    while i < n
        invariant
            i <= n,
            n == min2(xs@.len() as int, ys@.len() as int),
            r@ == zip_points_2(xs@, ys@).take(i as int),
        decreases n - i,
    {
        r.push(Point { x: xs[i], y: ys[i], z: 0 });
        i = i + 1;
        assert(r@ == zip_points_2(xs@, ys@).take(i as int));
    }
    assert(r@ == zip_points_2(xs@, ys@));
    r
}

/// Zipping keeps arrival order: the i-th point is made of the i-th value of
/// each run, and runs of equal length give that many points.
pub proof fn lemma_zip_keeps_order(xs: Seq<u64>, ys: Seq<u64>, zs: Seq<u64>)
    requires
        xs.len() == ys.len() && ys.len() == zs.len(),
    ensures
        zip_points_3(xs, ys, zs).len() == xs.len(),
        forall|i: int|
            0 <= i < xs.len() ==> #[trigger] zip_points_3(xs, ys, zs)[i] == (Point {
                x: xs[i],
                y: ys[i],
                z: zs[i],
            }),
{
}

} // verus!
