//! Two-component vectors and axis-aligned rectangles in fixed point.
//!
//! A vector is `[x, y]`. A rectangle is `[x, y, width, height]` with its
//! origin at the top left corner, in normalized camera coordinates.

use crate::fixed::{
    clamped, fx_add, fx_clamp, fx_diff, fx_mul, fx_product, fx_root, fx_sqrt, fx_sub, fx_sum,
    lemma_product_bound, narrow, sat64, trunc_div, ONE,
};
use vstd::prelude::*;

verus! {

/// `vecmath::vec2_add` on 128-bit lanes: the component-wise sum. The outside
/// function adds with `+`, so sums that leave the lane are excluded.
#[verifier::external_body]
fn vec2_add_wide(a: [i128; 2], b: [i128; 2]) -> (r: [i128; 2])
    requires
        i128::MIN <= a[0] + b[0] <= i128::MAX,
        i128::MIN <= a[1] + b[1] <= i128::MAX,
    ensures
        r[0] == a[0] + b[0],
        r[1] == a[1] + b[1],
{
    vecmath::vec2_add(a, b)
}

/// `vecmath::vec2_mul` on 128-bit lanes: the component-wise product. The
/// outside function multiplies with `*`, so products that leave the lane are
/// excluded.
#[verifier::external_body]
fn vec2_mul_wide(a: [i128; 2], b: [i128; 2]) -> (r: [i128; 2])
    requires
        i128::MIN <= a[0] * b[0] <= i128::MAX,
        i128::MIN <= a[1] * b[1] <= i128::MAX,
    ensures
        r[0] == a[0] * b[0],
        r[1] == a[1] * b[1],
{
    vecmath::vec2_mul(a, b)
}

/// `vecmath::vec2_scale` on 128-bit lanes: each component times `b`. The
/// outside function multiplies with `*`, so products that leave the lane are
/// excluded.
#[verifier::external_body]
fn vec2_scale_wide(a: [i128; 2], b: i128) -> (r: [i128; 2])
    requires
        i128::MIN <= a[0] * b <= i128::MAX,
        i128::MIN <= a[1] * b <= i128::MAX,
    ensures
        r[0] == a[0] * b,
        r[1] == a[1] * b,
{
    vecmath::vec2_scale(a, b)
}

/// Component-wise saturating sum.
pub open spec fn v2_sum(a: [i64; 2], b: [i64; 2]) -> [i64; 2] {
    [fx_sum(a[0], b[0]), fx_sum(a[1], b[1])]
}

/// Component-wise fixed-point product.
pub open spec fn v2_product(a: [i64; 2], b: [i64; 2]) -> [i64; 2] {
    [fx_product(a[0], b[0]), fx_product(a[1], b[1])]
}

/// Each component times the fixed-point scalar `s`.
pub open spec fn v2_scaled(a: [i64; 2], s: i64) -> [i64; 2] {
    [fx_product(a[0], s), fx_product(a[1], s)]
}

/// Component-wise saturating sum.
pub fn v2_add(a: [i64; 2], b: [i64; 2]) -> (r: [i64; 2])
    ensures
        r == v2_sum(a, b),
{
    let w = vec2_add_wide([a[0] as i128, a[1] as i128], [b[0] as i128, b[1] as i128]);
    let r = [narrow(w[0]), narrow(w[1])];
    assert(r@ =~= v2_sum(a, b)@);
    r
}

/// Component-wise fixed-point product.
pub fn v2_mul(a: [i64; 2], b: [i64; 2]) -> (r: [i64; 2])
    ensures
        r == v2_product(a, b),
{
    proof {
        lemma_product_bound(a[0] as int, b[0] as int);
        lemma_product_bound(a[1] as int, b[1] as int);
    }
    let w = vec2_mul_wide([a[0] as i128, a[1] as i128], [b[0] as i128, b[1] as i128]);
    let r = [narrow(w[0] / (ONE as i128)), narrow(w[1] / (ONE as i128))];
    assert(r@ =~= v2_product(a, b)@);
    r
}

/// Each component times the fixed-point scalar `s`.
pub fn v2_scale(a: [i64; 2], s: i64) -> (r: [i64; 2])
    ensures
        r == v2_scaled(a, s),
{
    proof {
        lemma_product_bound(a[0] as int, s as int);
        lemma_product_bound(a[1] as int, s as int);
    }
    let w = vec2_scale_wide([a[0] as i128, a[1] as i128], s as i128);
    let r = [narrow(w[0] / (ONE as i128)), narrow(w[1] / (ONE as i128))];
    assert(r@ =~= v2_scaled(a, s)@);
    r
}

/// The smaller of two values.
pub open spec fn lesser(a: i64, b: i64) -> i64 {
    if a < b {
        a
    } else {
        b
    }
}

/// The larger of two values.
pub open spec fn greater(a: i64, b: i64) -> i64 {
    if a > b {
        a
    } else {
        b
    }
}

/// Width times height.
pub open spec fn rect_area_of(r: [i64; 4]) -> i64 {
    fx_product(r[2], r[3])
}

/// The point in the middle of a rectangle.
pub open spec fn rect_center_of(r: [i64; 4]) -> [i64; 2] {
    [fx_sum(r[0], sat64(trunc_div(r[2] as int, 2))), fx_sum(r[1], sat64(trunc_div(r[3] as int, 2)))]
}

/// The rectangle moved by `v`, its size unchanged.
pub open spec fn rect_translated(r: [i64; 4], v: [i64; 2]) -> [i64; 4] {
    [fx_sum(r[0], v[0]), fx_sum(r[1], v[1]), r[2], r[3]]
}

/// Whether `r` lies entirely inside `border`.
pub open spec fn rect_within(r: [i64; 4], border: [i64; 4]) -> bool {
    &&& border[0] <= r[0]
    &&& border[1] <= r[1]
    &&& r[0] + r[2] <= border[0] + border[2]
    &&& r[1] + r[3] <= border[1] + border[3]
}

/// One axis of `rect_constrained`: the origin `x` of an extent already
/// shrunk to `w <= bw`, moved by the least amount that puts it inside the
/// border's extent from `bx` to `bx + bw`.
pub open spec fn constrained_origin(x: i64, w: i64, bx: i64, bw: i64) -> i64 {
    clamped(x, bx, sat64(bx + bw - w))
}

/// The rectangle shrunk to at most the border's size and then moved by the
/// least amount that puts it inside the border.
pub open spec fn rect_constrained(r: [i64; 4], border: [i64; 4]) -> [i64; 4] {
    [
        constrained_origin(r[0], lesser(r[2], border[2]), border[0], border[2]),
        constrained_origin(r[1], lesser(r[3], border[3]), border[1], border[3]),
        lesser(r[2], border[2]),
        lesser(r[3], border[3]),
    ]
}

/// One axis of `rect_intersection`: where the overlap of two extents starts.
pub open spec fn overlap_origin(a: i64, b: i64) -> i64 {
    greater(a, b)
}

/// One axis of `rect_intersection`: how long the overlap of the extents
/// `(a, aw)` and `(b, bw)` is; zero where they do not meet.
pub open spec fn overlap_extent(a: i64, aw: i64, b: i64, bw: i64) -> i64 {
    greater(0, fx_diff(lesser(fx_sum(a, aw), fx_sum(b, bw)), greater(a, b)))
}

/// The overlap of two rectangles; its width or height is zero where they do
/// not meet.
pub open spec fn rect_intersection(a: [i64; 4], b: [i64; 4]) -> [i64; 4] {
    [
        overlap_origin(a[0], b[0]),
        overlap_origin(a[1], b[1]),
        overlap_extent(a[0], a[2], b[0], b[2]),
        overlap_extent(a[1], a[3], b[1], b[3]),
    ]
}

/// Width times height.
pub fn rect_area(r: [i64; 4]) -> (a: i64)
    ensures
        a == rect_area_of(r),
{
    fx_mul(r[2], r[3])
}

/// The point in the middle of a rectangle.
pub fn rect_center(r: [i64; 4]) -> (c: [i64; 2])
    ensures
        c == rect_center_of(r),
{
    let c = [fx_add(r[0], r[2] / 2), fx_add(r[1], r[3] / 2)];
    assert(c@ =~= rect_center_of(r)@);
    c
}

/// The rectangle moved by `v`, its size unchanged.
pub fn rect_translate(r: [i64; 4], v: [i64; 2]) -> (t: [i64; 4])
    ensures
        t == rect_translated(r, v),
{
    let t = [fx_add(r[0], v[0]), fx_add(r[1], v[1]), r[2], r[3]];
    assert(t@ =~= rect_translated(r, v)@);
    t
}

/// A constrained rectangle lies inside the border, whatever the rectangle
/// and whatever the border.
pub proof fn lemma_constrained_within(r: [i64; 4], border: [i64; 4])
    ensures
        rect_within(rect_constrained(r, border), border),
{
}

fn constrain_axis(x: i64, w: i64, bx: i64, bw: i64) -> (r: i64)
    requires
        w <= bw,
    ensures
        r == constrained_origin(x, w, bx, bw),
        bx <= r,
        r + w <= bx + bw,
{
    let hi = narrow(bx as i128 + bw as i128 - w as i128);
    fx_clamp(x, bx, hi)
}

/// Fits `r` into `border`: the result always lies inside the border.
pub fn rect_constrain(r: [i64; 4], border: [i64; 4]) -> (c: [i64; 4])
    ensures
        c == rect_constrained(r, border),
        rect_within(c, border),
{
    let w = if r[2] < border[2] { r[2] } else { border[2] };
    let h = if r[3] < border[3] { r[3] } else { border[3] };
    let c = [
        constrain_axis(r[0], w, border[0], border[2]),
        constrain_axis(r[1], h, border[1], border[3]),
        w,
        h,
    ];
    assert(c@ =~= rect_constrained(r, border)@);
    c
}

fn intersect_axis(a: i64, aw: i64, b: i64, bw: i64) -> (r: i64)
    ensures
        r == overlap_extent(a, aw, b, bw),
{
    let a_end = fx_add(a, aw);
    let b_end = fx_add(b, bw);
    let end = if a_end < b_end { a_end } else { b_end };
    let start = if a > b { a } else { b };
    let len = fx_sub(end, start);
    if len > 0 { len } else { 0 }
}

/// The overlap of two rectangles; its width or height is zero where they do
/// not meet.
pub fn rect_intersect(a: [i64; 4], b: [i64; 4]) -> (r: [i64; 4])
    ensures
        r == rect_intersection(a, b),
{
    let r = [
        if a[0] > b[0] { a[0] } else { b[0] },
        if a[1] > b[1] { a[1] } else { b[1] },
        intersect_axis(a[0], a[2], b[0], b[2]),
        intersect_axis(a[1], a[3], b[1], b[3]),
    ];
    assert(r@ =~= rect_intersection(a, b)@);
    r
}

/// The rectangle grown by `d` on every side; shrunk where `d` is negative.
pub open spec fn rect_offset_by(r: [i64; 4], d: i64) -> [i64; 4] {
    [fx_diff(r[0], d), fx_diff(r[1], d), fx_sum(r[2], fx_sum(d, d)), fx_sum(r[3], fx_sum(d, d))]
}

/// The top left corner.
pub open spec fn rect_topleft_of(r: [i64; 4]) -> [i64; 2] {
    [r[0], r[1]]
}

/// The bottom left corner.
pub open spec fn rect_bottomleft_of(r: [i64; 4]) -> [i64; 2] {
    [r[0], fx_sum(r[1], r[3])]
}

/// The length of a vector, rounded down.
pub open spec fn v2_length(v: [i64; 2]) -> i64 {
    fx_root(fx_sum(fx_product(v[0], v[0]), fx_product(v[1], v[1])))
}

/// The rectangle grown by `d` on every side; shrunk where `d` is negative.
pub fn rect_offset(r: [i64; 4], d: i64) -> (o: [i64; 4])
    ensures
        o == rect_offset_by(r, d),
{
    let twice = fx_add(d, d);
    let o = [fx_sub(r[0], d), fx_sub(r[1], d), fx_add(r[2], twice), fx_add(r[3], twice)];
    assert(o@ =~= rect_offset_by(r, d)@);
    o
}

/// The top left corner.
pub fn rect_topleft(r: [i64; 4]) -> (p: [i64; 2])
    ensures
        p == rect_topleft_of(r),
{
    let p = [r[0], r[1]];
    assert(p@ =~= rect_topleft_of(r)@);
    p
}

/// The bottom left corner.
pub fn rect_bottomleft(r: [i64; 4]) -> (p: [i64; 2])
    ensures
        p == rect_bottomleft_of(r),
{
    let p = [r[0], fx_add(r[1], r[3])];
    assert(p@ =~= rect_bottomleft_of(r)@);
    p
}

/// The length of a vector, rounded down.
pub fn v2_len(v: [i64; 2]) -> (l: i64)
    ensures
        l == v2_length(v),
{
    fx_sqrt(fx_add(fx_mul(v[0], v[0]), fx_mul(v[1], v[1])))
}

} // verus!
