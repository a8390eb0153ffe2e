//! Mathematical model of a sign's page buffer.
//!
//! A buffer of width `w` and height `h` is modelled as a total map from the
//! in-bounds coordinates `(x, y)` with `0 <= x < w` and `0 <= y < h` to the
//! pixel's state. Writes aimed outside those bounds are dropped without
//! touching the map, matching the adapter's clipping policy.

use vstd::prelude::*;

verus! {

/// The set of in-bounds coordinates of a `w` by `h` buffer.
pub open spec fn grid_dom(w: int, h: int) -> Set<(int, int)> {
    Set::new(|c: (int, int)| 0 <= c.0 < w && 0 <= c.1 < h)
}

/// The `w` by `h` buffer whose pixels are all in state `on`.
pub open spec fn grid_map(w: int, h: int, on: bool) -> Map<(int, int), bool> {
    Map::new(|c: (int, int)| 0 <= c.0 < w && 0 <= c.1 < h, |c: (int, int)| on)
}

/// One pixel write against a `w` by `h` buffer: in-bounds writes update the
/// buffer, out-of-bounds writes leave it unchanged.
pub open spec fn write_pixel(
    m: Map<(int, int), bool>,
    w: int,
    h: int,
    x: int,
    y: int,
    on: bool,
) -> Map<(int, int), bool> {
    if 0 <= x < w && 0 <= y < h {
        m.insert((x, y), on)
    } else {
        m
    }
}

/// A batch of pixel writes, applied left to right.
pub open spec fn write_pixels(
    m: Map<(int, int), bool>,
    w: int,
    h: int,
    s: Seq<(i32, i32, bool)>,
) -> Map<(int, int), bool>
    decreases s.len(),
{
    if s.len() == 0 {
        m
    } else {
        write_pixel(
            write_pixels(m, w, h, s.drop_last()),
            w,
            h,
            s.last().0 as int,
            s.last().1 as int,
            s.last().2,
        )
    }
}

/// A full clear of a `w` by `h` buffer: every pixel is rewritten to `on`,
/// whatever the buffer held before.
pub open spec fn clear_pixels(m: Map<(int, int), bool>, w: int, h: int, on: bool) -> Map<
    (int, int),
    bool,
> {
    grid_map(w, h, on)
}

/// The all-`on` buffer is defined exactly on the in-bounds coordinates.
pub proof fn lemma_grid_map_dom(w: int, h: int, on: bool)
    ensures
        grid_map(w, h, on).dom() == grid_dom(w, h),
{
    assert(grid_map(w, h, on).dom() =~= grid_dom(w, h));
}

/// Law: a single write outside the bounds leaves the whole buffer unchanged,
/// so every in-bounds pixel keeps its state.
pub proof fn lemma_out_of_bounds_write_dropped(
    m: Map<(int, int), bool>,
    w: int,
    h: int,
    x: int,
    y: int,
    on: bool,
)
    requires
        x < 0 || y < 0 || x >= w || y >= h,
    ensures
        write_pixel(m, w, h, x, y, on) == m,
{
}

/// Law: a batch made only of out-of-bounds writes leaves the whole buffer
/// unchanged.
pub proof fn lemma_out_of_bounds_writes_dropped(
    m: Map<(int, int), bool>,
    w: int,
    h: int,
    s: Seq<(i32, i32, bool)>,
)
    requires
        forall|i: int|
            0 <= i < s.len() ==> (s[i].0 < 0 || s[i].1 < 0 || s[i].0 >= w || s[i].1 >= h),
    ensures
        write_pixels(m, w, h, s) == m,
    decreases s.len(),
{
    if s.len() > 0 {
        lemma_out_of_bounds_writes_dropped(m, w, h, s.drop_last());
    }
}

/// Law: clearing a buffer twice to the same state yields the same buffer as
/// clearing it once.
pub proof fn lemma_clear_idempotent(m: Map<(int, int), bool>, w: int, h: int, on: bool)
    ensures
        clear_pixels(clear_pixels(m, w, h, on), w, h, on) == clear_pixels(m, w, h, on),
{
}

} // verus!
