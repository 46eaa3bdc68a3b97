//! Work scheduling for the renderer: the list of pixel coordinates that the
//! worker pool drains, built in row-major order and then shuffled so that
//! expensive image regions spread evenly over the render. The schedule holds
//! each pixel of the grid exactly once, which is what makes the disjoint
//! per-pixel buffer writes of the workers sound.

use vstd::prelude::*;
use vstd::multiset::Multiset;
use vstd::arithmetic::div_mod::{lemma_fundamental_div_mod, lemma_fundamental_div_mod_converse};
use rand::seq::SliceRandom;

verus! {

/// A pixel coordinate: column `i`, row `j` (row 0 is the top of the image,
/// `j` grows downward and `i` rightward).
#[derive(Clone, Copy, PartialEq, Eq, Structural, Debug)]
pub struct Position {
    pub i: i32,
    pub j: i32,
}

pub fn position(i: i32, j: i32) -> (p: Position)
    ensures
        p == (Position { i, j }),
{
    Position { i, j }
}

/// Whether `p` lies on the `width × height` pixel grid.
pub open spec fn in_grid(p: Position, width: int, height: int) -> bool {
    0 <= p.i < width && 0 <= p.j < height
}

/// The row-major traversal of the `width × height` grid: entry `j * width + i`
/// is the pixel at column `i` of row `j`.
pub open spec fn grid_order(width: int, height: int) -> Seq<Position> {
    Seq::new(
        (width * height) as nat,
        |k: int| Position { i: (k % width) as i32, j: (k / width) as i32 },
    )
}

/// What a full render schedules: the pixels of the grid as an unordered
/// collection, each counted once.
pub open spec fn grid_multiset(width: int, height: int) -> Multiset<Position> {
    grid_order(width, height).to_multiset()
}

/// Build the work list for a `width × height` image, row by row from the
/// top-left pixel.
pub fn pixel_order(image_width: i32, image_height: i32) -> (order: Vec<Position>)
    requires
        0 < image_width,
        0 < image_height,
        image_width * image_height <= i32::MAX,
    ensures
        order@ == grid_order(image_width as int, image_height as int),
{
    let ghost w = image_width as int;
    let ghost h = image_height as int;
    let mut order: Vec<Position> = Vec::new();
    let mut j: i32 = 0;
    while j < image_height
        invariant
            0 <= j <= image_height,
            0 < image_width,
            0 < image_height,
            image_width * image_height <= i32::MAX,
            w == image_width as int,
            h == image_height as int,
            order@ == grid_order(w, h).take((j as int) * w),
        decreases image_height - j,
    {
        let mut i: i32 = 0;
        while i < image_width
            invariant
                0 <= i <= image_width,
                0 <= j < image_height,
                0 < image_width,
                0 < image_height,
                image_width * image_height <= i32::MAX,
                w == image_width as int,
                h == image_height as int,
                order@ == grid_order(w, h).take((j as int) * w + (i as int)),
            decreases image_width - i,
        {
            proof {
                assert(0 <= (j as int) * w + (i as int)
                    && (j as int) * w + (i as int) + 1 <= w * h) by (nonlinear_arith)
                    requires
                        0 <= (j as int) && (j as int) < h,
                        0 <= (i as int) && (i as int) < w;
                lemma_fundamental_div_mod_converse(
                    (j as int) * w + (i as int), w, j as int, i as int);
                assert(grid_order(w, h)[(j as int) * w + (i as int)] == (Position { i, j }));
                assert(grid_order(w, h).take((j as int) * w + (i as int) + 1)
                    =~= grid_order(w, h).take((j as int) * w + (i as int)).push(
                        Position { i, j }));
            }
            order.push(position(i, j));
            i = i + 1;
        }
        proof {
            assert((j as int) * w + w == (j as int + 1) * w) by (nonlinear_arith);
        }
        j = j + 1;
    }
    proof {
        assert((h as int) * w == w * h) by (nonlinear_arith);
        assert(grid_order(w, h).take(w * h) =~= grid_order(w, h));
    }
    order
}

/// Relies on rand's in-place slice shuffle (`SliceRandom::shuffle` with a
/// thread-local generator): it reorders the elements by swaps and adds or
/// removes none, so only the order of the list changes.
#[verifier::external_body]
pub fn random_shuffle<T>(sequence: &mut Vec<T>)
    ensures
        final(sequence)@.to_multiset() == old(sequence)@.to_multiset(),
        final(sequence)@.len() == old(sequence)@.len(),
{
    sequence.shuffle(&mut rand::thread_rng())
}

/// The pool of pixels still to render. Workers draw tasks one at a time until
/// the pool is empty; the pool hands out each scheduled pixel exactly once.
pub struct WorkQueue {
    order: Vec<Position>,
}

impl WorkQueue {
    /// The tasks not yet handed out, as an unordered collection.
    pub closed spec fn pending(&self) -> Multiset<Position> {
        self.order@.to_multiset()
    }

    /// Build the schedule for a `width × height` image: one task per pixel of
    /// the grid, in a uniformly shuffled order.
    pub fn new(image_width: i32, image_height: i32) -> (q: WorkQueue)
        requires
            0 < image_width,
            0 < image_height,
            image_width * image_height <= i32::MAX,
        ensures
            q.pending() == grid_multiset(image_width as int, image_height as int),
    {
        let mut order = pixel_order(image_width, image_height);
        random_shuffle(&mut order);
        WorkQueue { order }
    }

    /// How many tasks are still pending.
    pub fn remaining(&self) -> (n: usize)
        ensures
            n == self.pending().len(),
    {
        proof {
            self.order@.to_multiset_ensures();
        }
        self.order.len()
    }

    /// Draw the next task: the most recently scheduled pending pixel, or
    /// nothing once the schedule is drained.
    pub fn pop_task(&mut self) -> (t: Option<Position>)
        ensures
            match t {
                Some(p) => old(self).pending().contains(p)
                    && final(self).pending() == old(self).pending().remove(p),
                None => old(self).pending().len() == 0
                    && final(self).pending() == old(self).pending(),
            },
    {
        proof {
            self.order@.to_multiset_ensures();
            if self.order@.len() > 0 {
                let prefix = self.order@.subrange(0, self.order@.len() - 1);
                prefix.to_multiset_ensures();
                assert(prefix.push(self.order@.last()) =~= self.order@);
                assert(prefix.to_multiset()
                    =~= self.order@.to_multiset().remove(self.order@.last()));
            }
        }
        self.order.pop()
    }
}

/// Law: the schedule for a `width × height` image holds each pixel of the
/// grid exactly once, and nothing off the grid. Together with
/// [`lemma_pixel_index_injective`] this is why a render that writes buffer
/// cell `j * width + i` for every drawn task touches each cell exactly once.
pub proof fn lemma_schedule_exactly_once(width: int, height: int, p: Position)
    requires
        0 < width,
        0 < height,
        width * height <= i32::MAX,
    ensures
        grid_multiset(width, height).count(p) == if in_grid(p, width, height) { 1int } else { 0int },
{
    let s = grid_order(width, height);
    s.to_multiset_ensures();
    assert forall|k1: int, k2: int|
        0 <= k1 < s.len() && 0 <= k2 < s.len() && k1 != k2 implies s[k1] != s[k2] by {
        lemma_fundamental_div_mod(k1, width);
        lemma_fundamental_div_mod(k2, width);
    }
    assert(s.no_duplicates());
    s.lemma_multiset_has_no_duplicates();
    assert(width <= i32::MAX && height <= i32::MAX) by (nonlinear_arith)
        requires 0 < width, 0 < height, width * height <= i32::MAX;
    if in_grid(p, width, height) {
        let n = (p.j as int) * width + (p.i as int);
        assert(0 <= (p.j as int) * width + (p.i as int)
            && (p.j as int) * width + (p.i as int) < width * height) by (nonlinear_arith)
            requires
                0 <= (p.i as int) && (p.i as int) < width,
                0 <= (p.j as int) && (p.j as int) < height;
        lemma_fundamental_div_mod_converse(n, width, p.j as int, p.i as int);
        assert(s[n] == p);
        assert(s.contains(p));
        assert(s.to_multiset().count(p) == 1);
    } else {
        assert forall|k: int| 0 <= k < s.len() implies s[k] != p by {
            assert(0 <= k % width < width);
            assert(0 <= k / width && k / width < height) by (nonlinear_arith)
                requires 0 <= k < width * height, 0 < width, 0 < height;
            assert(s[k].i as int == k % width && s[k].j as int == k / width);
            assert(in_grid(s[k], width, height));
        }
        assert(!s.contains(p));
        assert(s.to_multiset().count(p) == 0);
    }
}

/// Law: on a grid of row width `width`, the buffer index `j * width + i` of a
/// pixel determines the pixel: two pixels with the same index are the same.
pub proof fn lemma_pixel_index_injective(width: int, p1: Position, p2: Position)
    requires
        0 < width,
        0 <= p1.i < width,
        0 <= p2.i < width,
        0 <= p1.j,
        0 <= p2.j,
        p1.j * width + p1.i == p2.j * width + p2.i,
    ensures
        p1 == p2,
{
    lemma_fundamental_div_mod_converse(p1.j * width + p1.i, width, p1.j as int, p1.i as int);
    lemma_fundamental_div_mod_converse(p2.j * width + p2.i, width, p2.j as int, p2.i as int);
}

} // verus!
