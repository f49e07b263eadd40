//! The aggregates shared by every task of a discovery run.
use vstd::prelude::*;

verus! {

/// Grid width and height (each one past the last index known to hold a
/// tile) and the number of tiles downloaded.
#[derive(Clone, Copy, Debug, PartialEq, Eq, Structural)]
pub struct Extents {
    pub width: u32,
    pub height: u32,
    pub count: u64,
}

/// Every how many downloads a progress line is due.
pub const PROGRESS_EVERY: u64 = 10;

/// The extents after a row walk ended at column `end`.
pub open spec fn with_row_end(e: Extents, end: u32) -> Extents {
    Extents { width: if end > e.width { end } else { e.width }, ..e }
}

/// The extents after recording the ends of the rows in `ends`, in order.
pub open spec fn with_row_ends(e: Extents, ends: Seq<u32>) -> Extents
    decreases ends.len(),
{
    if ends.len() == 0 {
        e
    } else {
        with_row_end(with_row_ends(e, ends.drop_last()), ends.last())
    }
}

/// The largest of `w` and the values in `ends`.
pub open spec fn max_of(w: u32, ends: Seq<u32>) -> u32
    decreases ends.len(),
{
    if ends.len() == 0 {
        w
    } else {
        let m = max_of(w, ends.drop_last());
        if ends.last() > m {
            ends.last()
        } else {
            m
        }
    }
}

/// The downloaded count after one more tile, held at the top of its range.
pub open spec fn count_after_download(count: u64) -> u64 {
    if count < u64::MAX {
        (count + 1) as u64
    } else {
        count
    }
}

impl Extents {
    /// Nothing known yet: all zero.
    pub fn new() -> (r: Extents)
        ensures
            r == (Extents { width: 0, height: 0, count: 0 }),
    {
        Extents { width: 0, height: 0, count: 0 }
    }

    /// Records that a row walk stopped at column `end`: the width becomes
    /// the larger of the two.
    pub fn record_row_end(&mut self, end: u32)
        ensures
            *final(self) == with_row_end(*old(self), end),
    {
        if end > self.width {
            self.width = end;
        }
    }

    /// Records the first row without a tile as the height.
    pub fn set_height(&mut self, height: u32)
        ensures
            *final(self) == (Extents { height, ..*old(self) }),
    {
        self.height = height;
    }

    /// Forgets the tiles fetched while probing the depth: only the tile at
    /// the highest zoom counts.
    pub fn reset_count(&mut self)
        ensures
            *final(self) == (Extents { count: 1, ..*old(self) }),
    {
        self.count = 1;
    }

    /// Counts one more downloaded tile; returns whether a progress line is
    /// due, that is whether the new count is a multiple of ten.
    pub fn record_download(&mut self) -> (progress: bool)
        ensures
            *final(self) == (Extents { count: count_after_download(old(self).count), ..*old(self) }),
            progress == (final(self).count % PROGRESS_EVERY == 0),
    {
        if self.count < u64::MAX {
            self.count = self.count + 1;
        }
        self.count % PROGRESS_EVERY == 0
    }

    /// The number of tiles the finished grid holds.
    pub fn tile_total(&self) -> (r: u64)
        ensures
            r == self.width as u64 * self.height as u64,
    {
        proof {
            assert(self.width as u64 * self.height as u64 <= u32::MAX as u64 * u32::MAX as u64)
                by (nonlinear_arith);
        }
        self.width as u64 * self.height as u64
    }
}

/// Recording the ends of two rows gives the same extents in either order.
pub proof fn lemma_row_ends_commute(e: Extents, a: u32, b: u32)
    ensures
        with_row_end(with_row_end(e, a), b) == with_row_end(with_row_end(e, b), a),
{
}

/// Whatever the order in which the rows finish, the width is the largest
/// row end recorded (or the width held before, if larger), and the other
/// aggregates are untouched.
pub proof fn lemma_width_is_largest_row_end(e: Extents, ends: Seq<u32>)
    ensures
        with_row_ends(e, ends) == (Extents { width: max_of(e.width, ends), ..e }),
        e.width <= max_of(e.width, ends),
        forall|i: int| 0 <= i < ends.len() ==> ends[i] <= #[trigger] max_of(e.width, ends),
        max_of(e.width, ends) == e.width || exists|i: int|
            0 <= i < ends.len() && ends[i] == #[trigger] max_of(e.width, ends),
    decreases ends.len(),
{
    if ends.len() > 0 {
        let init = ends.drop_last();
        lemma_width_is_largest_row_end(e, init);
        let m = max_of(e.width, init);
        assert forall|i: int| 0 <= i < ends.len() implies ends[i] <= #[trigger] max_of(e.width, ends) by {
            if i < ends.len() - 1 {
                assert(ends[i] == init[i]);
            }
        }
        if max_of(e.width, ends) != e.width {
            if ends.last() > m {
                assert(ends[ends.len() - 1] == max_of(e.width, ends));
            } else {
                let i = choose|i: int| 0 <= i < init.len() && init[i] == #[trigger] max_of(e.width, init);
                assert(ends[i] == init[i]);
            }
        }
    }
}

} // verus!
