//! Discovery of the pyramid's extents by probing.
//!
//! Each axis (zoom depth, the columns of a row, the rows of the grid) is
//! walked the same way: advance the index while the tile there is found, and
//! stop at the first index whose tile is not. The walk never issues a request
//! at `u32::MAX`: that index counts as a boundary of its own.
use vstd::prelude::*;

verus! {

/// The next move along an axis after the tile at one index was settled.
#[derive(Clone, Copy, Debug, PartialEq, Eq, Structural)]
pub enum AxisStep {
    /// Probe this index next.
    Next(u32),
    /// The axis ends here: this is the first index without a tile.
    End(u32),
}

pub open spec fn axis_step(i: u32, found: bool) -> AxisStep {
    if !found {
        AxisStep::End(i)
    } else if i + 1 < u32::MAX {
        AxisStep::Next((i + 1) as u32)
    } else {
        AxisStep::End(u32::MAX)
    }
}

/// Moves along an axis once the tile at index `i` was found or not.
pub fn advance(i: u32, found: bool) -> (r: AxisStep)
    ensures
        r == axis_step(i, found),
{
    if !found {
        AxisStep::End(i)
    } else if i < u32::MAX - 1 {
        AxisStep::Next(i + 1)
    } else {
        AxisStep::End(u32::MAX)
    }
}

/// Where a walk that starts at `i` ends, when the tile at index `k` is found
/// exactly when `ok(k)`.
pub open spec fn axis_end(ok: spec_fn(u32) -> bool, i: u32) -> u32
    decreases u32::MAX - i,
{
    match axis_step(i, ok(i)) {
        AxisStep::Next(j) => axis_end(ok, j),
        AxisStep::End(e) => e,
    }
}

/// A walk from `i` ends at the smallest index `e >= i` whose tile is not
/// found (or at `u32::MAX`): every index before it has its tile.
pub proof fn lemma_axis_end_is_first_failure(ok: spec_fn(u32) -> bool, i: u32)
    ensures
        i <= axis_end(ok, i),
        axis_end(ok, i) == u32::MAX || !ok(axis_end(ok, i)),
        forall|k: u32| i <= k < axis_end(ok, i) ==> #[trigger] ok(k),
    decreases u32::MAX - i,
{
    if ok(i) && i + 1 < u32::MAX {
        lemma_axis_end_is_first_failure(ok, (i + 1) as u32);
        assert forall|k: u32| i <= k < axis_end(ok, i) implies #[trigger] ok(k) by {
            if k == i {
            }
        }
    }
}

/// The depth probe requests `(0, 0, z)` for `z = 0, 1, ...`; the highest zoom
/// is the last one found before the first zoom that is not: every zoom up to
/// it has a tile, and the next one has none (short of the index bound).
pub proof fn lemma_max_zoom(ok: spec_fn(u32) -> bool)
    requires
        axis_end(ok, 0) > 0,
    ensures
        ({
            let m = (axis_end(ok, 0) - 1) as u32;
            &&& ok(m)
            &&& (m + 1 == u32::MAX || !ok((m + 1) as u32))
            &&& forall|z: u32| z <= m ==> #[trigger] ok(z)
        }),
{
    lemma_axis_end_is_first_failure(ok, 0);
}

/// The column probe requests `(0, y, maxZoom)` for `y = 1, 2, ...`; the
/// height is the smallest `y >= 1` whose tile is not found, and the walk of
/// a row from column 1 ends at its width: one past the largest column that
/// has a tile, all columns before it having one too.
pub proof fn lemma_extent_is_first_failure_after_origin(ok: spec_fn(u32) -> bool)
    ensures
        1 <= axis_end(ok, 1),
        axis_end(ok, 1) == u32::MAX || !ok(axis_end(ok, 1)),
        forall|k: u32| 1 <= k < axis_end(ok, 1) ==> #[trigger] ok(k),
{
    lemma_axis_end_is_first_failure(ok, 1);
}

} // verus!

verus! {

/// One tile request: column `x`, row `y`, zoom level and grouping index.
#[derive(Clone, Copy, Debug, PartialEq, Eq, Structural)]
pub struct TileRequest {
    pub x: u32,
    pub y: u32,
    pub zoom: u32,
    pub group: u32,
}

/// Walks one row from a starting column to the first column without a tile,
/// threading the grouping index found at each column into the next request.
#[derive(Clone, Copy, Debug, PartialEq, Eq, Structural)]
pub struct RowWalk {
    pub x: u32,
    pub y: u32,
    pub zoom: u32,
    pub group: u32,
    pub done: bool,
}

/// The walk after the tile at its current column was found at grouping
/// index `g` (`Some(g)`) or exhausted (`None`), and the row's end if the
/// walk stops there.
pub open spec fn walk_step(w: RowWalk, found: Option<u32>) -> (RowWalk, Option<u32>) {
    if w.done {
        (w, None)
    } else {
        let group = match found {
            Some(g) => g,
            None => w.group,
        };
        match axis_step(w.x, found is Some) {
            AxisStep::Next(j) => (RowWalk { x: j, group, ..w }, None),
            AxisStep::End(e) => (RowWalk { x: e, group, done: true, ..w }, Some(e)),
        }
    }
}

impl RowWalk {
    /// A walk of row `y` at `zoom` that starts at column `x` with grouping hint `group`.
    pub fn new(x: u32, y: u32, zoom: u32, group: u32) -> (r: RowWalk)
        ensures
            r == (RowWalk { x, y, zoom, group, done: false }),
    {
        RowWalk { x, y, zoom, group, done: false }
    }

    /// The tile to fetch next, unless the walk is over.
    pub fn next_request(&self) -> (r: Option<TileRequest>)
        ensures
            self.done ==> r is None,
            !self.done ==> r == Some(
                TileRequest { x: self.x, y: self.y, zoom: self.zoom, group: self.group },
            ),
    {
        if self.done {
            None
        } else {
            Some(TileRequest { x: self.x, y: self.y, zoom: self.zoom, group: self.group })
        }
    }

    /// Takes the outcome of fetching the current column; returns the row's
    /// end (one past its last tile) when the walk stops.
    pub fn on_response(&mut self, found: Option<u32>) -> (end: Option<u32>)
        ensures
            (*final(self), end) == walk_step(*old(self), found),
    {
        if self.done {
            return None;
        }
        if let Some(g) = found {
            self.group = g;
        }
        match advance(self.x, found.is_some()) {
            AxisStep::Next(j) => {
                self.x = j;
                None
            },
            AxisStep::End(e) => {
                self.x = e;
                self.done = true;
                Some(e)
            },
        }
    }
}

/// The stage that the prober has reached.
#[derive(Clone, Copy, Debug, PartialEq, Eq, Structural)]
pub enum Phase {
    /// Probing `(0, 0, zoom)` for ever deeper zoom levels.
    Depth,
    /// Probing `(0, row, zoom)` down the first column at the highest zoom.
    Columns,
    /// The height is known; only the row walks remain.
    Finished,
    /// Not even `(0, 0, 0)` was found: there is no pyramid.
    Empty,
}

/// The top-level discovery: the depth probe, then the column probe, each
/// found row handing out a walk of its own.
#[derive(Clone, Copy, Debug, PartialEq, Eq, Structural)]
pub struct Prober {
    pub phase: Phase,
    /// The zoom being probed; the highest zoom once the depth is known.
    pub zoom: u32,
    /// The row being probed in the column phase; the first row that
    /// failed once finished.
    pub row: u32,
    /// The grouping index found last, the hint for the next request.
    pub group: u32,
}

/// What the prober asks of its caller after one response.
#[derive(Clone, Copy, Debug, PartialEq, Eq, Structural)]
pub struct ProbeOutcome {
    /// A row walk to start.
    pub launch: Option<RowWalk>,
    /// The depth probe has just ended: only the tile at the highest zoom
    /// counts as downloaded from here on.
    pub depth_settled: bool,
}

pub open spec fn probe_step(p: Prober, found: Option<u32>) -> (Prober, ProbeOutcome) {
    let group = match found {
        Some(g) => g,
        None => p.group,
    };
    let idle = ProbeOutcome { launch: None, depth_settled: false };
    match p.phase {
        Phase::Depth => match axis_step(p.zoom, found is Some) {
            AxisStep::Next(z) => (Prober { zoom: z, group, ..p }, idle),
            AxisStep::End(e) => if e == 0 {
                (Prober { phase: Phase::Empty, group, ..p }, idle)
            } else {
                let zoom = (e - 1) as u32;
                (
                    Prober { phase: Phase::Columns, zoom, row: 1, group },
                    ProbeOutcome {
                        launch: Some(RowWalk { x: 1, y: 0, zoom, group, done: false }),
                        depth_settled: true,
                    },
                )
            },
        },
        Phase::Columns => {
            let launch = match found {
                Some(g) => Some(RowWalk { x: 1, y: p.row, zoom: p.zoom, group: g, done: false }),
                None => None,
            };
            let out = ProbeOutcome { launch, depth_settled: false };
            match axis_step(p.row, found is Some) {
                AxisStep::Next(r) => (Prober { row: r, group, ..p }, out),
                AxisStep::End(e) => (Prober { phase: Phase::Finished, row: e, group, ..p }, out),
            }
        },
        _ => (p, idle),
    }
}

impl Prober {
    /// A prober about to request `(0, 0, 0)` at grouping index 0.
    pub fn new() -> (r: Prober)
        ensures
            r == (Prober { phase: Phase::Depth, zoom: 0, row: 0, group: 0 }),
    {
        Prober { phase: Phase::Depth, zoom: 0, row: 0, group: 0 }
    }

    /// The probe to fetch next, if any.
    pub fn next_request(&self) -> (r: Option<TileRequest>)
        ensures
            self.phase == Phase::Depth ==> r == Some(
                TileRequest { x: 0, y: 0, zoom: self.zoom, group: self.group },
            ),
            self.phase == Phase::Columns ==> r == Some(
                TileRequest { x: 0, y: self.row, zoom: self.zoom, group: self.group },
            ),
            self.phase == Phase::Finished || self.phase == Phase::Empty ==> r is None,
    {
        match self.phase {
            Phase::Depth => Some(TileRequest { x: 0, y: 0, zoom: self.zoom, group: self.group }),
            Phase::Columns => Some(TileRequest { x: 0, y: self.row, zoom: self.zoom, group: self.group }),
            _ => None,
        }
    }

    /// Takes the outcome of the probe just fetched: `Some(g)` where the tile
    /// was found at grouping index `g`, `None` where its indices ran out.
    pub fn on_response(&mut self, found: Option<u32>) -> (r: ProbeOutcome)
        ensures
            (*final(self), r) == probe_step(*old(self), found),
    {
        let idle = ProbeOutcome { launch: None, depth_settled: false };
        let group = match found {
            Some(g) => g,
            None => self.group,
        };
        match self.phase {
            Phase::Depth => match advance(self.zoom, found.is_some()) {
                AxisStep::Next(z) => {
                    self.zoom = z;
                    self.group = group;
                    idle
                },
                AxisStep::End(e) => {
                    self.group = group;
                    if e == 0 {
                        self.phase = Phase::Empty;
                        idle
                    } else {
                        self.phase = Phase::Columns;
                        self.zoom = e - 1;
                        self.row = 1;
                        ProbeOutcome {
                            launch: Some(RowWalk::new(1, 0, e - 1, group)),
                            depth_settled: true,
                        }
                    }
                },
            },
            Phase::Columns => {
                let launch = match found {
                    Some(g) => Some(RowWalk::new(1, self.row, self.zoom, g)),
                    None => None,
                };
                self.group = group;
                match advance(self.row, found.is_some()) {
                    AxisStep::Next(r) => {
                        self.row = r;
                    },
                    AxisStep::End(e) => {
                        self.row = e;
                        self.phase = Phase::Finished;
                    },
                }
                ProbeOutcome { launch, depth_settled: false }
            },
            _ => idle,
        }
    }
}

} // verus!

verus! {

/// Whether the fetch outcome `found(i)` at index `i` found a tile.
pub open spec fn found_at(found: spec_fn(u32) -> Option<u32>, i: u32) -> bool {
    found(i) is Some
}

/// A row walk fed, at each column `x`, the fetch outcome `found(x)`, until
/// it stops.
pub open spec fn walk_run(w: RowWalk, found: spec_fn(u32) -> Option<u32>) -> RowWalk
    decreases u32::MAX - w.x,
{
    let next = walk_step(w, found(w.x)).0;
    if !next.done && next.x > w.x {
        walk_run(next, found)
    } else {
        next
    }
}

/// A prober in the depth phase fed, at each zoom `z`, the fetch outcome
/// `found(z)` of tile `(0, 0, z)`, until the depth is settled.
pub open spec fn depth_run(p: Prober, found: spec_fn(u32) -> Option<u32>) -> Prober
    decreases u32::MAX - p.zoom,
{
    let next = probe_step(p, found(p.zoom)).0;
    if next.phase == Phase::Depth && next.zoom > p.zoom {
        depth_run(next, found)
    } else {
        next
    }
}

/// A prober in the column phase fed, at each row `y`, the fetch outcome
/// `found(y)` of tile `(0, y, zoom)`, until the height is settled.
pub open spec fn column_run(p: Prober, found: spec_fn(u32) -> Option<u32>) -> Prober
    decreases u32::MAX - p.row,
{
    let next = probe_step(p, found(p.row)).0;
    if next.phase == Phase::Columns && next.row > p.row {
        column_run(next, found)
    } else {
        next
    }
}

/// A row walk that is not over ends at the first column from its start
/// whose tile is not found.
pub proof fn lemma_walk_ends_at_first_failure(w: RowWalk, found: spec_fn(u32) -> Option<u32>)
    requires
        !w.done,
    ensures
        walk_run(w, found).done,
        walk_run(w, found).x == axis_end(|x: u32| found_at(found, x), w.x),
        walk_run(w, found).y == w.y,
        walk_run(w, found).zoom == w.zoom,
    decreases u32::MAX - w.x,
{
    let next = walk_step(w, found(w.x)).0;
    if !next.done && next.x > w.x {
        lemma_walk_ends_at_first_failure(next, found);
    }
}

/// The depth probe settles on the zoom before the first one whose tile
/// `(0, 0, z)` is not found, and moves on to the column probe at row 1;
/// where not even zoom 0 is found, there is no pyramid.
pub proof fn lemma_depth_run_settles_max_zoom(p: Prober, found: spec_fn(u32) -> Option<u32>)
    requires
        p.phase == Phase::Depth,
    ensures
        ({
            let e = axis_end(|z: u32| found_at(found, z), p.zoom);
            let r = depth_run(p, found);
            &&& e == 0 ==> r.phase == Phase::Empty
            &&& e > 0 ==> r.phase == Phase::Columns && r.zoom == e - 1 && r.row == 1
        }),
    decreases u32::MAX - p.zoom,
{
    let next = probe_step(p, found(p.zoom)).0;
    if next.phase == Phase::Depth && next.zoom > p.zoom {
        lemma_depth_run_settles_max_zoom(next, found);
    }
}

/// The column probe settles the height on the first row whose tile
/// `(0, y, zoom)` is not found, keeping the settled zoom.
pub proof fn lemma_column_run_settles_height(p: Prober, found: spec_fn(u32) -> Option<u32>)
    requires
        p.phase == Phase::Columns,
    ensures
        column_run(p, found).phase == Phase::Finished,
        column_run(p, found).row == axis_end(|y: u32| found_at(found, y), p.row),
        column_run(p, found).zoom == p.zoom,
    decreases u32::MAX - p.row,
{
    let next = probe_step(p, found(p.row)).0;
    if next.phase == Phase::Columns && next.row > p.row {
        lemma_column_run_settles_height(next, found);
    }
}

} // verus!
