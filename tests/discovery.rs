use tile_probe::extents::Extents;
use tile_probe::fetch::{after_response, may_request, Attempt};
use tile_probe::gate::Gate;
use tile_probe::probe::{Phase, Prober, RowWalk, TileRequest};

struct Run {
    prober: Prober,
    extents: Extents,
    row_ends: Vec<(u32, u32)>,
    most_steps: u32,
    highest_group: u32,
}

fn fetch<F: Fn(u32, u32, u32, u32) -> bool>(
    server: &F,
    req: TileRequest,
    max_group: u32,
    gate: &mut Gate,
    extents: &mut Extents,
    run_steps: &mut u32,
    highest: &mut u32,
) -> Option<u32> {
    let mut group = req.group;
    let mut steps = 0;
    loop {
        if !may_request(group, max_group) {
            return None;
        }
        assert!(gate.try_acquire());
        assert!(gate.outstanding() <= gate.limit());
        let ok = server(group, req.x, req.y, req.zoom);
        assert!(gate.release());
        match after_response(group, max_group, ok) {
            Attempt::Found(g) => {
                extents.record_download();
                if steps > *run_steps {
                    *run_steps = steps;
                }
                if g > *highest {
                    *highest = g;
                }
                return Some(g);
            }
            Attempt::Retry(g) => {
                assert!(g <= max_group);
                group = g;
                steps += 1;
            }
            Attempt::Exhausted => return None,
        }
    }
}

fn count_requests<F: Fn(u32, u32, u32, u32) -> bool>(server: F, req: TileRequest, max_group: u32) -> u32 {
    let seen = std::cell::Cell::new(0);
    let counting = |g, x, y, z| {
        seen.set(seen.get() + 1);
        server(g, x, y, z)
    };
    let (mut gate, mut e, mut steps, mut highest) = (Gate::new(1), Extents::new(), 0, 0);
    fetch(&counting, req, max_group, &mut gate, &mut e, &mut steps, &mut highest);
    seen.get()
}

fn discover<F: Fn(u32, u32, u32, u32) -> bool>(server: F, max_group: u32) -> Run {
    let mut gate = Gate::new(4);
    let mut extents = Extents::new();
    let mut prober = Prober::new();
    let mut walks: Vec<RowWalk> = Vec::new();
    let mut steps = 0;
    let mut highest = 0;
    while let Some(req) = prober.next_request() {
        let found = fetch(&server, req, max_group, &mut gate, &mut extents, &mut steps, &mut highest);
        let out = prober.on_response(found);
        if out.depth_settled {
            extents.reset_count();
        }
        if let Some(w) = out.launch {
            walks.push(w);
        }
    }
    if prober.phase == Phase::Finished {
        extents.set_height(prober.row);
    }
    // Rows finish in an order of their own: walk them last first.
    let mut row_ends = Vec::new();
    for mut w in walks.into_iter().rev() {
        while let Some(req) = w.next_request() {
            let found = fetch(&server, req, max_group, &mut gate, &mut extents, &mut steps, &mut highest);
            if let Some(end) = w.on_response(found) {
                extents.record_row_end(end);
                row_ends.push((w.y, end));
            }
        }
    }
    assert_eq!(gate.outstanding(), 0);
    Run { prober, extents, row_ends, most_steps: steps, highest_group: highest }
}

fn grid_server(g: u32, x: u32, y: u32, z: u32) -> bool {
    g == 0 && (z < 3 && x == 0 && y == 0 || z == 3 && x < 5 && y < 3)
}

#[test]
fn scenario_single_group_grid() {
    let run = discover(grid_server, 32);
    assert_eq!(run.prober.phase, Phase::Finished);
    assert_eq!(run.prober.zoom, 3);
    assert_eq!(run.extents.width, 5);
    assert_eq!(run.extents.height, 3);
    assert_eq!(run.extents.count, 15);
    assert_eq!(run.extents.tile_total(), 15);
}

fn required_group(x: u32, y: u32, z: u32) -> u32 {
    if z < 3 {
        0
    } else {
        (y * 5 + x) / 4
    }
}

fn grouped_server(g: u32, x: u32, y: u32, z: u32) -> bool {
    grid_server(0, x, y, z) && g == required_group(x, y, z)
}

#[test]
fn scenario_group_advances_every_four_tiles() {
    let run = discover(grouped_server, 32);
    assert_eq!(run.prober.zoom, 3);
    assert_eq!(run.extents.width, 5);
    assert_eq!(run.extents.height, 3);
    assert_eq!(run.extents.count, 15);
    // No tile needed more than one step past its hint, far below the bound.
    assert!(run.most_steps <= 1);
    assert_eq!(run.highest_group, 3);
    assert!(run.highest_group < 32);
}

fn flaky_server(g: u32, x: u32, y: u32, z: u32) -> bool {
    // The tile (2, 1) at the highest zoom fails at the connection level,
    // which reaches the library as a plain failure.
    !(x == 2 && y == 1 && z == 3) && grid_server(g, x, y, z)
}

#[test]
fn scenario_connection_failure_reads_as_boundary() {
    let run = discover(flaky_server, 32);
    let row1 = run.row_ends.iter().find(|(y, _)| *y == 1).unwrap();
    // Row 1 ends at the failed tile, exactly as if the grid ended there.
    assert_eq!(row1.1, 2);
    assert_eq!(run.extents.width, 5);
    assert_eq!(run.extents.height, 3);
    assert_eq!(run.extents.count, 12);
}

#[test]
fn no_tile_at_all_leaves_prober_empty() {
    let run = discover(|_, _, _, _| false, 2);
    assert_eq!(run.prober.phase, Phase::Empty);
    assert_eq!(run.prober.next_request(), None);
    assert_eq!(run.extents.count, 0);
}

#[test]
fn single_tile_pyramid() {
    let run = discover(|g, x, y, z| g == 0 && x == 0 && y == 0 && z == 0, 1);
    assert_eq!(run.prober.zoom, 0);
    assert_eq!(run.extents.width, 1);
    assert_eq!(run.extents.height, 1);
    assert_eq!(run.extents.count, 1);
}

#[test]
fn hint_above_maximum_makes_no_request() {
    let req = TileRequest { x: 0, y: 0, zoom: 0, group: 40 };
    assert_eq!(count_requests(|_, _, _, _| true, req, 32), 0);
}

#[test]
fn exhaustion_tries_every_index_up_to_maximum() {
    let req = TileRequest { x: 0, y: 0, zoom: 0, group: 30 };
    assert_eq!(count_requests(|_, _, _, _| false, req, 32), 3);
}

#[test]
fn grouped_tile_found_after_two_requests() {
    // Tile (4, 0) at zoom 3 is number 4 in raster order: group 1, hint 0.
    let req = TileRequest { x: 4, y: 0, zoom: 3, group: 0 };
    assert_eq!(count_requests(grouped_server, req, 32), 2);
}
