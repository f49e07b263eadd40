//! The argument list handed to the image composer once the grid is known.
use vstd::prelude::*;
use vstd::string::*;
use crate::naming::{geometry_of, grid_geometry, path_of, tile_path};
use crate::TILE_SIDE;

verus! {

pub open spec fn montage_word() -> Seq<char> {
    seq!['m', 'o', 'n', 't', 'a', 'g', 'e']
}

pub open spec fn tile_flag() -> Seq<char> {
    seq!['-', 't', 'i', 'l', 'e']
}

pub open spec fn geometry_flag() -> Seq<char> {
    seq!['-', 'g', 'e', 'o', 'm', 'e', 't', 'r', 'y']
}

/// The arguments of the composer's montage command: `montage`, the path of
/// every tile of the `width` by `height` grid at `zoom` in row-major order,
/// `-tile {width}x{height}`, `-geometry 256x256`, and the output path.
pub fn montage_args(dir: &str, zoom: u32, width: u32, height: u32, output: &str) -> (r: Vec<String>)
    requires
        width as int * height as int + 6 <= usize::MAX,
    ensures
        r.len() == width * height + 6,
        r[0]@ == montage_word(),
        forall|x: u32, y: u32|
            x < width && y < height ==> r[1 + y * width + x]@ == #[trigger] path_of(dir@, zoom, x, y),
        r[1 + width * height]@ == tile_flag(),
        r[2 + width * height]@ == geometry_of(width, height),
        r[3 + width * height]@ == geometry_flag(),
        r[4 + width * height]@ == geometry_of(TILE_SIDE, TILE_SIDE),
        r[5 + width * height]@ == output@,
{
    proof {
        reveal_strlit("montage");
        reveal_strlit("-tile");
        reveal_strlit("-geometry");
    }
    let mut r: Vec<String> = Vec::new();
    r.push(String::from_str("montage"));
    let mut y: u32 = 0;
    while y < height
        invariant
            y <= height,
            width as int * height as int + 6 <= usize::MAX,
            r.len() == 1 + y * width,
            r[0]@ == montage_word(),
            forall|xx: u32, yy: u32|
                xx < width && yy < y ==> r[1 + yy * width + xx]@ == #[trigger] path_of(dir@, zoom, xx, yy),
        decreases height - y,
    {
        let mut x: u32 = 0;
        while x < width
            invariant
                x <= width,
                y < height,
                width as int * height as int + 6 <= usize::MAX,
                r.len() == 1 + y * width + x,
                r[0]@ == montage_word(),
                forall|xx: u32, yy: u32|
                    xx < width && yy < y ==> r[1 + yy * width + xx]@ == #[trigger] path_of(dir@, zoom, xx, yy),
                forall|xx: u32|
                    xx < x ==> r[1 + y * width + xx]@ == #[trigger] path_of(dir@, zoom, xx, y),
            decreases width - x,
        {
            proof {
                assert(y * width + x < width * height) by (nonlinear_arith)
                    requires x < width, y < height;
            }
            r.push(tile_path(dir, zoom, x, y));
            proof {
                assert forall|xx: u32, yy: u32|
                    xx < width && yy < y implies r[1 + yy * width + xx]@ == #[trigger] path_of(dir@, zoom, xx, yy) by {
                    assert(yy * width + xx < y * width) by (nonlinear_arith)
                        requires xx < width, yy < y;
                }
            }
            x = x + 1;
        }
        proof {
            assert((y + 1) * width == y * width + width) by (nonlinear_arith);
            assert forall|xx: u32, yy: u32|
                xx < width && yy < y + 1 implies r[1 + yy * width + xx]@ == #[trigger] path_of(dir@, zoom, xx, yy) by {
                if yy < y {
                } else {
                    assert(yy == y);
                }
            }
        }
        y = y + 1;
    }
    proof {
        assert(height * width == width * height) by (nonlinear_arith);
    }
    r.push(String::from_str("-tile"));
    r.push(grid_geometry(width, height));
    r.push(String::from_str("-geometry"));
    r.push(grid_geometry(TILE_SIDE, TILE_SIDE));
    r.push(String::from_str(output));
    proof {
        assert forall|x: u32, yy: u32|
            x < width && yy < height implies r[1 + yy * width + x]@ == #[trigger] path_of(dir@, zoom, x, yy) by {
            assert(yy * width + x < width * height) by (nonlinear_arith)
                requires x < width, yy < height;
        }
    }
    r
}

} // verus!
