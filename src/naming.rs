//! Request addresses, tile file names and the composer's argument list.
use vstd::prelude::*;
use vstd::string::*;

verus! {

/// The decimal digit `d` as a character.
pub open spec fn digit_char(d: nat) -> char {
    seq!['0', '1', '2', '3', '4', '5', '6', '7', '8', '9'][d as int]
}

/// `n` written in decimal, without leading zeros.
pub open spec fn decimal(n: nat) -> Seq<char>
    decreases n,
{
    if n < 10 {
        seq![digit_char(n)]
    } else {
        decimal(n / 10).push(digit_char(n % 10))
    }
}

/// `{zoom}-{x}-{y}.jpg`: the name under which a tile is requested and stored.
pub open spec fn file_name(zoom: u32, x: u32, y: u32) -> Seq<char> {
    decimal(zoom as nat) + seq!['-'] + decimal(x as nat) + seq!['-'] + decimal(y as nat) + seq![
        '.',
        'j',
        'p',
        'g',
    ]
}

/// `{base}/TileGroup{group}/{zoom}-{x}-{y}.jpg`.
pub open spec fn url_of(base: Seq<char>, group: u32, zoom: u32, x: u32, y: u32) -> Seq<char> {
    base + seq!['/', 'T', 'i', 'l', 'e', 'G', 'r', 'o', 'u', 'p'] + decimal(group as nat) + seq![
        '/',
    ] + file_name(zoom, x, y)
}

/// `{dir}/{zoom}-{x}-{y}.jpg`.
pub open spec fn path_of(dir: Seq<char>, zoom: u32, x: u32, y: u32) -> Seq<char> {
    dir + seq!['/'] + file_name(zoom, x, y)
}

/// `{width}x{height}`.
pub open spec fn geometry_of(width: u32, height: u32) -> Seq<char> {
    decimal(width as nat) + seq!['x'] + decimal(height as nat)
}

fn digit_str(d: u32) -> (r: &'static str)
    requires
        d < 10,
    ensures
        r@ == seq![digit_char(d as nat)],
{
    proof {
        reveal_strlit("0");
        reveal_strlit("1");
        reveal_strlit("2");
        reveal_strlit("3");
        reveal_strlit("4");
        reveal_strlit("5");
        reveal_strlit("6");
        reveal_strlit("7");
        reveal_strlit("8");
        reveal_strlit("9");
    }
    match d {
        0 => "0",
        1 => "1",
        2 => "2",
        3 => "3",
        4 => "4",
        5 => "5",
        6 => "6",
        7 => "7",
        8 => "8",
        _ => "9",
    }
}

/// Appends `n` in decimal to `s`.
pub fn push_decimal(s: &mut String, n: u32)
    ensures
        final(s)@ == old(s)@ + decimal(n as nat),
    decreases n,
{
    if n >= 10 {
        push_decimal(s, n / 10);
    }
    s.append(digit_str(n % 10));
    proof {
        assert(old(s)@ + decimal(n as nat) =~= final(s)@) by {
            if n >= 10 {
                assert(decimal(n as nat) == decimal((n / 10) as nat).push(digit_char((n % 10) as nat)));
            }
        }
    }
}

/// `n` in decimal.
pub fn decimal_string(n: u32) -> (r: String)
    ensures
        r@ == decimal(n as nat),
{
    let mut s = String::new();
    push_decimal(&mut s, n);
    proof {
        assert(s@ =~= decimal(n as nat));
    }
    s
}

fn push_file_name(s: &mut String, zoom: u32, x: u32, y: u32)
    ensures
        final(s)@ == old(s)@ + file_name(zoom, x, y),
{
    proof {
        reveal_strlit("-");
        reveal_strlit(".jpg");
    }
    push_decimal(s, zoom);
    s.append("-");
    push_decimal(s, x);
    s.append("-");
    push_decimal(s, y);
    s.append(".jpg");
    proof {
        assert(final(s)@ =~= old(s)@ + file_name(zoom, x, y));
    }
}

/// The file name of tile `(x, y)` at `zoom`: `{zoom}-{x}-{y}.jpg`.
pub fn tile_file_name(zoom: u32, x: u32, y: u32) -> (r: String)
    ensures
        r@ == file_name(zoom, x, y),
{
    let mut s = String::new();
    push_file_name(&mut s, zoom, x, y);
    proof {
        assert(s@ =~= file_name(zoom, x, y));
    }
    s
}

/// The address of tile `(x, y)` at `zoom` under grouping index `group`:
/// `{base}/TileGroup{group}/{zoom}-{x}-{y}.jpg`.
pub fn tile_url(base: &str, group: u32, zoom: u32, x: u32, y: u32) -> (r: String)
    ensures
        r@ == url_of(base@, group, zoom, x, y),
{
    proof {
        reveal_strlit("/TileGroup");
        reveal_strlit("/");
    }
    let mut s = String::from_str(base);
    s.append("/TileGroup");
    push_decimal(&mut s, group);
    s.append("/");
    push_file_name(&mut s, zoom, x, y);
    proof {
        assert(s@ =~= url_of(base@, group, zoom, x, y));
    }
    s
}

/// Where tile `(x, y)` at `zoom` is stored: `{dir}/{zoom}-{x}-{y}.jpg`.
pub fn tile_path(dir: &str, zoom: u32, x: u32, y: u32) -> (r: String)
    ensures
        r@ == path_of(dir@, zoom, x, y),
{
    proof {
        reveal_strlit("/");
    }
    let mut s = String::from_str(dir);
    s.append("/");
    push_file_name(&mut s, zoom, x, y);
    proof {
        assert(s@ =~= path_of(dir@, zoom, x, y));
    }
    s
}

/// A grid or tile geometry: `{width}x{height}`.
pub fn grid_geometry(width: u32, height: u32) -> (r: String)
    ensures
        r@ == geometry_of(width, height),
{
    proof {
        reveal_strlit("x");
    }
    let mut s = String::new();
    push_decimal(&mut s, width);
    s.append("x");
    push_decimal(&mut s, height);
    proof {
        assert(s@ =~= geometry_of(width, height));
    }
    s
}

} // verus!
