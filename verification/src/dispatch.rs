//! The decisions of the tile endpoint: reading the address of a tile from
//! the URL, and what is answered before any pixel is read.
use vstd::prelude::*;
use vstd::string::*;
use crate::errors::{debug_quoted, debug_text, MapEngineError};
use crate::tiles::{png_tile, unsupported_text, Tile, TileView};
use crate::pixels::{empty_tile, tile_png, EmptyTile};

verus! {

/// The value of a decimal digit, if the character is one.
pub open spec fn digit_value(c: char) -> Option<int> {
    if '0' <= c <= '9' {
        Some(c as int - '0' as int)
    } else {
        None
    }
}

/// True iff every character is a decimal digit.
pub open spec fn all_digits(s: Seq<char>) -> bool {
    forall|i: int| 0 <= i < s.len() ==> digit_value(#[trigger] s[i]) is Some
}

/// The number that a text of decimal digits writes.
pub open spec fn decimal_value(s: Seq<char>) -> int
    decreases s.len(),
{
    if s.len() == 0 {
        0
    } else {
        10 * decimal_value(s.drop_last()) + digit_value(s.last()).unwrap()
    }
}

/// The number that a text of decimal digits writes, where there is a
/// digit or more and the value fits in 32 bits.
pub open spec fn spec_parse_digits(s: Seq<char>) -> Option<u32> {
    if s.len() > 0 && all_digits(s) && decimal_value(s) <= u32::MAX {
        Some(decimal_value(s) as u32)
    } else {
        None
    }
}

/// The text without one leading `+`.
pub open spec fn unsigned_part(s: Seq<char>) -> Seq<char> {
    if s.len() > 0 && s[0] == '+' {
        s.drop_first()
    } else {
        s
    }
}

/// The unsigned integer that a text writes: one decimal digit or more, of a
/// value that fits in 32 bits, after at most one `+`.
pub open spec fn spec_parse_u32(s: Seq<char>) -> Option<u32> {
    spec_parse_digits(unsigned_part(s))
}

proof fn lemma_decimal_grows(s: Seq<char>, i: int)
    requires
        all_digits(s),
        0 <= i <= s.len(),
    ensures
        0 <= decimal_value(s.subrange(0, i)) <= decimal_value(s),
    decreases s.len() - i,
{
    if i == s.len() {
        assert(s.subrange(0, i) =~= s);
        lemma_decimal_nonnegative(s);
    } else {
        lemma_decimal_grows(s, i + 1);
        assert(s.subrange(0, i + 1).drop_last() =~= s.subrange(0, i));
        assert(digit_value(s[i]) is Some);
        lemma_decimal_nonnegative(s.subrange(0, i));
    }
}

proof fn lemma_decimal_nonnegative(s: Seq<char>)
    requires
        all_digits(s),
    ensures
        0 <= decimal_value(s),
    decreases s.len(),
{
    if s.len() > 0 {
        lemma_decimal_nonnegative(s.drop_last());
        assert(digit_value(s.last()) is Some);
    }
}

/// Reads an unsigned integer in decimal notation. A `+` may stand before
/// the digits.
pub fn parse_u32(s: &str) -> (r: Option<u32>)
    ensures
        r == spec_parse_u32(s@),
{
    let n: usize = s.unicode_len();
    if n > 0 && s.get_char(0) == '+' {
        let digits: &str = s.substring_char(1, n);
        proof {
            assert(s@.subrange(1, n as int) =~= s@.drop_first());
        }
        parse_digits(digits)
    } else {
        parse_digits(s)
    }
}

fn parse_digits(s: &str) -> (r: Option<u32>)
    ensures
        r == spec_parse_digits(s@),
{
    let n: usize = s.unicode_len();
    if n == 0 {
        return None;
    }
    let mut value: u64 = 0;
    let mut i: usize = 0;
    proof {
        assert(s@.subrange(0, 0) =~= Seq::<char>::empty());
    }
    while i < n
        invariant
            n == s@.len(),
            i <= n,
            all_digits(s@.subrange(0, i as int)),
            value == decimal_value(s@.subrange(0, i as int)),
            value <= u32::MAX,
        decreases n - i,
    {
        let c: char = s.get_char(i);
        if !('0' <= c && c <= '9') {
            proof {
                assert(digit_value(s@[i as int]) is None);
            }
            return None;
        }
        let digit: u64 = (c as u32 - '0' as u32) as u64;
        let next: u64 = value * 10 + digit;
        proof {
            let prefix = s@.subrange(0, i + 1);
            assert(prefix.drop_last() =~= s@.subrange(0, i as int));
            assert(prefix.last() == c);
            assert(all_digits(prefix)) by {
                assert forall|j: int| 0 <= j < prefix.len() implies digit_value(
                    #[trigger] prefix[j],
                ) is Some by {
                    if j < i {
                        assert(prefix[j] == s@.subrange(0, i as int)[j]);
                    }
                }
            }
            assert(next == decimal_value(prefix));
        }
        if next > 0xffff_ffff {
            proof {
                if all_digits(s@) {
                    lemma_decimal_grows(s@, i + 1);
                }
            }
            return None;
        }
        value = next;
        i = i + 1;
    }
    proof {
        assert(s@.subrange(0, n as int) =~= s@);
    }
    Some(value as u32)
}

/// Index of the first `.` at or after `from`; the length where there is none.
pub open spec fn find_dot(s: Seq<char>, from: int) -> int
    decreases s.len() - from,
{
    if from >= s.len() {
        s.len() as int
    } else if s[from] == '.' {
        from
    } else {
        find_dot(s, from + 1)
    }
}

/// The text before the first `.`: the row of the tile.
pub open spec fn row_part(y_ext: Seq<char>) -> Seq<char> {
    y_ext.subrange(0, find_dot(y_ext, 0))
}

/// The text between the first `.` and the next: the format asked for.
/// Without a `.` it is `png`.
pub open spec fn ext_part(y_ext: Seq<char>) -> Seq<char> {
    let dot = find_dot(y_ext, 0);
    if dot >= y_ext.len() {
        "png"@
    } else {
        y_ext.subrange(dot + 1, find_dot(y_ext, dot + 1))
    }
}

fn scan_dot(s: &str, from: usize) -> (r: usize)
    requires
        from <= s@.len(),
    ensures
        r == find_dot(s@, from as int),
        from <= r <= s@.len(),
{
    let n: usize = s.unicode_len();
    let mut i: usize = from;
    while i < n && s.get_char(i) != '.'
        invariant
            n == s@.len(),
            from <= i <= n,
            find_dot(s@, from as int) == find_dot(s@, i as int),
        decreases n - i,
    {
        i = i + 1;
    }
    i
}

/// Why a tile request is refused before the map is looked up.
pub enum RequestFault {
    /// `z`, `x` or the row is not an unsigned integer.
    NotANumber,
    /// The format is not offered.
    Format,
}

/// What the three URL segments `z`, `x` and `y[.ext]` ask for. The numbers
/// are read first, then the format is tested. Whether the address lies on
/// the grid is not asked here.
pub open spec fn spec_tile_request(z: Seq<char>, x: Seq<char>, y_ext: Seq<char>) -> Result<
    TileView,
    RequestFault,
> {
    match (spec_parse_u32(z), spec_parse_u32(x), spec_parse_u32(row_part(y_ext))) {
        (Some(zoom), Some(col), Some(row)) => {
            if ext_part(y_ext) != "png"@ {
                Err(RequestFault::Format)
            } else {
                Ok(png_tile(col as int, row as int, zoom as int))
            }
        },
        _ => Err(RequestFault::NotANumber),
    }
}

/// The text sent back for each fault.
pub open spec fn fault_text(fault: RequestFault, y_ext: Seq<char>) -> Seq<char> {
    match fault {
        RequestFault::NotANumber => "The tile coordinates must be unsigned integers"@,
        RequestFault::Format => unsupported_text(ext_part(y_ext)),
    }
}

/// The text sent back for a tile that is not on the grid.
pub open spec fn off_grid_text() -> Seq<char> {
    "The tile coordinates are outside the grid"@
}

/// What is sent back for a request.
#[derive(Debug)]
pub enum Body {
    /// A message, as plain text.
    Text(String),
    /// A PNG image.
    Png(Vec<u8>),
}

/// An HTTP answer: its status code and its body.
#[derive(Debug)]
pub struct Response {
    pub status: u16,
    pub body: Body,
}

/// Status of a tile that is served.
pub const STATUS_OK: u16 = 200;

/// Status of a request for a map that is not registered.
pub const STATUS_NOT_FOUND: u16 = 404;

/// Status of a request for a tile that cannot be addressed or a format
/// that is not offered.
pub const STATUS_NOT_IMPLEMENTED: u16 = 501;

fn refuse(text: String) -> (r: MapEngineError)
    ensures
        r matches MapEngineError::TileError(m) && m@ == text@,
{
    MapEngineError::TileError(text)
}

/// Reads the tile that the URL segments `z`, `x` and `y[.ext]` address.
/// The three numbers are unsigned integers, and the format, where one is
/// written, is `png`. This is decided before the map is looked up.
pub fn read_tile_request(z: &str, x: &str, y_ext: &str) -> (r: Result<Tile, MapEngineError>)
    ensures
        match r {
            Ok(tile) => spec_tile_request(z@, x@, y_ext@) == Ok::<TileView, RequestFault>(tile@),
            Err(e) => spec_tile_request(z@, x@, y_ext@) matches Err(fault) && (e matches MapEngineError::TileError(
                m,
            ) && m@ == fault_text(fault, y_ext@)),
        },
{
    let dot: usize = scan_dot(y_ext, 0);
    let row_text: &str = y_ext.substring_char(0, dot);
    let zoom: u32 = match parse_u32(z) {
        Some(v) => v,
        None => {
            return Err(refuse("The tile coordinates must be unsigned integers".to_owned()));
        },
    };
    let col: u32 = match parse_u32(x) {
        Some(v) => v,
        None => {
            return Err(refuse("The tile coordinates must be unsigned integers".to_owned()));
        },
    };
    let row: u32 = match parse_u32(row_text) {
        Some(v) => v,
        None => {
            return Err(refuse("The tile coordinates must be unsigned integers".to_owned()));
        },
    };
    let mut tile = Tile::new(col, row, zoom);
    let n: usize = y_ext.unicode_len();
    if dot < n {
        let next: usize = scan_dot(y_ext, dot + 1);
        let ext: &str = y_ext.substring_char(dot + 1, next);
        match tile.set_extension(ext) {
            Ok(()) => {},
            Err(e) => {
                return Err(e);
            },
        }
    }
    Ok(tile)
}

/// Checks that a tile lies on the grid. This is asked once the map is
/// found.
pub fn check_grid(tile: &Tile) -> (r: Result<(), MapEngineError>)
    ensures
        match r {
            Ok(()) => tile@.on_grid(),
            Err(e) => !tile@.on_grid() && (e matches MapEngineError::TileError(m) && m@
                == off_grid_text()),
        },
{
    if tile.is_on_grid() {
        Ok(())
    } else {
        Err(refuse("The tile coordinates are outside the grid".to_owned()))
    }
}

/// The text of the answer for a map that is not registered.
pub open spec fn missing_map_text(map_name: Seq<char>) -> Seq<char> {
    "The map "@ + debug_text(map_name) + " does not exist"@
}

/// The error for a map that is not registered.
pub fn missing_map(map_name: &str) -> (e: MapEngineError)
    ensures
        e matches MapEngineError::Msg(m) && m@ == missing_map_text(map_name@),
{
    MapEngineError::Msg(
        "The map ".to_owned().concat(debug_quoted(map_name).as_str()).concat(" does not exist"),
    )
}

/// The two kinds of source that a map can have.
#[derive(Debug, PartialEq, Eq, Copy, Clone, Structural)]
pub enum GeoKind {
    Raster,
    Vector,
}

/// Status of a registration whose kind of source is neither.
pub const STATUS_BAD_REQUEST: u16 = 400;

/// The kind of source that a text names.
pub open spec fn spec_geo_kind(text: Seq<char>) -> Option<GeoKind> {
    if text == "raster"@ {
        Some(GeoKind::Raster)
    } else if text == "vector"@ {
        Some(GeoKind::Vector)
    } else {
        None
    }
}

/// Reads the kind of source of a map that is to be registered. Any text
/// but `raster` and `vector` is answered with status 400.
pub fn read_geo_kind(text: &str) -> (r: Result<GeoKind, Response>)
    ensures
        match r {
            Ok(kind) => spec_geo_kind(text@) == Some(kind),
            Err(answer) => spec_geo_kind(text@) is None && answer.status == STATUS_BAD_REQUEST
                && (answer.body matches Body::Text(t) && t@ == "invalid geo type"@),
        },
{
    let given: String = text.to_owned();
    if given == "raster".to_owned() {
        Ok(GeoKind::Raster)
    } else if given == "vector".to_owned() {
        Ok(GeoKind::Vector)
    } else {
        Err(
            Response {
                status: STATUS_BAD_REQUEST,
                body: Body::Text("invalid geo type".to_owned()),
            },
        )
    }
}

/// What the tile endpoint does next.
#[derive(Debug)]
pub enum Action {
    /// Send this answer.
    Respond(Response),
    /// Read the tile from the raster, style it and send it.
    Render,
}

/// The answer for a request that is refused: the text of a tile error
/// without its prefix, with status 501.
pub fn refusal(e: MapEngineError) -> (r: Response)
    ensures
        r.status == STATUS_NOT_IMPLEMENTED,
        match e {
            MapEngineError::TileError(m) => r.body matches Body::Text(t) && t@ == m@,
            MapEngineError::EncodingError(_) => r.body is Text,
            _ => r.body matches Body::Text(t) && Some(t@) == e.spec_message(),
        },
{
    let text: String = match e {
        MapEngineError::TileError(m) => m,
        other => other.message(),
    };
    Response { status: STATUS_NOT_IMPLEMENTED, body: Body::Text(text) }
}

/// The answer for a map that is not registered: status 404 and the text
/// that names the map.
pub fn not_found(map_name: &str) -> (r: Response)
    ensures
        r.status == STATUS_NOT_FOUND,
        r.body matches Body::Text(t) && t@ == missing_map_text(map_name@),
{
    let text: String = match missing_map(map_name) {
        MapEngineError::Msg(m) => m,
        _ => unreached(),
    };
    Response { status: STATUS_NOT_FOUND, body: Body::Text(text) }
}

/// Decides what follows the lookup of the map of a tile request. A map
/// that is not registered is answered with status 404; a tile of a
/// registered map that is not on the grid with status 501; else the
/// request goes on.
pub fn after_lookup(found: bool, map_name: &str, tile: &Tile) -> (r: Option<Response>)
    ensures
        match r {
            None => found && tile@.on_grid(),
            Some(answer) => if !found {
                answer.status == STATUS_NOT_FOUND && (answer.body matches Body::Text(t) && t@
                    == missing_map_text(map_name@))
            } else {
                !tile@.on_grid() && answer.status == STATUS_NOT_IMPLEMENTED && (answer.body matches Body::Text(
                    t,
                ) && t@ == off_grid_text())
            },
        },
{
    if !found {
        return Some(not_found(map_name));
    }
    match check_grid(tile) {
        Ok(()) => None,
        Err(e) => Some(refusal(e)),
    }
}

/// Decides what to do for a tile of a registered raster. Where the raster
/// does not intersect the tile, the answer is the PNG file of the empty
/// tile, byte for byte, with status 200; else the tile is to be rendered.
pub fn serve_raster(intersects: bool, empty: &EmptyTile) -> (a: Action)
    ensures
        intersects ==> a is Render,
        !intersects ==> (a matches Action::Respond(r) && r.status == STATUS_OK && (r.body matches Body::Png(
            bytes,
        ) && bytes@ == tile_png(empty_tile()))),
{
    if intersects {
        Action::Render
    } else {
        Action::Respond(Response { status: STATUS_OK, body: Body::Png(empty.png().clone()) })
    }
}

/// The answer that carries a rendered tile: status 200 and the PNG.
pub fn rendered(png: Vec<u8>) -> (r: Response)
    ensures
        r.status == STATUS_OK,
        r.body matches Body::Png(bytes) && bytes@ == png@,
{
    Response { status: STATUS_OK, body: Body::Png(png) }
}

} // verus!
