//! XYZ web mercator tiles: addressing, zooming, and the pixel window of a tile.
use vstd::prelude::*;
use vstd::string::*;
use vstd::arithmetic::power2::*;
use vstd::arithmetic::div_mod::lemma_div_denominator;
use crate::errors::{debug_quoted, debug_text, MapEngineError};
use crate::windows::{max_int, min_int, Window};
use crate::{is_supported_format, MAXZOOMLEVEL};

verus! {

/// An XYZ web mercator tile.
#[derive(Debug, PartialEq)]
pub struct Tile {
    /// Column index.
    pub x: u32,
    /// Row index.
    pub y: u32,
    /// Zoom level.
    pub z: u32,
    /// Image format.
    ext: Option<String>,
}

/// What a tile is: its address and the name of its image format.
pub struct TileView {
    pub x: int,
    pub y: int,
    pub z: int,
    pub ext: Option<Seq<char>>,
}

/// The tile at an address, in the PNG format.
pub open spec fn png_tile(x: int, y: int, z: int) -> TileView {
    TileView { x, y, z, ext: Some("png"@) }
}

/// Child `k` of a tile, one level down: upper-left, upper-right,
/// lower-right, lower-left for `k` from 0 to 3.
pub open spec fn child(t: TileView, k: int) -> TileView {
    if k == 0 {
        png_tile(2 * t.x, 2 * t.y, t.z + 1)
    } else if k == 1 {
        png_tile(2 * t.x + 1, 2 * t.y, t.z + 1)
    } else if k == 2 {
        png_tile(2 * t.x + 1, 2 * t.y + 1, t.z + 1)
    } else {
        png_tile(2 * t.x, 2 * t.y + 1, t.z + 1)
    }
}

/// Every tile of a list replaced by its four children, in place.
pub open spec fn expand(s: Seq<TileView>) -> Seq<TileView> {
    Seq::new(4 * s.len(), |i: int| child(s[i / 4], i % 4))
}

/// The tiles `steps` levels below a tile, in the order that repeated
/// expansion gives.
pub open spec fn descendants(t: TileView, steps: nat) -> Seq<TileView>
    decreases steps,
{
    if steps == 0 {
        seq![png_tile(t.x, t.y, t.z)]
    } else {
        expand(descendants(t, (steps - 1) as nat))
    }
}

/// The tile at level `target` that contains a tile; the tile itself where
/// `target` is not above it.
pub open spec fn ancestor(t: TileView, target: int) -> TileView {
    if target >= t.z {
        png_tile(t.x, t.y, t.z)
    } else {
        let span = pow2((t.z - target) as nat) as int;
        png_tile(t.x / span, t.y / span, target)
    }
}

/// What `zoom_out` returns: nothing at level 0, else the ancestor at the
/// level asked for, or one level up.
pub open spec fn spec_zoom_out(t: TileView, zoom: Option<u32>) -> Option<TileView> {
    if t.z == 0 {
        None
    } else {
        Some(ancestor(t, match zoom { Some(target) => target as int, None => t.z - 1 }))
    }
}

/// What `zoom_in` returns: nothing at the deepest level, else the
/// descendants at the level asked for, or one level down.
pub open spec fn spec_zoom_in(t: TileView, zoom: Option<u32>) -> Option<Seq<TileView>> {
    if t.z == MAXZOOMLEVEL {
        None
    } else {
        let target = match zoom { Some(target) => target as int, None => t.z + 1 };
        Some(descendants(t, if target > t.z { (target - t.z) as nat } else { 0 }))
    }
}

/// The views of a list of tiles.
pub open spec fn tile_views(s: Seq<Tile>) -> Seq<TileView> {
    s.map_values(|t: Tile| t@)
}

impl View for Tile {
    type V = TileView;

    closed spec fn view(&self) -> TileView {
        TileView {
            x: self.x as int,
            y: self.y as int,
            z: self.z as int,
            ext: match self.ext { Some(e) => Some(e@), None => None },
        }
    }
}

impl TileView {
    /// True iff the address lies on the tile grid: the zoom level is one
    /// that is supported, and column and row are below two to its power.
    pub open spec fn on_grid(self) -> bool {
        &&& 0 <= self.z <= MAXZOOMLEVEL
        &&& 0 <= self.x < pow2(self.z as nat)
        &&& 0 <= self.y < pow2(self.z as nat)
    }

    /// True iff the address lies on the tile grid and the format is one
    /// that can be requested.
    pub open spec fn valid(self) -> bool {
        &&& self.on_grid()
        &&& self.ext matches Some(e) && is_supported_format(e)
    }
}

/// The number of columns and of rows of the grid at a zoom level.
fn grid_side(zoom: u32) -> (r: u64)
    requires
        zoom <= MAXZOOMLEVEL,
    ensures
        r == pow2(zoom as nat),
{
    let mut side: u64 = 1;
    let mut level: u32 = 0;
    proof {
        lemma2_to64();
    }
    while level < zoom
        invariant
            level <= zoom <= MAXZOOMLEVEL,
            side == pow2(level as nat),
            pow2(32) == 0x100000000,
        decreases zoom - level,
    {
        proof {
            lemma_pow2_unfold((level + 1) as nat);
            if level + 1 < 32 {
                lemma_pow2_strictly_increases((level + 1) as nat, 32);
            }
        }
        side = side * 2;
        level = level + 1;
    }
    side
}

impl Tile {
    /// Creates the tile at column `x`, row `y` of level `z`, as a PNG.
    pub fn new(x: u32, y: u32, z: u32) -> (t: Self)
        ensures
            t@ == png_tile(x as int, y as int, z as int),
    {
        Self { x, y, z, ext: Some("png".to_owned()) }
    }

    /// The fields `x`, `y`, `z` are those of the view.
    proof fn lemma_view_fields(&self)
        ensures
            self@.x == self.x,
            self@.y == self.y,
            self@.z == self.z,
    {
    }

    /// Sets the image format. Only `png` is accepted; any other name leaves
    /// the tile as it was.
    pub fn set_extension(&mut self, ext: &str) -> (r: Result<(), MapEngineError>)
        ensures
            is_supported_format(ext@) ==> r is Ok && final(self)@ == (TileView {
                ext: Some(ext@),
                ..old(self)@
            }),
            !is_supported_format(ext@) ==> final(self)@ == old(self)@ && (r matches Err(
                MapEngineError::TileError(m),
            ) && m@ == unsupported_text(ext@)),
    {
        if ext.to_owned() != "png".to_owned() {
            let msg = "The extension ".to_owned().concat(debug_quoted(ext).as_str()).concat(
                " is not yet supported",
            );
            return Err(MapEngineError::TileError(msg));
        }
        self.ext = Some(ext.to_owned());
        Ok(())
    }

    /// Checks whether the address lies on the tile grid.
    pub fn is_on_grid(&self) -> (b: bool)
        ensures
            b == self@.on_grid(),
    {
        if self.z > MAXZOOMLEVEL {
            return false;
        }
        let side: u64 = grid_side(self.z);
        (self.x as u64) < side && (self.y as u64) < side
    }

    /// The address as `(x, y, z)`.
    pub fn to_tuple(&self) -> (r: (u32, u32, u32))
        ensures
            r.0 == self@.x,
            r.1 == self@.y,
            r.2 == self@.z,
    {
        (self.x, self.y, self.z)
    }

    /// The tile of a lower zoom level that contains this tile: of level
    /// `zoom`, or of the level above where `zoom` is `None`. At level 0 there
    /// is none. A `zoom` that is not above the tile gives the tile itself.
    pub fn zoom_out(&self, zoom: Option<u32>) -> (r: Option<Tile>)
        ensures
            r is None <==> self@.z == 0,
            match r {
                Some(t) => spec_zoom_out(self@, zoom) == Some(t@),
                None => spec_zoom_out(self@, zoom) is None,
            },
    {
        if self.z == 0 {
            return None;
        }
        let target_zoom: u32 = match zoom {
            Some(target) => target,
            None => self.z - 1,
        };
        let mut x: u32 = self.x;
        let mut y: u32 = self.y;
        let mut z: u32 = self.z;
        proof {
            lemma2_to64();
            assert(pow2((self.z - z) as nat) == 1);
        }
        while z > target_zoom
            invariant
                z <= self.z,
                target_zoom >= self.z ==> z == self.z,
                target_zoom < self.z ==> z >= target_zoom,
                x as int == (self.x as int) / (pow2((self.z - z) as nat) as int),
                y as int == (self.y as int) / (pow2((self.z - z) as nat) as int),
            decreases z,
        {
            proof {
                let k = (self.z - z) as nat;
                lemma_pow2_pos(k);
                lemma_pow2_unfold(k + 1);
                lemma_div_denominator(self.x as int, pow2(k) as int, 2);
                lemma_div_denominator(self.y as int, pow2(k) as int, 2);
            }
            x = x / 2;
            y = y / 2;
            z = z - 1;
        }
        Some(Tile::new(x, y, z))
    }

    /// The tiles of a higher zoom level that this tile contains: those of
    /// level `zoom`, or of the level below where `zoom` is `None`. At the
    /// deepest level there are none. Each step replaces every tile by its
    /// four children: upper-left, upper-right, lower-right, lower-left.
    pub fn zoom_in(&self, zoom: Option<u32>) -> (r: Option<Vec<Tile>>)
        requires
            self@.valid(),
            zoom matches Some(target) ==> target <= MAXZOOMLEVEL,
        ensures
            r is None <==> self@.z == MAXZOOMLEVEL,
            match r {
                Some(v) => spec_zoom_in(self@, zoom) == Some(tile_views(v@)),
                None => spec_zoom_in(self@, zoom) is None,
            },
    {
        if self.z == MAXZOOMLEVEL {
            return None;
        }
        let target_zoom: u32 = match zoom {
            Some(target) => target,
            None => self.z + 1,
        };
        let mut tiles: Vec<Tile> = Vec::new();
        tiles.push(Tile::new(self.x, self.y, self.z));
        let mut z: u32 = self.z;
        proof {
            assert(tile_views(tiles@) =~= descendants(self@, 0));
        }
        while z < target_zoom
            invariant
                self.z <= z <= MAXZOOMLEVEL,
                target_zoom <= MAXZOOMLEVEL,
                target_zoom <= self.z ==> z == self.z,
                target_zoom > self.z ==> z <= target_zoom,
                tile_views(tiles@) == descendants(self@, (z - self.z) as nat),
                forall|i: int|
                    0 <= i < tiles@.len() ==> (#[trigger] tiles@[i]).z == z && tiles@[i].x < pow2(
                        z as nat,
                    ) && tiles@[i].y < pow2(z as nat),
            decreases target_zoom - z,
        {
            let mut next: Vec<Tile> = Vec::new();
            let mut i: usize = 0;
            proof {
                lemma_pow2_unfold((z + 1) as nat);
                lemma_pow2_strictly_increases(z as nat, 32);
                lemma2_to64();
            }
            while i < tiles.len()
                invariant
                    z < MAXZOOMLEVEL,
                    i <= tiles@.len(),
                    next@.len() == 4 * i,
                    pow2((z + 1) as nat) == 2 * pow2(z as nat),
                    pow2((z + 1) as nat) <= pow2(32) == 0x100000000,
                    forall|j: int|
                        0 <= j < tiles@.len() ==> (#[trigger] tiles@[j]).z == z && tiles@[j].x
                            < pow2(z as nat) && tiles@[j].y < pow2(z as nat),
                    forall|j: int|
                        0 <= j < next@.len() ==> (#[trigger] next@[j])@ == child(
                            tiles@[j / 4]@,
                            j % 4,
                        ),
                    forall|j: int|
                        0 <= j < next@.len() ==> (#[trigger] next@[j]).z == z + 1 && next@[j].x
                            < pow2((z + 1) as nat) && next@[j].y < pow2((z + 1) as nat),
                decreases tiles@.len() - i,
            {
                let x: u32 = tiles[i].x;
                let y: u32 = tiles[i].y;
                proof {
                    tiles@[i as int].lemma_view_fields();
                }
                next.push(Tile::new(x * 2, y * 2, z + 1));
                next.push(Tile::new(x * 2 + 1, y * 2, z + 1));
                next.push(Tile::new(x * 2 + 1, y * 2 + 1, z + 1));
                next.push(Tile::new(x * 2, y * 2 + 1, z + 1));
                i = i + 1;
            }
            proof {
                assert(tile_views(next@) =~= expand(tile_views(tiles@)));
            }
            tiles = next;
            z = z + 1;
        }
        Some(tiles)
    }
}

/// The message for a tile format that is not offered.
pub open spec fn unsupported_text(ext: Seq<char>) -> Seq<char> {
    "The extension "@ + debug_text(ext) + " is not yet supported"@
}

/// The four corners of a tile on a raster, each as `(row, col)`: upper-left,
/// upper-right, lower-right, lower-left.
pub struct Corners {
    pub upper_left: (i32, i32),
    pub upper_right: (i32, i32),
    pub lower_right: (i32, i32),
    pub lower_left: (i32, i32),
}

impl Corners {
    /// True iff the corners do not form a rectangle along the pixel axes:
    /// the upper two differ in row, or the lower two, or the left two differ
    /// in column, or the right two.
    pub open spec fn spec_is_skewed(self) -> bool {
        ||| self.upper_left.0 != self.upper_right.0
        ||| self.lower_right.0 != self.lower_left.0
        ||| self.upper_left.1 != self.lower_left.1
        ||| self.upper_right.1 != self.lower_right.1
    }

    /// The least row of the four corners.
    pub open spec fn min_row(self) -> int {
        min_int(
            min_int(self.upper_left.0 as int, self.upper_right.0 as int),
            min_int(self.lower_right.0 as int, self.lower_left.0 as int),
        )
    }

    /// The greatest row of the four corners.
    pub open spec fn max_row(self) -> int {
        max_int(
            max_int(self.upper_left.0 as int, self.upper_right.0 as int),
            max_int(self.lower_right.0 as int, self.lower_left.0 as int),
        )
    }

    /// The least column of the four corners.
    pub open spec fn min_col(self) -> int {
        min_int(
            min_int(self.upper_left.1 as int, self.upper_right.1 as int),
            min_int(self.lower_right.1 as int, self.lower_left.1 as int),
        )
    }

    /// The greatest column of the four corners.
    pub open spec fn max_col(self) -> int {
        max_int(
            max_int(self.upper_left.1 as int, self.upper_right.1 as int),
            max_int(self.lower_right.1 as int, self.lower_left.1 as int),
        )
    }

    /// The smallest window along the pixel axes that holds the four
    /// corners, one pixel wider and higher than their spread.
    pub open spec fn bounding_window(self) -> Window {
        Window {
            col_off: self.min_col() as isize,
            row_off: self.min_row() as isize,
            width: (self.max_col() - self.min_col() + 1) as usize,
            height: (self.max_row() - self.min_row() + 1) as usize,
        }
    }

    /// Checks whether the corners are skewed against the pixel axes.
    pub fn is_skewed(&self) -> (b: bool)
        ensures
            b == self.spec_is_skewed(),
    {
        self.upper_left.0 != self.upper_right.0 || self.lower_right.0 != self.lower_left.0
            || self.upper_left.1 != self.lower_left.1 || self.upper_right.1
            != self.lower_right.1
    }

    /// The window of the tile on the raster, and whether the tile is skewed.
    /// The window is the bounding window of the four corners.
    pub fn to_window(&self) -> (r: (Window, bool))
        requires
            self.max_col() - self.min_col() < usize::MAX,
            self.max_row() - self.min_row() < usize::MAX,
        ensures
            r.0 == self.bounding_window(),
            r.1 == self.spec_is_skewed(),
            r.0.covers(self.upper_left.1 as int, self.upper_left.0 as int),
            r.0.covers(self.upper_right.1 as int, self.upper_right.0 as int),
            r.0.covers(self.lower_right.1 as int, self.lower_right.0 as int),
            r.0.covers(self.lower_left.1 as int, self.lower_left.0 as int),
    {
        let min_row: i32 = lowest(
            lowest(self.upper_left.0, self.upper_right.0),
            lowest(self.lower_right.0, self.lower_left.0),
        );
        let max_row: i32 = highest(
            highest(self.upper_left.0, self.upper_right.0),
            highest(self.lower_right.0, self.lower_left.0),
        );
        let min_col: i32 = lowest(
            lowest(self.upper_left.1, self.upper_right.1),
            lowest(self.lower_right.1, self.lower_left.1),
        );
        let max_col: i32 = highest(
            highest(self.upper_left.1, self.upper_right.1),
            highest(self.lower_right.1, self.lower_left.1),
        );
        let width: i64 = max_col as i64 - min_col as i64 + 1;
        let height: i64 = max_row as i64 - min_row as i64 + 1;
        let win = Window::new(min_col as isize, min_row as isize, width as usize, height as usize);
        (win, self.is_skewed())
    }
}

fn lowest(a: i32, b: i32) -> (r: i32)
    ensures
        r == min_int(a as int, b as int),
{
    if a <= b { a } else { b }
}

fn highest(a: i32, b: i32) -> (r: i32)
    ensures
        r == max_int(a as int, b as int),
{
    if a >= b { a } else { b }
}

/// Each of the four tiles that zooming in by one level gives lies under the
/// tile it came from: zooming it out by one level gives that tile back.
pub proof fn lemma_zoom_in_then_out(t: TileView, k: int)
    requires
        t.valid(),
        t.z < MAXZOOMLEVEL,
        0 <= k < 4,
    ensures
        spec_zoom_in(t, None) matches Some(children) && children.len() == 4 && spec_zoom_out(
            children[k],
            None,
        ) == Some(t),
{
    lemma2_to64();
    let base = descendants(t, 0);
    let children = descendants(t, 1);
    assert(children == expand(base) && base.len() == 1 && base[0] == png_tile(t.x, t.y, t.z)) by {
        reveal_with_fuel(descendants, 2);
    }
    assert(spec_zoom_in(t, None) == Some(children));
    let c = children[k];
    assert(c == child(base[k / 4], k % 4));
    assert(c == child(base[0], k));
    assert(c.z == t.z + 1);
    assert(pow2((c.z - t.z) as nat) == 2);
    assert(c.x / 2 == t.x && c.y / 2 == t.y);
    assert(ancestor(c, t.z) == png_tile(t.x, t.y, t.z));
    assert(t.ext == Some("png"@));
    assert(t == png_tile(t.x, t.y, t.z));
    assert(spec_zoom_out(c, None) == Some(ancestor(c, c.z - 1)));
}

/// Zooming in from a tile on the grid gives tiles on the grid, four times
/// as many with each level.
pub proof fn lemma_descendants_valid(t: TileView, steps: nat, i: int)
    requires
        t.valid(),
        t.z + steps <= MAXZOOMLEVEL,
        0 <= i < descendants(t, steps).len(),
    ensures
        descendants(t, steps).len() == pow2(2 * steps),
        descendants(t, steps)[i].valid(),
        descendants(t, steps)[i].z == t.z + steps,
        ancestor(descendants(t, steps)[i], t.z) == png_tile(t.x, t.y, t.z),
    decreases steps,
{
    lemma2_to64();
    if steps > 0 {
        let prev = descendants(t, (steps - 1) as nat);
        lemma_descendants_len(t, (steps - 1) as nat);
        lemma_descendants_len(t, steps);
        lemma_descendants_valid(t, (steps - 1) as nat, i / 4);
        let p = prev[i / 4];
        let c = descendants(t, steps)[i];
        assert(c == child(p, i % 4));
        lemma_pow2_unfold((p.z + 1) as nat);
        let k = (p.z - t.z) as nat;
        lemma_pow2_pos(k);
        lemma_pow2_unfold(k + 1);
        lemma_div_denominator(c.x, 2, pow2(k) as int);
        lemma_div_denominator(c.y, 2, pow2(k) as int);
        assert(c.x / 2 == p.x);
        assert(c.y / 2 == p.y);
        assert(2 * (pow2(k) as int) == (pow2(k) as int) * 2) by (nonlinear_arith);
        if k == 0 {
            assert(pow2(0) == 1);
        }
    } else {
        lemma_descendants_len(t, 0);
    }
}

/// The number of tiles `steps` levels below a tile.
pub proof fn lemma_descendants_len(t: TileView, steps: nat)
    ensures
        descendants(t, steps).len() == pow2(2 * steps),
    decreases steps,
{
    lemma2_to64();
    if steps > 0 {
        lemma_descendants_len(t, (steps - 1) as nat);
        lemma_pow2_unfold(2 * steps);
        lemma_pow2_unfold((2 * steps - 1) as nat);
    }
}

} // verus!
