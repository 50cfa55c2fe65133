//! Raw pixels as read from a raster, styled pixels, and their PNG encoding.
use vstd::prelude::*;
use crate::errors::MapEngineError;
use crate::raster::{driver_for, spec_driver_for, Driver};
use crate::TILE_SIZE;

verus! {

/// Number of bytes of a styled tile: four for each pixel.
pub const TILE_BYTES: usize = 262144;

/// The bytes of the PNG file that holds an RGBA image with 8 bits per
/// channel, of the given width and height, whose pixels are `data` row by row.
pub uninterp spec fn png_rgba8(width: nat, height: nat, data: Seq<u8>) -> Seq<u8>;

/// True iff `count` bytes are an RGBA image of `width` by `height` pixels:
/// neither side is zero and there are four bytes for each pixel.
pub open spec fn is_rgba8_image(width: int, height: int, count: int) -> bool {
    &&& width >= 1
    &&& height >= 1
    &&& count == 4 * width * height
}

/// Encodes an RGBA image of 8 bits per channel with the `png` crate:
/// `Encoder::new`, `set_color`, `set_depth`, `write_header`, then
/// `Writer::write_image_data`, into a vector. The bytes written are a
/// function of the size and the pixels. The header is refused for a width
/// or a height of zero, the data where the number of bytes is not four for
/// each pixel; nothing else fails, since writing to a vector does not.
#[verifier::external_body]
fn encode_rgba8(width: u32, height: u32, data: &[u8]) -> (r: Result<Vec<u8>, png::EncodingError>)
    requires
        4 * width * height <= usize::MAX,
    ensures
        r is Ok <==> is_rgba8_image(width as int, height as int, data@.len() as int),
        r matches Ok(v) ==> v@ == png_rgba8(width as nat, height as nat, data@),
{
    let mut buffer = Vec::new();
    {
        let mut encoder = png::Encoder::new(&mut buffer, width, height);
        encoder.set_color(png::ColorType::Rgba);
        encoder.set_depth(png::BitDepth::Eight);
        let mut writer = encoder.write_header()?;
        writer.write_image_data(data)?;
    }
    Ok(buffer)
}

/// A three-dimensional array of bytes of the `ndarray` crate, as it is made
/// from a vector or filled with zeros: in row-major order.
#[verifier::external_body]
#[derive(Debug)]
pub struct PixelGrid {
    inner: ndarray::Array3<u8>,
}

/// The bytes of a grid in row-major order, in which it also lies in memory.
pub uninterp spec fn grid_values(grid: PixelGrid) -> Seq<u8>;

/// The lengths of the three axes of a grid.
pub uninterp spec fn grid_shape(grid: PixelGrid) -> Seq<int>;

/// The length of an axis, or 1 for an empty one.
pub open spec fn axis_or_one(length: int) -> int {
    if length == 0 { 1 } else { length }
}

/// True iff `count` bytes make a grid of `height` by `width` by 4: there
/// are four for each pixel, and where an axis is empty the others do not
/// exceed what the array can address.
pub open spec fn makes_grid(count: int, height: int, width: int) -> bool {
    &&& count == 4 * (height * width)
    &&& (height >= 1 && width >= 1) || 4 * (axis_or_one(height) * axis_or_one(width))
        <= isize::MAX
}

/// Makes a grid of `height` by `width` by 4 from its bytes with
/// `ndarray::Array3::from_shape_vec`, which keeps the vector and its
/// order. It fails where the number of bytes is not that of the shape, or
/// the product of the axes that are not empty exceeds `isize::MAX`; that
/// product is the number of bytes where no axis is empty, and a vector
/// never holds more.
#[verifier::external_body]
fn grid_from_bytes(data: Vec<u8>, height: usize, width: usize) -> (g: Option<PixelGrid>)
    ensures
        g is Some <==> makes_grid(data@.len() as int, height as int, width as int),
        g matches Some(grid) ==> grid_values(grid) == data@ && grid_shape(grid) == seq![
            height as int,
            width as int,
            4int,
        ],
{
    match ndarray::Array3::from_shape_vec((height, width, 4), data) {
        Ok(inner) => Some(PixelGrid { inner }),
        Err(_) => None,
    }
}

/// Makes a grid of zeros of the given shape with `ndarray::Array3::zeros`.
#[verifier::external_body]
fn grid_zeros(depth: usize, height: usize, width: usize) -> (g: PixelGrid)
    requires
        depth >= 1,
        height >= 1,
        width >= 1,
        depth * height * width <= isize::MAX,
    ensures
        grid_values(g) == Seq::new((depth * height * width) as nat, |i: int| 0u8),
        grid_shape(g) == seq![depth as int, height as int, width as int],
{
    PixelGrid { inner: ndarray::Array3::zeros((depth, height, width)) }
}

/// Reads the lengths of the three axes of a grid, with `ArrayBase::dim`.
#[verifier::external_body]
fn grid_dim(grid: &PixelGrid) -> (r: (usize, usize, usize))
    ensures
        seq![r.0 as int, r.1 as int, r.2 as int] == grid_shape(*grid),
{
    grid.inner.dim()
}

/// Takes the bytes of a grid as they lie in memory, with
/// `ArrayBase::into_raw_vec`.
#[verifier::external_body]
fn grid_into_raw(grid: PixelGrid) -> (v: Vec<u8>)
    ensures
        v@ == grid_values(grid),
{
    grid.inner.into_raw_vec()
}

/// Collects the bytes of a grid in row-major order, with
/// `ArrayBase::into_iter`.
#[verifier::external_body]
fn grid_in_order(grid: PixelGrid) -> (v: Vec<u8>)
    ensures
        v@ == grid_values(grid),
{
    grid.inner.into_iter().collect()
}

/// Pixels after styling: rows of pixels of four bytes each.
#[derive(Debug)]
pub struct StyledPixels {
    data: PixelGrid,
    driver: Driver,
}

/// What `StyledPixels` holds.
pub struct StyledPixelsView {
    /// The bytes, row by row, four for each pixel.
    pub data: Seq<u8>,
    /// Number of rows.
    pub height: int,
    /// Number of pixels in a row.
    pub width: int,
    pub driver: Driver,
}

impl View for StyledPixels {
    type V = StyledPixelsView;

    closed spec fn view(&self) -> StyledPixelsView {
        StyledPixelsView {
            data: grid_values(self.data),
            height: grid_shape(self.data)[0],
            width: grid_shape(self.data)[1],
            driver: self.driver,
        }
    }
}

/// The pixels of the tile that is served where a raster has nothing to show:
/// every byte zero, so every pixel transparent.
pub open spec fn empty_tile() -> StyledPixelsView {
    StyledPixelsView {
        data: Seq::new(TILE_BYTES as nat, |i: int| 0u8),
        height: TILE_SIZE as int,
        width: TILE_SIZE as int,
        driver: Driver::Generic,
    }
}

/// The PNG file of a styled tile.
pub open spec fn tile_png(pixels: StyledPixelsView) -> Seq<u8> {
    png_rgba8(TILE_SIZE as nat, TILE_SIZE as nat, pixels.data)
}

impl StyledPixels {
    /// Styled pixels of `height` rows of `width` pixels from their bytes,
    /// four for each pixel, with the driver they came from. `None` where
    /// the bytes do not make such a grid.
    pub fn new(data: Vec<u8>, height: usize, width: usize, driver: Driver) -> (r: Option<Self>)
        ensures
            r is Some <==> makes_grid(data@.len() as int, height as int, width as int),
            r matches Some(p) ==> p@ == (StyledPixelsView {
                data: data@,
                height: height as int,
                width: width as int,
                driver,
            }),
    {
        match grid_from_bytes(data, height, width) {
            Some(grid) => Some(Self { data: grid, driver }),
            None => None,
        }
    }

    /// The driver that the pixels came from.
    pub fn driver(&self) -> (d: Driver)
        ensures
            d == self@.driver,
    {
        self.driver
    }

    /// The shape as `(height, width)`, in pixels.
    pub fn shape(&self) -> (r: (usize, usize))
        ensures
            r.0 == self@.height,
            r.1 == self@.width,
    {
        let dim = grid_dim(&self.data);
        (dim.0, dim.1)
    }

    /// The bytes, four for each pixel, row by row.
    pub fn into_bytes(self) -> (r: Vec<u8>)
        ensures
            r@ == self@.data,
    {
        match self.driver {
            Driver::Generic => grid_into_raw(self.data),
            Driver::Mbtile => grid_in_order(self.data),
        }
    }

    /// The PNG file of the tile: 256 by 256 pixels, RGBA, 8 bits per channel.
    /// Pixels of the number that a tile has are encoded, any other number
    /// is refused.
    pub fn into_png(self) -> (r: Result<Vec<u8>, MapEngineError>)
        ensures
            r is Ok <==> self@.data.len() == TILE_BYTES,
            match r {
                Ok(v) => v@ == tile_png(self@),
                Err(e) => e is EncodingError,
            },
    {
        let bytes: Vec<u8> = match self.driver {
            Driver::Generic => grid_into_raw(self.data),
            Driver::Mbtile => grid_in_order(self.data),
        };
        match encode_rgba8(256, 256, bytes.as_slice()) {
            Ok(v) => Ok(v),
            Err(e) => Err(MapEngineError::from(e)),
        }
    }
}

impl Default for StyledPixels {
    /// The empty tile.
    fn default() -> (r: Self)
        ensures
            r@ == empty_tile(),
    {
        let grid = grid_zeros(TILE_SIZE, TILE_SIZE, 4);
        proof {
            assert(grid_values(grid) =~= empty_tile().data);
        }
        Self { data: grid, driver: Driver::Generic }
    }
}

/// The PNG file of the empty tile. It is always made.
pub fn empty_png() -> (r: Result<Vec<u8>, MapEngineError>)
    ensures
        r matches Ok(v) && v@ == tile_png(empty_tile()),
{
    StyledPixels::default().into_png()
}

/// The PNG file of the empty tile, made once and served whenever a tile
/// misses its raster.
#[derive(Debug)]
pub struct EmptyTile {
    png: Vec<u8>,
}

impl View for EmptyTile {
    type V = Seq<u8>;

    closed spec fn view(&self) -> Seq<u8> {
        self.png@
    }
}

impl EmptyTile {
    #[verifier::type_invariant]
    spec fn holds_the_empty_tile(self) -> bool {
        self.png@ == tile_png(empty_tile())
    }

    /// Encodes the empty tile.
    pub fn new() -> (r: Self)
        ensures
            r@ == tile_png(empty_tile()),
    {
        match empty_png() {
            Ok(png) => EmptyTile { png },
            Err(_) => unreached(),
        }
    }

    /// The bytes of the file: those of the PNG file of the empty tile,
    /// whichever way the value was come by.
    pub fn png(&self) -> (r: &Vec<u8>)
        ensures
            r@ == self@,
            r@ == tile_png(empty_tile()),
    {
        proof {
            use_type_invariant(self);
        }
        &self.png
    }
}

/// Pixels as read from a raster: `bands` planes of `height` rows of `width`
/// values, one plane after the other. The values are of any type `P` and
/// lie in a vector, of whose contents every contract here can speak.
pub struct RawPixels<P> {
    data: Vec<P>,
    bands: usize,
    height: usize,
    width: usize,
    driver: Driver,
}

/// What `RawPixels` holds.
pub struct RawPixelsView<P> {
    pub data: Seq<P>,
    pub bands: int,
    pub height: int,
    pub width: int,
    pub driver: Driver,
}

impl<P> RawPixelsView<P> {
    /// True iff there is one value for each band of each pixel.
    pub open spec fn valid(self) -> bool {
        &&& 0 <= self.bands
        &&& 0 <= self.height
        &&& 0 <= self.width
        &&& self.data.len() == self.bands * (self.height * self.width)
    }

    /// Where the value of band `band` at `row`, `col` stands in the data.
    pub open spec fn index_of(self, band: int, row: int, col: int) -> int {
        (band * self.height + row) * self.width + col
    }

    /// The values of one pixel, band by band.
    pub open spec fn lane(self, row: int, col: int) -> Seq<P> {
        Seq::new(self.bands as nat, |band: int| self.data[self.index_of(band, row, col)])
    }

    /// Number of pixels.
    pub open spec fn pixels(self) -> int {
        self.height * self.width
    }

    /// The values of pixel `k`, counting row by row.
    pub open spec fn pixel(self, k: int) -> Seq<P> {
        Seq::new(self.bands as nat, |band: int| self.data[band * self.pixels() + k])
    }
}

/// True iff the colour map `get` may give the four bytes `bytes` for the
/// values `lane` of a pixel.
pub open spec fn styled_by<P, F: Fn(&Vec<P>) -> [u8; 4]>(get: F, lane: Seq<P>, bytes: Seq<u8>) -> bool {
    exists|values: Vec<P>, colour: [u8; 4]|
        values@ == lane && colour@ == bytes && get.ensures((&values,), colour)
}

/// True iff the conversion `to_byte` may give `byte` for `value`.
pub open spec fn converted_by<P, F: Fn(P) -> u8>(to_byte: F, value: P, byte: u8) -> bool {
    to_byte.ensures((value,), byte)
}

/// Pixel `row * width + col` is the pixel at `row`, `col`.
pub proof fn lemma_pixel_is_lane<P>(pixels: RawPixelsView<P>, row: int, col: int)
    requires
        pixels.valid(),
        0 <= row < pixels.height,
        0 <= col < pixels.width,
    ensures
        0 <= row * pixels.width + col < pixels.pixels(),
        pixels.pixel(row * pixels.width + col) == pixels.lane(row, col),
{
    let h = pixels.height;
    let w = pixels.width;
    assert((row + 1) * w <= h * w) by (nonlinear_arith)
        requires
            row + 1 <= h,
            0 <= w,
    ;
    assert((row + 1) * w == row * w + w) by (nonlinear_arith);
    assert(0 <= row * w) by (nonlinear_arith)
        requires
            0 <= row,
            0 <= w,
    ;
    assert forall|band: int| 0 <= band < pixels.bands implies band * (h * w) + (row * w + col)
        == pixels.index_of(band, row, col) by {
        assert(band * (h * w) + (row * w + col) == (band * h + row) * w + col)
            by (nonlinear_arith);
    }
    assert(pixels.pixel(row * w + col) =~= pixels.lane(row, col));
}

impl<P> View for RawPixels<P> {
    type V = RawPixelsView<P>;

    closed spec fn view(&self) -> RawPixelsView<P> {
        RawPixelsView {
            data: self.data@,
            bands: self.bands as int,
            height: self.height as int,
            width: self.width as int,
            driver: self.driver,
        }
    }
}

proof fn lemma_index_in_range(bands: int, height: int, width: int, band: int, row: int, col: int)
    requires
        0 <= band < bands,
        0 <= row < height,
        0 <= col < width,
    ensures
        0 <= band * height,
        band * height + row < bands * height,
        bands * height <= bands * (height * width),
        0 <= (band * height + row) * width,
        (band * height + row) * width + col < bands * (height * width),
{
    let line = band * height + row;
    assert(0 <= band * height) by (nonlinear_arith)
        requires
            0 <= band,
            0 <= height,
    ;
    assert((band + 1) * height <= bands * height) by (nonlinear_arith)
        requires
            band + 1 <= bands,
            0 <= height,
    ;
    assert((band + 1) * height == band * height + height) by (nonlinear_arith);
    assert((bands * height) * width == bands * (height * width)) by (nonlinear_arith);
    assert((bands * height) * 1 <= (bands * height) * width) by (nonlinear_arith)
        requires
            0 <= bands * height,
            1 <= width,
    ;
    assert((line + 1) * width <= (bands * height) * width) by (nonlinear_arith)
        requires
            line + 1 <= bands * height,
            0 <= width,
    ;
    assert((line + 1) * width == line * width + width) by (nonlinear_arith);
    assert(0 <= line * width) by (nonlinear_arith)
        requires
            0 <= line,
            0 <= width,
    ;
}

impl<P: Copy> RawPixels<P> {
    /// Raw pixels from their values and shape, with the short name of the
    /// driver that read them. `None` where the number of values is not that
    /// of the shape.
    pub fn new(data: Vec<P>, bands: usize, height: usize, width: usize, driver_name: &str) -> (r:
        Option<Self>)
        ensures
            match r {
                Some(p) => p@ == (RawPixelsView {
                    data: data@,
                    bands: bands as int,
                    height: height as int,
                    width: width as int,
                    driver: spec_driver_for(driver_name@),
                }) && p@.valid(),
                None => data@.len() != bands * (height * width),
            },
    {
        let count: usize = data.len();
        let plane: usize = match height.checked_mul(width) {
            Some(v) => v,
            None => {
                if bands == 0 && count == 0 {
                    return Some(
                        Self { data, bands, height, width, driver: driver_for(driver_name) },
                    );
                }
                proof {
                    let plane = (height as int) * (width as int);
                    if bands > 0 {
                        assert((bands as int) * plane >= plane) by (nonlinear_arith)
                            requires
                                bands as int >= 1,
                                plane >= 0,
                        ;
                    } else {
                        assert((bands as int) * plane == 0) by (nonlinear_arith)
                            requires
                                bands as int == 0,
                        ;
                    }
                }
                return None;
            },
        };
        let total: usize = match bands.checked_mul(plane) {
            Some(v) => v,
            None => {
                return None;
            },
        };
        if count != total {
            return None;
        }
        Some(Self { data, bands, height, width, driver: driver_for(driver_name) })
    }

    /// The driver that read the pixels.
    pub fn driver(&self) -> (d: Driver)
        ensures
            d == self@.driver,
    {
        self.driver
    }

    /// The shape as `(bands, height, width)`.
    pub fn shape(&self) -> (r: (usize, usize, usize))
        ensures
            r.0 == self@.bands,
            r.1 == self@.height,
            r.2 == self@.width,
    {
        (self.bands, self.height, self.width)
    }

    /// The values, plane after plane.
    pub fn as_values(&self) -> (r: &Vec<P>)
        ensures
            r@ == self@.data,
    {
        &self.data
    }

    /// The values of the pixel at `row`, `col`, one for each band.
    pub fn lane(&self, row: usize, col: usize) -> (r: Vec<P>)
        requires
            self@.valid(),
            row < self@.height,
            col < self@.width,
        ensures
            r@ == self@.lane(row as int, col as int),
    {
        let mut values: Vec<P> = Vec::new();
        let mut band: usize = 0;
        let count: usize = self.data.len();
        while band < self.bands
            invariant
                self@.valid(),
                count == self.data@.len(),
                row < self.height,
                col < self.width,
                band <= self.bands,
                values@.len() == band,
                forall|b: int|
                    0 <= b < band ==> values@[b] == self.data@[self@.index_of(
                        b,
                        row as int,
                        col as int,
                    )],
            decreases self.bands - band,
        {
            proof {
                lemma_index_in_range(
                    self.bands as int,
                    self.height as int,
                    self.width as int,
                    band as int,
                    row as int,
                    col as int,
                );
            }
            let line: usize = band * self.height + row;
            let at: usize = line * self.width + col;
            values.push(self.data[at]);
            band = band + 1;
        }
        proof {
            assert(values@ =~= self@.lane(row as int, col as int));
        }
        values
    }

    /// The values of pixel `k`, counting row by row, one for each band.
    pub fn pixel(&self, k: usize) -> (r: Vec<P>)
        requires
            self@.valid(),
            k < self@.pixels(),
        ensures
            r@ == self@.pixel(k as int),
    {
        let mut values: Vec<P> = Vec::new();
        let mut band: usize = 0;
        let count: usize = self.data.len();
        let ghost plane: int = self@.pixels();
        assert(self.bands >= 1 ==> plane <= count) by (nonlinear_arith)
            requires
                count == self.bands * plane,
                plane >= 0,
        ;
        while band < self.bands
            invariant
                self@.valid(),
                count == self.data@.len(),
                plane == self@.pixels(),
                plane == self.height * self.width,
                k < plane,
                self.bands >= 1 ==> plane <= count,
                band <= self.bands,
                values@.len() == band,
                forall|b: int| 0 <= b < band ==> values@[b] == self.data@[b * plane + k],
            decreases self.bands - band,
        {
            proof {
                assert((band + 1) * plane <= self.bands * plane) by (nonlinear_arith)
                    requires
                        band + 1 <= self.bands,
                        0 <= plane,
                ;
                assert((band + 1) * plane == band * plane + plane) by (nonlinear_arith);
                assert(0 <= band * plane) by (nonlinear_arith)
                    requires
                        0 <= band,
                        0 <= plane,
                ;
            }
            let size: usize = self.height * self.width;
            let at: usize = band * size + k;
            values.push(self.data[at]);
            band = band + 1;
        }
        proof {
            assert(values@ =~= self@.pixel(k as int));
        }
        values
    }

    /// Styles numeric bands: gives each pixel, row by row, the four bytes
    /// that the colour map `get` returns for its values.
    pub fn style_with<F: Fn(&Vec<P>) -> [u8; 4]>(&self, get: &F) -> (r: Option<StyledPixels>)
        requires
            self@.valid(),
            self@.bands >= 1,
            forall|values: &Vec<P>| values@.len() == self@.bands ==> get.requires((values,)),
        ensures
            r is Some <==> makes_grid(4 * self@.pixels(), self@.height, self@.width),
            r matches Some(styled) ==> {
                &&& styled@.driver == Driver::Generic
                &&& styled@.height == self@.height
                &&& styled@.width == self@.width
                &&& styled@.data.len() == 4 * self@.pixels()
                &&& forall|k: int|
                    0 <= k < self@.pixels() ==> styled_by(
                        *get,
                        self@.pixel(k),
                        #[trigger] styled@.data.subrange(4 * k, 4 * k + 4),
                    )
            },
    {
        let count: usize = self.data.len();
        let ghost plane: int = self@.pixels();
        assert(plane <= count) by (nonlinear_arith)
            requires
                count == self.bands * plane,
                self.bands >= 1,
                plane >= 0,
        ;
        let size: usize = self.height * self.width;
        let mut data: Vec<u8> = Vec::new();
        let mut k: usize = 0;
        while k < size
            invariant
                self@.valid(),
                self@.bands >= 1,
                size == self@.pixels(),
                k <= size,
                data@.len() == 4 * k,
                forall|values: &Vec<P>| values@.len() == self@.bands ==> get.requires((values,)),
                forall|j: int|
                    0 <= j < k ==> styled_by(
                        *get,
                        self@.pixel(j),
                        #[trigger] data@.subrange(4 * j, 4 * j + 4),
                    ),
            decreases size - k,
        {
            let values: Vec<P> = self.pixel(k);
            let colour: [u8; 4] = get(&values);
            let ghost before = data@;
            data.push(colour[0]);
            data.push(colour[1]);
            data.push(colour[2]);
            data.push(colour[3]);
            proof {
                assert(data@.subrange(4 * k, 4 * k + 4) =~= colour@);
                assert forall|j: int| 0 <= j < k + 1 implies styled_by(
                    *get,
                    self@.pixel(j),
                    #[trigger] data@.subrange(4 * j, 4 * j + 4),
                ) by {
                    if j < k {
                        assert(data@.subrange(4 * j, 4 * j + 4) =~= before.subrange(
                            4 * j,
                            4 * j + 4,
                        ));
                    }
                }
            }
            k = k + 1;
        }
        StyledPixels::new(data, self.height, self.width, Driver::Generic)
    }

    /// Styles the pixels by their driver: numeric bands through the colour
    /// map `get`, the pixels of an image-tile container through `to_byte`.
    pub fn style<F: Fn(&Vec<P>) -> [u8; 4], G: Fn(P) -> u8>(&self, get: &F, to_byte: &G) -> (r:
        Option<StyledPixels>)
        requires
            self@.valid(),
            self@.driver is Generic ==> self@.bands >= 1 && forall|values: &Vec<P>|
                values@.len() == self@.bands ==> get.requires((values,)),
            self@.driver is Mbtile ==> forall|value: P| to_byte.requires((value,)),
        ensures
            r is Some <==> match self@.driver {
                Driver::Generic => makes_grid(4 * self@.pixels(), self@.height, self@.width),
                Driver::Mbtile => self@.width == 4 && makes_grid(
                    self@.data.len() as int,
                    self@.bands,
                    self@.height,
                ),
            },
            r matches Some(styled) ==> styled@.driver == self@.driver && match self@.driver {
                Driver::Generic => {
                    &&& styled@.height == self@.height
                    &&& styled@.width == self@.width
                    &&& styled@.data.len() == 4 * self@.pixels()
                    &&& forall|k: int|
                        0 <= k < self@.pixels() ==> styled_by(
                            *get,
                            self@.pixel(k),
                            #[trigger] styled@.data.subrange(4 * k, 4 * k + 4),
                        )
                },
                Driver::Mbtile => {
                    &&& styled@.height == self@.bands
                    &&& styled@.width == self@.height
                    &&& styled@.data.len() == self@.data.len()
                    &&& forall|i: int|
                        0 <= i < self@.data.len() ==> converted_by(
                            *to_byte,
                            self@.data[i],
                            #[trigger] styled@.data[i],
                        )
                },
            },
    {
        match self.driver {
            Driver::Generic => self.style_with(get),
            Driver::Mbtile => self.passed_through(to_byte),
        }
    }

    /// Passes the pixels of an image-tile container through: each value
    /// becomes the byte that `to_byte` gives for it, in the same order. The
    /// pixels are interleaved: rows of pixels of four values each.
    pub fn passed_through<F: Fn(P) -> u8>(&self, to_byte: &F) -> (r: Option<StyledPixels>)
        requires
            self@.valid(),
            forall|value: P| to_byte.requires((value,)),
        ensures
            r is Some <==> self@.width == 4 && makes_grid(
                self@.data.len() as int,
                self@.bands,
                self@.height,
            ),
            r matches Some(styled) ==> {
                &&& styled@.driver == Driver::Mbtile
                &&& styled@.height == self@.bands
                &&& styled@.width == self@.height
                &&& styled@.data.len() == self@.data.len()
                &&& forall|i: int|
                    0 <= i < self@.data.len() ==> converted_by(
                        *to_byte,
                        self@.data[i],
                        #[trigger] styled@.data[i],
                    )
            },
    {
        if self.width != 4 {
            return None;
        }
        let mut data: Vec<u8> = Vec::new();
        let mut i: usize = 0;
        while i < self.data.len()
            invariant
                i <= self.data@.len(),
                data@.len() == i,
                forall|value: P| to_byte.requires((value,)),
                forall|j: int|
                    0 <= j < i ==> converted_by(*to_byte, self.data@[j], #[trigger] data@[j]),
            decreases self.data@.len() - i,
        {
            let byte: u8 = to_byte(self.data[i]);
            data.push(byte);
            i = i + 1;
        }
        proof {
            assert(self.bands * (self.height * 4) == 4 * (self.bands * self.height))
                by (nonlinear_arith);
        }
        StyledPixels::new(data, self.bands, self.height, Driver::Mbtile)
    }
}

} // verus!
