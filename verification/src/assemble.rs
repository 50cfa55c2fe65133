//! Putting a tile together from what was read: one plane of 256 by 256
//! values for each band, filled, pasted into, stacked and, for image-tile
//! containers, interleaved.
use vstd::prelude::*;
use crate::pixels::RawPixels;
use crate::raster::{spec_driver_for, Destination, Driver};
use crate::TILE_SIZE;

verus! {

/// Number of values of one band of a tile.
pub const TILE_PIXELS: usize = 65536;

/// True iff the destination lies on the tile and has the shape of the data.
pub open spec fn fits(dest: Destination, data_rows: int, data_cols: int) -> bool {
    &&& 0 <= dest.row_start <= dest.row_end <= TILE_SIZE
    &&& 0 <= dest.col_start <= dest.col_end <= TILE_SIZE
    &&& dest.row_end - dest.row_start == data_rows
    &&& dest.col_end - dest.col_start == data_cols
}

/// The band after `data`, of `data_cols` values a row, is pasted at the
/// destination: inside it the data, outside it the band as it was.
pub open spec fn pasted<P>(band: Seq<P>, data: Seq<P>, data_cols: int, dest: Destination) -> Seq<P> {
    Seq::new(
        band.len(),
        |i: int|
            {
                let row = i / (TILE_SIZE as int);
                let col = i % (TILE_SIZE as int);
                if dest.row_start <= row < dest.row_end && dest.col_start <= col < dest.col_end {
                    data[(row - dest.row_start) * data_cols + (col - dest.col_start)]
                } else {
                    band[i]
                }
            },
    )
}

/// One band of a tile with every value `value`.
pub fn filled_band<P: Copy>(value: P) -> (band: Vec<P>)
    ensures
        band@.len() == TILE_PIXELS,
        forall|i: int| 0 <= i < TILE_PIXELS ==> band@[i] == value,
{
    let mut band: Vec<P> = Vec::new();
    let mut i: usize = 0;
    while i < TILE_PIXELS
        invariant
            i <= TILE_PIXELS,
            band@.len() == i,
            forall|j: int| 0 <= j < i ==> band@[j] == value,
        decreases TILE_PIXELS - i,
    {
        band.push(value);
        i = i + 1;
    }
    band
}

/// Pastes `data`, of `data_rows` rows of `data_cols` values, into a band
/// of a tile at the destination. Returns whether it did: the destination
/// must lie on the tile and have the shape of the data. Else the band stays
/// as it was.
pub fn paste<P: Copy>(
    band: &mut Vec<P>,
    data: &Vec<P>,
    data_rows: usize,
    data_cols: usize,
    dest: &Destination,
) -> (done: bool)
    requires
        old(band)@.len() == TILE_PIXELS,
        data@.len() == data_rows * data_cols,
    ensures
        done == fits(*dest, data_rows as int, data_cols as int),
        done ==> final(band)@ == pasted(old(band)@, data@, data_cols as int, *dest),
        !done ==> final(band)@ == old(band)@,
{
    if dest.row_start < 0 || dest.col_start < 0 || dest.row_end > 256 || dest.col_end > 256
        || dest.row_start > dest.row_end || dest.col_start > dest.col_end {
        return false;
    }
    let row_start: usize = dest.row_start as usize;
    let col_start: usize = dest.col_start as usize;
    let rows: usize = dest.row_end as usize - row_start;
    let cols: usize = dest.col_end as usize - col_start;
    if rows != data_rows || cols != data_cols {
        return false;
    }
    let ghost before = band@;
    let count: usize = data.len();
    let mut r: usize = 0;
    while r < rows
        invariant
            r <= rows,
            count == data@.len(),
            rows == data_rows,
            cols == data_cols,
            row_start + rows <= 256,
            col_start + cols <= 256,
            row_start == dest.row_start,
            col_start == dest.col_start,
            rows == dest.row_end - dest.row_start,
            cols == dest.col_end - dest.col_start,
            before.len() == TILE_PIXELS,
            band@.len() == TILE_PIXELS,
            data@.len() == data_rows * data_cols,
            forall|i: int|
                0 <= i < TILE_PIXELS ==> #[trigger] band@[i] == (if row_start <= i / 256
                    < row_start + r && col_start <= i % 256 < col_start + cols {
                    data@[(i / 256 - row_start) * cols + (i % 256 - col_start)]
                } else {
                    before[i]
                }),
        decreases rows - r,
    {
        let mut c: usize = 0;
        proof {
            assert((r + 1) * cols <= rows * cols) by (nonlinear_arith)
                requires
                    r + 1 <= rows,
                    0 <= cols,
            ;
            assert((r + 1) * cols == r * cols + cols) by (nonlinear_arith);
            assert(0 <= r * cols) by (nonlinear_arith)
                requires
                    0 <= r,
                    0 <= cols,
            ;
        }
        while c < cols
            invariant
                r < rows,
                c <= cols,
                count == data@.len(),
                rows == data_rows,
                cols == data_cols,
                row_start + rows <= 256,
                col_start + cols <= 256,
                before.len() == TILE_PIXELS,
                band@.len() == TILE_PIXELS,
                data@.len() == data_rows * data_cols,
                0 <= r * cols,
                r * cols + cols <= rows * cols,
                forall|i: int|
                    0 <= i < TILE_PIXELS ==> #[trigger] band@[i] == (if (row_start <= i / 256
                        < row_start + r && col_start <= i % 256 < col_start + cols) || (i / 256
                        == row_start + r && col_start <= i % 256 < col_start + c) {
                        data@[(i / 256 - row_start) * cols + (i % 256 - col_start)]
                    } else {
                        before[i]
                    }),
            decreases cols - c,
        {
            let from: usize = r * cols + c;
            let to: usize = (row_start + r) * 256 + (col_start + c);
            let value: P = data[from];
            band.set(to, value);
            c = c + 1;
        }
        r = r + 1;
    }
    proof {
        assert(band@ =~= pasted(before, data@, data_cols as int, *dest));
    }
    true
}

/// The values of the bands one plane after the other.
pub open spec fn stacked<P>(bands: Seq<Vec<P>>) -> Seq<P>
    decreases bands.len(),
{
    if bands.len() == 0 {
        Seq::empty()
    } else {
        stacked(bands.drop_last()) + bands.last()@
    }
}

/// Where the value of band `band` at `row`, `col` stands once the bands
/// are interleaved pixel by pixel.
pub open spec fn interleaved_index(bands: int, width: int, band: int, row: int, col: int) -> int {
    (row * width + col) * bands + band
}

/// The values of pixel after pixel, band by band within each: what
/// swapping the band axis to the last place gives.
pub open spec fn interleaved<P>(data: Seq<P>, bands: int, pixels: int) -> Seq<P> {
    Seq::new(data.len(), |i: int| data[(i % bands) * pixels + i / bands])
}

proof fn lemma_stacked_len<P>(bands: Seq<Vec<P>>)
    requires
        forall|b: int| 0 <= b < bands.len() ==> (#[trigger] bands[b])@.len() == TILE_PIXELS,
    ensures
        stacked(bands).len() == bands.len() * TILE_PIXELS,
    decreases bands.len(),
{
    if bands.len() > 0 {
        lemma_stacked_len(bands.drop_last());
        assert((bands.len() - 1) * TILE_PIXELS + TILE_PIXELS == bands.len() * TILE_PIXELS)
            by (nonlinear_arith);
    }
}

/// In the stacked bands of a tile, the value of band `b` at pixel `k`
/// stands at `b * 65536 + k`.
pub proof fn lemma_stacked_values<P>(bands: Seq<Vec<P>>, b: int, k: int)
    requires
        forall|j: int| 0 <= j < bands.len() ==> (#[trigger] bands[j])@.len() == TILE_PIXELS,
        0 <= b < bands.len(),
        0 <= k < TILE_PIXELS,
    ensures
        stacked(bands).len() == bands.len() * TILE_PIXELS,
        0 <= b * TILE_PIXELS + k < stacked(bands).len(),
        stacked(bands)[b * TILE_PIXELS + k] == bands[b]@[k],
    decreases bands.len(),
{
    lemma_stacked_len(bands);
    let rest = bands.drop_last();
    lemma_stacked_len(rest);
    if b < bands.len() - 1 {
        lemma_stacked_values(rest, b, k);
    }
}

/// Stacks the bands of a tile, each of 256 by 256 values, into raw pixels
/// read by the driver `driver_name`.
pub fn stack<P: Copy>(bands: &Vec<Vec<P>>, driver_name: &str) -> (p: RawPixels<P>)
    requires
        forall|b: int| 0 <= b < bands@.len() ==> (#[trigger] bands@[b])@.len() == TILE_PIXELS,
    ensures
        p@.valid(),
        p@.data == stacked(bands@),
        p@.bands == bands@.len(),
        p@.height == TILE_SIZE,
        p@.width == TILE_SIZE,
        p@.driver == spec_driver_for(driver_name@),
{
    let mut data: Vec<P> = Vec::new();
    let mut b: usize = 0;
    proof {
        assert(bands@.subrange(0, 0) =~= Seq::<Vec<P>>::empty());
    }
    while b < bands.len()
        invariant
            b <= bands@.len(),
            forall|j: int| 0 <= j < bands@.len() ==> (#[trigger] bands@[j])@.len() == TILE_PIXELS,
            data@ == stacked(bands@.subrange(0, b as int)),
        decreases bands@.len() - b,
    {
        let band: &Vec<P> = &bands[b];
        let mut i: usize = 0;
        let ghost done = data@;
        while i < band.len()
            invariant
                i <= band@.len(),
                data@ == done + band@.subrange(0, i as int),
            decreases band@.len() - i,
        {
            data.push(band[i]);
            proof {
                assert(data@ =~= done + band@.subrange(0, i + 1));
            }
            i = i + 1;
        }
        proof {
            assert(band@.subrange(0, band@.len() as int) =~= band@);
            assert(bands@.subrange(0, b + 1).drop_last() =~= bands@.subrange(0, b as int));
        }
        b = b + 1;
    }
    proof {
        assert(bands@.subrange(0, bands@.len() as int) =~= bands@);
        lemma_stacked_len(bands@);
        assert(bands@.len() * (256 * 256) == bands@.len() * TILE_PIXELS);
    }
    match RawPixels::new(data, bands.len(), TILE_SIZE, TILE_SIZE, driver_name) {
        Some(p) => p,
        None => unreached(),
    }
}

/// What the pixels of a tile hold once its bands are read: for numeric
/// bands the planes stacked, as `(bands, 256, 256)`; for an image-tile
/// container the same values interleaved, as `(256, 256, bands)`.
pub open spec fn is_assembled<P>(
    pixels: crate::pixels::RawPixelsView<P>,
    bands: Seq<Vec<P>>,
    driver: Driver,
) -> bool {
    &&& pixels.valid()
    &&& pixels.driver == driver
    &&& match driver {
        Driver::Generic => {
            &&& pixels.data == stacked(bands)
            &&& pixels.bands == bands.len()
            &&& pixels.height == TILE_SIZE
            &&& pixels.width == TILE_SIZE
        },
        Driver::Mbtile => {
            &&& pixels.data == interleaved(stacked(bands), bands.len() as int, TILE_PIXELS as int)
            &&& pixels.bands == TILE_SIZE
            &&& pixels.height == TILE_SIZE
            &&& pixels.width == bands.len()
        },
    }
}

/// Puts the bands read for a tile together, by the driver that read them.
pub fn assemble<P: Copy>(bands: &Vec<Vec<P>>, driver_name: &str) -> (p: RawPixels<P>)
    requires
        forall|b: int| 0 <= b < bands@.len() ==> (#[trigger] bands@[b])@.len() == TILE_PIXELS,
    ensures
        is_assembled(p@, bands@, spec_driver_for(driver_name@)),
{
    let planes = stack(bands, driver_name);
    match planes.driver() {
        Driver::Generic => planes,
        Driver::Mbtile => {
            let count: usize = bands.len();
            let data: Vec<P> = if count >= 1 {
                interleave(planes.as_values(), count, TILE_PIXELS)
            } else {
                proof {
                    assert(planes@.data.len() == 0);
                    assert(planes@.data =~= interleaved(
                        planes@.data,
                        count as int,
                        TILE_PIXELS as int,
                    ));
                }
                Vec::new()
            };
            proof {
                assert(TILE_SIZE * (TILE_SIZE * count) == count * (TILE_SIZE * TILE_SIZE))
                    by (nonlinear_arith);
            }
            match RawPixels::new(data, TILE_SIZE, TILE_SIZE, count, driver_name) {
                Some(p) => p,
                None => unreached(),
            }
        },
    }
}

/// Moves the band axis of raw pixels to the last place: from one plane for
/// each band to the bands of pixel after pixel. This is the layout of the
/// pixels of an image-tile container.
pub fn interleave<P: Copy>(data: &Vec<P>, bands: usize, pixels: usize) -> (r: Vec<P>)
    requires
        bands >= 1,
        data@.len() == bands * pixels,
    ensures
        r@ == interleaved(data@, bands as int, pixels as int),
{
    let mut out: Vec<P> = Vec::new();
    let mut k: usize = 0;
    let total: usize = data.len();
    while k < pixels
        invariant
            bands >= 1,
            k <= pixels,
            total == data@.len(),
            data@.len() == bands * pixels,
            out@.len() == k * bands,
            forall|i: int|
                0 <= i < out@.len() ==> #[trigger] out@[i] == data@[(i % (bands as int)) * pixels
                    + i / (bands as int)],
        decreases pixels - k,
    {
        let mut b: usize = 0;
        proof {
            assert((k + 1) * bands == k * bands + bands) by (nonlinear_arith);
        }
        while b < bands
            invariant
                bands >= 1,
                k < pixels,
                b <= bands,
                total == data@.len(),
                data@.len() == bands * pixels,
                out@.len() == k * bands + b,
                forall|i: int|
                    0 <= i < out@.len() ==> #[trigger] out@[i] == data@[(i % (bands as int))
                        * pixels + i / (bands as int)],
            decreases bands - b,
        {
            proof {
                assert((b + 1) * pixels <= bands * pixels) by (nonlinear_arith)
                    requires
                        b + 1 <= bands,
                        0 <= pixels,
                ;
                assert((b + 1) * pixels == b * pixels + pixels) by (nonlinear_arith);
                assert(0 <= b * pixels) by (nonlinear_arith)
                    requires
                        0 <= b,
                        0 <= pixels,
                ;
                let i = k * bands + b;
                vstd::arithmetic::div_mod::lemma_fundamental_div_mod_converse(
                    i as int,
                    bands as int,
                    k as int,
                    b as int,
                );
            }
            let at: usize = b * pixels + k;
            out.push(data[at]);
            b = b + 1;
        }
        k = k + 1;
    }
    proof {
        assert(pixels * bands == bands * pixels) by (nonlinear_arith);
        assert(out@ =~= interleaved(data@, bands as int, pixels as int));
    }
    out
}

} // verus!
