//! Raster metadata and the planning of a tile read: which bands, which part
//! of the raster, and where the pixels read land in the tile.
use vstd::prelude::*;
use vstd::string::*;
use crate::errors::MapEngineError;
use crate::windows::{intersection, min_int, spec_intersection, Window};
use crate::TILE_SIZE;

verus! {

/// Short name of the driver of image-tile containers, whose pixels are RGBA already.
pub const MBTILES: &'static str = "MBTiles";

/// Marker of the image-tile container driver.
pub struct Mbtile;

/// Marker of every other driver: numeric bands.
pub struct Generic;

/// How the pixels of a dataset are laid out and styled.
#[derive(Debug, PartialEq, Eq, Copy, Clone, Structural)]
pub enum Driver {
    /// An image-tile container: the pixels are RGBA already.
    Mbtile,
    /// Numeric bands, styled through a colour map.
    Generic,
}

/// The driver that a short name stands for.
pub open spec fn spec_driver_for(name: Seq<char>) -> Driver {
    if name == MBTILES@ {
        Driver::Mbtile
    } else {
        Driver::Generic
    }
}

/// Tells the image-tile container from the other drivers by the short name.
pub fn driver_for(name: &str) -> (d: Driver)
    ensures
        d == spec_driver_for(name@),
{
    if name.to_owned() == MBTILES.to_owned() {
        Driver::Mbtile
    } else {
        Driver::Generic
    }
}

/// A spatial reference system, in up to four notations.
#[derive(Debug, Clone, PartialEq)]
pub struct SpatialInfo {
    epsg_code: Option<i32>,
    proj4: Option<String>,
    wkt: Option<String>,
    esri: Option<String>,
}

/// What a `SpatialInfo` holds.
pub struct SpatialInfoView {
    pub epsg_code: Option<i32>,
    pub proj4: Option<Seq<char>>,
    pub wkt: Option<Seq<char>>,
    pub esri: Option<Seq<char>>,
}

/// The one notation from which a spatial reference system is built.
#[derive(Debug, Clone, PartialEq)]
pub enum SpatialSource {
    Epsg(i32),
    Proj4(String),
    Wkt(String),
    Esri(String),
}

/// What a `SpatialSource` holds.
pub enum SpatialSourceView {
    Epsg(i32),
    Proj4(Seq<char>),
    Wkt(Seq<char>),
    Esri(Seq<char>),
}

impl View for SpatialSource {
    type V = SpatialSourceView;

    open spec fn view(&self) -> SpatialSourceView {
        match self {
            SpatialSource::Epsg(code) => SpatialSourceView::Epsg(*code),
            SpatialSource::Proj4(s) => SpatialSourceView::Proj4(s@),
            SpatialSource::Wkt(s) => SpatialSourceView::Wkt(s@),
            SpatialSource::Esri(s) => SpatialSourceView::Esri(s@),
        }
    }
}

/// The characters of a text that may be absent.
pub open spec fn text_view(s: Option<String>) -> Option<Seq<char>> {
    match s {
        Some(t) => Some(t@),
        None => None,
    }
}

impl View for SpatialInfo {
    type V = SpatialInfoView;

    closed spec fn view(&self) -> SpatialInfoView {
        SpatialInfoView {
            epsg_code: self.epsg_code,
            proj4: text_view(self.proj4),
            wkt: text_view(self.wkt),
            esri: text_view(self.esri),
        }
    }
}

impl SpatialInfoView {
    /// The notation that is used: the EPSG code before the proj4 text, that
    /// before the WKT text, that before the ESRI text.
    pub open spec fn source(self) -> Option<SpatialSourceView> {
        if let Some(code) = self.epsg_code {
            Some(SpatialSourceView::Epsg(code))
        } else if let Some(s) = self.proj4 {
            Some(SpatialSourceView::Proj4(s))
        } else if let Some(s) = self.wkt {
            Some(SpatialSourceView::Wkt(s))
        } else if let Some(s) = self.esri {
            Some(SpatialSourceView::Esri(s))
        } else {
            None
        }
    }
}

impl SpatialInfo {
    /// A reference system in the notations given.
    pub fn new(
        epsg_code: Option<i32>,
        proj4: Option<String>,
        wkt: Option<String>,
        esri: Option<String>,
    ) -> (r: SpatialInfo)
        ensures
            r@ == (SpatialInfoView {
                epsg_code,
                proj4: text_view(proj4),
                wkt: text_view(wkt),
                esri: text_view(esri),
            }),
    {
        SpatialInfo { epsg_code, proj4, wkt, esri }
    }

    /// What is kept of a reference system that a dataset reports: its
    /// authority code, its WKT text and its proj4 text, each where it has one.
    pub fn from_spatial_ref(
        epsg_code: Option<i32>,
        wkt: Option<String>,
        proj4: Option<String>,
    ) -> (r: SpatialInfo)
        ensures
            r@ == (SpatialInfoView {
                epsg_code,
                proj4: text_view(proj4),
                wkt: text_view(wkt),
                esri: None,
            }),
    {
        SpatialInfo { epsg_code, proj4, wkt, esri: None }
    }

    /// The four notations: EPSG code, proj4 text, WKT text, ESRI text.
    pub fn parts(&self) -> (r: (Option<i32>, Option<String>, Option<String>, Option<String>))
        ensures
            self@ == (SpatialInfoView {
                epsg_code: r.0,
                proj4: text_view(r.1),
                wkt: text_view(r.2),
                esri: text_view(r.3),
            }),
    {
        (
            self.epsg_code,
            clone_text(&self.proj4),
            clone_text(&self.wkt),
            clone_text(&self.esri),
        )
    }

    /// The notation from which the reference system is to be built, by
    /// priority; an error where none is set.
    pub fn to_spatial_ref(&self) -> (r: Result<SpatialSource, MapEngineError>)
        ensures
            match r {
                Ok(src) => self@.source() == Some(src@),
                Err(e) => self@.source() is None && (e matches MapEngineError::Msg(m) && m@
                    == "Unknow spatial ref"@),
            },
    {
        if let Some(code) = self.epsg_code {
            Ok(SpatialSource::Epsg(code))
        } else if let Some(s) = &self.proj4 {
            Ok(SpatialSource::Proj4(s.clone()))
        } else if let Some(s) = &self.wkt {
            Ok(SpatialSource::Wkt(s.clone()))
        } else if let Some(s) = &self.esri {
            Ok(SpatialSource::Esri(s.clone()))
        } else {
            Err(MapEngineError::Msg("Unknow spatial ref".to_owned()))
        }
    }
}

/// Metadata of one dataset, read once when it is opened.
#[derive(Debug, Clone)]
pub struct Raster {
    driver_name: String,
    raster_count: isize,
    width: usize,
    height: usize,
    spatial_info: SpatialInfo,
}

/// What a `Raster` holds.
pub struct RasterView {
    pub driver_name: Seq<char>,
    pub raster_count: int,
    pub width: int,
    pub height: int,
    pub spatial_info: SpatialInfoView,
}

impl View for Raster {
    type V = RasterView;

    closed spec fn view(&self) -> RasterView {
        RasterView {
            driver_name: self.driver_name@,
            raster_count: self.raster_count as int,
            width: self.width as int,
            height: self.height as int,
            spatial_info: self.spatial_info@,
        }
    }
}

/// The window of all the pixels of a raster of the given size.
pub open spec fn extent_of(width: int, height: int) -> Window {
    Window { col_off: 0, row_off: 0, width: width as usize, height: height as usize }
}

/// The band indices from 1 to `count`.
pub open spec fn all_bands(count: int) -> Seq<isize> {
    Seq::new(if count > 0 { count as nat } else { 0 }, |i: int| (i + 1) as isize)
}

/// The bands that a read takes: those asked for, or all where none is asked
/// for; always all of an image-tile container.
pub open spec fn spec_select_bands(
    driver: Driver,
    raster_count: int,
    bands: Option<Seq<isize>>,
) -> Seq<isize> {
    match (driver, bands) {
        (Driver::Generic, Some(b)) => b,
        _ => all_bands(raster_count),
    }
}

impl Raster {
    /// The metadata of a dataset: driver short name, number of bands, size
    /// in pixels as `(width, height)`, and reference system.
    pub fn new(
        driver_name: String,
        raster_count: isize,
        raster_size: (usize, usize),
        spatial_info: SpatialInfo,
    ) -> (r: Raster)
        ensures
            r@ == (RasterView {
                driver_name: driver_name@,
                raster_count: raster_count as int,
                width: raster_size.0 as int,
                height: raster_size.1 as int,
                spatial_info: spatial_info@,
            }),
    {
        Raster {
            driver_name,
            raster_count,
            width: raster_size.0,
            height: raster_size.1,
            spatial_info,
        }
    }

    /// Short name of the driver.
    pub fn driver_name(&self) -> (r: &str)
        ensures
            r@ == self@.driver_name,
    {
        self.driver_name.as_str()
    }

    /// Number of bands in the file.
    pub fn raster_count(&self) -> (r: isize)
        ensures
            r == self@.raster_count,
    {
        self.raster_count
    }

    /// Size in pixels, as `(width, height)`.
    pub fn raster_size(&self) -> (r: (usize, usize))
        ensures
            r.0 == self@.width,
            r.1 == self@.height,
    {
        (self.width, self.height)
    }

    /// The reference system.
    pub fn spatial_info(&self) -> (r: SpatialInfo)
        ensures
            r@ == self@.spatial_info,
    {
        SpatialInfo {
            epsg_code: self.spatial_info.epsg_code,
            proj4: clone_text(&self.spatial_info.proj4),
            wkt: clone_text(&self.spatial_info.wkt),
            esri: clone_text(&self.spatial_info.esri),
        }
    }

    /// The notation from which the reference system is to be built.
    pub fn spatial_ref(&self) -> (r: Result<SpatialSource, MapEngineError>)
        ensures
            match r {
                Ok(src) => self@.spatial_info.source() == Some(src@),
                Err(e) => self@.spatial_info.source() is None && (e matches MapEngineError::Msg(
                    m,
                ) && m@ == "Unknow spatial ref"@),
            },
    {
        self.spatial_info.to_spatial_ref()
    }

    /// The window of all the pixels of the raster.
    pub fn extent(&self) -> (w: Window)
        ensures
            w == extent_of(self@.width, self@.height),
    {
        Window::new(0, 0, self.width, self.height)
    }

    /// Checks whether the window of a tile on this raster shares a pixel
    /// with the raster.
    pub fn intersects(&self, tile_window: &Window) -> (b: bool)
        ensures
            b == spec_intersection(
                seq![extent_of(self@.width, self@.height), *tile_window],
            ).is_some(),
    {
        let windows: [Window; 2] = [self.extent(), *tile_window];
        let both = intersection(windows.as_slice());
        proof {
            assert(windows@ =~= seq![extent_of(self@.width, self@.height), *tile_window]);
        }
        both.is_some()
    }

    /// The bands that a read of this raster takes: `bands`, or all of them
    /// where `bands` is `None` or the driver is the image-tile container.
    pub fn select_bands(&self, bands: Option<&[isize]>) -> (r: Vec<isize>)
        ensures
            r@ == spec_select_bands(
                spec_driver_for(self@.driver_name),
                self@.raster_count,
                match bands {
                    Some(b) => Some(b@),
                    None => None,
                },
            ),
    {
        let driver = driver_for(self.driver_name.as_str());
        match (driver, bands) {
            (Driver::Generic, Some(b)) => {
                let mut chosen: Vec<isize> = Vec::new();
                let mut i: usize = 0;
                while i < b.len()
                    invariant
                        i <= b@.len(),
                        chosen@ == b@.subrange(0, i as int),
                    decreases b@.len() - i,
                {
                    chosen.push(b[i]);
                    proof {
                        assert(chosen@ =~= b@.subrange(0, i + 1));
                    }
                    i = i + 1;
                }
                proof {
                    assert(b@.subrange(0, b@.len() as int) =~= b@);
                }
                chosen
            },
            _ => {
                let mut every: Vec<isize> = Vec::new();
                let mut band: isize = 0;
                while band < self.raster_count
                    invariant
                        0 <= band,
                        band <= self.raster_count || band == 0,
                        every@.len() == band,
                        forall|j: int| 0 <= j < every@.len() ==> every@[j] == j + 1,
                    decreases self.raster_count - band,
                {
                    band = band + 1;
                    every.push(band);
                }
                proof {
                    assert(every@ =~= all_bands(self@.raster_count));
                }
                every
            },
        }
    }
}

fn clone_text(s: &Option<String>) -> (r: Option<String>)
    ensures
        text_view(r) == text_view(*s),
{
    match s {
        Some(t) => Some(t.clone()),
        None => None,
    }
}

/// Checks whether the rows and columns of a point are asked of the
/// geotransform with `y` before `x`: so it is where the linear unit of the
/// reference system of the raster is the metre.
pub fn feeds_y_first(spatial_units: &str) -> (b: bool)
    ensures
        b == (spatial_units@ == "metre"@),
{
    spatial_units.to_owned() == "metre".to_owned()
}

/// How a band is read for a tile whose window may overhang the raster.
#[derive(Debug, PartialEq, Eq, Copy, Clone, Structural)]
pub enum BoundlessPlan {
    /// The window lies strictly inside the raster: read it whole.
    Direct,
    /// The window shares no pixel with the raster: the band keeps its fill value.
    Fill,
    /// The window overhangs: read the part inside the raster, given here,
    /// and paste it into the filled band.
    Partial(Window),
}

/// True iff the window covers a pixel, starts at or after the first pixel of
/// the raster and ends before its last column and row.
pub open spec fn strictly_inside(win: Window, width: int, height: int) -> bool {
    &&& !win.spec_is_zero()
    &&& win.col_off >= 0
    &&& win.row_off >= 0
    &&& win.row_end() < height
    &&& win.col_end() < width
}

/// What `plan_boundless` decides.
pub open spec fn spec_plan_boundless(width: int, height: int, win: Window) -> BoundlessPlan {
    match spec_intersection(seq![extent_of(width, height), win]) {
        None => BoundlessPlan::Fill,
        Some(inter) => if strictly_inside(win, width, height) {
            BoundlessPlan::Direct
        } else {
            BoundlessPlan::Partial(inter)
        },
    }
}

/// Decides how to read the window `win` of a raster of `raster_size`,
/// given as `(width, height)`.
pub fn plan_boundless(raster_size: (usize, usize), win: &Window) -> (plan: BoundlessPlan)
    ensures
        plan == spec_plan_boundless(raster_size.0 as int, raster_size.1 as int, *win),
{
    let windows: [Window; 2] = [Window::new(0, 0, raster_size.0, raster_size.1), *win];
    proof {
        assert(windows@ =~= seq![extent_of(raster_size.0 as int, raster_size.1 as int), *win]);
    }
    match intersection(windows.as_slice()) {
        None => BoundlessPlan::Fill,
        Some(inter) => {
            let row_end: i128 = win.row_off as i128 + win.height as i128;
            let col_end: i128 = win.col_off as i128 + win.width as i128;
            if !win.is_zero() && win.col_off >= 0 && win.row_off >= 0 && row_end
                < raster_size.1 as i128 && col_end < raster_size.0 as i128 {
                BoundlessPlan::Direct
            } else {
                BoundlessPlan::Partial(inter)
            }
        },
    }
}

/// Where the pixels read for an overhanging tile land in the tile, as
/// half-open ranges of rows and of columns.
pub struct Destination {
    pub row_start: isize,
    pub row_end: isize,
    pub col_start: isize,
    pub col_end: isize,
}

/// The magnitude of an integer.
pub open spec fn abs_int(a: int) -> int {
    if a >= 0 { a } else { -a }
}

/// The range along one axis: from the offset's magnitude, or for a skewed
/// tile from what the data leaves free at the far edge, up to the offset's
/// magnitude plus the data's length, cut at the tile's edge.
pub open spec fn axis_range(offset: int, length: int, is_skewed: bool) -> (int, int) {
    (
        if is_skewed { TILE_SIZE - length } else { abs_int(offset) },
        min_int(abs_int(offset) + length, TILE_SIZE as int),
    )
}

/// The rows and columns of the tile that take the data read for an
/// overhanging window. `row_off` and `col_off` are the offsets of the data in
/// tile pixels, zero or negative; `data_rows` and `data_cols` the shape of the data.
pub fn destination(
    row_off: isize,
    col_off: isize,
    data_rows: usize,
    data_cols: usize,
    is_skewed: bool,
) -> (d: Destination)
    requires
        is_skewed ==> data_rows <= TILE_SIZE && data_cols <= TILE_SIZE,
        !is_skewed ==> abs_int(row_off as int) <= isize::MAX && abs_int(col_off as int)
            <= isize::MAX,
    ensures
        (d.row_start as int, d.row_end as int) == axis_range(
            row_off as int,
            data_rows as int,
            is_skewed,
        ),
        (d.col_start as int, d.col_end as int) == axis_range(
            col_off as int,
            data_cols as int,
            is_skewed,
        ),
{
    let rows = axis(row_off, data_rows, is_skewed);
    let cols = axis(col_off, data_cols, is_skewed);
    Destination { row_start: rows.0, row_end: rows.1, col_start: cols.0, col_end: cols.1 }
}

fn axis(offset: isize, length: usize, is_skewed: bool) -> (r: (isize, isize))
    requires
        is_skewed ==> length <= TILE_SIZE,
        !is_skewed ==> abs_int(offset as int) <= isize::MAX,
    ensures
        (r.0 as int, r.1 as int) == axis_range(offset as int, length as int, is_skewed),
{
    let magnitude: i128 = if offset >= 0 { offset as i128 } else { -(offset as i128) };
    let reach: i128 = magnitude + length as i128;
    let end: i128 = if reach <= TILE_SIZE as i128 { reach } else { TILE_SIZE as i128 };
    let start: i128 = if is_skewed { TILE_SIZE as i128 - length as i128 } else { magnitude };
    (start as isize, end as isize)
}

} // verus!
