//! Map settings and the checks made when a map is registered. The types are
//! generic in the type of pixel values `V`, of colours `C` and of
//! geotransforms `G`: the rules here read none of them.
use vstd::prelude::*;
use vstd::string::*;
use crate::errors::{int_text, number_text, MapEngineError};
use crate::raster::{extent_of, SpatialInfo};
use crate::windows::Window;

verus! {

/// Kinds of palette.
#[derive(Debug, PartialEq)]
pub enum ColourDefinition<V, C> {
    /// A colour for each of some integer values; any other value is transparent.
    Discrete(Vec<(isize, C)>),
    /// Colours at equal steps between the least and the greatest value.
    Colours(Vec<C>),
    /// Colours at given values.
    ColoursAndBreaks(Vec<(V, C)>),
    /// Three bands shown as red, green and blue, with the least and the
    /// greatest value of each.
    RGB([V; 3], [V; 3]),
}

impl<V, C> ColourDefinition<V, C> {
    /// Number of bands that the palette reads: three for `RGB`, else one.
    pub open spec fn spec_n_bands(&self) -> nat {
        if self is RGB { 3 } else { 1 }
    }

    /// Number of bands that the palette reads.
    pub fn n_bands(&self) -> (n: usize)
        ensures
            n == self.spec_n_bands(),
    {
        match self {
            ColourDefinition::RGB(_, _) => 3,
            _ => 1,
        }
    }

    /// True iff the palette reads one band: every kind but `RGB`.
    pub fn is_contiguous(&self) -> (b: bool)
        ensures
            b == !(self is RGB),
    {
        match self {
            ColourDefinition::RGB(_, _) => false,
            _ => true,
        }
    }
}

/// The colour of the last entry for `key`, if there is one.
pub open spec fn spec_discrete_colour<C>(palette: Seq<(isize, C)>, key: isize) -> Option<C>
    decreases palette.len(),
{
    if palette.len() == 0 {
        None
    } else if palette.last().0 == key {
        Some(palette.last().1)
    } else {
        spec_discrete_colour(palette.drop_last(), key)
    }
}

/// Looks a value up in a discrete palette. Where a value has several
/// entries the last one counts.
pub fn discrete_colour<C: Copy>(palette: &Vec<(isize, C)>, key: isize) -> (r: Option<C>)
    ensures
        r == spec_discrete_colour(palette@, key),
{
    let mut i: usize = palette.len();
    proof {
        assert(palette@.subrange(0, i as int) =~= palette@);
    }
    while i > 0
        invariant
            i <= palette@.len(),
            spec_discrete_colour(palette@, key) == spec_discrete_colour(
                palette@.subrange(0, i as int),
                key,
            ),
        decreases i,
    {
        proof {
            assert(palette@.subrange(0, i as int).drop_last() =~= palette@.subrange(0, i - 1));
        }
        if palette[i - 1].0 == key {
            return Some(palette[i - 1].1);
        }
        i = i - 1;
    }
    None
}

/// How the pixels of a map are coloured.
#[derive(Debug, PartialEq)]
pub struct Style<V, C> {
    /// Name of a built-in colour map.
    pub name: Option<String>,
    /// The palette.
    pub colours: Option<ColourDefinition<V, C>>,
    /// Least pixel value.
    pub vmin: Option<V>,
    /// Greatest pixel value.
    pub vmax: Option<V>,
    /// Band indices, from 1.
    pub bands: Option<Vec<isize>>,
}

/// The built-in colour maps.
#[derive(Debug, PartialEq, Eq, Copy, Clone, Structural)]
pub enum NamedPalette {
    Viridis,
    Inferno,
}

/// How a style is turned into a colour map.
#[derive(Debug, PartialEq, Eq, Copy, Clone, Structural)]
pub enum CompositePlan {
    /// A built-in gradient between `vmin` and `vmax`.
    Named(NamedPalette),
    /// The colours of the palette at equal steps between `vmin` and `vmax`.
    CustomGradient,
    /// The colours of the palette at their values.
    GradientWithBreaks,
    /// Three bands as red, green and blue.
    Rgb,
    /// A colour for each listed value.
    DiscretePalette,
}

impl<V, C> Style<V, C> {
    /// What `composite_plan` decides. A name goes before a palette, any
    /// name but `inferno` stands for `viridis`, and so does a style with
    /// neither name nor palette.
    pub open spec fn spec_composite_plan(&self) -> CompositePlan {
        match (self.name, self.colours) {
            (Some(name), _) => if name@ == "inferno"@ {
                CompositePlan::Named(NamedPalette::Inferno)
            } else {
                CompositePlan::Named(NamedPalette::Viridis)
            },
            (None, Some(ColourDefinition::Colours(_))) => CompositePlan::CustomGradient,
            (None, Some(ColourDefinition::ColoursAndBreaks(_))) => CompositePlan::GradientWithBreaks,
            (None, Some(ColourDefinition::RGB(_, _))) => CompositePlan::Rgb,
            (None, Some(ColourDefinition::Discrete(_))) => CompositePlan::DiscretePalette,
            (None, None) => CompositePlan::Named(NamedPalette::Viridis),
        }
    }

    /// Decides which colour map the style stands for.
    pub fn composite_plan(&self) -> (plan: CompositePlan)
        requires
            self.vmin is Some,
            self.vmax is Some,
        ensures
            plan == self.spec_composite_plan(),
    {
        match &self.name {
            Some(name) => {
                if *name == "inferno".to_owned() {
                    CompositePlan::Named(NamedPalette::Inferno)
                } else {
                    CompositePlan::Named(NamedPalette::Viridis)
                }
            },
            None => match &self.colours {
                Some(ColourDefinition::Colours(_)) => CompositePlan::CustomGradient,
                Some(ColourDefinition::ColoursAndBreaks(_)) => CompositePlan::GradientWithBreaks,
                Some(ColourDefinition::RGB(_, _)) => CompositePlan::Rgb,
                Some(ColourDefinition::Discrete(_)) => CompositePlan::DiscretePalette,
                None => CompositePlan::Named(NamedPalette::Viridis),
            },
        }
    }

    /// The style with `bands`, `vmin` and `vmax` taken from `defaults`
    /// where it has none of its own.
    pub fn filled(self, defaults: Style<V, C>) -> (r: Style<V, C>)
        requires
            defaults.bands is Some,
            defaults.vmin is Some,
            defaults.vmax is Some,
        ensures
            r.name == self.name,
            r.colours == self.colours,
            r.bands == (if self.bands is Some { self.bands } else { defaults.bands }),
            r.vmin == (if self.vmin is Some { self.vmin } else { defaults.vmin }),
            r.vmax == (if self.vmax is Some { self.vmax } else { defaults.vmax }),
    {
        Style {
            name: self.name,
            colours: self.colours,
            vmin: match self.vmin {
                Some(v) => Some(v),
                None => defaults.vmin,
            },
            vmax: match self.vmax {
                Some(v) => Some(v),
                None => defaults.vmax,
            },
            bands: match self.bands {
                Some(b) => Some(b),
                None => defaults.bands,
            },
        }
    }
}

/// True iff `style` shows the first three bands as red, green and blue,
/// each between its least and greatest value.
pub open spec fn is_rgb_default<V, C>(style: Style<V, C>, min_max: Seq<(V, V)>) -> bool {
    &&& style.name is None
    &&& style.vmin is None
    &&& style.vmax is None
    &&& (style.bands matches Some(b) && b@ == seq![1isize, 2, 3])
    &&& (style.colours matches Some(ColourDefinition::RGB(lo, hi)) && lo@ == seq![
        min_max[0].0,
        min_max[1].0,
        min_max[2].0,
    ] && hi@ == seq![min_max[0].1, min_max[1].1, min_max[2].1])
}

/// True iff `style` shows the first band in `viridis` between its least
/// and greatest value.
pub open spec fn is_gradient_default<V, C>(style: Style<V, C>, min_max: Seq<(V, V)>) -> bool {
    &&& (style.name matches Some(n) && n@ == "viridis"@)
    &&& style.colours is None
    &&& style.vmin == Some(min_max[0].0)
    &&& style.vmax == Some(min_max[0].1)
    &&& (style.bands matches Some(b) && b@ == seq![1isize])
}

/// The style given to a raster that is registered without one: with three
/// bands or more, the first three as red, green and blue between the least
/// and greatest value of each; else the first band in `viridis` between its
/// least and greatest value. `min_max` holds `(min, max)` band by band.
pub fn default_style<V: Copy, C>(raster_count: isize, min_max: &Vec<(V, V)>) -> (r: Style<V, C>)
    requires
        raster_count >= 3 ==> min_max@.len() >= 3,
        raster_count < 3 ==> min_max@.len() >= 1,
    ensures
        raster_count >= 3 ==> is_rgb_default(r, min_max@),
        raster_count < 3 ==> is_gradient_default(r, min_max@),
{
    if raster_count >= 3 {
        let lo: [V; 3] = [min_max[0].0, min_max[1].0, min_max[2].0];
        let hi: [V; 3] = [min_max[0].1, min_max[1].1, min_max[2].1];
        let mut bands: Vec<isize> = Vec::new();
        bands.push(1);
        bands.push(2);
        bands.push(3);
        proof {
            assert(bands@ =~= seq![1isize, 2, 3]);
            assert(lo@ =~= seq![min_max@[0].0, min_max@[1].0, min_max@[2].0]);
            assert(hi@ =~= seq![min_max@[0].1, min_max@[1].1, min_max@[2].1]);
        }
        Style {
            name: None,
            colours: Some(ColourDefinition::RGB(lo, hi)),
            vmin: None,
            vmax: None,
            bands: Some(bands),
        }
    } else {
        let mut bands: Vec<isize> = Vec::new();
        bands.push(1);
        proof {
            assert(bands@ =~= seq![1isize]);
        }
        Style {
            name: Some("viridis".to_owned()),
            colours: None,
            vmin: Some(min_max[0].0),
            vmax: Some(min_max[0].1),
            bands: Some(bands),
        }
    }
}

/// Settings of one map.
#[derive(Debug, PartialEq)]
pub struct MapSettings<V, C, G> {
    /// Valid extent; the whole image where none is given.
    pub extent: Option<Window>,
    /// Path of the source file.
    pub path: String,
    /// Name of the map, part of the URL of its tiles.
    pub name: String,
    /// Geotransform of the raster.
    pub geotransform: Option<G>,
    /// Pixel value to make transparent, band by band.
    pub no_data_value: Option<Vec<V>>,
    /// Style of a raster map.
    pub style: Option<Style<V, C>>,
    /// Style of a vector map.
    pub xml: Option<String>,
    /// Short name of the driver that opens the file.
    pub driver_name: Option<String>,
    /// Spatial reference system.
    pub spatial_info: Option<SpatialInfo>,
    /// Linear unit of the reference system.
    pub spatial_units: Option<String>,
    /// Bounds in WGS84: least latitude, least longitude, greatest latitude,
    /// greatest longitude.
    pub bounds: Option<[V; 4]>,
    /// Whether the dataset holds overviews.
    pub has_overview: Option<bool>,
}

impl<V, C, G> Default for MapSettings<V, C, G> {
    /// Settings with an empty name and path, and nothing else set.
    fn default() -> (r: Self)
        ensures
            r.name@.len() == 0,
            r.path@.len() == 0,
            r.extent is None,
            r.geotransform is None,
            r.no_data_value is None,
            r.style is None,
            r.xml is None,
            r.driver_name is None,
            r.spatial_info is None,
            r.spatial_units is None,
            r.bounds is None,
            r.has_overview is None,
    {
        MapSettings::new(String::new(), String::new())
    }
}

/// What is wrong with the bands of a style, if anything.
pub enum BandsVerdict {
    Fine,
    RgbNeedsThree,
    GradientNeedsOne,
    BandsMissing,
}

/// Holds the bands of a style against its palette: `RGB` takes three
/// bands, any other palette one, and a palette needs bands. A style
/// without a palette passes.
pub open spec fn bands_verdict<V, C>(style: Option<Style<V, C>>) -> BandsVerdict {
    match style {
        Some(s) => match (s.colours, s.bands) {
            (Some(def), Some(bands)) => if def is RGB {
                if bands@.len() != 3 {
                    BandsVerdict::RgbNeedsThree
                } else {
                    BandsVerdict::Fine
                }
            } else if bands@.len() != 1 {
                BandsVerdict::GradientNeedsOne
            } else {
                BandsVerdict::Fine
            },
            (Some(_), None) => BandsVerdict::BandsMissing,
            _ => BandsVerdict::Fine,
        },
        None => BandsVerdict::Fine,
    }
}

/// The message for each failure of the bands check.
pub open spec fn bands_message(verdict: BandsVerdict, map_name: Seq<char>) -> Seq<char> {
    match verdict {
        BandsVerdict::RgbNeedsThree => "To use a RGB style you need to provide 3 bands for map `"@
            + map_name + "`"@,
        BandsVerdict::GradientNeedsOne =>
            "To use a Gradient style you need to provide 1 band for map `"@ + map_name + "`"@,
        _ => "You need to provide selected bands for map `"@ + map_name + "`"@,
    }
}

/// The message for a wrong number of no-data values.
pub open spec fn no_data_message(raster_count: int) -> Seq<char> {
    "The raster has "@ + int_text(raster_count)
        + " bands. Expected the same number of no_data values"@
}

/// The no-data values that a dataset reports, with `fallback` for a band
/// that reports none.
pub open spec fn with_fallback<V>(band_values: Seq<Option<V>>, fallback: V) -> Seq<V> {
    band_values.map_values(
        |v: Option<V>|
            match v {
                Some(x) => x,
                None => fallback,
            },
    )
}

fn no_data_error(raster_count: isize) -> (e: MapEngineError)
    ensures
        e matches MapEngineError::Msg(m) && m@ == no_data_message(raster_count as int),
{
    MapEngineError::Msg(
        "The raster has ".to_owned().concat(number_text(raster_count).as_str()).concat(
            " bands. Expected the same number of no_data values",
        ),
    )
}

fn bands_error(text: &str, map_name: &str) -> (e: MapEngineError)
    ensures
        e matches MapEngineError::Msg(m) && m@ == text@ + map_name@ + "`"@,
{
    MapEngineError::Msg(text.to_owned().concat(map_name).concat("`"))
}

impl<V, C, G> MapSettings<V, C, G> {
    /// Settings of the map `name` with the source at `path`, and nothing else set.
    pub fn new(name: String, path: String) -> (r: Self)
        ensures
            r.name == name,
            r.path == path,
            r.extent is None,
            r.geotransform is None,
            r.no_data_value is None,
            r.style is None,
            r.xml is None,
            r.driver_name is None,
            r.spatial_info is None,
            r.spatial_units is None,
            r.bounds is None,
            r.has_overview is None,
    {
        MapSettings {
            extent: None,
            path,
            name,
            geotransform: None,
            no_data_value: None,
            style: None,
            xml: None,
            driver_name: None,
            spatial_info: None,
            spatial_units: None,
            bounds: None,
            has_overview: None,
        }
    }

    /// Checks that the style has as many bands as its palette reads.
    pub fn validate_bands(&self) -> (r: Result<(), MapEngineError>)
        ensures
            match bands_verdict(self.style) {
                BandsVerdict::Fine => r is Ok,
                verdict => r matches Err(MapEngineError::Msg(m)) && m@ == bands_message(
                    verdict,
                    self.name@,
                ),
            },
    {
        match &self.style {
            Some(style) => match (&style.colours, &style.bands) {
                (Some(def), Some(bands)) => {
                    if !def.is_contiguous() {
                        if bands.len() != 3 {
                            return Err(
                                bands_error(
                                    "To use a RGB style you need to provide 3 bands for map `",
                                    self.name.as_str(),
                                ),
                            );
                        }
                    } else if bands.len() != 1 {
                        return Err(
                            bands_error(
                                "To use a Gradient style you need to provide 1 band for map `",
                                self.name.as_str(),
                            ),
                        );
                    }
                    Ok(())
                },
                (Some(_), None) => Err(
                    bands_error(
                        "You need to provide selected bands for map `",
                        self.name.as_str(),
                    ),
                ),
                _ => Ok(()),
            },
            None => Ok(()),
        }
    }

    /// The bands of the style.
    pub fn get_bands(&self) -> (r: &Vec<isize>)
        requires
            self.style matches Some(s) && s.bands is Some,
        ensures
            Some(*r) == self.style.unwrap().bands,
    {
        match &self.style {
            Some(style) => match &style.bands {
                Some(bands) => bands,
                None => unreached(),
            },
            None => unreached(),
        }
    }

    /// The no-data values, band by band.
    pub fn get_no_data_values(&self) -> (r: &Vec<V>)
        requires
            self.no_data_value is Some,
        ensures
            Some(*r) == self.no_data_value,
    {
        match &self.no_data_value {
            Some(values) => values,
            None => unreached(),
        }
    }

    /// Which colour map the style of the map stands for.
    pub fn to_composite(&self) -> (plan: CompositePlan)
        requires
            self.style matches Some(s) && s.vmin is Some && s.vmax is Some,
        ensures
            plan == self.style.unwrap().spec_composite_plan(),
    {
        match &self.style {
            Some(style) => style.composite_plan(),
            None => unreached(),
        }
    }
}

impl<V: Copy, C, G> MapSettings<V, C, G> {
    /// Settles the no-data values of a map on a raster of `raster_count`
    /// bands. Where the map has none, it takes those of the dataset,
    /// `band_values`, with `fallback` for a band without one. Either way
    /// there must be one for each band: else the map stays as it was and the
    /// error names the number of bands.
    pub fn validate_no_data_values(
        &mut self,
        raster_count: isize,
        band_values: &Vec<Option<V>>,
        fallback: V,
    ) -> (r: Result<(), MapEngineError>)
        ensures
            final(self).extent == old(self).extent,
            final(self).path == old(self).path,
            final(self).name == old(self).name,
            final(self).geotransform == old(self).geotransform,
            final(self).style == old(self).style,
            final(self).xml == old(self).xml,
            final(self).driver_name == old(self).driver_name,
            final(self).spatial_info == old(self).spatial_info,
            final(self).spatial_units == old(self).spatial_units,
            final(self).bounds == old(self).bounds,
            final(self).has_overview == old(self).has_overview,
            r is Ok <==> !old(self).no_data_mismatch(raster_count as int, band_values@.len() as int),
            r matches Err(e) ==> final(self).no_data_value == old(self).no_data_value && (
            e matches MapEngineError::Msg(m) && m@ == no_data_message(raster_count as int)),
            r is Ok ==> (final(self).no_data_value matches Some(v) && v@ == old(
                self,
            ).settled_no_data(band_values@, fallback) && v@.len() == raster_count),
    {
        match &self.no_data_value {
            None => {
                if raster_count < 0 || band_values.len() != raster_count as usize {
                    return Err(no_data_error(raster_count));
                }
                let mut values: Vec<V> = Vec::new();
                let mut i: usize = 0;
                while i < band_values.len()
                    invariant
                        i <= band_values@.len(),
                        values@.len() == i,
                        forall|j: int|
                            0 <= j < i ==> values@[j] == with_fallback(band_values@, fallback)[j],
                    decreases band_values@.len() - i,
                {
                    let value: V = match band_values[i] {
                        Some(v) => v,
                        None => fallback,
                    };
                    values.push(value);
                    i = i + 1;
                }
                proof {
                    assert(values@ =~= with_fallback(band_values@, fallback));
                }
                self.no_data_value = Some(values);
                Ok(())
            },
            Some(values) => {
                if raster_count < 0 || values.len() != raster_count as usize {
                    Err(no_data_error(raster_count))
                } else {
                    Ok(())
                }
            },
        }
    }
}

/// What is read from a dataset when a raster map is registered.
#[derive(Debug)]
pub struct DatasetFacts<V, G> {
    /// Short name of the driver.
    pub driver_name: String,
    /// Size in pixels, as `(width, height)`.
    pub raster_size: (usize, usize),
    /// Number of bands.
    pub raster_count: isize,
    /// Geotransform.
    pub geotransform: G,
    /// Spatial reference system.
    pub spatial_info: SpatialInfo,
    /// Linear unit of the reference system.
    pub spatial_units: String,
    /// Whether the dataset holds overviews.
    pub has_overview: bool,
    /// Bounds of the map in WGS84.
    pub bounds: [V; 4],
    /// Least and greatest value, band by band.
    pub min_max: Vec<(V, V)>,
    /// No-data value of each band that declares one.
    pub band_values: Vec<Option<V>>,
}

impl<V, C, G> MapSettings<V, C, G> {
    /// The no-data values of the map once registered: its own, or those of
    /// the dataset with `fallback` for a band without one.
    pub open spec fn settled_no_data(self, band_values: Seq<Option<V>>, fallback: V) -> Seq<V> {
        match self.no_data_value {
            Some(v) => v@,
            None => with_fallback(band_values, fallback),
        }
    }

    /// True iff the no-data values, those of the map or for want of them
    /// the `dataset_values` of the dataset, are of another number than the
    /// raster has bands.
    pub open spec fn no_data_mismatch(self, raster_count: int, dataset_values: int) -> bool {
        match self.no_data_value {
            Some(v) => v@.len() != raster_count,
            None => dataset_values != raster_count,
        }
    }
}

/// True iff `style` is what a map with the style `given` is registered
/// with on a raster of `raster_count` bands: the given style, or for want of
/// it the default of the raster, with bands and value range filled from
/// `defaults`.
pub open spec fn is_registered_style<V, C>(
    style: Style<V, C>,
    given: Option<Style<V, C>>,
    raster_count: int,
    min_max: Seq<(V, V)>,
    defaults: Style<V, C>,
) -> bool {
    match given {
        Some(own) => {
            &&& style.name == own.name
            &&& style.colours == own.colours
            &&& style.bands == (if own.bands is Some { own.bands } else { defaults.bands })
            &&& style.vmin == (if own.vmin is Some { own.vmin } else { defaults.vmin })
            &&& style.vmax == (if own.vmax is Some { own.vmax } else { defaults.vmax })
        },
        None => if raster_count >= 3 {
            &&& style.name is None
            &&& style.vmin == defaults.vmin
            &&& style.vmax == defaults.vmax
            &&& (style.bands matches Some(b) && b@ == seq![1isize, 2, 3])
            &&& (style.colours matches Some(ColourDefinition::RGB(lo, hi)) && lo@ == seq![
                min_max[0].0,
                min_max[1].0,
                min_max[2].0,
            ] && hi@ == seq![min_max[0].1, min_max[1].1, min_max[2].1])
        } else {
            is_gradient_default(style, min_max)
        },
    }
}

impl<V: Copy, C, G> MapSettings<V, C, G> {
    /// Registers a raster map: completes its settings from what the
    /// dataset says, and checks them. The extent defaults to the whole
    /// raster and the style to the default of the raster; no-data values
    /// are settled, then the bands are held against the palette, then the
    /// style is filled from `defaults`. The first check that fails gives
    /// the error.
    pub fn registered(
        self,
        facts: DatasetFacts<V, G>,
        fallback: V,
        defaults: Style<V, C>,
    ) -> (r: Result<MapSettings<V, C, G>, MapEngineError>)
        requires
            defaults.bands is Some,
            defaults.vmin is Some,
            defaults.vmax is Some,
            self.style is None && facts.raster_count >= 3 ==> facts.min_max@.len() >= 3,
            self.style is None && facts.raster_count < 3 ==> facts.min_max@.len() >= 1,
        ensures
            match r {
                Err(e) => e matches MapEngineError::Msg(m) && if self.no_data_mismatch(
                    facts.raster_count as int,
                    facts.band_values@.len() as int,
                ) {
                    m@ == no_data_message(facts.raster_count as int)
                } else {
                    !(bands_verdict(self.style) is Fine) && m@ == bands_message(
                        bands_verdict(self.style),
                        self.name@,
                    )
                },
                Ok(map) => {
                    &&& !self.no_data_mismatch(
                        facts.raster_count as int,
                        facts.band_values@.len() as int,
                    )
                    &&& bands_verdict(self.style) is Fine
                    &&& map.name == self.name
                    &&& map.path == self.path
                    &&& map.xml == self.xml
                    &&& map.extent == Some(
                        match self.extent {
                            Some(w) => w,
                            None => extent_of(
                                facts.raster_size.0 as int,
                                facts.raster_size.1 as int,
                            ),
                        },
                    )
                    &&& map.driver_name == Some(facts.driver_name)
                    &&& map.geotransform == Some(facts.geotransform)
                    &&& map.spatial_info == Some(facts.spatial_info)
                    &&& map.spatial_units == Some(facts.spatial_units)
                    &&& map.has_overview == Some(facts.has_overview)
                    &&& map.bounds == Some(facts.bounds)
                    &&& (map.no_data_value matches Some(v) && v@ == self.settled_no_data(
                        facts.band_values@,
                        fallback,
                    ) && v@.len() == facts.raster_count)
                    &&& (map.style matches Some(style) && is_registered_style(
                        style,
                        self.style,
                        facts.raster_count as int,
                        facts.min_max@,
                        defaults,
                    ))
                },
            },
    {
        let mut map = self;
        if map.extent.is_none() {
            map.extent = Some(Window::new(0, 0, facts.raster_size.0, facts.raster_size.1));
        }
        map.driver_name = Some(facts.driver_name);
        map.geotransform = Some(facts.geotransform);
        map.spatial_info = Some(facts.spatial_info);
        map.spatial_units = Some(facts.spatial_units);
        map.has_overview = Some(facts.has_overview);
        map.bounds = Some(facts.bounds);
        let given: bool = map.style.is_some();
        if !given {
            map.style = Some(default_style(facts.raster_count, &facts.min_max));
        }
        match map.validate_no_data_values(facts.raster_count, &facts.band_values, fallback) {
            Ok(()) => {},
            Err(e) => {
                return Err(e);
            },
        }
        match map.validate_bands() {
            Ok(()) => {},
            Err(e) => {
                return Err(e);
            },
        }
        let style: Style<V, C> = match map.style {
            Some(s) => s.filled(defaults),
            None => unreached(),
        };
        Ok(
            MapSettings {
                extent: map.extent,
                path: map.path,
                name: map.name,
                geotransform: map.geotransform,
                no_data_value: map.no_data_value,
                style: Some(style),
                xml: map.xml,
                driver_name: map.driver_name,
                spatial_info: map.spatial_info,
                spatial_units: map.spatial_units,
                bounds: map.bounds,
                has_overview: map.has_overview,
            },
        )
    }
}

/// The values of `values` at the bands `bands`, which count from 1.
pub open spec fn spec_project<V>(values: Seq<V>, bands: Seq<isize>) -> Seq<V> {
    Seq::new(bands.len(), |i: int| values[bands[i] - 1])
}

/// Picks from per-band values those of the chosen bands, in the order of `bands`.
pub fn project_onto_bands<V: Copy>(values: &Vec<V>, bands: &Vec<isize>) -> (r: Vec<V>)
    requires
        forall|i: int| 0 <= i < bands@.len() ==> 1 <= #[trigger] bands@[i] <= values@.len(),
    ensures
        r@ == spec_project(values@, bands@),
{
    let mut chosen: Vec<V> = Vec::new();
    let mut i: usize = 0;
    while i < bands.len()
        invariant
            i <= bands@.len(),
            chosen@.len() == i,
            forall|j: int| 0 <= j < bands@.len() ==> 1 <= #[trigger] bands@[j] <= values@.len(),
            forall|j: int| 0 <= j < i ==> chosen@[j] == values@[bands@[j] - 1],
        decreases bands@.len() - i,
    {
        let band: isize = bands[i];
        chosen.push(values[(band - 1) as usize]);
        i = i + 1;
    }
    proof {
        assert(chosen@ =~= spec_project(values@, bands@));
    }
    chosen
}

/// Checks that every band chosen is a band of the per-band values.
pub fn bands_in_range(bands: &Vec<isize>, count: usize) -> (b: bool)
    ensures
        b == (forall|i: int| 0 <= i < bands@.len() ==> 1 <= #[trigger] bands@[i] <= count),
{
    let mut i: usize = 0;
    while i < bands.len()
        invariant
            i <= bands@.len(),
            forall|j: int| 0 <= j < i ==> 1 <= #[trigger] bands@[j] <= count,
        decreases bands@.len() - i,
    {
        let band: isize = bands[i];
        if band < 1 || band as usize > count {
            return false;
        }
        i = i + 1;
    }
    true
}

/// A fresh random identifier in text form, from `uuid::Uuid::new_v4` and
/// its `to_string`, which writes the hyphenated form of 36 characters.
/// Which identifier comes is left open.
#[verifier::external_body]
fn fresh_identifier() -> (r: String)
    ensures
        r@.len() == 36,
{
    uuid::Uuid::new_v4().to_string()
}

/// The name under which a map is registered: its own, or a fresh
/// identifier of 36 characters where it has none.
pub fn resolve_name(name: String) -> (r: String)
    ensures
        name@.len() > 0 ==> r@ == name@,
        name@.len() == 0 ==> r@.len() == 36,
{
    if name.as_str().unicode_len() == 0 {
        fresh_identifier()
    } else {
        name
    }
}

} // verus!
