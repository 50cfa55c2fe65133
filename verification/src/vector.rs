//! The stylesheet of a vector map, and the style given to a vector source
//! that is registered without one. The types are generic in the type `V`
//! of opacities and widths.
use vstd::prelude::*;
use vstd::string::*;

verus! {

/// How lines are drawn.
#[derive(Debug, PartialEq)]
pub struct LineSymbolizer<V> {
    pub stroke: String,
    pub stroke_opacity: V,
    pub stroke_width: V,
}

/// How point markers are drawn.
#[derive(Debug, PartialEq)]
pub struct MarkerSymbolizer<V> {
    pub fill: String,
    pub fill_opacity: V,
    pub stroke: String,
    pub stroke_opacity: V,
    pub stroke_width: V,
    pub width: V,
    pub height: V,
}

/// How polygons are filled.
#[derive(Debug, PartialEq)]
pub struct PolygonSymbolizer<V> {
    pub fill: String,
    pub fill_opacity: V,
}

/// One way of drawing a feature.
#[derive(Debug, PartialEq)]
pub enum VectorSymbolizer<V> {
    Marker(MarkerSymbolizer<V>),
    Line(LineSymbolizer<V>),
    Polygon(PolygonSymbolizer<V>),
}

/// The symbolizers applied to the features of a layer.
#[derive(Debug, PartialEq)]
pub struct Rule<V> {
    pub symbolizer: Vec<VectorSymbolizer<V>>,
}

/// A named list of rules.
#[derive(Debug, PartialEq)]
pub struct Style<V> {
    pub name: String,
    pub rule: Vec<Rule<V>>,
}

/// The name of the style that a layer uses.
#[derive(Debug, PartialEq)]
pub struct StyleName {
    pub name: String,
}

/// One named parameter of a data source.
#[derive(Debug, PartialEq)]
pub struct Parameter {
    pub name: String,
    pub val: String,
}

/// Where the features of a layer come from.
#[derive(Debug, PartialEq)]
pub struct DataSource {
    pub parameter: Vec<Parameter>,
}

/// One layer of a vector map.
#[derive(Debug, PartialEq)]
pub struct Layer {
    pub name: Option<String>,
    pub srs: Option<String>,
    pub style_name: StyleName,
    pub data_source: DataSource,
}

/// The stylesheet of a vector map.
#[derive(Debug, PartialEq)]
pub struct VectorMap<V> {
    pub srs: String,
    pub style: Vec<Style<V>>,
    pub layer: Vec<Layer>,
}

/// Number of fill colours to pick from.
pub const FILL_COLOURS: usize = 10;

/// The fill colours that a vector source without a style is given one of.
pub open spec fn spec_fill_colour(index: int) -> Seq<char> {
    if index == 0 {
        "#8e0152"@
    } else if index == 1 {
        "#c51b7d"@
    } else if index == 2 {
        "#de77ae"@
    } else if index == 3 {
        "#f1b6da"@
    } else if index == 4 {
        "#fde0ef"@
    } else if index == 5 {
        "#e6f5d0"@
    } else if index == 6 {
        "#b8e186"@
    } else if index == 7 {
        "#7fbc41"@
    } else if index == 8 {
        "#4d9221"@
    } else {
        "#276419"@
    }
}

/// The fill colour at `index` of the palette.
pub fn fill_colour(index: usize) -> (r: &'static str)
    requires
        index < FILL_COLOURS,
    ensures
        r@ == spec_fill_colour(index as int),
{
    if index == 0 {
        "#8e0152"
    } else if index == 1 {
        "#c51b7d"
    } else if index == 2 {
        "#de77ae"
    } else if index == 3 {
        "#f1b6da"
    } else if index == 4 {
        "#fde0ef"
    } else if index == 5 {
        "#e6f5d0"
    } else if index == 6 {
        "#b8e186"
    } else if index == 7 {
        "#7fbc41"
    } else if index == 8 {
        "#4d9221"
    } else if index == 9 {
        "#276419"
    } else {
        unreached()
    }
}

/// Draws a number below `n` with `rand::Rng::gen_range` on the generator of
/// the thread. Of the number only its range is known.
#[verifier::external_body]
fn random_below(n: usize) -> (r: usize)
    requires
        n > 0,
    ensures
        r < n,
{
    rand::Rng::gen_range(&mut rand::thread_rng(), 0..n)
}

/// Picks one fill colour of the palette at random.
pub fn pick_fill_colour() -> (r: &'static str)
    ensures
        exists|index: int| 0 <= index < FILL_COLOURS && r@ == spec_fill_colour(index),
{
    let index: usize = random_below(FILL_COLOURS);
    fill_colour(index)
}

fn parameter(name: &str, val: String) -> (p: Parameter)
    ensures
        p.name@ == name@,
        p.val@ == val@,
{
    Parameter { name: name.to_owned(), val }
}

/// True iff `layer` reads layer 0 of the file at `path` through OGR, in
/// the reference system `srs`, and is drawn in the style `My Style`.
pub open spec fn is_default_layer(layer: Layer, path: Seq<char>, srs: Seq<char>) -> bool {
    &&& layer.name is None
    &&& (layer.srs matches Some(s) && s@ == srs)
    &&& layer.style_name.name@ == "My Style"@
    &&& layer.data_source.parameter@.len() == 3
    &&& layer.data_source.parameter@[0].name@ == "file"@
    &&& layer.data_source.parameter@[0].val@ == path
    &&& layer.data_source.parameter@[1].name@ == "layer_by_index"@
    &&& layer.data_source.parameter@[1].val@ == "0"@
    &&& layer.data_source.parameter@[2].name@ == "type"@
    &&& layer.data_source.parameter@[2].val@ == "ogr"@
}

/// True iff `style` is `My Style`: one rule that fills polygons with
/// `colour` at `fill_opacity` and strokes lines with it at `stroke_opacity`
/// and `stroke_width`.
pub open spec fn is_default_style<V>(
    style: Style<V>,
    colour: Seq<char>,
    fill_opacity: V,
    stroke_opacity: V,
    stroke_width: V,
) -> bool {
    &&& style.name@ == "My Style"@
    &&& style.rule@.len() == 1
    &&& style.rule@[0].symbolizer@.len() == 2
    &&& (style.rule@[0].symbolizer@[0] matches VectorSymbolizer::Polygon(p) && p.fill@ == colour
        && p.fill_opacity == fill_opacity)
    &&& (style.rule@[0].symbolizer@[1] matches VectorSymbolizer::Line(l) && l.stroke@ == colour
        && l.stroke_opacity == stroke_opacity && l.stroke_width == stroke_width)
}

/// The stylesheet given to a vector source that is registered without
/// one: in web mercator, with one layer that reads the file at `path`, whose
/// reference system is `srs`, drawn in one colour.
pub fn default_map<V>(
    path: String,
    srs: String,
    colour: &str,
    fill_opacity: V,
    stroke_opacity: V,
    stroke_width: V,
) -> (m: VectorMap<V>)
    ensures
        m.srs@ == "epsg:3857"@,
        m.style@.len() == 1,
        is_default_style(m.style@[0], colour@, fill_opacity, stroke_opacity, stroke_width),
        m.layer@.len() == 1,
        is_default_layer(m.layer@[0], path@, srs@),
{
    let mut symbolizer: Vec<VectorSymbolizer<V>> = Vec::new();
    symbolizer.push(
        VectorSymbolizer::Polygon(PolygonSymbolizer { fill: colour.to_owned(), fill_opacity }),
    );
    symbolizer.push(
        VectorSymbolizer::Line(
            LineSymbolizer { stroke: colour.to_owned(), stroke_opacity, stroke_width },
        ),
    );
    let mut rule: Vec<Rule<V>> = Vec::new();
    rule.push(Rule { symbolizer });
    let mut style: Vec<Style<V>> = Vec::new();
    style.push(Style { name: "My Style".to_owned(), rule });
    let mut params: Vec<Parameter> = Vec::new();
    params.push(parameter("file", path));
    params.push(parameter("layer_by_index", "0".to_owned()));
    params.push(parameter("type", "ogr".to_owned()));
    let mut layer: Vec<Layer> = Vec::new();
    layer.push(
        Layer {
            name: None,
            srs: Some(srs),
            style_name: StyleName { name: "My Style".to_owned() },
            data_source: DataSource { parameter: params },
        },
    );
    VectorMap { srs: "epsg:3857".to_owned(), style, layer }
}

} // verus!
