use map_engine::errors::{number_text, MapEngineError};
use map_engine::raster::SpatialInfo;
use map_engine::registry::{
    bands_in_range, default_style, discrete_colour, project_onto_bands, resolve_name,
    ColourDefinition, CompositePlan, DatasetFacts, MapSettings, NamedPalette, Style,
};
use map_engine::windows::Window;

type Rgba = (f64, f64, f64, f64);
type Settings = MapSettings<f64, Rgba, [f64; 6]>;

fn settings(name: &str, style: Option<Style<f64, Rgba>>) -> Settings {
    let mut map: Settings = MapSettings::new(name.to_string(), String::new());
    map.style = style;
    map
}

#[test]
fn test_validate_bands() {
    let style = Style {
        colours: Some(ColourDefinition::RGB([0., 0., 0.], [1., 1., 1.])),
        bands: Some(vec![1]),
        name: None,
        vmin: Some(0.),
        vmax: Some(1.),
    };
    let mapsettings = settings("test", Some(style));
    let valid = mapsettings.validate_bands();
    assert!(valid.is_err());
    if let Err(MapEngineError::Msg(msg)) = valid {
        let expected = "To use a RGB style you need to provide 3 bands for map `test`".to_string();
        assert_eq!(msg, expected);
    };

    let style = Style {
        colours: Some(ColourDefinition::Colours(vec![
            (0., 0., 0., 1.),
            (1., 1., 1., 1.),
        ])),
        bands: Some(vec![1, 2, 3]),
        name: None,
        vmin: Some(0.),
        vmax: Some(1.),
    };
    let mapsettings = settings("test", Some(style));
    let valid = mapsettings.validate_bands();
    assert!(valid.is_err());
    if let Err(MapEngineError::Msg(msg)) = valid {
        let expected =
            "To use a Gradient style you need to provide 1 band for map `test`".to_string();
        assert_eq!(msg, expected);
    };

    let style = Style {
        colours: Some(ColourDefinition::RGB([0., 0., 0.], [1., 1., 1.])),
        bands: None,
        name: None,
        vmin: Some(0.),
        vmax: Some(1.),
    };
    let mapsettings = settings("test", Some(style));
    let valid = mapsettings.validate_bands();
    assert!(valid.is_err());
    if let Err(MapEngineError::Msg(msg)) = valid {
        let expected = "You need to provide selected bands for map `test`".to_string();
        assert_eq!(msg, expected);
    };

    let style = Style {
        colours: Some(ColourDefinition::Colours(vec![
            (0., 0., 0., 1.),
            (1., 1., 1., 1.),
        ])),
        bands: Some(vec![1]),
        name: None,
        vmin: Some(0.),
        vmax: Some(1.),
    };
    let mapsettings = settings("test", Some(style));
    assert!(mapsettings.validate_bands().is_ok());
}

#[test]
fn test_validate_no_data_values() {
    let raster_count: isize = 2;
    let band_values: Vec<Option<f64>> = vec![None, None];

    let mut mapsettings = settings("test", None);
    mapsettings.no_data_value = Some(vec![0.0]);
    let valid = mapsettings.validate_no_data_values(raster_count, &band_values, 0.0);
    assert!(valid.is_err());
    if let Err(MapEngineError::Msg(msg)) = valid {
        let expected =
            "The raster has 2 bands. Expected the same number of no_data values".to_string();
        assert_eq!(msg, expected);
    };

    let mut mapsettings = settings("test", None);
    let valid = mapsettings.validate_no_data_values(raster_count, &band_values, 0.0);
    assert!(valid.is_ok());
    assert_eq!(mapsettings.no_data_value.unwrap(), [0., 0.]);
}

#[test]
fn no_data_values_of_the_dataset_are_taken_band_by_band() {
    let mut map = settings("m", None);
    let valid = map.validate_no_data_values(3, &vec![Some(255.0), None, Some(-1.0)], 0.0);
    assert!(valid.is_ok());
    assert_eq!(map.no_data_value, Some(vec![255.0, 0.0, -1.0]));
    let valid = map.validate_no_data_values(3, &vec![None, None, None], 0.0);
    assert!(valid.is_ok());
    assert_eq!(map.no_data_value, Some(vec![255.0, 0.0, -1.0]));
    let valid = map.validate_no_data_values(-12, &vec![], 0.0);
    match valid {
        Err(MapEngineError::Msg(msg)) => assert_eq!(
            msg,
            "The raster has -12 bands. Expected the same number of no_data values"
        ),
        _ => panic!("three values passed for a count of -12"),
    }
    let valid = map.validate_no_data_values(1040, &vec![], 0.0);
    match valid {
        Err(MapEngineError::Msg(msg)) => assert_eq!(
            msg,
            "The raster has 1040 bands. Expected the same number of no_data values"
        ),
        _ => panic!("three values passed for a count of 1040"),
    }
}

#[test]
fn rgb_with_three_bands_passes() {
    let style = Style {
        colours: Some(ColourDefinition::RGB([0., 0., 0.], [1., 1., 1.])),
        bands: Some(vec![3, 2, 1]),
        name: None,
        vmin: None,
        vmax: None,
    };
    assert!(settings("m", Some(style)).validate_bands().is_ok());
}

#[test]
fn style_without_palette_or_map_without_style_passes() {
    let style: Style<f64, Rgba> = Style {
        colours: None,
        bands: Some(vec![1, 2]),
        name: Some("viridis".to_string()),
        vmin: None,
        vmax: None,
    };
    assert!(settings("m", Some(style)).validate_bands().is_ok());
    assert!(settings("m", None).validate_bands().is_ok());
}

#[test]
fn palettes_read_one_band_but_rgb_three() {
    let rgb: ColourDefinition<f64, Rgba> = ColourDefinition::RGB([0.; 3], [100.; 3]);
    assert_eq!(rgb.n_bands(), 3);
    assert!(!rgb.is_contiguous());
    let discrete: ColourDefinition<f64, Rgba> = ColourDefinition::Discrete(vec![]);
    assert_eq!(discrete.n_bands(), 1);
    assert!(discrete.is_contiguous());
    let colours: ColourDefinition<f64, Rgba> = ColourDefinition::Colours(vec![]);
    assert_eq!(colours.n_bands(), 1);
    assert!(colours.is_contiguous());
    let breaks: ColourDefinition<f64, Rgba> = ColourDefinition::ColoursAndBreaks(vec![]);
    assert_eq!(breaks.n_bands(), 1);
    assert!(breaks.is_contiguous());
}

#[test]
fn discrete_palette_gives_the_colour_of_a_listed_value() {
    let red: Rgba = (1., 0., 0., 1.);
    let green: Rgba = (0., 1., 0., 1.);
    let blue: Rgba = (0., 0., 1., 1.);
    let palette = vec![(0, red), (1, green), (2, blue)];
    assert_eq!(discrete_colour(&palette, 0), Some(red));
    assert_eq!(discrete_colour(&palette, 2), Some(blue));
    assert_eq!(discrete_colour(&palette, 3), None);
    assert_eq!(discrete_colour(&palette, -1), None);
    assert_eq!(discrete_colour(&Vec::<(isize, Rgba)>::new(), 0), None);
}

#[test]
fn discrete_palette_takes_the_last_entry_of_a_value() {
    let palette = vec![(7, 'a'), (8, 'b'), (7, 'c')];
    assert_eq!(discrete_colour(&palette, 7), Some('c'));
    assert_eq!(discrete_colour(&palette, 8), Some('b'));
}

#[test]
fn raster_of_three_bands_is_shown_as_rgb() {
    let min_max = vec![(1., 10.), (2., 20.), (3., 30.), (4., 40.)];
    let style: Style<f64, Rgba> = default_style(4, &min_max);
    assert_eq!(
        style,
        Style {
            name: None,
            colours: Some(ColourDefinition::RGB([1., 2., 3.], [10., 20., 30.])),
            vmin: None,
            vmax: None,
            bands: Some(vec![1, 2, 3]),
        }
    );
    let style: Style<f64, Rgba> = default_style(3, &min_max);
    assert_eq!(style.bands, Some(vec![1, 2, 3]));
}

#[test]
fn raster_of_fewer_bands_is_shown_in_viridis() {
    let min_max = vec![(1., 10.), (2., 20.)];
    let style: Style<f64, Rgba> = default_style(2, &min_max);
    assert_eq!(
        style,
        Style {
            name: Some("viridis".to_string()),
            colours: None,
            vmin: Some(1.),
            vmax: Some(10.),
            bands: Some(vec![1]),
        }
    );
    assert_eq!(style.composite_plan(), CompositePlan::Named(NamedPalette::Viridis));
}

#[test]
fn style_is_filled_from_the_defaults() {
    let defaults = || Style {
        name: None,
        colours: Some(ColourDefinition::Colours(vec![(0., 0., 0., 1.), (1., 1., 1., 1.)])),
        vmin: Some(0.),
        vmax: Some(1.),
        bands: Some(vec![1]),
    };
    let bare: Style<f64, Rgba> = Style {
        name: Some("inferno".to_string()),
        colours: None,
        vmin: None,
        vmax: Some(100.),
        bands: None,
    };
    let filled = bare.filled(defaults());
    assert_eq!(
        filled,
        Style {
            name: Some("inferno".to_string()),
            colours: None,
            vmin: Some(0.),
            vmax: Some(100.),
            bands: Some(vec![1]),
        }
    );
    let full: Style<f64, Rgba> = Style {
        name: None,
        colours: None,
        vmin: Some(5.),
        vmax: Some(6.),
        bands: Some(vec![2]),
    };
    let filled = full.filled(defaults());
    assert_eq!(filled.vmin, Some(5.));
    assert_eq!(filled.vmax, Some(6.));
    assert_eq!(filled.bands, Some(vec![2]));
    assert_eq!(filled.colours, None);
}

fn plan_of(name: Option<&str>, colours: Option<ColourDefinition<f64, Rgba>>) -> CompositePlan {
    let style = Style {
        name: name.map(|n| n.to_string()),
        colours,
        vmin: Some(0.),
        vmax: Some(100.),
        bands: None,
    };
    style.composite_plan()
}

#[test]
fn name_goes_before_palette() {
    let rgb = || Some(ColourDefinition::RGB([0.; 3], [100.; 3]));
    assert_eq!(plan_of(Some("inferno"), None), CompositePlan::Named(NamedPalette::Inferno));
    assert_eq!(plan_of(Some("viridis"), rgb()), CompositePlan::Named(NamedPalette::Viridis));
    assert_eq!(plan_of(Some("inferno"), rgb()), CompositePlan::Named(NamedPalette::Inferno));
    assert_eq!(plan_of(Some("non-existent"), None), CompositePlan::Named(NamedPalette::Viridis));
    assert_eq!(plan_of(Some(""), rgb()), CompositePlan::Named(NamedPalette::Viridis));
    assert_eq!(plan_of(None, None), CompositePlan::Named(NamedPalette::Viridis));
}

#[test]
fn palette_decides_where_there_is_no_name() {
    assert_eq!(plan_of(None, Some(ColourDefinition::RGB([0.; 3], [100.; 3]))), CompositePlan::Rgb);
    assert_eq!(plan_of(None, Some(ColourDefinition::Colours(vec![]))), CompositePlan::CustomGradient);
    assert_eq!(
        plan_of(None, Some(ColourDefinition::ColoursAndBreaks(vec![]))),
        CompositePlan::GradientWithBreaks
    );
    assert_eq!(
        plan_of(None, Some(ColourDefinition::Discrete(vec![]))),
        CompositePlan::DiscretePalette
    );
}

#[test]
fn settings_give_their_bands_values_and_plan() {
    let mut map = settings(
        "m",
        Some(Style {
            name: None,
            colours: Some(ColourDefinition::Discrete(vec![(1, (0., 0., 0., 1.))])),
            vmin: Some(0.),
            vmax: Some(1.),
            bands: Some(vec![2]),
        }),
    );
    map.no_data_value = Some(vec![0., 255.]);
    assert_eq!(map.get_bands(), &vec![2]);
    assert_eq!(map.get_no_data_values(), &vec![0., 255.]);
    assert_eq!(map.to_composite(), CompositePlan::DiscretePalette);
    assert_eq!(map.name, "m");
    assert_eq!(map.path, "");
    assert_eq!(map.extent, None);
}

#[test]
fn values_are_projected_onto_the_bands() {
    let values = vec![10.0, 20.0, 30.0];
    assert_eq!(project_onto_bands(&values, &vec![3, 1]), vec![30.0, 10.0]);
    assert_eq!(project_onto_bands(&values, &vec![2, 2]), vec![20.0, 20.0]);
    assert_eq!(project_onto_bands(&values, &vec![]), Vec::<f64>::new());
}

#[test]
fn bands_count_from_one() {
    assert!(bands_in_range(&vec![1, 2, 3], 3));
    assert!(bands_in_range(&vec![], 0));
    assert!(!bands_in_range(&vec![0], 3));
    assert!(!bands_in_range(&vec![1, 4], 3));
    assert!(!bands_in_range(&vec![-1], 3));
}

#[test]
fn map_keeps_its_name() {
    assert_eq!(resolve_name("chile".to_string()), "chile");
}

#[test]
fn map_without_a_name_gets_a_fresh_one() {
    let first = resolve_name(String::new());
    let second = resolve_name(String::new());
    assert_eq!(first.chars().count(), 36);
    assert_eq!(second.chars().count(), 36);
    assert_ne!(first, second);
}

fn facts(count: isize, band_values: Vec<Option<f64>>) -> DatasetFacts<f64, [f64; 6]> {
    DatasetFacts {
        driver_name: "GTiff".to_string(),
        raster_size: (512, 256),
        raster_count: count,
        geotransform: [1., 0., 0., 0., -1., 0.],
        spatial_info: SpatialInfo::from_spatial_ref(Some(3857), None, None),
        spatial_units: "metre".to_string(),
        has_overview: true,
        bounds: [-1., -2., 1., 2.],
        min_max: vec![(1., 10.), (2., 20.), (3., 30.)],
        band_values,
    }
}

fn defaults() -> Style<f64, Rgba> {
    Style {
        name: None,
        colours: Some(ColourDefinition::Colours(vec![(0., 0., 0., 1.), (1., 1., 1., 1.)])),
        vmin: Some(0.),
        vmax: Some(1.),
        bands: Some(vec![1]),
    }
}

#[test]
fn map_of_two_bands_is_registered_in_viridis() {
    let map: Settings = MapSettings::new("chile".to_string(), "chile.tif".to_string());
    let done = map.registered(facts(2, vec![None, Some(255.)]), 0.0, defaults()).unwrap();
    assert_eq!(done.name, "chile");
    assert_eq!(done.path, "chile.tif");
    assert_eq!(done.extent, Some(Window::new(0, 0, 512, 256)));
    assert_eq!(done.driver_name, Some("GTiff".to_string()));
    assert_eq!(done.geotransform, Some([1., 0., 0., 0., -1., 0.]));
    assert_eq!(done.spatial_info, Some(SpatialInfo::from_spatial_ref(Some(3857), None, None)));
    assert_eq!(done.spatial_units, Some("metre".to_string()));
    assert_eq!(done.has_overview, Some(true));
    assert_eq!(done.bounds, Some([-1., -2., 1., 2.]));
    assert_eq!(done.no_data_value, Some(vec![0., 255.]));
    assert_eq!(done.xml, None);
    assert_eq!(
        done.style,
        Some(Style {
            name: Some("viridis".to_string()),
            colours: None,
            vmin: Some(1.),
            vmax: Some(10.),
            bands: Some(vec![1]),
        })
    );
}

#[test]
fn map_of_three_bands_is_registered_as_rgb() {
    let map: Settings = MapSettings::new("rgb".to_string(), "rgb.tif".to_string());
    let done = map.registered(facts(3, vec![None, None, None]), 0.0, defaults()).unwrap();
    assert_eq!(
        done.style,
        Some(Style {
            name: None,
            colours: Some(ColourDefinition::RGB([1., 2., 3.], [10., 20., 30.])),
            vmin: Some(0.),
            vmax: Some(1.),
            bands: Some(vec![1, 2, 3]),
        })
    );
    assert_eq!(done.no_data_value, Some(vec![0., 0., 0.]));
    assert_eq!(done.to_composite(), CompositePlan::Rgb);
}

#[test]
fn map_keeps_what_it_came_with() {
    let mut map: Settings = MapSettings::new("own".to_string(), "own.tif".to_string());
    map.extent = Some(Window::new(5, 5, 10, 10));
    map.no_data_value = Some(vec![7., 8.]);
    map.style = Some(Style {
        name: Some("inferno".to_string()),
        colours: None,
        vmin: None,
        vmax: Some(100.),
        bands: None,
    });
    let done = map.registered(facts(2, vec![None, None]), 0.0, defaults()).unwrap();
    assert_eq!(done.extent, Some(Window::new(5, 5, 10, 10)));
    assert_eq!(done.no_data_value, Some(vec![7., 8.]));
    assert_eq!(
        done.style,
        Some(Style {
            name: Some("inferno".to_string()),
            colours: None,
            vmin: Some(0.),
            vmax: Some(100.),
            bands: Some(vec![1]),
        })
    );
}

#[test]
fn rgb_style_on_one_band_is_rejected() {
    let mut map: Settings = MapSettings::new("one".to_string(), "one.tif".to_string());
    map.style = Some(Style {
        name: None,
        colours: Some(ColourDefinition::RGB([0.; 3], [1.; 3])),
        vmin: None,
        vmax: None,
        bands: Some(vec![1]),
    });
    match map.registered(facts(1, vec![None]), 0.0, defaults()) {
        Err(MapEngineError::Msg(msg)) => assert_eq!(
            msg,
            "To use a RGB style you need to provide 3 bands for map `one`"
        ),
        _ => panic!("registered"),
    }
}

#[test]
fn no_data_values_are_checked_before_the_bands() {
    let mut map: Settings = MapSettings::new("one".to_string(), "one.tif".to_string());
    map.no_data_value = Some(vec![0.]);
    map.style = Some(Style {
        name: None,
        colours: Some(ColourDefinition::RGB([0.; 3], [1.; 3])),
        vmin: None,
        vmax: None,
        bands: None,
    });
    match map.registered(facts(2, vec![None, None]), 0.0, defaults()) {
        Err(MapEngineError::Msg(msg)) => assert_eq!(
            msg,
            "The raster has 2 bands. Expected the same number of no_data values"
        ),
        _ => panic!("registered"),
    }
}

#[test]
fn default_settings_are_empty() {
    let map: Settings = Default::default();
    let named: Settings = MapSettings::new(String::new(), String::new());
    assert_eq!(map, named);
    assert_eq!(map.name, "");
    assert_eq!(map.style, None);
    assert_eq!(map.no_data_value, None);
}

#[test]
fn dataset_values_of_another_number_than_the_bands_are_refused() {
    let mut map = settings("m", None);
    match map.validate_no_data_values(3, &vec![], 0.0) {
        Err(MapEngineError::Msg(msg)) => assert_eq!(
            msg,
            "The raster has 3 bands. Expected the same number of no_data values"
        ),
        _ => panic!("no values passed for three bands"),
    }
    assert_eq!(map.no_data_value, None);
    assert!(map.validate_no_data_values(3, &vec![None; 4], 0.0).is_err());
    assert!(map.validate_no_data_values(-1, &vec![], 0.0).is_err());
    assert!(map.validate_no_data_values(0, &vec![], 0.0).is_ok());
    assert_eq!(map.no_data_value, Some(vec![]));
    let unset: Settings = MapSettings::new("m".to_string(), "m.tif".to_string());
    assert!(unset.registered(facts(3, vec![]), 0.0, defaults()).is_err());
}

#[test]
fn numbers_are_written_in_decimal() {
    assert_eq!(number_text(0), "0");
    assert_eq!(number_text(7), "7");
    assert_eq!(number_text(10), "10");
    assert_eq!(number_text(-1), "-1");
    assert_eq!(number_text(1234567890), "1234567890");
    assert_eq!(number_text(isize::MAX), isize::MAX.to_string());
    assert_eq!(number_text(isize::MIN), isize::MIN.to_string());
}
