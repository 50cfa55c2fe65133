use map_engine::errors::MapEngineError;
use map_engine::raster::{
    destination, driver_for, plan_boundless, BoundlessPlan, Driver, Raster, SpatialInfo,
    SpatialSource, MBTILES,
};
use map_engine::windows::Window;

fn raster(driver: &str, count: isize, size: (usize, usize)) -> Raster {
    Raster::new(
        driver.to_string(),
        count,
        size,
        SpatialInfo::from_spatial_ref(Some(4326), None, None),
    )
}

#[test]
fn spatial_info_prefers_epsg_then_proj4_then_wkt_then_esri() {
    let all = SpatialInfo::new(
        Some(3857),
        Some("+proj=merc".to_string()),
        Some("PROJCS[]".to_string()),
        Some("ESRI[]".to_string()),
    );
    assert_eq!(all.to_spatial_ref().unwrap(), SpatialSource::Epsg(3857));
    let no_code = SpatialInfo::new(
        None,
        Some("+proj=merc".to_string()),
        Some("PROJCS[]".to_string()),
        Some("ESRI[]".to_string()),
    );
    assert_eq!(
        no_code.to_spatial_ref().unwrap(),
        SpatialSource::Proj4("+proj=merc".to_string())
    );
    let texts = SpatialInfo::new(None, None, Some("PROJCS[]".to_string()), Some("ESRI[]".to_string()));
    assert_eq!(
        texts.to_spatial_ref().unwrap(),
        SpatialSource::Wkt("PROJCS[]".to_string())
    );
    let esri = SpatialInfo::new(None, None, None, Some("ESRI[]".to_string()));
    assert_eq!(
        esri.to_spatial_ref().unwrap(),
        SpatialSource::Esri("ESRI[]".to_string())
    );
}

#[test]
fn spatial_info_without_any_notation_fails() {
    let none = SpatialInfo::new(None, None, None, None);
    match none.to_spatial_ref() {
        Err(MapEngineError::Msg(msg)) => assert_eq!(msg, "Unknow spatial ref"),
        _ => panic!("a reference system came out of nothing"),
    }
}

#[test]
fn spatial_info_of_a_dataset_has_no_esri_text() {
    let info = SpatialInfo::from_spatial_ref(None, Some("W".to_string()), Some("P".to_string()));
    assert_eq!(
        info,
        SpatialInfo::new(None, Some("P".to_string()), Some("W".to_string()), None)
    );
    assert_eq!(info.to_spatial_ref().unwrap(), SpatialSource::Proj4("P".to_string()));
}

#[test]
fn raster_keeps_its_metadata() {
    let r = raster("GTiff", 2, (512, 256));
    assert_eq!(r.driver_name(), "GTiff");
    assert_eq!(r.raster_count(), 2);
    assert_eq!(r.raster_size(), (512, 256));
    assert_eq!(r.extent(), Window::new(0, 0, 512, 256));
    assert_eq!(
        r.spatial_info(),
        SpatialInfo::from_spatial_ref(Some(4326), None, None)
    );
    assert_eq!(r.spatial_ref().unwrap(), SpatialSource::Epsg(4326));
}

#[test]
fn raster_intersects_a_window_that_shares_a_pixel() {
    let r = raster("GTiff", 1, (512, 512));
    assert!(r.intersects(&Window::new(511, 511, 256, 256)));
    assert!(r.intersects(&Window::new(-255, -255, 256, 256)));
    assert!(!r.intersects(&Window::new(512, 0, 256, 256)));
    assert!(!r.intersects(&Window::new(-256, 0, 256, 256)));
    assert!(!r.intersects(&Window::new(0, 0, 0, 0)));
}

#[test]
fn bands_default_to_all() {
    let r = raster("GTiff", 3, (512, 512));
    assert_eq!(r.select_bands(None), vec![1, 2, 3]);
    assert_eq!(r.select_bands(Some(&[2])), vec![2]);
    assert_eq!(r.select_bands(Some(&[3, 1])), vec![3, 1]);
    assert_eq!(r.select_bands(Some(&[])), Vec::<isize>::new());
    let none = raster("GTiff", 0, (512, 512));
    assert_eq!(none.select_bands(None), Vec::<isize>::new());
}

#[test]
fn image_tile_containers_are_read_whole() {
    let r = raster(MBTILES, 4, (512, 512));
    assert_eq!(r.select_bands(Some(&[1])), vec![1, 2, 3, 4]);
    assert_eq!(r.select_bands(None), vec![1, 2, 3, 4]);
}

#[test]
fn driver_is_told_by_its_short_name() {
    assert_eq!(driver_for("MBTiles"), Driver::Mbtile);
    assert_eq!(driver_for("GTiff"), Driver::Generic);
    assert_eq!(driver_for("mbtiles"), Driver::Generic);
    assert_eq!(driver_for(""), Driver::Generic);
}

#[test]
fn window_inside_the_raster_is_read_directly() {
    assert_eq!(
        plan_boundless((512, 512), &Window::new(0, 0, 256, 256)),
        BoundlessPlan::Direct
    );
    assert_eq!(
        plan_boundless((512, 512), &Window::new(255, 255, 256, 256)),
        BoundlessPlan::Direct
    );
}

#[test]
fn window_that_ends_on_the_edge_is_read_in_part() {
    assert_eq!(
        plan_boundless((512, 512), &Window::new(256, 256, 256, 256)),
        BoundlessPlan::Partial(Window::new(256, 256, 256, 256))
    );
}

#[test]
fn window_over_the_edge_is_read_in_part() {
    assert_eq!(
        plan_boundless((512, 512), &Window::new(0, 0, 2048, 2048)),
        BoundlessPlan::Partial(Window::new(0, 0, 512, 512))
    );
    assert_eq!(
        plan_boundless((512, 512), &Window::new(-1024, -512, 2048, 2048)),
        BoundlessPlan::Partial(Window::new(0, 0, 512, 512))
    );
    assert_eq!(
        plan_boundless((512, 512), &Window::new(-1792, 256, 2048, 2048)),
        BoundlessPlan::Partial(Window::new(0, 256, 256, 256))
    );
}

#[test]
fn window_off_the_raster_is_filled() {
    assert_eq!(
        plan_boundless((512, 512), &Window::new(2048, 2048, 4096, 4096)),
        BoundlessPlan::Fill
    );
    assert_eq!(
        plan_boundless((512, 512), &Window::new(10, 10, 0, 0)),
        BoundlessPlan::Fill
    );
}

#[test]
fn data_lands_at_the_offset() {
    let d = destination(-64, -128, 64, 64, false);
    assert_eq!((d.row_start, d.row_end), (64, 128));
    assert_eq!((d.col_start, d.col_end), (128, 192));
    let d = destination(0, 0, 64, 300, false);
    assert_eq!((d.row_start, d.row_end), (0, 64));
    assert_eq!((d.col_start, d.col_end), (0, 256));
    let d = destination(-250, 0, 64, 64, false);
    assert_eq!((d.row_start, d.row_end), (250, 256));
}

#[test]
fn data_of_a_skewed_tile_lands_at_the_far_edge() {
    let d = destination(-10, 0, 200, 256, true);
    assert_eq!((d.row_start, d.row_end), (56, 210));
    assert_eq!((d.col_start, d.col_end), (0, 256));
}
