use map_engine::affine::GeoTransform;
use map_engine::assemble::{assemble, filled_band, interleave, paste, stack, TILE_PIXELS};
use map_engine::pixels::RawPixels;
use map_engine::raster::{destination, feeds_y_first, Destination, Driver};

#[test]
fn band_is_filled_with_one_value() {
    let band = filled_band(2.0f32);
    assert_eq!(band.len(), 256 * 256);
    assert_eq!(TILE_PIXELS, 65536);
    assert!(band.iter().all(|v| *v == 2.0));
}

#[test]
fn data_is_pasted_at_its_destination() {
    let mut band = filled_band(0u32);
    let data: Vec<u32> = (1..=6).collect();
    let dest = Destination { row_start: 10, row_end: 12, col_start: 253, col_end: 256 };
    assert!(paste(&mut band, &data, 2, 3, &dest));
    assert_eq!(&band[10 * 256 + 253..10 * 256 + 256], &[1, 2, 3]);
    assert_eq!(&band[11 * 256 + 253..11 * 256 + 256], &[4, 5, 6]);
    assert_eq!(band.iter().filter(|v| **v != 0).count(), 6);
    assert_eq!(band[10 * 256 + 252], 0);
    assert_eq!(band[12 * 256 + 253], 0);
}

#[test]
fn data_of_another_shape_is_not_pasted() {
    let mut band = filled_band(0u32);
    let data: Vec<u32> = (1..=6).collect();
    let wide = Destination { row_start: 10, row_end: 12, col_start: 0, col_end: 4 };
    assert!(!paste(&mut band, &data, 2, 3, &wide));
    let turned = Destination { row_start: 10, row_end: 13, col_start: 0, col_end: 2 };
    assert!(!paste(&mut band, &data, 2, 3, &turned));
    let outside = Destination { row_start: 255, row_end: 257, col_start: 0, col_end: 3 };
    assert!(!paste(&mut band, &data, 2, 3, &outside));
    let before = Destination { row_start: -1, row_end: 1, col_start: 0, col_end: 3 };
    assert!(!paste(&mut band, &data, 2, 3, &before));
    let backward = Destination { row_start: 12, row_end: 10, col_start: 0, col_end: 3 };
    assert!(!paste(&mut band, &data, 2, 3, &backward));
    assert!(band.iter().all(|v| *v == 0));
}

#[test]
fn data_that_covers_the_tile_replaces_the_band() {
    let mut band = filled_band(0u16);
    let data: Vec<u16> = (0..65536u32).map(|v| (v % 65521) as u16).collect();
    let dest = destination(0, 0, 256, 256, false);
    assert!(paste(&mut band, &data, 256, 256, &dest));
    assert_eq!(band, data);
}

#[test]
fn nothing_is_pasted_from_no_data() {
    let mut band = filled_band(7u8);
    let dest = Destination { row_start: 5, row_end: 5, col_start: 0, col_end: 3 };
    assert!(paste(&mut band, &Vec::new(), 0, 3, &dest));
    assert!(band.iter().all(|v| *v == 7));
}

#[test]
fn overhanging_read_lands_where_the_offsets_say() {
    let mut band = filled_band(0.0f64);
    let data = vec![1.0; 64 * 64];
    let dest = destination(-64, -128, 64, 64, false);
    assert!(paste(&mut band, &data, 64, 64, &dest));
    assert_eq!(band[64 * 256 + 128], 1.0);
    assert_eq!(band[127 * 256 + 191], 1.0);
    assert_eq!(band[63 * 256 + 128], 0.0);
    assert_eq!(band[64 * 256 + 127], 0.0);
    assert_eq!(band[128 * 256 + 128], 0.0);
    assert_eq!(band.iter().filter(|v| **v == 1.0).count(), 64 * 64);
}

#[test]
fn bands_are_stacked_plane_after_plane() {
    let mut first = filled_band(1.0f64);
    first[5] = 9.0;
    let second = filled_band(2.0f64);
    let raw: RawPixels<f64> = stack(&vec![first, second], "GTiff");
    assert_eq!(raw.shape(), (2, 256, 256));
    assert_eq!(raw.driver(), Driver::Generic);
    assert_eq!(raw.as_values().len(), 2 * 65536);
    assert_eq!(raw.lane(0, 5), vec![9.0, 2.0]);
    assert_eq!(raw.lane(255, 255), vec![1.0, 2.0]);
    assert_eq!(raw.pixel(5), vec![9.0, 2.0]);
    let none: RawPixels<f64> = stack(&Vec::new(), "MBTiles");
    assert_eq!(none.shape(), (0, 256, 256));
    assert_eq!(none.driver(), Driver::Mbtile);
}

#[test]
fn band_axis_is_moved_to_the_last_place() {
    let data = vec![1, 2, 3, 10, 20, 30];
    assert_eq!(interleave(&data, 2, 3), vec![1, 10, 2, 20, 3, 30]);
    assert_eq!(interleave(&data, 1, 6), data);
    assert_eq!(interleave(&data, 6, 1), data);
    assert_eq!(interleave(&data, 3, 2), vec![1, 3, 20, 2, 10, 30]);
    assert_eq!(interleave(&Vec::<u8>::new(), 4, 0), Vec::<u8>::new());
}

#[test]
fn pixels_are_styled_row_by_row() {
    let data: Vec<f64> = vec![0.0, 0.25, 0.5, 1.0, 10.0, 11.0, 12.0, 13.0];
    let raw = RawPixels::new(data, 2, 2, 2, "").unwrap();
    let get = |values: &Vec<f64>| -> [u8; 4] {
        [(values[0] * 100.0) as u8, values[1] as u8, values.len() as u8, 255]
    };
    let styled = raw.style_with(&get).unwrap();
    assert_eq!(styled.driver(), Driver::Generic);
    assert_eq!(styled.shape(), (2, 2));
    assert_eq!(
        styled.into_bytes(),
        vec![0, 10, 2, 255, 25, 11, 2, 255, 50, 12, 2, 255, 100, 13, 2, 255]
    );
}

#[test]
fn pixels_of_an_image_tile_container_pass_through() {
    let raw = RawPixels::new(vec![71.0, 46.0, 124.0, 255.0, 1.5, 300.0, -1.0, 0.0], 1, 2, 4, "MBTiles").unwrap();
    let styled = raw.passed_through(&|v: f64| v as u8).unwrap();
    assert_eq!(styled.driver(), Driver::Mbtile);
    assert_eq!(styled.shape(), (1, 2));
    assert_eq!(styled.into_bytes(), vec![71, 46, 124, 255, 1, 255, 0, 0]);
    let bands_first = RawPixels::new(vec![0.0; 8], 4, 1, 2, "MBTiles").unwrap();
    assert!(bands_first.passed_through(&|v: f64| v as u8).is_none());
}

#[test]
fn coefficients_change_order_and_back() {
    let gdal = [-75.7, 0.0009, 0.0, -17.5, 0.0, -0.0009];
    let geo = GeoTransform::from_gdal(&gdal);
    assert_eq!(geo.geo, [0.0009, 0.0, -75.7, 0.0, -0.0009, -17.5]);
    assert_eq!(geo.to_gdal().to_array(), gdal);
    assert_eq!(geo.to_tuple(), (0.0009, 0.0, -75.7, 0.0, -0.0009, -17.5));
    assert_eq!(geo.xoff(), -75.7);
    assert_eq!(geo.yoff(), -17.5);
    let plain = GeoTransform::new(&[1, 2, 3, 4, 5, 6]);
    assert_eq!(plain.to_array(), [1, 2, 3, 4, 5, 6]);
    assert_eq!(plain.to_gdal().geo, [3, 1, 2, 6, 4, 5]);
    assert_eq!(GeoTransform::from_gdal(&plain.to_gdal().geo), plain);
}

#[test]
fn metres_feed_y_first() {
    assert!(feeds_y_first("metre"));
    assert!(!feeds_y_first("degree"));
    assert!(!feeds_y_first("Metre"));
    assert!(!feeds_y_first(""));
}

#[test]
fn numeric_bands_are_assembled_plane_after_plane() {
    let mut first = filled_band(1u8);
    first[3] = 5;
    let second = filled_band(2u8);
    let raw = assemble(&vec![first, second], "GTiff");
    assert_eq!(raw.shape(), (2, 256, 256));
    assert_eq!(raw.driver(), Driver::Generic);
    assert_eq!(raw.pixel(3), vec![5, 2]);
    assert_eq!(raw.as_values()[65536 + 3], 2);
}

#[test]
fn image_tiles_are_assembled_pixel_after_pixel() {
    let mut red = filled_band(71.0f64);
    red[1] = 70.0;
    let planes = vec![red, filled_band(46.0), filled_band(124.0), filled_band(255.0)];
    let raw = assemble(&planes, "MBTiles");
    assert_eq!(raw.shape(), (256, 256, 4));
    assert_eq!(raw.driver(), Driver::Mbtile);
    assert_eq!(&raw.as_values()[..8], &[71.0, 46.0, 124.0, 255.0, 70.0, 46.0, 124.0, 255.0]);
    let styled = raw
        .style(&|_: &Vec<f64>| [0, 0, 0, 0], &|v: f64| v as u8)
        .unwrap();
    assert_eq!(styled.driver(), Driver::Mbtile);
    let bytes = styled.into_bytes();
    assert_eq!(bytes.len(), 262144);
    assert_eq!(&bytes[..8], &[71, 46, 124, 255, 70, 46, 124, 255]);
    let none = assemble(&Vec::<Vec<u8>>::new(), "MBTiles");
    assert_eq!(none.shape(), (256, 256, 0));
}

#[test]
fn numeric_bands_are_styled_through_the_colour_map() {
    let raw = assemble(&vec![filled_band(0.5f64)], "GTiff");
    let styled = raw
        .style(
            &|values: &Vec<f64>| [(values[0] * 255.0) as u8, 0, 0, 255],
            &|_: f64| 9,
        )
        .unwrap();
    assert_eq!(styled.driver(), Driver::Generic);
    let png = styled.into_png().unwrap();
    assert_eq!(&png[..4], &[137, 80, 78, 71]);
}
