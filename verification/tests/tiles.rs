use map_engine::errors::MapEngineError;
use map_engine::tiles::{Corners, Tile};
use map_engine::windows::Window;

#[test]
fn test_tile_zoom_out() {
    let tile = Tile::new(0, 0, 2);
    assert_eq!(tile.zoom_out(None).unwrap(), Tile::new(0, 0, 1));
    assert_eq!(tile.zoom_out(Some(0)).unwrap(), Tile::new(0, 0, 0));
    assert_eq!(tile.zoom_out(Some(3)).unwrap(), tile);
    let tile = Tile::new(0, 0, 0);
    assert_eq!(tile.zoom_out(None), None);
}

#[test]
fn test_tile_zoom_in() {
    let tile = Tile::new(0, 0, 0);
    assert_eq!(
        tile.zoom_in(None),
        Some(vec![
            Tile::new(0, 0, 1),
            Tile::new(1, 0, 1),
            Tile::new(1, 1, 1),
            Tile::new(0, 1, 1),
        ])
    );
    let children2 = tile.zoom_in(Some(2));
    assert_eq!(children2.as_ref().unwrap().len(), 16);
    assert!(children2.unwrap().iter().all(|t| t.z == 2));
    let tile = Tile::new(0, 0, 32);
    let children_max = tile.zoom_in(None);
    assert_eq!(children_max, None);
}

#[test]
fn zoom_in_then_out_gives_the_tile_back() {
    let tile = Tile::new(304, 624, 10);
    let children = tile.zoom_in(None).unwrap();
    assert_eq!(children.len(), 4);
    for child in children.iter() {
        assert_eq!(child.zoom_out(None).unwrap(), tile);
    }
    let deepest = Tile::new(u32::MAX / 2, 0, 31);
    let children = deepest.zoom_in(None).unwrap();
    assert_eq!(children[2], Tile::new(u32::MAX, 1, 32));
    for child in children.iter() {
        assert_eq!(child.zoom_out(None).unwrap(), deepest);
    }
}

#[test]
fn zoom_in_orders_children_within_each_parent() {
    let tile = Tile::new(1, 2, 3);
    let tiles = tile.zoom_in(Some(5)).unwrap();
    assert_eq!(tiles.len(), 16);
    assert_eq!(tiles[0], Tile::new(4, 8, 5));
    assert_eq!(tiles[1], Tile::new(5, 8, 5));
    assert_eq!(tiles[4], Tile::new(6, 8, 5));
    assert_eq!(tiles[15], Tile::new(4, 11, 5));
    for t in tiles.iter() {
        assert_eq!(t.zoom_out(Some(3)).unwrap(), tile);
    }
}

#[test]
fn zoom_in_to_a_level_not_below_gives_the_tile() {
    let tile = Tile::new(1, 2, 3);
    assert_eq!(tile.zoom_in(Some(3)), Some(vec![Tile::new(1, 2, 3)]));
    assert_eq!(tile.zoom_in(Some(1)), Some(vec![Tile::new(1, 2, 3)]));
}

#[test]
fn zoom_out_halves_odd_addresses_downward() {
    let tile = Tile::new(5, 7, 3);
    assert_eq!(tile.zoom_out(None).unwrap(), Tile::new(2, 3, 2));
    assert_eq!(tile.zoom_out(Some(1)).unwrap(), Tile::new(1, 1, 1));
    assert_eq!(tile.zoom_out(Some(0)).unwrap(), Tile::new(0, 0, 0));
}

#[test]
fn to_tuple_gives_x_y_z() {
    assert_eq!(Tile::new(1, 2, 3).to_tuple(), (1, 2, 3));
}

#[test]
fn only_png_can_be_set_as_extension() {
    let mut tile = Tile::new(1, 2, 3);
    assert!(tile.set_extension("png").is_ok());
    assert_eq!(tile, Tile::new(1, 2, 3));
    let refused = tile.set_extension("jpg");
    match refused {
        Err(MapEngineError::TileError(msg)) => {
            assert_eq!(msg, "The extension \"jpg\" is not yet supported")
        }
        _ => panic!("jpg was accepted"),
    }
    assert_eq!(tile, Tile::new(1, 2, 3));
    assert!(tile.set_extension("PNG").is_err());
    assert!(tile.set_extension("").is_err());
}

#[test]
fn corners_of_a_rectangle_give_its_window() {
    let corners = Corners {
        upper_left: (10, 20),
        upper_right: (10, 275),
        lower_right: (265, 275),
        lower_left: (265, 20),
    };
    assert_eq!(corners.to_window(), (Window::new(20, 10, 256, 256), false));
}

#[test]
fn corners_off_the_axes_are_skewed() {
    let corners = Corners {
        upper_left: (10, 20),
        upper_right: (12, 275),
        lower_right: (267, 280),
        lower_left: (265, 18),
    };
    assert_eq!(corners.to_window(), (Window::new(18, 10, 263, 258), true));
    assert!(corners.is_skewed());
    let columns_only = Corners {
        upper_left: (0, 0),
        upper_right: (0, 10),
        lower_right: (10, 11),
        lower_left: (10, 0),
    };
    assert!(columns_only.is_skewed());
}

#[test]
fn corners_may_lie_before_the_raster() {
    let corners = Corners {
        upper_left: (-300, -5),
        upper_right: (-300, 250),
        lower_right: (-45, 250),
        lower_left: (-45, -5),
    };
    assert_eq!(corners.to_window(), (Window::new(-5, -300, 256, 256), false));
}
