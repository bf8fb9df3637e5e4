use state_machine::grid::{
    Coordinate, Grid, GridError, Item, Region, Size, Widget, CELLS, HEIGHT, NO_ITEM, WIDTH,
};

fn item(id: usize, width: usize, height: usize) -> Item {
    Item { id, widget: Widget::Sound, size: Size { width, height } }
}

#[test]
fn index_is_row_times_width_plus_column() {
    assert_eq!(Coordinate { x: 0, y: 0 }.to_index(), 0);
    assert_eq!(Coordinate { x: 7, y: 0 }.to_index(), 7);
    assert_eq!(Coordinate { x: 7, y: 3 }.to_index(), 307);
    assert_eq!(Coordinate { x: 99, y: 99 }.to_index(), CELLS - 1);
    assert_eq!(WIDTH * HEIGHT, CELLS);
}

#[test]
fn coordinate_of_an_index() {
    assert_eq!(Coordinate::from_index(0), Coordinate { x: 0, y: 0 });
    assert_eq!(Coordinate::from_index(307), Coordinate { x: 7, y: 3 });
    assert_eq!(Coordinate::from_index(9_999), Coordinate { x: 99, y: 99 });
    assert_eq!(Coordinate::from_index(12_345), Coordinate { x: 45, y: 123 });
}

#[test]
fn index_round_trip() {
    for index in [0usize, 1, 99, 100, 101, 5_050, 9_999] {
        assert_eq!(Coordinate::from_index(index).to_index(), index);
    }
    for (x, y) in [(0usize, 0usize), (99, 0), (0, 99), (42, 17)] {
        assert_eq!(Coordinate::from_index(Coordinate { x, y }.to_index()), Coordinate { x, y });
    }
}

#[test]
fn coordinates_and_sizes_from_pairs() {
    assert_eq!(Coordinate::from((3, 4)), Coordinate { x: 3, y: 4 });
    assert_eq!(Size::from((5, 6)), Size { width: 5, height: 6 });
    let coordinate: Coordinate = (1, 2).into();
    assert_eq!(coordinate, Coordinate { x: 1, y: 2 });
}

#[test]
fn region_between_two_corners() {
    let region = Region::from([(2, 3), (10, 5)]);
    assert_eq!(region.top_left, Coordinate { x: 2, y: 3 });
    assert_eq!(region.size, Size { width: 8, height: 2 });
    assert_eq!(region.bottom_right(), Coordinate { x: 10, y: 5 });
}

#[test]
fn region_holds_its_borders() {
    let region = Region::from([(2, 3), (10, 5)]);
    assert!(region.contains(Coordinate { x: 2, y: 3 }));
    assert!(region.contains(Coordinate { x: 10, y: 5 }));
    assert!(region.contains(Coordinate { x: 6, y: 4 }));
    assert!(!region.contains(Coordinate { x: 1, y: 4 }));
    assert!(!region.contains(Coordinate { x: 11, y: 4 }));
    assert!(!region.contains(Coordinate { x: 6, y: 2 }));
    assert!(!region.contains(Coordinate { x: 6, y: 6 }));
}

#[test]
fn regions_intersect_where_they_share_a_cell() {
    let region = Region::from([(10, 10), (20, 12)]);
    assert!(region.intersects(region));
    assert!(region.intersects(Region::from([(15, 11), (25, 30)])));
    assert!(region.intersects(Region::from([(20, 12), (30, 13)])));
    assert!(region.intersects(Region::from([(0, 0), (10, 10)])));
    assert!(region.intersects(Region::from([(12, 11), (13, 11)])));
    assert!(region.intersects(Region::from([(0, 0), (99, 99)])));
    assert!(!region.intersects(Region::from([(21, 10), (30, 12)])));
    assert!(!region.intersects(Region::from([(0, 10), (9, 12)])));
    assert!(!region.intersects(Region::from([(10, 13), (20, 20)])));
    assert!(!region.intersects(Region::from([(10, 0), (20, 9)])));
    assert!(!region.intersects(Region::from([(21, 13), (30, 20)])));
    let other = Region::from([(15, 0), (16, 10)]);
    assert_eq!(region.intersects(other), other.intersects(region));
    assert!(other.intersects(region));
}

#[test]
fn new_grid_is_free() {
    let grid = Grid::new();
    assert!(!grid.is_occupied_in_region(Region::from([(0, 0), (99, 99)])));
    assert!(grid.get_item(Coordinate { x: 0, y: 0 }).is_none());
    assert!(grid.get_item(Coordinate { x: 99, y: 99 }).is_none());
    assert_eq!(NO_ITEM, usize::MAX);
}

#[test]
fn placed_item_occupies_its_rectangle() {
    let mut grid = Grid::new();
    let placed = grid.add_item(Coordinate { x: 5, y: 2 }, item(42, 3, 1));
    assert_eq!(placed, Ok(205));
    for y in 0..6usize {
        for x in 0..12usize {
            let inside = (5..=8).contains(&x) && (2..=3).contains(&y);
            let found = grid.get_item(Coordinate { x, y });
            assert_eq!(found.copied(), if inside { Some(item(42, 3, 1)) } else { None });
            assert_eq!(grid.is_occupied_in_region(Region::from([(x, y), (x, y)])), inside);
        }
    }
    assert!(grid.is_occupied_in_region(Region::from([(0, 0), (5, 2)])));
    assert!(!grid.is_occupied_in_region(Region::from([(0, 0), (4, 99)])));
    assert!(!grid.is_occupied_in_region(Region::from([(9, 0), (99, 99)])));
}

#[test]
fn item_reaching_beyond_the_grid_is_out_of_bounds() {
    let mut grid = Grid::new();
    assert_eq!(grid.add_item(Coordinate { x: 98, y: 0 }, item(1, 2, 0)), Err(GridError::OutOfBounds));
    assert_eq!(grid.add_item(Coordinate { x: 0, y: 99 }, item(1, 0, 1)), Err(GridError::OutOfBounds));
    assert_eq!(grid.add_item(Coordinate { x: 100, y: 0 }, item(1, 0, 0)), Err(GridError::OutOfBounds));
    assert_eq!(
        grid.add_item(Coordinate { x: 1, y: 1 }, item(1, usize::MAX, 0)),
        Err(GridError::OutOfBounds)
    );
    assert_eq!(
        grid.add_item(Coordinate { x: usize::MAX, y: usize::MAX }, item(1, 1, 1)),
        Err(GridError::OutOfBounds)
    );
    assert!(!grid.is_occupied_in_region(Region::from([(0, 0), (99, 99)])));
    assert_eq!(grid.add_item(Coordinate { x: 98, y: 99 }, item(1, 1, 0)), Ok(9_998));
}

#[test]
fn item_on_a_taken_cell_is_refused() {
    let mut grid = Grid::new();
    assert_eq!(grid.add_item(Coordinate { x: 10, y: 10 }, item(1, 4, 4)), Ok(1_010));
    assert_eq!(grid.add_item(Coordinate { x: 14, y: 14 }, item(2, 2, 2)), Err(GridError::Occupied));
    assert_eq!(grid.add_item(Coordinate { x: 8, y: 8 }, item(2, 2, 2)), Err(GridError::Occupied));
    assert_eq!(grid.get_item(Coordinate { x: 9, y: 9 }), None);
    assert_eq!(grid.get_item(Coordinate { x: 14, y: 14 }), Some(&item(1, 4, 4)));
    assert_eq!(grid.add_item(Coordinate { x: 15, y: 10 }, item(2, 2, 2)), Ok(1_015));
    assert_eq!(grid.get_item(Coordinate { x: 15, y: 12 }), Some(&item(2, 2, 2)));
}

#[test]
fn cells_given_to_an_unknown_item_hold_no_item() {
    let mut grid = Grid::new();
    grid.set_occupied_in_region(7, Region::from([(1, 1), (2, 2)]));
    assert!(grid.is_occupied_in_region(Region::from([(2, 2), (3, 3)])));
    assert_eq!(grid.get_item(Coordinate { x: 1, y: 1 }), None);
    grid.set_occupied_in_region(NO_ITEM, Region::from([(1, 1), (2, 2)]));
    assert!(!grid.is_occupied_in_region(Region::from([(0, 0), (99, 99)])));
}
