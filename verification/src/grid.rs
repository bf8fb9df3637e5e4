//! A grid of cells on which items are placed. An item occupies a rectangle of
//! cells, and no cell is occupied twice.

use vstd::prelude::*;
use std::collections::HashMap;

verus! {

/// The number of columns of the grid.
pub const WIDTH: usize = 100;

/// The number of rows of the grid.
pub const HEIGHT: usize = 100;

/// The number of cells of the grid.
pub const CELLS: usize = 10_000;

/// The identifier of an item.
pub type ItemID = usize;

/// The mark of a cell that no item occupies.
pub const NO_ITEM: ItemID = usize::MAX;

/// A cell, by column and row.
#[derive(Debug, Clone, Copy, PartialEq, Eq, Structural)]
pub struct Coordinate {
    pub x: usize,
    pub y: usize,
}

impl Coordinate {
    /// The position of the cell when the rows are laid out one after the
    /// other.
    pub open spec fn index(self) -> int {
        self.y * WIDTH + self.x
    }

    pub fn to_index(&self) -> (index: usize)
        requires
            self.index() <= usize::MAX,
        ensures
            index == self.index(),
    {
        self.y * WIDTH + self.x
    }

    /// The cell at a position of the row-by-row layout.
    pub fn from_index(index: usize) -> (coordinate: Self)
        ensures
            coordinate.x == index % WIDTH,
            coordinate.y == index / WIDTH,
            coordinate.x < WIDTH,
            coordinate.index() == index,
    {
        Coordinate { x: index % WIDTH, y: index / WIDTH }
    }

    /// A cell inside the width of the grid is found again from its index.
    pub proof fn lemma_index_round_trip(self)
        requires
            self.x < WIDTH,
        ensures
            self.index() % (WIDTH as int) == self.x,
            self.index() / (WIDTH as int) == self.y,
    {
    }
}

impl From<(usize, usize)> for Coordinate {
    fn from(pair: (usize, usize)) -> (coordinate: Self) {
        Coordinate { x: pair.0, y: pair.1 }
    }
}

impl vstd::std_specs::convert::FromSpecImpl<(usize, usize)> for Coordinate {
    open spec fn obeys_from_spec() -> bool {
        true
    }

    open spec fn from_spec(pair: (usize, usize)) -> Self {
        Coordinate { x: pair.0, y: pair.1 }
    }
}

/// The row of the cell at a position of the row-by-row layout.
pub open spec fn row_of(index: int) -> int {
    index / (WIDTH as int)
}

/// The column of the cell at a position of the row-by-row layout.
pub open spec fn column_of(index: int) -> int {
    index % (WIDTH as int)
}

/// The extent of a rectangle of cells beyond its first column and row: a
/// rectangle of width zero is one column wide.
#[derive(Debug, Clone, Copy, PartialEq, Eq, Structural)]
pub struct Size {
    pub width: usize,
    pub height: usize,
}

impl From<(usize, usize)> for Size {
    fn from(pair: (usize, usize)) -> (size: Self) {
        Size { width: pair.0, height: pair.1 }
    }
}

impl vstd::std_specs::convert::FromSpecImpl<(usize, usize)> for Size {
    open spec fn obeys_from_spec() -> bool {
        true
    }

    open spec fn from_spec(pair: (usize, usize)) -> Self {
        Size { width: pair.0, height: pair.1 }
    }
}

/// A rectangle of cells: from `top_left` to the cell `size` further on, both
/// included.
#[derive(Debug, Clone, Copy, PartialEq, Eq, Structural)]
pub struct Region {
    pub top_left: Coordinate,
    pub size: Size,
}

impl Region {
    /// Whether the far corner of the region can be written down.
    pub open spec fn representable(self) -> bool {
        &&& self.top_left.x + self.size.width <= usize::MAX
        &&& self.top_left.y + self.size.height <= usize::MAX
    }

    /// Whether the region lies on the grid.
    pub open spec fn fits(self) -> bool {
        &&& self.top_left.x + self.size.width < WIDTH
        &&& self.top_left.y + self.size.height < HEIGHT
    }

    /// The last cell of the region.
    pub open spec fn far_corner(self) -> Coordinate {
        Coordinate {
            x: (self.top_left.x + self.size.width) as usize,
            y: (self.top_left.y + self.size.height) as usize,
        }
    }

    /// Whether the region holds a cell.
    pub open spec fn holds(self, coordinate: Coordinate) -> bool {
        &&& self.top_left.x <= coordinate.x <= self.top_left.x + self.size.width
        &&& self.top_left.y <= coordinate.y <= self.top_left.y + self.size.height
    }

    /// Whether the region holds the cell at a position of the row-by-row
    /// layout.
    pub open spec fn holds_index(self, index: int) -> bool {
        self.holds(Coordinate { x: column_of(index) as usize, y: row_of(index) as usize })
    }

    /// Whether two regions overlap: in columns and in rows alike, neither
    /// starts beyond the end of the other.
    pub open spec fn meets(self, other: Region) -> bool {
        &&& other.top_left.x <= self.far_corner().x
        &&& self.top_left.x <= other.far_corner().x
        &&& other.top_left.y <= self.far_corner().y
        &&& self.top_left.y <= other.far_corner().y
    }

    /// Regions that can be written down overlap exactly where they share a
    /// cell.
    pub proof fn lemma_meets_shares_cell(self, other: Region)
        requires
            self.representable(),
            other.representable(),
        ensures
            self.meets(other) <==> exists|cell: Coordinate|
                self.holds(cell) && #[trigger] other.holds(cell),
    {
        if self.meets(other) {
            let cell = Coordinate {
                x: if self.top_left.x >= other.top_left.x {
                    self.top_left.x
                } else {
                    other.top_left.x
                },
                y: if self.top_left.y >= other.top_left.y {
                    self.top_left.y
                } else {
                    other.top_left.y
                },
            };
            assert(self.holds(cell) && other.holds(cell));
        }
    }

    /// Overlap goes both ways, and a region that can be written down
    /// overlaps itself.
    pub proof fn lemma_meets_is_mutual(self, other: Region)
        requires
            self.representable(),
            other.representable(),
        ensures
            self.meets(other) == other.meets(self),
            self.meets(self),
    {
    }

    /// The region between two corners, the first of which lies neither
    /// right of nor below the second.
    pub fn from(corners: [(usize, usize); 2]) -> (region: Region)
        requires
            corners[0].0 <= corners[1].0,
            corners[0].1 <= corners[1].1,
        ensures
            region.top_left == (Coordinate { x: corners[0].0, y: corners[0].1 }),
            region.far_corner() == (Coordinate { x: corners[1].0, y: corners[1].1 }),
    {
        let (x1, y1) = corners[0];
        let (x2, y2) = corners[1];
        Region {
            top_left: Coordinate { x: x1, y: y1 },
            size: Size { width: x2 - x1, height: y2 - y1 },
        }
    }

    pub fn bottom_right(&self) -> (corner: Coordinate)
        requires
            self.representable(),
        ensures
            corner == self.far_corner(),
    {
        Coordinate {
            x: self.top_left.x + self.size.width,
            y: self.top_left.y + self.size.height,
        }
    }

    pub fn contains(&self, coordinate: Coordinate) -> (held: bool)
        requires
            self.representable(),
        ensures
            held == self.holds(coordinate),
    {
        let bottom_right = self.bottom_right();
        coordinate.x >= self.top_left.x && coordinate.x <= bottom_right.x && coordinate.y
            >= self.top_left.y && coordinate.y <= bottom_right.y
    }

    /// Whether this region and another overlap.
    pub fn intersects(&self, other: Region) -> (met: bool)
        requires
            self.representable(),
            other.representable(),
        ensures
            met == self.meets(other),
    {
        let bottom_right = self.bottom_right();
        let bottom_right_other = other.bottom_right();
        !(other.top_left.x > bottom_right.x || bottom_right_other.x < self.top_left.x
            || other.top_left.y > bottom_right.y || bottom_right_other.y < self.top_left.y)
    }
}

/// What an item is.
#[derive(Debug, Clone, Copy, PartialEq, Eq, Structural)]
pub enum Widget {
    Sound,
}

/// Something that occupies a rectangle of the grid.
#[derive(Debug, Clone, Copy, PartialEq, Eq, Structural)]
pub struct Item {
    pub id: ItemID,
    pub widget: Widget,
    pub size: Size,
}

/// Why an item could not be placed.
#[derive(Debug, Clone, Copy, PartialEq, Eq, Structural)]
pub enum GridError {
    /// A cell that the item would cover is taken.
    Occupied,
    /// The item would reach beyond the grid.
    OutOfBounds,
}

/// The cells after a region of them has been given to an item.
pub open spec fn painted(cells: Seq<ItemID>, region: Region, id: ItemID) -> Seq<ItemID> {
    Seq::new(
        cells.len(),
        |index: int|
            if region.holds_index(index) {
                id
            } else {
                cells[index]
            },
    )
}

/// Whether an item occupies a cell of the region.
pub open spec fn occupied_in(cells: Seq<ItemID>, region: Region) -> bool {
    exists|index: int|
        0 <= index < cells.len() && region.holds_index(index) && #[trigger] cells[index] != NO_ITEM
}

pub struct Grid {
    occupation_map: [ItemID; CELLS],
    items: HashMap<ItemID, Item>,
}

impl Grid {
    /// The item that occupies each cell, row by row; `NO_ITEM` for a free
    /// cell.
    pub closed spec fn cells(self) -> Seq<ItemID> {
        self.occupation_map@
    }

    /// The items on the grid, by identifier.
    pub closed spec fn items(self) -> Map<ItemID, Item> {
        self.items@
    }

    /// A grid without items.
    pub fn new() -> (grid: Self)
        ensures
            grid.cells().len() == CELLS,
            forall|index: int| 0 <= index < CELLS ==> #[trigger] grid.cells()[index] == NO_ITEM,
            grid.items() == Map::<ItemID, Item>::empty(),
    {
        Grid { occupation_map: [NO_ITEM; CELLS], items: HashMap::new() }
    }

    pub fn is_occupied_in_region(&self, region: Region) -> (occupied: bool)
        requires
            region.fits(),
        ensures
            occupied == occupied_in(self.cells(), region),
    {
        let top_left_index: usize = region.top_left.to_index();
        let mut j: usize = 0;
        while j <= region.size.height
            invariant
                region.fits(),
                top_left_index == region.top_left.index(),
                j <= region.size.height + 1,
                forall|index: int|
                    0 <= index < CELLS && region.holds_index(index) && row_of(index)
                        < region.top_left.y + j ==> #[trigger] self.occupation_map@[index]
                        == NO_ITEM,
            decreases region.size.height + 1 - j,
        {
            let mut i: usize = 0;
            while i <= region.size.width
                invariant
                    region.fits(),
                    top_left_index == region.top_left.index(),
                    j <= region.size.height,
                    i <= region.size.width + 1,
                    forall|index: int|
                        0 <= index < CELLS && region.holds_index(index) && row_of(index)
                            < region.top_left.y + j ==> #[trigger] self.occupation_map@[index]
                            == NO_ITEM,
                    forall|index: int|
                        0 <= index < CELLS && region.holds_index(index) && row_of(index)
                            == region.top_left.y + j && column_of(index) < region.top_left.x
                            + i ==> #[trigger] self.occupation_map@[index] == NO_ITEM,
                decreases region.size.width + 1 - i,
            {
                let index: usize = top_left_index + (j * WIDTH) + i;
                if self.occupation_map[index] != NO_ITEM {
                    assert(region.holds_index(index as int));
                    return true;
                }
                i = i + 1;
            }
            j = j + 1;
        }
        false
    }

    /// The item that occupies a cell of the grid, if one does and is known.
    pub fn get_item(&self, coordinate: Coordinate) -> (item: Option<&Item>)
        requires
            coordinate.index() < CELLS,
        ensures
            match item {
                Some(found) => {
                    let id = self.cells()[coordinate.index()];
                    id != NO_ITEM && self.items().contains_key(id) && *found == self.items()[id]
                },
                None => {
                    let id = self.cells()[coordinate.index()];
                    id == NO_ITEM || !self.items().contains_key(id)
                },
            },
    {
        broadcast use vstd::std_specs::hash::group_hash_axioms;

        let id: ItemID = self.occupation_map[coordinate.to_index()];
        if id != NO_ITEM {
            self.items.get(&id)
        } else {
            None
        }
    }

    /// Gives every cell of a region to an item.
    pub fn set_occupied_in_region(&mut self, id: ItemID, region: Region)
        requires
            region.fits(),
        ensures
            final(self).cells() == painted(old(self).cells(), region, id),
            final(self).items() == old(self).items(),
    {
        let top_left_index: usize = region.top_left.to_index();
        let mut j: usize = 0;
        while j <= region.size.height
            invariant
                region.fits(),
                top_left_index == region.top_left.index(),
                j <= region.size.height + 1,
                self.items == old(self).items,
                forall|index: int|
                    0 <= index < CELLS ==> #[trigger] self.occupation_map@[index] == (
                    if region.holds_index(index) && row_of(index) < region.top_left.y + j {
                        id
                    } else {
                        old(self).occupation_map@[index]
                    }),
            decreases region.size.height + 1 - j,
        {
            let mut i: usize = 0;
            while i <= region.size.width
                invariant
                    region.fits(),
                    top_left_index == region.top_left.index(),
                    j <= region.size.height,
                    i <= region.size.width + 1,
                    self.items == old(self).items,
                    forall|index: int|
                        0 <= index < CELLS ==> #[trigger] self.occupation_map@[index] == (
                        if region.holds_index(index) && (row_of(index) < region.top_left.y
                            + j || (row_of(index) == region.top_left.y + j && column_of(index) < region.top_left.x + i)) {
                            id
                        } else {
                            old(self).occupation_map@[index]
                        }),
                decreases region.size.width + 1 - i,
            {
                let index: usize = top_left_index + (j * WIDTH) + i;
                self.occupation_map[index] = id;
                i = i + 1;
            }
            j = j + 1;
        }
        proof {
            assert(self.occupation_map@ =~= painted(old(self).occupation_map@, region, id));
        }
    }

    /// Places an item with its first cell at `top_left`. An item that would
    /// reach beyond the grid, or cover a cell that is taken, is refused and
    /// leaves the grid as it was. A placed item is answered with the index
    /// of its first cell.
    pub fn add_item(&mut self, top_left: Coordinate, item: Item) -> (placed: Result<
        ItemID,
        GridError,
    >)
        ensures
            match placed {
                Ok(index) => {
                    &&& (Region { top_left, size: item.size }).fits()
                    &&& !occupied_in(old(self).cells(), Region { top_left, size: item.size })
                    &&& index == top_left.index()
                    &&& final(self).cells() == painted(
                        old(self).cells(),
                        Region { top_left, size: item.size },
                        item.id,
                    )
                    &&& final(self).items() == old(self).items().insert(item.id, item)
                },
                Err(GridError::OutOfBounds) => {
                    &&& !(Region { top_left, size: item.size }).fits()
                    &&& final(self).cells() == old(self).cells()
                    &&& final(self).items() == old(self).items()
                },
                Err(GridError::Occupied) => {
                    &&& (Region { top_left, size: item.size }).fits()
                    &&& occupied_in(old(self).cells(), Region { top_left, size: item.size })
                    &&& final(self).cells() == old(self).cells()
                    &&& final(self).items() == old(self).items()
                },
            },
    {
        broadcast use vstd::std_specs::hash::group_hash_axioms;

        if top_left.x >= WIDTH || item.size.width >= WIDTH - top_left.x || top_left.y >= HEIGHT
            || item.size.height >= HEIGHT - top_left.y {
            return Err(GridError::OutOfBounds);
        }
        let region = Region { top_left, size: item.size };
        if self.is_occupied_in_region(region) {
            return Err(GridError::Occupied);
        }
        self.set_occupied_in_region(item.id, region);
        let index: usize = top_left.to_index();
        self.items.insert(item.id, item);
        Ok(index)
    }
}

} // verus!
