//! The per-level tile index: a static lookup from grid coordinate to the
//! tile kind occupying it, built once from the level grid layer's integer
//! codes and read-only thereafter except for each gate's `is_open` flag.

use vstd::prelude::*;
use crate::GridCoords;
use crate::tiles::{spec_tile_kind_from_code, tile_kind_from_code, TileKind};

verus! {

/// Why building a tile index from level data failed.
#[derive(Debug, Clone, Copy, PartialEq, Eq, Structural)]
pub enum LevelDataError {
    /// The declared width and height do not describe the given cell list,
    /// or exceed what a grid coordinate can address.
    BadDimensions,
    /// The grid layer holds this unrecognized tile code: level-data
    /// corruption, surfaced as an immediate abort of level load.
    UnknownTileCode(i32),
}

/// The largest grid dimension a coordinate can address.
pub const MAX_GRID_DIM: usize = 0x7fff_ffff;

/// Row-major lookup from cell coordinate to tile kind. Cell `(x, y)` sits
/// at index `y * width + x`; coordinates outside the grid hold no tile.
pub struct TileIndex {
    pub width: usize,
    pub height: usize,
    pub cells: Vec<TileKind>,
}

impl TileIndex {
    /// Well-formedness: the cell list covers exactly the declared
    /// rectangle and both dimensions are addressable by an `i32`.
    pub open spec fn wf(&self) -> bool {
        &&& self.width <= MAX_GRID_DIM
        &&& self.height <= MAX_GRID_DIM
        &&& self.cells@.len() == self.width * self.height
    }

    /// The tile kind at mathematical coordinates `(x, y)`, or `None`
    /// outside the populated grid.
    pub open spec fn spec_tile_at(&self, x: int, y: int) -> Option<TileKind> {
        if 0 <= x < self.width && 0 <= y < self.height {
            Some(self.cells@[y * self.width + x])
        } else {
            None
        }
    }

    /// Whether a coordinate lies inside the populated grid.
    pub open spec fn spec_in_bounds(&self, c: GridCoords) -> bool {
        0 <= c.x < self.width && 0 <= c.y < self.height
    }

    /// Builds the index from the grid layer: `codes` lists the cells of a
    /// `width` by `height` rectangle row by row. Fails on mismatched
    /// dimensions, and on any unrecognized tile code (the first offending
    /// code is reported): silently guessing a kind would produce an
    /// unplayable level.
    pub fn from_codes(width: usize, height: usize, codes: &Vec<i32>) -> (r: Result<
        TileIndex,
        LevelDataError,
    >)
        ensures
            (r matches Err(LevelDataError::BadDimensions) <==> (width > MAX_GRID_DIM || height
                > MAX_GRID_DIM || codes@.len() != width * height)),
            r matches Err(LevelDataError::UnknownTileCode(c)) ==> exists|j: int|
                0 <= j < codes@.len() && spec_tile_kind_from_code(codes@[j]) is None && c
                    == codes@[j] && (forall|k: int|
                    0 <= k < j ==> spec_tile_kind_from_code(codes@[k]) is Some),
            (width <= MAX_GRID_DIM && height <= MAX_GRID_DIM && codes@.len() == width * height && (
            forall|j: int| 0 <= j < codes@.len() ==> spec_tile_kind_from_code(codes@[j]) is Some))
                <==> r is Ok,
            r matches Ok(t) ==> {
                &&& t.wf()
                &&& t.width == width
                &&& t.height == height
                &&& forall|j: int|
                    0 <= j < codes@.len() ==> Some(#[trigger] t.cells@[j])
                        == spec_tile_kind_from_code(codes@[j])
            },
    {
        if width > MAX_GRID_DIM || height > MAX_GRID_DIM {
            return Err(LevelDataError::BadDimensions);
        }
        proof {
            assert((width as int) * (height as int) <= 0x7fff_ffff * 0x7fff_ffff)
                by (nonlinear_arith)
                requires
                    width <= 0x7fff_ffff,
                    height <= 0x7fff_ffff,
            ;
        }
        let expected: u64 = (width as u64) * (height as u64);
        if codes.len() as u64 != expected {
            return Err(LevelDataError::BadDimensions);
        }
        let mut cells: Vec<TileKind> = Vec::new();
        let mut i: usize = 0;
        while i < codes.len()
            invariant
                width <= MAX_GRID_DIM,
                height <= MAX_GRID_DIM,
                codes@.len() == width * height,
                0 <= i <= codes@.len(),
                cells@.len() == i,
                forall|j: int|
                    0 <= j < i ==> Some(#[trigger] cells@[j]) == spec_tile_kind_from_code(
                        codes@[j],
                    ),
            decreases codes@.len() - i,
        {
            match tile_kind_from_code(codes[i]) {
                Some(t) => {
                    cells.push(t);
                },
                None => {
                    proof {
                        assert(spec_tile_kind_from_code(codes@[i as int]) is None);
                        assert(forall|k: int|
                            0 <= k < i ==> spec_tile_kind_from_code(codes@[k]) is Some) by {
                            assert forall|k: int| 0 <= k < i implies spec_tile_kind_from_code(
                                codes@[k],
                            ) is Some by {
                                assert(Some(cells@[k]) == spec_tile_kind_from_code(codes@[k]));
                            }
                        }
                    }
                    return Err(LevelDataError::UnknownTileCode(codes[i]));
                },
            }
            i = i + 1;
        }
        proof {
            assert forall|j: int| 0 <= j < codes@.len() implies spec_tile_kind_from_code(
                codes@[j],
            ) is Some by {
                assert(Some(cells@[j]) == spec_tile_kind_from_code(codes@[j]));
            }
        }
        Ok(TileIndex { width, height, cells })
    }

    /// The tile at mathematical coordinates that may lie one step outside
    /// the `i32` coordinate range, as a movement target does.
    pub fn tile_at_signed(&self, x: i64, y: i64) -> (r: Option<TileKind>)
        requires
            self.wf(),
        ensures
            r == self.spec_tile_at(x as int, y as int),
    {
        if x < 0 || y < 0 {
            return None;
        }
        if x >= self.width as i64 || y >= self.height as i64 {
            return None;
        }
        let xu = x as usize;
        let yu = y as usize;
        let n = self.cells.len();
        proof {
            assert(yu * self.width + xu < self.width * self.height) by (nonlinear_arith)
                requires
                    xu < self.width,
                    yu < self.height,
                    0 <= xu,
                    0 <= yu,
            ;
            assert(yu * self.width + xu < n);
        }
        Some(self.cells[yu * self.width + xu])
    }

    /// The tile occupying a coordinate, or `None` outside the grid.
    pub fn get(&self, c: GridCoords) -> (r: Option<TileKind>)
        requires
            self.wf(),
        ensures
            r == self.spec_tile_at(c.x as int, c.y as int),
    {
        if c.x < 0 || c.y < 0 {
            return None;
        }
        let x = c.x as usize;
        let y = c.y as usize;
        if x >= self.width || y >= self.height {
            return None;
        }
        let n = self.cells.len();
        proof {
            assert(y * self.width + x < self.width * self.height) by (nonlinear_arith)
                requires
                    x < self.width,
                    y < self.height,
                    0 <= x,
                    0 <= y,
            ;
            assert(y * self.width + x < n);
        }
        Some(self.cells[y * self.width + x])
    }
}

} // verus!
