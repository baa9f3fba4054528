//! The mine-shaft grid: weighted random generation, the scroll-bounded
//! viewport, and bounds-checked tile queries.

use vstd::prelude::*;
use crate::rng::RollSource;
use crate::tile::{Tile, bedrock_tile, hallway_tile, rolled_tile};

verus! {

/// Largest accepted grid side, so that screen positions stay representable.
pub const MAX_DIM: usize = 65536;

/// Largest accepted tile edge length, in micro-units (2^30, about a
/// thousand world units per tile).
pub const MAX_TILE_SIZE: i64 = 0x4000_0000;

/// Lowest representable scroll offset (-2^60 micro-units). The game never
/// comes near it; it only keeps screen positions inside `i64`.
pub const SCROLL_MIN: i64 = -0x1000_0000_0000_0000;

/// Why no grid was produced.
#[derive(Copy, Clone, PartialEq, Eq, Structural, Debug)]
pub enum GridError {
    /// A requested width or height of zero.
    InvalidDimensions,
}

/// A visible tile ready to draw: its grid coordinates, its state, and its
/// screen position in micro-units.
#[derive(Copy, Clone, PartialEq, Eq, Structural, Debug)]
pub struct TileRecord {
    pub row: usize,
    pub col: usize,
    pub tile: Tile,
    pub x: i64,
    pub y: i64,
}

/// How many interior (randomized) columns a row of width `w` has.
pub open spec fn interior_width(w: int) -> int {
    if w >= 2 {
        w - 2
    } else {
        0
    }
}

/// How many rolls generation of a `w` by `h` grid consumes: one per
/// interior cell of the rows below the starting hallway.
pub open spec fn rolls_needed(w: int, h: int) -> int {
    if h >= 2 {
        (h - 2) * interior_width(w)
    } else {
        0
    }
}

/// How many rolls the rows above row `r` consumed.
pub open spec fn rolls_before_row(w: int, r: int) -> int {
    if r <= 2 {
        0
    } else {
        (r - 2) * interior_width(w)
    }
}

/// How many interior cells of one randomized row lie in columns below `c`.
pub open spec fn interior_before_col(w: int, c: int) -> int {
    if c <= 1 {
        0
    } else if c <= w - 1 {
        c - 1
    } else {
        interior_width(w)
    }
}

/// How many rolls generation has consumed when it reaches row `r`, column
/// `c` in row-major order.
pub open spec fn rolls_consumed(w: int, r: int, c: int) -> int {
    rolls_before_row(w, r) + if r >= 2 {
        interior_before_col(w, c)
    } else {
        0
    }
}

/// The roll index of an interior cell lies within the rolls the whole grid
/// needs.
proof fn lemma_roll_index_in_range(w: int, h: int, r: int, c: int)
    requires
        2 <= r < h,
        1 <= c <= w - 2,
    ensures
        0 <= rolls_before_row(w, r) + (c - 1) < rolls_needed(w, h),
{
    let iw = interior_width(w);
    let before = rolls_before_row(w, r);
    let needed = rolls_needed(w, h);
    assert(0 <= before + (c - 1) < needed) by (nonlinear_arith)
        requires
            iw == w - 2,
            before == if r <= 2 {
                0int
            } else {
                (r - 2) * iw
            },
            needed == (h - 2) * iw,
            2 <= r < h,
            1 <= c <= w - 2,
    ;
}

/// Finishing row `r` leaves the roll cursor exactly where row `r + 1`
/// starts.
proof fn lemma_rolls_consumed_row_end(w: int, r: int)
    requires
        0 <= r,
    ensures
        rolls_consumed(w, r, w) == rolls_before_row(w, r + 1),
{
    if r >= 2 {
        let iw = interior_width(w);
        let before = rolls_before_row(w, r);
        let before_next = rolls_before_row(w, r + 1);
        assert(before + iw == before_next) by (nonlinear_arith)
            requires
                before == if r <= 2 {
                    0int
                } else {
                    (r - 2) * iw
                },
                before_next == (r - 1) * iw,
                r >= 2,
        ;
    }
}

/// After the last row the cursor has consumed exactly the rolls the grid
/// needs.
proof fn lemma_rolls_before_row_full(w: int, h: int)
    requires
        1 <= h,
    ensures
        rolls_before_row(w, h) == rolls_needed(w, h),
{
    if h == 2 {
        let iw = interior_width(w);
        assert((h - 2) * iw == 0) by (nonlinear_arith)
            requires
                h == 2,
        ;
    }
}

/// The tile generation places at row `r`, column `c` of a grid of width
/// `w`, drawing interior tiles of the randomized rows from `rolls`: row 0
/// is the bedrock cap, the side columns are bedrock borders, row 1 is the
/// safe starting hallway, and everything else follows the weighted table.
pub open spec fn tile_for(w: int, r: int, c: int, rolls: Seq<u8>) -> Tile {
    if r == 0 {
        bedrock_tile()
    } else if c == 0 || c == w - 1 {
        bedrock_tile()
    } else if r == 1 {
        hallway_tile()
    } else {
        rolled_tile(rolls[rolls_before_row(w, r) + (c - 1)])
    }
}

/// The full layout of a freshly generated grid, as a function of the
/// dimensions and the roll sequence alone.
pub open spec fn grid_rows(w: int, h: int, rolls: Seq<u8>) -> Seq<Seq<Tile>> {
    Seq::new(h as nat, |r: int| Seq::new(w as nat, |c: int| tile_for(w, r, c, rolls)))
}

/// The draw record of the cell at row `r`, column `c`: its screen position
/// is the scroll-translated origin plus the cell's offset in tile sizes.
pub open spec fn tile_record(tiles: Seq<Seq<Tile>>, ts: int, off: int, r: int, c: int) -> TileRecord {
    TileRecord {
        row: r as usize,
        col: c as usize,
        tile: tiles[r][c],
        x: (c * ts) as i64,
        y: (off + r * ts) as i64,
    }
}

/// The draw records of the visible cells of row `r` from column `c` on, in
/// column order.
pub open spec fn row_records(tiles: Seq<Seq<Tile>>, ts: int, off: int, r: int, c: int) -> Seq<
    TileRecord,
>
    decreases tiles[r].len() - c,
{
    if r < 0 || r >= tiles.len() || c < 0 || c >= tiles[r].len() {
        Seq::empty()
    } else {
        (if tiles[r][c].visible {
            seq![tile_record(tiles, ts, off, r, c)]
        } else {
            Seq::empty()
        }) + row_records(tiles, ts, off, r, c + 1)
    }
}

/// The draw records of all visible cells from row `r` down, row-major.
pub open spec fn grid_records(tiles: Seq<Seq<Tile>>, ts: int, off: int, r: int) -> Seq<TileRecord>
    decreases tiles.len() - r,
{
    if r < 0 || r >= tiles.len() {
        Seq::empty()
    } else {
        row_records(tiles, ts, off, r, 0) + grid_records(tiles, ts, off, r + 1)
    }
}

/// Every draw record of a grid: each currently visible tile, in row-major
/// then column-major order, with its screen position.
pub open spec fn visible_records(grid: TileGrid) -> Seq<TileRecord> {
    grid_records(grid.tiles(), grid.tile_size as int, grid.scroll_offset as int, 0)
}

/// The grid of tiles with its viewport state. Rows are top-anchored: row 0
/// is the cap at the world's top, and the scroll offset translates the
/// rendered origin downward only (it is clamped at zero).
pub struct TileGrid {
    pub rows: Vec<Vec<Tile>>,
    pub tile_size: i64,
    pub scroll_offset: i64,
}

impl TileGrid {
    /// The rows as a mathematical sequence of sequences.
    pub open spec fn tiles(self) -> Seq<Seq<Tile>> {
        Seq::new(self.rows@.len(), |r: int| self.rows@[r]@)
    }

    /// The common length of every row.
    pub open spec fn width(self) -> int {
        if self.rows@.len() > 0 {
            self.rows@[0]@.len() as int
        } else {
            0
        }
    }

    /// The number of rows.
    pub open spec fn height(self) -> int {
        self.rows@.len() as int
    }

    /// Well-formedness: rectangular shape within the size bounds, a
    /// positive tile size, and a scroll offset that never rises above the
    /// top anchor.
    pub open spec fn wf(self) -> bool {
        &&& self.height() <= MAX_DIM as int
        &&& self.width() <= MAX_DIM as int
        &&& forall|r: int|
            0 <= r < self.rows@.len() ==> (#[trigger] self.rows@[r])@.len() == self.width()
        &&& 0 < self.tile_size <= MAX_TILE_SIZE
        &&& SCROLL_MIN <= self.scroll_offset <= 0
    }

    /// Generate a `width` by `height` grid, drawing the interior of every
    /// row below the starting hallway from `source`. The layout is exactly
    /// `grid_rows` applied to the source's roll stream, so generation is
    /// reproducible from the source state; zero dimensions are rejected.
    #[verifier::loop_isolation(false)]
    pub fn generate<S: RollSource>(
        width: usize,
        height: usize,
        tile_size: i64,
        source: &mut S,
    ) -> (result: Result<TileGrid, GridError>)
        requires
            width <= MAX_DIM,
            height <= MAX_DIM,
            0 < tile_size <= MAX_TILE_SIZE,
            old(source).stream().len() >= rolls_needed(width as int, height as int),
        ensures
            result is Err <==> width == 0 || height == 0,
            result matches Err(e) ==> e == GridError::InvalidDimensions,
            result matches Ok(grid) ==> {
                &&& grid.wf()
                &&& grid.tiles() == grid_rows(width as int, height as int, old(source).stream())
                &&& grid.height() == height
                &&& grid.width() == width
                &&& grid.tile_size == tile_size
                &&& grid.scroll_offset == 0
            },
            final(source).stream() == old(source).stream().skip(
                rolls_needed(width as int, height as int),
            ),
    {
        let ghost w = width as int;
        let ghost h = height as int;
        let ghost s0 = source.stream();
        if width == 0 || height == 0 {
            proof {
                assert(s0.skip(rolls_needed(w, h)) =~= s0);
            }
            return Err(GridError::InvalidDimensions);
        }
        let mut rows: Vec<Vec<Tile>> = Vec::new();
        let mut r: usize = 0;
        while r < height
            invariant
                r <= height,
                rows@.len() == r,
                forall|i: int|
                    0 <= i < r ==> (#[trigger] rows@[i])@ == Seq::new(
                        width as nat,
                        |c: int| tile_for(w, i, c, s0),
                    ),
                source.stream() == s0.skip(rolls_before_row(w, r as int)),
            decreases height - r,
        {
            let mut row: Vec<Tile> = Vec::new();
            let mut c: usize = 0;
            while c < width
                invariant
                    c <= width,
                    row@.len() == c,
                    forall|j: int| 0 <= j < c ==> row@[j] == tile_for(w, r as int, j, s0),
                    source.stream() == s0.skip(rolls_consumed(w, r as int, c as int)),
                decreases width - c,
            {
                let ghost consumed = rolls_consumed(w, r as int, c as int);
                let tile = if r == 0 {
                    Tile::bedrock()
                } else if c == 0 || c == width - 1 {
                    Tile::bedrock()
                } else if r == 1 {
                    Tile::hallway()
                } else {
                    proof {
                        assert(consumed == rolls_before_row(w, r as int) + (c - 1));
                        lemma_roll_index_in_range(w, h, r as int, c as int);
                        assert(source.stream().len() > 0);
                        assert(source.stream()[0] == s0[consumed]);
                    }
                    let roll = source.next_roll();
                    proof {
                        assert(source.stream() =~= s0.skip(consumed + 1));
                    }
                    Tile::from_roll(roll)
                };
                proof {
                    assert(tile == tile_for(w, r as int, c as int, s0));
                    assert(rolls_consumed(w, r as int, c as int + 1) == rolls_consumed(
                        w,
                        r as int,
                        c as int,
                    ) + if r >= 2 && 1 <= c <= w - 2 {
                        1int
                    } else {
                        0int
                    });
                }
                row.push(tile);
                c = c + 1;
            }
            proof {
                assert(row@ =~= Seq::new(width as nat, |j: int| tile_for(w, r as int, j, s0)));
                lemma_rolls_consumed_row_end(w, r as int);
            }
            rows.push(row);
            r = r + 1;
        }
        proof {
            lemma_rolls_before_row_full(w, h);
        }
        let grid = TileGrid { rows, tile_size, scroll_offset: 0 };
        proof {
            assert(grid.tiles() =~~= grid_rows(w, h, s0));
        }
        Ok(grid)
    }

    /// Scroll the viewport up by `step`, clamped so the offset never rises
    /// above the top anchor at zero.
    pub fn scroll_up(&mut self, step: i64)
        requires
            old(self).wf(),
            0 <= step,
        ensures
            final(self).scroll_offset == if old(self).scroll_offset + step > 0 {
                0int
            } else {
                old(self).scroll_offset + step
            },
            final(self).scroll_offset <= 0,
            final(self).rows == old(self).rows,
            final(self).tile_size == old(self).tile_size,
            final(self).wf(),
    {
        let next = self.scroll_offset + step;
        self.scroll_offset = if next > 0 {
            0
        } else {
            next
        };
    }

    /// Scroll the viewport down by `step`. There is no game-rule lower
    /// bound; the precondition only keeps the offset representable.
    pub fn scroll_down(&mut self, step: i64)
        requires
            old(self).wf(),
            0 <= step,
            SCROLL_MIN <= old(self).scroll_offset - step,
        ensures
            final(self).scroll_offset == old(self).scroll_offset - step,
            final(self).rows == old(self).rows,
            final(self).tile_size == old(self).tile_size,
            final(self).wf(),
    {
        self.scroll_offset = self.scroll_offset - step;
    }

    /// Every tile currently visible, as draw records in row-major then
    /// column-major order, each with its screen position. The list is
    /// recomputed fresh on every call; there is no cursor state.
    #[verifier::loop_isolation(false)]
    pub fn visible_tiles(&self) -> (records: Vec<TileRecord>)
        requires
            self.wf(),
        ensures
            records@ == visible_records(*self),
    {
        let ghost tiles = self.tiles();
        let ghost ts = self.tile_size as int;
        let ghost off = self.scroll_offset as int;
        let mut records: Vec<TileRecord> = Vec::new();
        let mut r: usize = 0;
        while r < self.rows.len()
            invariant
                r <= self.rows.len(),
                grid_records(tiles, ts, off, 0) == records@ + grid_records(tiles, ts, off, r as int),
            decreases self.rows.len() - r,
        {
            proof {
                assert(grid_records(tiles, ts, off, r as int) == row_records(
                    tiles,
                    ts,
                    off,
                    r as int,
                    0,
                ) + grid_records(tiles, ts, off, r as int + 1));
                assert(records@ + grid_records(tiles, ts, off, r as int) =~= records@ + row_records(
                    tiles,
                    ts,
                    off,
                    r as int,
                    0,
                ) + grid_records(tiles, ts, off, r as int + 1));
            }
            let row_len = self.rows[r].len();
            let mut c: usize = 0;
            while c < row_len
                invariant
                    c <= row_len,
                    row_len == self.rows@[r as int]@.len(),
                    r < self.rows@.len(),
                    grid_records(tiles, ts, off, 0) == records@ + row_records(
                        tiles,
                        ts,
                        off,
                        r as int,
                        c as int,
                    ) + grid_records(tiles, ts, off, r as int + 1),
                decreases row_len - c,
            {
                let ghost pre = records@;
                let tile = self.rows[r][c];
                if tile.visible {
                    proof {
                        assert(0 <= c * ts <= 0x4000_0000_0000) by (nonlinear_arith)
                            requires
                                0 <= c <= 65536,
                                0 < ts <= 0x4000_0000,
                        ;
                        assert(0 <= r * ts <= 0x4000_0000_0000) by (nonlinear_arith)
                            requires
                                0 <= r <= 65536,
                                0 < ts <= 0x4000_0000,
                        ;
                    }
                    let x = (c as i64) * self.tile_size;
                    let y = self.scroll_offset + (r as i64) * self.tile_size;
                    records.push(TileRecord { row: r, col: c, tile, x, y });
                    proof {
                        assert(records@ =~= pre + seq![tile_record(tiles, ts, off, r as int, c as int)]);
                    }
                }
                proof {
                    assert(row_records(tiles, ts, off, r as int, c as int) == (if tiles[r as int][
                        c as int
                    ].visible {
                        seq![tile_record(tiles, ts, off, r as int, c as int)]
                    } else {
                        Seq::empty()
                    }) + row_records(tiles, ts, off, r as int, c as int + 1));
                    assert(grid_records(tiles, ts, off, 0) =~= records@ + row_records(
                        tiles,
                        ts,
                        off,
                        r as int,
                        c as int + 1,
                    ) + grid_records(tiles, ts, off, r as int + 1));
                }
                c = c + 1;
            }
            proof {
                assert(row_records(tiles, ts, off, r as int, row_len as int) =~= Seq::<
                    TileRecord,
                >::empty());
                assert(grid_records(tiles, ts, off, 0) =~= records@ + grid_records(
                    tiles,
                    ts,
                    off,
                    r as int + 1,
                ));
            }
            r = r + 1;
        }
        proof {
            assert(grid_records(tiles, ts, off, r as int) =~= Seq::<TileRecord>::empty());
            assert(records@ =~= grid_records(tiles, ts, off, 0));
        }
        records
    }

    /// The tile at `row`, `col`, or nothing when the position lies outside
    /// the grid; never a fabricated default.
    pub fn tile_at(&self, row: usize, col: usize) -> (found: Option<Tile>)
        ensures
            row < self.rows@.len() && col < self.rows@[row as int]@.len() ==> found == Some(
                self.tiles()[row as int][col as int],
            ),
            !(row < self.rows@.len() && col < self.rows@[row as int]@.len()) ==> found is None,
    {
        if row < self.rows.len() {
            let grid_row = &self.rows[row];
            if col < grid_row.len() {
                return Some(grid_row[col]);
            }
        }
        None
    }
}

/// Law: a generated grid of width `w` and height `h` has exactly `h` rows,
/// and every row has exactly `w` tiles.
pub proof fn lemma_grid_shape(w: int, h: int, rolls: Seq<u8>)
    requires
        0 <= w,
        0 <= h,
    ensures
        grid_rows(w, h, rolls).len() == h,
        forall|r: int| 0 <= r < h ==> (#[trigger] grid_rows(w, h, rolls)[r]).len() == w,
{
}

/// Law: in every generated row below the cap, the tiles in column 0 and in
/// column `w - 1` are bedrock and unbreakable.
pub proof fn lemma_border_invariant(w: int, h: int, rolls: Seq<u8>)
    requires
        1 <= w,
        0 <= h,
    ensures
        forall|r: int| 1 <= r < h ==> (#[trigger] grid_rows(w, h, rolls)[r])[0] == bedrock_tile(),
        forall|r: int|
            1 <= r < h ==> (#[trigger] grid_rows(w, h, rolls)[r])[w - 1] == bedrock_tile(),
{
}

/// Law: whatever the random source produced, every interior tile of row 1
/// is the empty, unbreakable starting hallway.
pub proof fn lemma_starting_hallway(w: int, h: int, rolls: Seq<u8>)
    requires
        2 <= h,
    ensures
        forall|c: int|
            1 <= c < w - 1 ==> (#[trigger] grid_rows(w, h, rolls)[1][c]) == hallway_tile(),
{
}

/// Law: under a source whose every roll is `v`, every interior tile of the
/// randomized rows is the tile `v` stands for in the weighted table — all
/// coal for 83, all diamond for 99, all dirt for 0.
pub proof fn lemma_uniform_rolls(w: int, h: int, rolls: Seq<u8>, v: u8)
    requires
        rolls.len() >= rolls_needed(w, h),
        forall|i: int| 0 <= i < rolls.len() ==> rolls[i] == v,
    ensures
        forall|r: int, c: int|
            2 <= r < h && 1 <= c < w - 1 ==> (#[trigger] grid_rows(w, h, rolls)[r][c])
                == rolled_tile(v),
{
    assert forall|r: int, c: int|
        2 <= r < h && 1 <= c < w - 1 implies (#[trigger] grid_rows(w, h, rolls)[r][c])
        == rolled_tile(v) by {
        lemma_roll_index_in_range(w, h, r, c);
    }
}

} // verus!
