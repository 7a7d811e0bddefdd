//! The two-color checkerboard drawn behind transparent images.
use vstd::prelude::*;
use crate::color::Color;
use crate::geometry::{ceil_div, Rect, Vec2, COORD_LIMIT};

verus! {

/// One square of the checkerboard.
#[derive(Clone, Copy, Debug, PartialEq, Eq, Structural)]
pub struct Tile {
    pub rect: Rect,
    pub color: Color,
}

/// The number of tiles of edge `tile` that cover `length` (none for an empty
/// or negative length).
pub open spec fn tile_count(length: int, tile: int) -> int {
    if length <= 0 {
        0
    } else {
        -((-length) / tile)
    }
}

/// The tile in `row`, `column` of the pattern that covers `area`: it starts on
/// the grid, stops at `area.max`, and takes the color of the parity of
/// `row + column`.
pub open spec fn tile_spec(area: Rect, tile: int, colors: [Color; 2], row: int, column: int) -> Tile {
    let x = area.min.x + column * tile;
    let y = area.min.y + row * tile;
    Tile {
        rect: Rect {
            min: Vec2 { x: x as i64, y: y as i64 },
            max: Vec2 {
                x: (if x + tile < area.max.x {
                    x + tile
                } else {
                    area.max.x as int
                }) as i64,
                y: (if y + tile < area.max.y {
                    y + tile
                } else {
                    area.max.y as int
                }) as i64,
            },
        },
        color: colors@[(row + column) % 2],
    }
}

/// `tiles` is the checkerboard of tiles of edge `rect_size` over `area`, row
/// after row.
pub open spec fn is_checkerboard(tiles: Seq<Tile>, area: Rect, rect_size: int, colors: [Color; 2]) -> bool {
    let columns = tile_count(area.max.x - area.min.x, rect_size);
    let rows = tile_count(area.max.y - area.min.y, rect_size);
    &&& tiles.len() == rows * columns
    &&& forall|row: int, column: int|
        0 <= row < rows && 0 <= column < columns ==> #[trigger] tiles[row * columns + column]
            == tile_spec(area, rect_size, colors, row, column)
}

proof fn lemma_tile_count(length: int, tile: int)
    requires
        tile > 0,
        length > 0,
    ensures
        tile_count(length, tile) >= 1,
        forall|c: int| 0 <= c < tile_count(length, tile) ==> #[trigger] (c * tile) < length,
        tile_count(length, tile) <= length,
{
    let n = tile_count(length, tile);
    vstd::arithmetic::div_mod::lemma_fundamental_div_mod(-length, tile);
    let q = (-length) / tile;
    let m = (-length) % tile;
    assert(n * tile < length + tile && n * tile >= length) by (nonlinear_arith)
        requires
            -length == tile * q + m,
            0 <= m < tile,
            n == -q,
    ;
    assert(n >= 1 && n <= length) by (nonlinear_arith)
        requires
            n * tile < length + tile,
            n * tile >= length,
            tile > 0,
            length > 0,
    ;
    assert forall|c: int| 0 <= c < n implies #[trigger] (c * tile) < length by {
        assert(c * tile < length) by (nonlinear_arith)
            requires
                c <= n - 1,
                tile > 0,
                n * tile < length + tile,
        ;
    }
}

/// A checkerboard of square tiles of edge `rect_size` covering `area`, row by
/// row from the top left; tiles in the last row and column are cut at
/// `area.max`.
pub fn generate_checkerboard_pattern(area: Rect, rect_size: i64, colors: [Color; 2]) -> (tiles: Vec<Tile>)
    requires
        area.in_bounds(),
        0 < rect_size <= COORD_LIMIT,
    ensures
        is_checkerboard(tiles@, area, rect_size as int, colors),
{
    let width = area.max.x - area.min.x;
    let height = area.max.y - area.min.y;
    let columns: i64 = if width <= 0 {
        0
    } else {
        ceil_div(width as i128, rect_size as i128) as i64
    };
    let rows: i64 = if height <= 0 {
        0
    } else {
        ceil_div(height as i128, rect_size as i128) as i64
    };
    proof {
        if width > 0 {
            lemma_tile_count(width as int, rect_size as int);
        }
        if height > 0 {
            lemma_tile_count(height as int, rect_size as int);
        }
    }
    let ghost cols = columns as int;
    let mut tiles: Vec<Tile> = Vec::new();
    let mut row: i64 = 0;
    while row < rows
        invariant
            area.in_bounds(),
            0 < rect_size <= COORD_LIMIT,
            cols == columns,
            columns == tile_count(width as int, rect_size as int),
            rows == tile_count(height as int, rect_size as int),
            width == area.max.x - area.min.x,
            height == area.max.y - area.min.y,
            width > 0 ==> forall|c: int| 0 <= c < columns ==> #[trigger] (c * rect_size) < width,
            height > 0 ==> forall|c: int| 0 <= c < rows ==> #[trigger] (c * rect_size) < height,
            0 <= columns <= 4 * COORD_LIMIT,
            rows <= 4 * COORD_LIMIT,
            0 <= row <= rows,
            tiles@.len() == row * cols,
            forall|r: int, c: int|
                0 <= r < row && 0 <= c < cols ==> #[trigger] tiles@[r * cols + c] == tile_spec(
                    area,
                    rect_size as int,
                    colors,
                    r,
                    c,
                ),
        decreases rows - row,
    {
        let mut column: i64 = 0;
        while column < columns
            invariant
                area.in_bounds(),
                0 < rect_size <= COORD_LIMIT,
                cols == columns,
                columns == tile_count(width as int, rect_size as int),
                rows == tile_count(height as int, rect_size as int),
                width == area.max.x - area.min.x,
                height == area.max.y - area.min.y,
                width > 0 ==> forall|c: int| 0 <= c < columns ==> #[trigger] (c * rect_size) < width,
                height > 0 ==> forall|c: int| 0 <= c < rows ==> #[trigger] (c * rect_size) < height,
                0 <= columns <= 4 * COORD_LIMIT,
                rows <= 4 * COORD_LIMIT,
                0 <= row < rows,
                0 <= column <= columns,
                tiles@.len() == row * cols + column,
                forall|r: int, c: int|
                    0 <= r < row && 0 <= c < cols ==> #[trigger] tiles@[r * cols + c] == tile_spec(
                        area,
                        rect_size as int,
                        colors,
                        r,
                        c,
                    ),
                forall|c: int|
                    0 <= c < column ==> #[trigger] tiles@[row * cols + c] == tile_spec(
                        area,
                        rect_size as int,
                        colors,
                        row as int,
                        c,
                    ),
            decreases columns - column,
        {
            assert(width > 0 && height > 0);
            assert(column * rect_size < width);
            assert(row * rect_size < height);
            let x = column * rect_size + area.min.x;
            let y = row * rect_size + area.min.y;
            let max_x = if x + rect_size < area.max.x {
                x + rect_size
            } else {
                area.max.x
            };
            let max_y = if y + rect_size < area.max.y {
                y + rect_size
            } else {
                area.max.y
            };
            let color = colors[((row + column) % 2) as usize];
            let tile = Tile {
                rect: Rect { min: Vec2 { x, y }, max: Vec2 { x: max_x, y: max_y } },
                color,
            };
            assert(tile == tile_spec(area, rect_size as int, colors, row as int, column as int));
            let ghost old_tiles = tiles@;
            tiles.push(tile);
            assert forall|r: int, c: int|
                0 <= r < row && 0 <= c < cols implies #[trigger] tiles@[r * cols + c] == tile_spec(
                    area,
                    rect_size as int,
                    colors,
                    r,
                    c,
                ) by {
                assert(r * cols + c < row * cols) by (nonlinear_arith)
                    requires
                        0 <= r < row,
                        0 <= c < cols,
                ;
                assert(old_tiles[r * cols + c] == tiles@[r * cols + c]);
            }
            column += 1;
        }
        assert(tiles@.len() == (row + 1) * cols) by (nonlinear_arith)
            requires
                tiles@.len() == row * cols + cols,
        ;
        row += 1;
    }
    tiles
}

} // verus!
