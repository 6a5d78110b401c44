//! The uniform tile grid that a catalog declares over its sprite sheet, and
//! the layout derived from it.

use vstd::prelude::*;

verus! {

/// A uniform grid over one image: the size of a tile in pixels and the number
/// of columns and rows.
///
/// Every value of this type that a program holds describes a grid whose pixel
/// extent fits in `u32` in both directions and whose number of cells fits in
/// `usize`.
#[derive(Clone, Copy, Debug, PartialEq, Eq)]
pub struct AtlasConfig {
    tile_size: (u32, u32),
    columns: u32,
    rows: u32,
}

/// Whether the grid's pixel extent and number of cells fit the machine's
/// integers.
pub open spec fn grid_fits(tile_size: (u32, u32), columns: u32, rows: u32) -> bool {
    &&& tile_size.0 * columns <= u32::MAX
    &&& tile_size.1 * rows <= u32::MAX
    &&& columns * rows <= usize::MAX
}

/// A point of an image, counted in pixels from its top-left corner.
#[derive(Clone, Copy, Debug, PartialEq, Eq, Structural)]
pub struct Pixel {
    pub x: u32,
    pub y: u32,
}

/// One cell of a layout, as the pixel rectangle from `min` (inclusive) to
/// `max` (exclusive).
#[derive(Clone, Copy, Debug, PartialEq, Eq, Structural)]
pub struct TileRect {
    pub min: Pixel,
    pub max: Pixel,
}

impl TileRect {
    /// The rectangle between two corners.
    pub fn spanning(min_x: u32, min_y: u32, max_x: u32, max_y: u32) -> (rect: TileRect)
        ensures
            rect == (TileRect { min: Pixel { x: min_x, y: min_y }, max: Pixel { x: max_x, y: max_y } }),
    {
        TileRect { min: Pixel { x: min_x, y: min_y }, max: Pixel { x: max_x, y: max_y } }
    }
}

/// A layout as a mathematical value: the size of the sheet and its cells in
/// index order.
pub struct Grid {
    pub size: Pixel,
    pub cells: Seq<TileRect>,
}

/// The cell in column `column` of row `row`.
pub open spec fn cell_at(tile_size: (u32, u32), column: int, row: int) -> TileRect {
    TileRect {
        min: Pixel { x: (column * tile_size.0) as u32, y: (row * tile_size.1) as u32 },
        max: Pixel {
            x: (column * tile_size.0 + tile_size.0) as u32,
            y: (row * tile_size.1 + tile_size.1) as u32,
        },
    }
}

/// The cell with index `i` of a grid with `columns` columns: cells are counted
/// row by row from the top-left corner, so it stands in column `i % columns`
/// of row `i / columns`.
pub open spec fn grid_cell(tile_size: (u32, u32), columns: u32, i: int) -> TileRect {
    cell_at(tile_size, i % (columns as int), i / (columns as int))
}

/// The layout of a grid: `columns * rows` cells, and a sheet that they cover
/// exactly.
pub open spec fn grid_of(tile_size: (u32, u32), columns: u32, rows: u32) -> Grid {
    Grid {
        size: Pixel { x: (tile_size.0 * columns) as u32, y: (tile_size.1 * rows) as u32 },
        cells: Seq::new((columns * rows) as nat, |i: int| grid_cell(tile_size, columns, i)),
    }
}

proof fn lemma_product_in_u64(a: u32, b: u32)
    ensures
        0 <= a * b <= u64::MAX,
{
    assert(0 <= a * b <= 0xffff_ffff * 0xffff_ffff) by (nonlinear_arith)
        requires
            0 <= a <= 0xffff_ffff,
            0 <= b <= 0xffff_ffff,
    ;
}

impl AtlasConfig {
    #[verifier::type_invariant]
    spec fn fits(self) -> bool {
        grid_fits(self.tile_size, self.columns, self.rows)
    }

    /// The configuration with the given fields.
    pub closed spec fn of(tile_size: (u32, u32), columns: u32, rows: u32) -> AtlasConfig {
        AtlasConfig { tile_size, columns, rows }
    }

    /// A configuration is made of its three fields and nothing else.
    pub broadcast proof fn lemma_fields(tile_size: (u32, u32), columns: u32, rows: u32)
        ensures
            (#[trigger] Self::of(tile_size, columns, rows)).spec_tile_size() == tile_size,
            Self::of(tile_size, columns, rows).spec_columns() == columns,
            Self::of(tile_size, columns, rows).spec_rows() == rows,
    {
    }

    pub closed spec fn spec_tile_size(&self) -> (u32, u32) {
        self.tile_size
    }

    pub closed spec fn spec_columns(&self) -> u32 {
        self.columns
    }

    pub closed spec fn spec_rows(&self) -> u32 {
        self.rows
    }

    /// What holds of every configuration that a program holds.
    pub open spec fn wf(&self) -> bool {
        grid_fits(self.spec_tile_size(), self.spec_columns(), self.spec_rows())
    }

    /// The layout of the grid that the configuration describes.
    pub open spec fn grid(&self) -> Grid {
        grid_of(self.spec_tile_size(), self.spec_columns(), self.spec_rows())
    }

    /// The configuration of the given grid, or `None` where the grid does not
    /// fit the machine's integers.
    pub fn new(tile_size: (u32, u32), columns: u32, rows: u32) -> (config: Option<AtlasConfig>)
        ensures
            config == (if grid_fits(tile_size, columns, rows) {
                Some(Self::of(tile_size, columns, rows))
            } else {
                None
            }),
            config matches Some(made) ==> made.spec_tile_size() == tile_size && made.spec_columns()
                == columns && made.spec_rows() == rows,
    {
        proof {
            lemma_product_in_u64(tile_size.0, columns);
            lemma_product_in_u64(tile_size.1, rows);
            lemma_product_in_u64(columns, rows);
        }
        let width = tile_size.0 as u64 * columns as u64;
        let height = tile_size.1 as u64 * rows as u64;
        let cells = columns as u64 * rows as u64;
        if width <= u32::MAX as u64 && height <= u32::MAX as u64 && cells <= usize::MAX as u64 {
            Some(AtlasConfig { tile_size, columns, rows })
        } else {
            None
        }
    }

    #[verifier::when_used_as_spec(spec_tile_size)]
    pub fn tile_size(&self) -> (size: (u32, u32))
        ensures
            size == self.spec_tile_size(),
            self.wf(),
    {
        proof {
            use_type_invariant(self);
        }
        self.tile_size
    }

    #[verifier::when_used_as_spec(spec_columns)]
    pub fn columns(&self) -> (columns: u32)
        ensures
            columns == self.spec_columns(),
            self.wf(),
    {
        proof {
            use_type_invariant(self);
        }
        self.columns
    }

    #[verifier::when_used_as_spec(spec_rows)]
    pub fn rows(&self) -> (rows: u32)
        ensures
            rows == self.spec_rows(),
            self.wf(),
    {
        proof {
            use_type_invariant(self);
        }
        self.rows
    }
}

/// The layout of a sprite sheet: its size in pixels and its cells in index
/// order.
#[derive(Debug)]
pub struct AtlasLayout {
    size: (u32, u32),
    textures: Vec<TileRect>,
}

impl View for AtlasLayout {
    type V = Grid;

    closed spec fn view(&self) -> Grid {
        Grid { size: Pixel { x: self.size.0, y: self.size.1 }, cells: self.textures@ }
    }
}

/// Builds the grid with `bevy::image::TextureAtlasLayout::from_grid`, without
/// padding and without offset, and copies its size and rectangles out.
/// Bevy walks the rows from the top and each row from the left, and gives the
/// cell in column `x` of row `y` the corner `tile_size * (x, y)`; the size is
/// `tile_size * (columns, rows)`. It multiplies in `u32`, hence the `requires`.
#[verifier::external_body]
fn bevy_grid(tile_size: (u32, u32), columns: u32, rows: u32) -> (layout: AtlasLayout)
    requires
        grid_fits(tile_size, columns, rows),
    ensures
        layout@ == grid_of(tile_size, columns, rows),
{
    let tile = bevy::math::UVec2::new(tile_size.0, tile_size.1);
    let grid = bevy::image::TextureAtlasLayout::from_grid(tile, columns, rows, None, None);
    let textures = grid.textures.iter().map(
        |r| TileRect::spanning(r.min.x, r.min.y, r.max.x, r.max.y),
    ).collect();
    AtlasLayout { size: (grid.size.x, grid.size.y), textures }
}

impl AtlasLayout {
    /// The layout of the grid that `config` describes: `columns * rows` cells
    /// of equal size, row by row, cell 0 in the top-left corner.
    pub fn from_grid(config: &AtlasConfig) -> (layout: AtlasLayout)
        ensures
            layout@ == config.grid(),
            layout@.cells.len() == config.columns() * config.rows(),
    {
        proof {
            use_type_invariant(config);
        }
        bevy_grid(config.tile_size, config.columns, config.rows)
    }

    /// The number of cells.
    pub fn len(&self) -> (n: usize)
        ensures
            n == self@.cells.len(),
    {
        self.textures.len()
    }

    /// The size of the whole sheet in pixels.
    pub fn size(&self) -> (size: (u32, u32))
        ensures
            size.0 == self@.size.x,
            size.1 == self@.size.y,
    {
        self.size
    }

    /// The cell with the given index, or `None` where the layout has no such
    /// cell.
    pub fn cell(&self, index: usize) -> (cell: Option<TileRect>)
        ensures
            cell == (if index < self@.cells.len() {
                Some(self@.cells[index as int])
            } else {
                None
            }),
    {
        if index < self.textures.len() {
            Some(self.textures[index])
        } else {
            None
        }
    }
}

/// Names one layout of a [`LayoutStore`] by its position.
#[derive(Clone, Copy, Debug, PartialEq, Eq, Structural)]
pub struct LayoutHandle {
    pub index: usize,
}

/// The layouts that have been built, in the order in which they were added.
/// Nothing is ever taken out, so the length counts the layouts built.
#[derive(Debug)]
pub struct LayoutStore {
    layouts: Vec<AtlasLayout>,
}

impl View for LayoutStore {
    type V = Seq<Grid>;

    closed spec fn view(&self) -> Seq<Grid> {
        Seq::new(self.layouts@.len(), |i: int| self.layouts@[i]@)
    }
}

impl LayoutStore {
    pub fn new() -> (store: LayoutStore)
        ensures
            store@ == Seq::<Grid>::empty(),
    {
        let store = LayoutStore { layouts: Vec::new() };
        assert(store@ =~= Seq::<Grid>::empty());
        store
    }

    /// The number of layouts built so far.
    pub fn len(&self) -> (n: usize)
        ensures
            n == self@.len(),
    {
        self.layouts.len()
    }

    /// Keeps a layout and hands back the handle that names it from now on.
    pub fn add(&mut self, layout: AtlasLayout) -> (handle: LayoutHandle)
        ensures
            final(self)@ == old(self)@.push(layout@),
            handle.index == old(self)@.len(),
    {
        let index = self.layouts.len();
        self.layouts.push(layout);
        assert(self@ =~= old(self)@.push(layout@));
        LayoutHandle { index }
    }

    /// The layout that a handle names, or `None` where it names none.
    pub fn get(&self, handle: LayoutHandle) -> (layout: Option<&AtlasLayout>)
        ensures
            match layout {
                Some(found) => handle.index < self@.len() && found@ == self@[handle.index as int],
                None => handle.index >= self@.len(),
            },
    {
        if handle.index < self.layouts.len() {
            Some(&self.layouts[handle.index])
        } else {
            None
        }
    }
}

/// Cells are counted row by row: the cell in column `column` of row `row`
/// has the index `row * columns + column`, and its top-left corner lies
/// `column` tile widths from the left and `row` tile heights from the top.
pub proof fn lemma_grid_is_row_major(
    tile_size: (u32, u32),
    columns: u32,
    rows: u32,
    column: int,
    row: int,
)
    requires
        0 <= column < columns,
        0 <= row < rows,
    ensures
        0 <= row * columns + column < grid_of(tile_size, columns, rows).cells.len(),
        grid_of(tile_size, columns, rows).cells[row * columns + column] == cell_at(
            tile_size,
            column,
            row,
        ),
{
    let index = row * columns + column;
    assert(0 <= index < columns * rows) by (nonlinear_arith)
        requires
            0 <= column < columns,
            0 <= row < rows,
            index == row * columns + column,
    ;
    vstd::arithmetic::div_mod::lemma_fundamental_div_mod_converse(
        index,
        columns as int,
        row,
        column,
    );
}

} // verus!
