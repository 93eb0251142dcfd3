#![allow(non_snake_case)]
use crate::objectbuilder::{unit_cube, unit_cube_triangles};
use crate::vertex::mVertex;
use vstd::prelude::*;

verus! {

pub const GRIDCELL_TYPE_INVALID_MATERIAL: u32 = 0;

pub const GRIDCELL_TYPE_AIR: u32 = 1;

pub const GRIDCELL_TYPE_WATER: u32 = 2;

pub const GRIDCELL_TYPE_STONE: u32 = 3;

pub const GRIDCELL_TYPE_SOIL: u32 = 4;

/// One cell of a grid: its material and what grows and flows in it.
#[derive(Clone, Copy, Debug, PartialEq, Eq, Structural)]
pub struct GridCell {
    pub typeCode: u32,
    pub temperature: u32,
    pub moisture: u32,
    pub sunlight: u32,
    pub gravity: u32,
    pub plantDensity: u32,
}

impl GridCell {
    /// The cell that a new grid is filled with: of no valid material, with
    /// every quantity at zero.
    pub open spec fn blank() -> GridCell {
        GridCell {
            typeCode: GRIDCELL_TYPE_INVALID_MATERIAL,
            temperature: 0,
            moisture: 0,
            sunlight: 0,
            gravity: 0,
            plantDensity: 0,
        }
    }

    /// A blank cell.
    pub fn new() -> (cell: GridCell)
        ensures
            cell == GridCell::blank(),
    {
        GridCell {
            typeCode: GRIDCELL_TYPE_INVALID_MATERIAL,
            temperature: 0,
            moisture: 0,
            sunlight: 0,
            gravity: 0,
            plantDensity: 0,
        }
    }

    /// The mesh of a cell of this material at `(x, y, z)`: a unit cube for
    /// soil, nothing for any other material.
    pub open spec fn mesh(self, x: int, y: int, z: int) -> Seq<mVertex> {
        if self.typeCode == GRIDCELL_TYPE_SOIL {
            unit_cube_triangles(x, y, z)
        } else {
            Seq::empty()
        }
    }
}

/// What a grid holds: its extent along each axis, and its cells, x fastest
/// and z slowest.
pub struct GridView {
    pub cells: Seq<GridCell>,
    pub xsize: nat,
    pub ysize: nat,
    pub zsize: nat,
}

impl GridView {
    /// There is one cell for each point of the grid, and the number of cells
    /// fits a `u32`.
    pub open spec fn wf(self) -> bool {
        &&& self.cells.len() == self.xsize * self.ysize * self.zsize
        &&& self.xsize * self.ysize <= u32::MAX
        &&& self.cells.len() <= u32::MAX
    }

    /// The place of the cell `(x, y, z)` among the cells.
    pub open spec fn index(self, x: int, y: int, z: int) -> int {
        self.ysize * self.xsize * z + self.xsize * y + x
    }

    /// `(x, y, z)` is a point of the grid.
    pub open spec fn contains(self, x: int, y: int, z: int) -> bool {
        0 <= x < self.xsize && 0 <= y < self.ysize && 0 <= z < self.zsize
    }

    /// `(x, y, z)` names a cell: it is a point of the grid, or at least its
    /// place is one among the cells.
    pub open spec fn addresses(self, x: int, y: int, z: int) -> bool {
        self.contains(x, y, z) || 0 <= self.index(x, y, z) < self.cells.len()
    }

    /// The cell `(x, y, z)`.
    pub open spec fn cell(self, x: int, y: int, z: int) -> GridCell {
        self.cells[self.index(x, y, z)]
    }

    /// The meshes of the cells `(x, y, 0)` to `(x, y, depth - 1)`, one after
    /// the other.
    pub open spec fn column_mesh(self, x: int, y: int, depth: nat) -> Seq<mVertex>
        decreases depth,
    {
        if depth == 0 {
            Seq::empty()
        } else {
            self.column_mesh(x, y, (depth - 1) as nat) + self.cell(x, y, depth - 1).mesh(
                x,
                y,
                depth - 1,
            )
        }
    }

    /// The meshes of the columns `(x, 0)` to `(x, height - 1)`, one after
    /// the other.
    pub open spec fn slab_mesh(self, x: int, height: nat) -> Seq<mVertex>
        decreases height,
    {
        if height == 0 {
            Seq::empty()
        } else {
            self.slab_mesh(x, (height - 1) as nat) + self.column_mesh(x, height - 1, self.zsize)
        }
    }

    /// The meshes of the slabs `0` to `width - 1`, one after the other.
    pub open spec fn block_mesh(self, width: nat) -> Seq<mVertex>
        decreases width,
    {
        if width == 0 {
            Seq::empty()
        } else {
            self.block_mesh((width - 1) as nat) + self.slab_mesh(width - 1, self.ysize)
        }
    }

    /// The mesh of the whole grid: the meshes of its cells, x slowest and z
    /// fastest.
    pub open spec fn mesh(self) -> Seq<mVertex> {
        self.block_mesh(self.xsize)
    }
}

/// A box of cells.
#[derive(Clone)]
pub struct GridBuffer {
    grid_cells: Vec<GridCell>,
    xsize: u32,
    ysize: u32,
    zsize: u32,
}

impl View for GridBuffer {
    type V = GridView;

    closed spec fn view(&self) -> GridView {
        GridView {
            cells: self.grid_cells@,
            xsize: self.xsize as nat,
            ysize: self.ysize as nat,
            zsize: self.zsize as nat,
        }
    }
}

/// A point of the grid has its place among the cells, and a place of its own.
pub proof fn lemma_index_in_bounds(grid: GridView, x: int, y: int, z: int)
    requires
        grid.wf(),
        grid.contains(x, y, z),
    ensures
        0 <= grid.index(x, y, z) < grid.cells.len(),
{
    let w = grid.xsize as int;
    let h = grid.ysize as int;
    let d = grid.zsize as int;
    assert(h * w * z + w * y + x < h * w * d) by (nonlinear_arith)
        requires
            0 <= x < w,
            0 <= y < h,
            0 <= z < d,
    ;
    assert(0 <= h * w * z + w * y + x) by (nonlinear_arith)
        requires
            0 <= x < w,
            0 <= y < h,
            0 <= z < d,
    ;
    assert(w * h * d == h * w * d) by (nonlinear_arith);
}

/// Two points of the grid that share a place among the cells are one point.
pub proof fn lemma_index_injective(grid: GridView, x1: int, y1: int, z1: int, x2: int, y2: int, z2: int)
    requires
        grid.contains(x1, y1, z1),
        grid.contains(x2, y2, z2),
        grid.index(x1, y1, z1) == grid.index(x2, y2, z2),
    ensures
        x1 == x2 && y1 == y2 && z1 == z2,
{
    let w = grid.xsize as int;
    let h = grid.ysize as int;
    assert(z1 == z2) by (nonlinear_arith)
        requires
            0 <= x1 < w,
            0 <= y1 < h,
            0 <= x2 < w,
            0 <= y2 < h,
            h * w * z1 + w * y1 + x1 == h * w * z2 + w * y2 + x2,
    {
        assert(0 <= w * y1 + x1 < h * w);
        assert(0 <= w * y2 + x2 < h * w);
        if z1 < z2 {
            assert(h * w * z2 >= h * w * z1 + h * w);
        }
        if z2 < z1 {
            assert(h * w * z1 >= h * w * z2 + h * w);
        }
    }
    assert(y1 == y2) by (nonlinear_arith)
        requires
            0 <= x1 < w,
            0 <= x2 < w,
            w * y1 + x1 == w * y2 + x2,
    {
        if y1 < y2 {
            assert(w * y2 >= w * y1 + w);
        }
        if y2 < y1 {
            assert(w * y1 >= w * y2 + w);
        }
    }
}

/// After a cell was put at a point of the grid, that point holds the cell
/// and every other point of the grid holds what it held.
pub proof fn lemma_set_then_get(grid: GridView, x: int, y: int, z: int, cell: GridCell, u: int, v: int, w: int)
    requires
        grid.wf(),
        grid.contains(x, y, z),
        grid.contains(u, v, w),
    ensures
        ({
            let after = GridView { cells: grid.cells.update(grid.index(x, y, z), cell), ..grid };
            after.cell(u, v, w) == if u == x && v == y && w == z {
                cell
            } else {
                grid.cell(u, v, w)
            }
        }),
{
    lemma_index_in_bounds(grid, x, y, z);
    lemma_index_in_bounds(grid, u, v, w);
    if grid.index(x, y, z) == grid.index(u, v, w) {
        lemma_index_injective(grid, x, y, z, u, v, w);
    }
}

impl GridBuffer {
    /// The extent along x.
    pub fn xsize(&self) -> (xsize: u32)
        ensures
            xsize == self@.xsize,
    {
        self.xsize
    }

    /// The extent along y.
    pub fn ysize(&self) -> (ysize: u32)
        ensures
            ysize == self@.ysize,
    {
        self.ysize
    }

    /// The extent along z.
    pub fn zsize(&self) -> (zsize: u32)
        ensures
            zsize == self@.zsize,
    {
        self.zsize
    }

    /// A grid of the given extent, filled with blank cells.
    pub fn new(xsize: u32, ysize: u32, zsize: u32) -> (grid: GridBuffer)
        requires
            xsize * ysize <= u32::MAX,
            xsize * ysize * zsize <= u32::MAX,
        ensures
            grid@.wf(),
            grid@.xsize == xsize,
            grid@.ysize == ysize,
            grid@.zsize == zsize,
            forall|i: int| 0 <= i < grid@.cells.len() ==> grid@.cells[i] == GridCell::blank(),
    {
        let count = xsize * ysize * zsize;
        let mut grid_cells: Vec<GridCell> = Vec::new();
        let mut i: u32 = 0;
        while i < count
            invariant
                i <= count,
                grid_cells@.len() == i,
                forall|j: int| 0 <= j < i ==> grid_cells@[j] == GridCell::blank(),
            decreases count - i,
        {
            grid_cells.push(GridCell::new());
            i += 1;
        }
        GridBuffer { xsize, ysize, zsize, grid_cells }
    }

    /// The place of the cell `(x, y, z)` among the cells.
    pub fn toId(&self, x: u32, y: u32, z: u32) -> (id: usize)
        requires
            self@.wf(),
            self@.addresses(x as int, y as int, z as int),
        ensures
            id == self@.index(x as int, y as int, z as int),
            id < self@.cells.len(),
    {
        proof {
            let w = self.xsize as int;
            let h = self.ysize as int;
            let d = self.zsize as int;
            if self@.contains(x as int, y as int, z as int) {
                lemma_index_in_bounds(self@, x as int, y as int, z as int);
            }
            assert(h * w == w * h) by (nonlinear_arith);
            assert(0 <= h * w * z && 0 <= w * y) by (nonlinear_arith)
                requires
                    0 <= w,
                    0 <= h,
                    0 <= z,
                    0 <= y,
            ;
        }
        (self.ysize * self.xsize * z + self.xsize * y + x) as usize
    }

    /// The cell `(x, y, z)`.
    pub fn get(&self, x: u32, y: u32, z: u32) -> (cell: GridCell)
        requires
            self@.wf(),
            self@.addresses(x as int, y as int, z as int),
        ensures
            cell == self@.cell(x as int, y as int, z as int),
    {
        self.grid_cells[self.toId(x, y, z)]
    }

    /// Puts `cell` at `(x, y, z)`.
    pub fn set(&mut self, x: u32, y: u32, z: u32, cell: GridCell)
        requires
            old(self)@.wf(),
            old(self)@.addresses(x as int, y as int, z as int),
        ensures
            final(self)@ == (GridView {
                cells: old(self)@.cells.update(old(self)@.index(x as int, y as int, z as int), cell),
                ..old(self)@
            }),
            final(self)@.wf(),
    {
        let id = self.toId(x, y, z);
        self.grid_cells[id] = cell;
    }

    /// The mesh of the cell `(x, y, z)`.
    pub fn gen_vertex_cell(&self, x: u32, y: u32, z: u32) -> (vertexes: Vec<mVertex>)
        requires
            self@.wf(),
            self@.addresses(x as int, y as int, z as int),
        ensures
            vertexes@ == self@.cell(x as int, y as int, z as int).mesh(x as int, y as int, z as int),
    {
        if self.get(x, y, z).typeCode != GRIDCELL_TYPE_SOIL {
            return Vec::new();
        }
        unit_cube(x as i64, y as i64, z as i64)
    }

    /// The mesh of the grid: the meshes of its cells, one after the other,
    /// x slowest and z fastest.
    pub fn gen_vertex(&self) -> (vertex_list: Vec<mVertex>)
        requires
            self@.wf(),
        ensures
            vertex_list@ == self@.mesh(),
    {
        let mut vertex_list: Vec<mVertex> = Vec::new();
        for x in 0..self.xsize
            invariant
                self@.wf(),
                vertex_list@ == self@.block_mesh(x as nat),
        {
            for y in 0..self.ysize
                invariant
                    self@.wf(),
                    x < self.xsize,
                    vertex_list@ == self@.block_mesh(x as nat) + self@.slab_mesh(x as int, y as nat),
            {
                for z in 0..self.zsize
                    invariant
                        self@.wf(),
                        x < self.xsize,
                        y < self.ysize,
                        vertex_list@ == self@.block_mesh(x as nat) + self@.slab_mesh(
                            x as int,
                            y as nat,
                        ) + self@.column_mesh(x as int, y as int, z as nat),
                {
                    let mut cell_vertexes = self.gen_vertex_cell(x, y, z);
                    vertex_list.append(&mut cell_vertexes);
                }
            }
        }
        vertex_list
    }
}

} // verus!
