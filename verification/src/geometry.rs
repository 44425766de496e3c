use vstd::prelude::*;
use crate::random::random_i32;

verus! {

/// The shape drawn for one cell of a level patch, chosen from which of the
/// cell's four corner points are filled.
#[derive(PartialEq, Eq, Structural, Clone, Copy, Debug)]
pub enum PatchCellShape {
    Square,
    TriangleLeftTop,
    TriangleRightTop,
    TriangleLeftBottom,
    TriangleRightBottom,
    DotLeftTop,
    DotRightTop,
    DotLeftBottom,
    DotRightBottom,
    Empty,
}

/// One grid item of a triangulated patch: column, row and shape.
pub type CellItem = (i32, i32, PatchCellShape);

/// Rust's `%` on integers: the remainder takes the sign of the dividend.
pub open spec fn rust_rem(a: int, m: int) -> int {
    let r = (if a >= 0 { a } else { -a }) % (if m >= 0 { m } else { -m });
    if a >= 0 { r } else { -r }
}

/// A level geometry patch: a grid of `cell_nums.0 x cell_nums.1` cells whose
/// `(cell_nums.0 + 1) x (cell_nums.1 + 1)` corner points are stored row by
/// row in `cell_data`; a point counts as filled when its value is positive.
#[derive(Debug)]
pub struct LevelPatch {
    pub cell_nums: (i32, i32),
    pub cell_data: Vec<i32>,
    pub image_path: String,
}

/// `y * w + x` without leaving `i32`, as Rust computes it.
pub open spec fn fits_i32(v: int) -> bool {
    i32::MIN <= v <= i32::MAX
}

impl LevelPatch {
    pub open spec fn nx(&self) -> int {
        self.cell_nums.0 as int
    }

    pub open spec fn ny(&self) -> int {
        self.cell_nums.1 as int
    }

    /// A corner point inside the grid.
    pub open spec fn valid_pt(&self, x: int, y: int) -> bool {
        0 <= x <= self.nx() && 0 <= y <= self.ny()
    }

    /// Position in `cell_data` of the point `(x, y)`.
    pub open spec fn index_of(&self, x: int, y: int) -> int {
        y * (self.nx() + 1) + x
    }

    /// The length of `cell_data` as the code compares it, as an `i32`.
    pub open spec fn len_i32(&self) -> int {
        (self.cell_data.len() as i32) as int
    }

    /// The value stored at a point; points outside the grid or past the end
    /// of `cell_data` read as `0`.
    pub open spec fn value_at(&self, x: int, y: int) -> i32 {
        if !self.valid_pt(x, y) {
            0
        } else {
            let i = self.index_of(x, y);
            if 0 <= i < self.len_i32() {
                self.cell_data@[i]
            } else {
                0
            }
        }
    }

    /// Both end points of a line lie in the grid and are filled.
    pub open spec fn line_at(&self, x: int, y: int, x2: int, y2: int) -> bool {
        &&& self.valid_pt(x, y)
        &&& self.valid_pt(x2, y2)
        &&& self.value_at(x, y) > 0
        &&& self.value_at(x2, y2) > 0
    }

    /// Reading the point `(x, y)` keeps its index arithmetic inside `i32`.
    pub open spec fn index_fits(&self, x: int, y: int) -> bool {
        self.valid_pt(x, y) ==> (self.nx() < i32::MAX && self.index_of(x, y) <= i32::MAX)
    }

    /// Triangulating reads every point of the grid without overflow.
    pub open spec fn tri_fits(&self) -> bool {
        self.nx() >= 1 && self.ny() >= 1 ==> (self.nx() + 1) * (self.ny() + 1) <= i32::MAX + 1
    }

    /// The shape a cell gets from its four corners.
    pub open spec fn cell_shape(&self, l: int, t: int) -> PatchCellShape {
        let tl = self.value_at(l, t) > 0;
        let tr = self.value_at(l + 1, t) > 0;
        let br = self.value_at(l + 1, t + 1) > 0;
        let bl = self.value_at(l, t + 1) > 0;
        let left_filled = tl && bl;
        let right_filled = tr && br;
        let top_filled = tl && tr;
        let bottom_filled = bl && br;
        if left_filled && top_filled && right_filled {
            PatchCellShape::Square
        } else if left_filled && top_filled {
            PatchCellShape::TriangleLeftTop
        } else if right_filled && top_filled {
            PatchCellShape::TriangleRightTop
        } else if left_filled && bottom_filled {
            PatchCellShape::TriangleLeftBottom
        } else if right_filled && bottom_filled {
            PatchCellShape::TriangleRightBottom
        } else {
            PatchCellShape::Empty
        }
    }

    /// The top-left point of a cell is not part of any line around it.
    pub open spec fn lone_top_left(&self, l: int, t: int) -> bool {
        let r = l + 1;
        let b = t + 1;
        &&& !self.line_at(l - 1, t, l - 1, b)
        &&& !self.line_at(l - 1, t - 1, l - 1, t)
        &&& !self.line_at(l - 1, t - 1, l, t - 1)
        &&& !self.line_at(l, t - 1, r, t - 1)
        &&& !self.line_at(r, t - 1, r, t)
        &&& !(self.line_at(l - 1, b, l, b) && self.line_at(l, t, l, b))
        &&& !(self.line_at(l - 1, t, l, t) && self.line_at(l, t, l, b))
        &&& !(self.line_at(l - 1, t, l, t) && self.line_at(l, t - 1, l, t))
        &&& !(self.line_at(l, t, r, t) && self.line_at(l, t - 1, l, t))
    }

    /// The items a cell contributes to the triangulation: its shape, or
    /// dots for filled points that belong to no shape.
    pub open spec fn cell_items(&self, l: int, t: int) -> Seq<CellItem> {
        let shape = self.cell_shape(l, t);
        let tl = self.value_at(l, t) > 0;
        let tr = self.value_at(l + 1, t) > 0;
        let br = self.value_at(l + 1, t + 1) > 0;
        let bl = self.value_at(l, t + 1) > 0;
        let here = |s: PatchCellShape| seq![(l as i32, t as i32, s)];
        if shape != PatchCellShape::Empty {
            here(shape)
        } else if tl || tr || bl || br {
            let rightmost = l + 1 == self.nx() + 1;
            let bottommost = t + 1 == self.ny() + 1;
            let d1 = if tl && self.lone_top_left(l, t) {
                here(PatchCellShape::DotLeftTop)
            } else {
                Seq::empty()
            };
            let d2 = if rightmost && tr && !self.line_at(l, t - 1, l + 1, t - 1) {
                here(PatchCellShape::DotRightTop)
            } else {
                Seq::empty()
            };
            let d3 = if bottommost && bl && !self.line_at(l - 1, t, l - 1, t + 1) {
                here(PatchCellShape::DotRightTop)
            } else {
                Seq::empty()
            };
            let d4 = if rightmost && bottommost && br {
                here(PatchCellShape::DotRightTop)
            } else {
                Seq::empty()
            };
            d1 + d2 + d3 + d4
        } else {
            Seq::empty()
        }
    }

    /// The items of the first `n` cells of row `t`.
    pub open spec fn row_items(&self, t: int, n: int) -> Seq<CellItem>
        decreases n,
    {
        if n <= 0 {
            Seq::empty()
        } else {
            self.row_items(t, n - 1) + self.cell_items(n - 1, t)
        }
    }

    /// The items of the first `m` rows, row by row.
    pub open spec fn grid_items(&self, m: int) -> Seq<CellItem>
        decreases m,
    {
        if m <= 0 {
            Seq::empty()
        } else {
            self.grid_items(m - 1) + self.row_items(m - 1, self.nx())
        }
    }

    pub fn valid_point(&self, x: i32, y: i32) -> (r: bool)
        ensures
            r == self.valid_pt(x as int, y as int),
    {
        if x < 0 || y < 0 || x > self.cell_nums.0 || y > self.cell_nums.1 {
            return false;
        }
        true
    }

    pub fn get_value(&self, x: i32, y: i32) -> (r: i32)
        requires
            self.index_fits(x as int, y as int),
        ensures
            r == self.value_at(x as int, y as int),
    {
        if !self.valid_point(x, y) {
            return 0;
        }
        proof {
            lemma_index_in_grid(self.nx(), self.ny(), x as int, y as int);
        }
        let index = y * (self.cell_nums.0 + 1) + x;
        let len = self.cell_data.len();
        if index >= 0 && index < len as i32 {
            proof {
                assert((len as i32) as int <= len as int) by (bit_vector)
                    requires
                        (len as i32) >= 0,
                ;
            }
            self.cell_data[index as usize]
        } else {
            0
        }
    }

    pub fn get_line_value(&self, x: i32, y: i32, x2: i32, y2: i32) -> (r: bool)
        requires
            self.index_fits(x as int, y as int),
            self.index_fits(x2 as int, y2 as int),
        ensures
            r == self.line_at(x as int, y as int, x2 as int, y2 as int),
    {
        if !self.valid_point(x, y) || !self.valid_point(x2, y2) {
            return false;
        }
        self.get_value(x, y) > 0 && self.get_value(x2, y2) > 0
    }
}

impl LevelPatch {
    /// Every point a triangulation reads has index arithmetic inside `i32`.
    proof fn lemma_tri_points_fit(&self)
        requires
            self.tri_fits(),
            self.nx() >= 1,
            self.ny() >= 1,
        ensures
            self.nx() < i32::MAX,
            self.ny() < i32::MAX,
            forall|x: int, y: int| #[trigger] self.index_fits(x, y),
    {
        let nx = self.nx();
        let ny = self.ny();
        assert((nx + 1) * 2 <= (nx + 1) * (ny + 1)) by (nonlinear_arith)
            requires
                nx >= 1,
                ny >= 1,
        ;
        assert((ny + 1) * 2 <= (nx + 1) * (ny + 1)) by (nonlinear_arith)
            requires
                nx >= 1,
                ny >= 1,
        ;
        assert forall|x: int, y: int| #[trigger] self.index_fits(x, y) by {
            if self.valid_pt(x, y) {
                lemma_index_in_grid(nx, ny, x, y);
            }
        }
    }

    /// Appends the items of the cell whose top-left point is `(left_col, top_row)`.
    fn push_cell_items(&self, shapes: &mut Vec<CellItem>, left_col: i32, top_row: i32)
        requires
            self.tri_fits(),
            0 <= left_col < self.nx(),
            0 <= top_row < self.ny(),
        ensures
            final(shapes)@ == old(shapes)@ + self.cell_items(left_col as int, top_row as int),
    {
        proof {
            self.lemma_tri_points_fit();
        }
        let ghost l = left_col as int;
        let ghost t = top_row as int;
        let ghost start = shapes@;
        let right_col = left_col + 1;
        let bottom_row = top_row + 1;

        let val_tl = self.get_value(left_col, top_row);
        let val_tr = self.get_value(right_col, top_row);
        let val_br = self.get_value(right_col, bottom_row);
        let val_bl = self.get_value(left_col, bottom_row);

        let left_filled = val_tl > 0 && val_bl > 0;
        let right_filled = val_tr > 0 && val_br > 0;
        let top_filled = val_tl > 0 && val_tr > 0;
        let bottom_filled = val_bl > 0 && val_br > 0;

        let cell_shape = if left_filled && top_filled && right_filled {
            PatchCellShape::Square
        } else if left_filled && top_filled {
            PatchCellShape::TriangleLeftTop
        } else if right_filled && top_filled {
            PatchCellShape::TriangleRightTop
        } else if left_filled && bottom_filled {
            PatchCellShape::TriangleLeftBottom
        } else if right_filled && bottom_filled {
            PatchCellShape::TriangleRightBottom
        } else {
            PatchCellShape::Empty
        };
        assert(cell_shape == self.cell_shape(l, t));

        if cell_shape != PatchCellShape::Empty {
            shapes.push((left_col, top_row, cell_shape));
            assert(shapes@ =~= start + self.cell_items(l, t));
        } else if val_tl > 0 || val_tr > 0 || val_bl > 0 || val_br > 0 {
            let rightmost_cell = right_col == self.cell_nums.0 + 1;
            let bottommost_row = bottom_row == self.cell_nums.1 + 1;
            let ghost here = |s: PatchCellShape| seq![(l as i32, t as i32, s)];

            if val_tl > 0 {
                if !self.get_line_value(left_col - 1, top_row, left_col - 1, bottom_row)
                    && !self.get_line_value(left_col - 1, top_row - 1, left_col - 1, top_row)
                    && !self.get_line_value(left_col - 1, top_row - 1, left_col, top_row - 1)
                    && !self.get_line_value(left_col, top_row - 1, right_col, top_row - 1)
                    && !self.get_line_value(right_col, top_row - 1, right_col, top_row)
                    && !(self.get_line_value(left_col - 1, bottom_row, left_col, bottom_row)
                        && self.get_line_value(left_col, top_row, left_col, bottom_row))
                    && !(self.get_line_value(left_col - 1, top_row, left_col, top_row)
                        && self.get_line_value(left_col, top_row, left_col, bottom_row))
                    && !(self.get_line_value(left_col - 1, top_row, left_col, top_row)
                        && self.get_line_value(left_col, top_row - 1, left_col, top_row))
                    && !(self.get_line_value(left_col, top_row, right_col, top_row)
                        && self.get_line_value(left_col, top_row - 1, left_col, top_row)) {
                    shapes.push((left_col, top_row, PatchCellShape::DotLeftTop));
                }
            }
            let ghost after1 = shapes@;
            assert(after1 =~= start + (if val_tl > 0 && self.lone_top_left(l, t) {
                here(PatchCellShape::DotLeftTop)
            } else {
                Seq::empty()
            }));

            if rightmost_cell && val_tr > 0 {
                if !self.get_line_value(left_col, top_row - 1, right_col, top_row - 1) {
                    shapes.push((left_col, top_row, PatchCellShape::DotRightTop));
                }
            }
            let ghost after2 = shapes@;
            assert(after2 =~= after1 + (if rightmost_cell && val_tr > 0 && !self.line_at(
                l,
                t - 1,
                l + 1,
                t - 1,
            ) {
                here(PatchCellShape::DotRightTop)
            } else {
                Seq::empty()
            }));

            if bottommost_row && val_bl > 0 {
                if !self.get_line_value(left_col - 1, top_row, left_col - 1, bottom_row) {
                    shapes.push((left_col, top_row, PatchCellShape::DotRightTop));
                }
            }
            let ghost after3 = shapes@;
            assert(after3 =~= after2 + (if bottommost_row && val_bl > 0 && !self.line_at(
                l - 1,
                t,
                l - 1,
                t + 1,
            ) {
                here(PatchCellShape::DotRightTop)
            } else {
                Seq::empty()
            }));

            if rightmost_cell && bottommost_row && val_br > 0 {
                shapes.push((left_col, top_row, PatchCellShape::DotRightTop));
            }
            assert(shapes@ =~= start + self.cell_items(l, t));
        } else {
            assert(shapes@ =~= start + self.cell_items(l, t));
        }
    }

    /// Turns the grid into drawable shapes, cell by cell and row by row.
    pub fn triangulate(&self) -> (shapes: Vec<CellItem>)
        requires
            self.tri_fits(),
        ensures
            shapes@ == self.grid_items(self.ny()),
    {
        let mut shapes: Vec<CellItem> = Vec::new();
        let mut row: i32 = 0;
        while row < self.cell_nums.1
            invariant
                0 <= row,
                row <= self.ny() || row == 0,
                self.tri_fits(),
                shapes@ == self.grid_items(row as int),
            decreases self.ny() - row,
        {
            let mut col: i32 = 0;
            while col < self.cell_nums.0
                invariant
                    0 <= col,
                    col <= self.nx() || col == 0,
                    0 <= row < self.ny(),
                    self.tri_fits(),
                    shapes@ == self.grid_items(row as int) + self.row_items(row as int, col as int),
                decreases self.nx() - col,
            {
                self.push_cell_items(&mut shapes, col, row);
                proof {
                    assert(self.row_items(row as int, col + 1) == self.row_items(row as int, col as int)
                        + self.cell_items(col as int, row as int));
                }
                col += 1;
            }
            proof {
                assert(self.row_items(row as int, col as int) == self.row_items(row as int, self.nx()));
                assert(self.grid_items(row + 1) == self.grid_items(row as int) + self.row_items(
                    row as int,
                    self.nx(),
                ));
            }
            row += 1;
        }
        proof {
            assert(self.grid_items(row as int) == self.grid_items(self.ny()));
        }
        shapes
    }
}

impl LevelPatch {
    pub fn default_cell_nums() -> (r: (i32, i32))
        ensures
            r == (4i32, 4i32),
    {
        (4, 4)
    }

    pub fn default_cell_data() -> (r: Vec<i32>)
        ensures
            r@ == seq![
                1i32, 1, 1, 1, 1,
                1, 0, 0, 1, 1,
                1, 1, 0, 1, 1,
                1, 1, 1, 1, 1,
                0, 1, 1, 1, 0,
            ],
    {
        vec![1, 1, 1, 1, 1,
        1, 0, 0, 1, 1,
        1, 1, 0, 1, 1,
        1, 1, 1, 1, 1,
        0, 1, 1, 1, 0]
    }

    /// A patch with every point set to `fill`.
    fn new_uniform(cell_nums: (i32, i32), fill: i32) -> (r: LevelPatch)
        requires
            cell_nums.0 < i32::MAX,
            cell_nums.1 < i32::MAX,
            0 <= (cell_nums.0 + 1) * (cell_nums.1 + 1) <= i32::MAX,
        ensures
            r.cell_nums == cell_nums,
            r.cell_data@ == Seq::new(((cell_nums.0 + 1) * (cell_nums.1 + 1)) as nat, |i: int| fill),
            r.image_path@ == Seq::<char>::empty(),
    {
        let x_points = cell_nums.0 + 1;
        let y_points = cell_nums.1 + 1;
        let n = (x_points * y_points) as usize;
        let data = vec![fill; n];
        assert(data@ =~= Seq::new(((cell_nums.0 + 1) * (cell_nums.1 + 1)) as nat, |i: int| fill));
        LevelPatch { cell_nums: (cell_nums.0, cell_nums.1), cell_data: data, image_path: String::new() }
    }

    /// A patch whose points are all filled.
    pub fn new_filled(cell_nums: (i32, i32)) -> (r: LevelPatch)
        requires
            cell_nums.0 < i32::MAX,
            cell_nums.1 < i32::MAX,
            0 <= (cell_nums.0 + 1) * (cell_nums.1 + 1) <= i32::MAX,
        ensures
            r.cell_nums == cell_nums,
            r.cell_data@ == Seq::new(((cell_nums.0 + 1) * (cell_nums.1 + 1)) as nat, |i: int| 1i32),
            r.image_path@ == Seq::<char>::empty(),
    {
        Self::new_uniform(cell_nums, 1)
    }

    /// A patch whose points are all empty.
    pub fn new_empty(cell_nums: (i32, i32)) -> (r: LevelPatch)
        requires
            cell_nums.0 < i32::MAX,
            cell_nums.1 < i32::MAX,
            0 <= (cell_nums.0 + 1) * (cell_nums.1 + 1) <= i32::MAX,
        ensures
            r.cell_nums == cell_nums,
            r.cell_data@ == Seq::new(((cell_nums.0 + 1) * (cell_nums.1 + 1)) as nat, |i: int| 0i32),
            r.image_path@ == Seq::<char>::empty(),
    {
        Self::new_uniform(cell_nums, 0)
    }

    /// Writing `(x, y)` keeps its index arithmetic inside `i32`.
    pub open spec fn write_fits(&self, x: int, y: int) -> bool {
        write_fits_in(self.nx(), x, y)
    }

    /// Stores `val` at the position `y * (cell_nums.0 + 1) + x` of `cell_data`
    /// when that position exists; the point itself is not checked.
    pub fn set_value(&mut self, x: i32, y: i32, val: i32) -> (r: bool)
        requires
            old(self).write_fits(x as int, y as int),
        ensures
            final(self).cell_nums == old(self).cell_nums,
            final(self).image_path == old(self).image_path,
            r == (0 <= old(self).index_of(x as int, y as int) < old(self).len_i32()),
            final(self).cell_data@ == (if r {
                old(self).cell_data@.update(old(self).index_of(x as int, y as int), val)
            } else {
                old(self).cell_data@
            }),
    {
        let index = y * (self.cell_nums.0 + 1) + x;
        let len = self.cell_data.len();
        if index >= 0 && index < len as i32 {
            proof {
                lemma_len_i32(len);
            }
            self.cell_data.set(index as usize, val);
            true
        } else {
            false
        }
    }
}

/// Writing `(x, y)` in a grid `nx` cells wide stays inside `i32`.
pub open spec fn write_fits_in(nx: int, x: int, y: int) -> bool {
    &&& nx < i32::MAX
    &&& fits_i32(y * (nx + 1))
    &&& fits_i32(y * (nx + 1) + x)
}

/// The length of a vector, cast to `i32`, is never more than the length.
pub proof fn lemma_len_i32(len: usize)
    ensures
        (len as i32) >= 0 ==> (len as i32) as int <= len as int,
{
    if (len as i32) >= 0 {
        assert((len as i32) as int <= len as int) by (bit_vector)
            requires
                (len as i32) >= 0,
        ;
    }
}

/// A point of the grid has an index inside the grid's storage.
pub proof fn lemma_index_in_grid(nx: int, ny: int, x: int, y: int)
    requires
        0 <= x <= nx,
        0 <= y <= ny,
    ensures
        0 <= y * (nx + 1),
        0 <= y * (nx + 1) + x,
        y * (nx + 1) + x < (nx + 1) * (ny + 1),
{
    assert(0 <= y * (nx + 1)) by (nonlinear_arith)
        requires
            0 <= y,
            0 <= nx,
    ;
    assert(y * (nx + 1) <= ny * (nx + 1)) by (nonlinear_arith)
        requires
            0 <= y <= ny,
            0 <= nx,
    ;
    assert(ny * (nx + 1) + nx < (nx + 1) * (ny + 1)) by (nonlinear_arith);
}


/// Some cell of `[a0, a1) x [b0, b1)` has the storage index `k` in a grid
/// whose rows are `w` points wide.
pub open spec fn hits(w: int, k: int, a0: int, a1: int, b0: int, b1: int) -> bool {
    exists|a: int, b: int| a0 <= a < a1 && b0 <= b < b1 && #[trigger] (b * w + a) == k
}

proof fn lemma_hits_step_b(w: int, k: int, a: int, b0: int, b1: int)
    requires
        b0 <= b1,
    ensures
        hits(w, k, a, a + 1, b0, b1 + 1) == (hits(w, k, a, a + 1, b0, b1) || k == b1 * w + a),
{
    if hits(w, k, a, a + 1, b0, b1 + 1) {
        let (a2, b2) = choose|a2: int, b2: int|
            a <= a2 < a + 1 && b0 <= b2 < b1 + 1 && #[trigger] (b2 * w + a2) == k;
        if b2 < b1 {
            assert(a <= a2 < a + 1 && b0 <= b2 < b1 && b2 * w + a2 == k);
        }
    }
    if k == b1 * w + a {
        assert(a <= a < a + 1 && b0 <= b1 < b1 + 1 && b1 * w + a == k);
    }
    if hits(w, k, a, a + 1, b0, b1) {
        let (a2, b2) = choose|a2: int, b2: int|
            a <= a2 < a + 1 && b0 <= b2 < b1 && #[trigger] (b2 * w + a2) == k;
        assert(a <= a2 < a + 1 && b0 <= b2 < b1 + 1 && b2 * w + a2 == k);
    }
}

proof fn lemma_hits_step_a(w: int, k: int, a0: int, a1: int, b0: int, b1: int)
    requires
        a0 <= a1,
    ensures
        hits(w, k, a0, a1 + 1, b0, b1) == (hits(w, k, a0, a1, b0, b1) || hits(w, k, a1, a1 + 1, b0, b1)),
{
    if hits(w, k, a0, a1 + 1, b0, b1) {
        let (a2, b2) = choose|a2: int, b2: int|
            a0 <= a2 < a1 + 1 && b0 <= b2 < b1 && #[trigger] (b2 * w + a2) == k;
        if a2 < a1 {
            assert(a0 <= a2 < a1 && b0 <= b2 < b1 && b2 * w + a2 == k);
        } else {
            assert(a1 <= a2 < a1 + 1 && b0 <= b2 < b1 && b2 * w + a2 == k);
        }
    }
    if hits(w, k, a0, a1, b0, b1) {
        let (a2, b2) = choose|a2: int, b2: int|
            a0 <= a2 < a1 && b0 <= b2 < b1 && #[trigger] (b2 * w + a2) == k;
        assert(a0 <= a2 < a1 + 1 && b0 <= b2 < b1 && b2 * w + a2 == k);
    }
    if hits(w, k, a1, a1 + 1, b0, b1) {
        let (a2, b2) = choose|a2: int, b2: int|
            a1 <= a2 < a1 + 1 && b0 <= b2 < b1 && #[trigger] (b2 * w + a2) == k;
        assert(a0 <= a2 < a1 + 1 && b0 <= b2 < b1 && b2 * w + a2 == k);
    }
}

/// The cells a random modification of size `block` and form `form` around
/// `(x, y)` covers: `[i_start, i_end) x [j_start, j_end)`. `block / 2` is the
/// number of cells before the centre, `ceil((block - 1) / 2)`.
pub open spec fn block_rect(x: int, y: int, block: int, form: int) -> (int, int, int, int) {
    let before_cell = block / 2;
    let i_start = if form > 0 { x - before_cell } else { x };
    let j_start = if form < 2 { y - before_cell } else { y };
    let i_end = if form > 0 { i_start + block } else { x + 1 };
    let j_end = if form < 2 { j_start + block } else { y + 1 };
    (i_start, i_end, j_start, j_end)
}

impl LevelPatch {
    /// The storage positions a modification writes: the point `(x, y)` and,
    /// when `block > 1`, every cell of its block, as far as they fall inside
    /// `cell_data`.
    pub open spec fn modified_at(&self, k: int, x: int, y: int, block: int, form: int) -> bool {
        let (i0, i1, j0, j1) = block_rect(x, y, block, form);
        &&& 0 <= k < self.len_i32()
        &&& (k == self.index_of(x, y) || (block > 1 && hits(self.nx() + 1, k, i0, i1, j0, j1)))
    }

    /// `cell_data` after a modification that writes `val`.
    pub open spec fn modified_data(&self, x: int, y: int, val: i32, block: int, form: int) -> Seq<i32> {
        Seq::new(
            self.cell_data@.len(),
            |k: int|
                if self.modified_at(k, x, y, block, form) {
                    val
                } else {
                    self.cell_data@[k]
                },
        )
    }

    /// Every write of a modification keeps its index arithmetic in `i32`.
    pub open spec fn modify_fits(&self, x: int, y: int, block: int, form: int) -> bool {
        let (i0, i1, j0, j1) = block_rect(x, y, block, form);
        &&& self.write_fits(x, y)
        &&& block > 1 ==> {
            &&& fits_i32(i0)
            &&& fits_i32(i1)
            &&& fits_i32(j0)
            &&& fits_i32(j1)
            &&& forall|i: int, j: int| i0 <= i < i1 && j0 <= j < j1 ==> #[trigger] write_fits_in(self.nx(), i, j)
        }
    }

    /// Sets the point `(x, y)` to `val` and, when `block > 1`, every cell of
    /// the block around it that `form` selects (a square block for `form` 1,
    /// a column for `form` 0 or below, a row for `form` 2 or above).
    pub fn apply_modification(&mut self, x: i32, y: i32, val: i32, block: i32, form: i32)
        requires
            old(self).modify_fits(x as int, y as int, block as int, form as int),
        ensures
            final(self).cell_nums == old(self).cell_nums,
            final(self).image_path == old(self).image_path,
            final(self).cell_data@ == old(self).modified_data(x as int, y as int, val, block as int, form as int),
    {
        let ghost orig = self.cell_data@;
        let ghost w = self.nx() + 1;
        let ghost nx0 = self.nx();
        let ghost idx0 = self.index_of(x as int, y as int);
        proof {
            lemma_len_i32(self.cell_data.len());
        }
        self.set_value(x, y, val);
        if block > 1 {
            let before_cell = block / 2;
            let i_start = if form > 0 { x - before_cell } else { x };
            let j_start = if form < 2 { y - before_cell } else { y };
            let i_end = if form > 0 { i_start + block } else { x + 1 };
            let j_end = if form < 2 { j_start + block } else { y + 1 };
            assert(block_rect(x as int, y as int, block as int, form as int) == (
                i_start as int,
                i_end as int,
                j_start as int,
                j_end as int,
            ));
            let mut i = i_start;
            while i < i_end
                invariant
                    i_start <= i,
                    i <= i_end || i == i_start,
                    nx0 == self.nx(),
                    self.cell_nums == old(self).cell_nums,
                    self.image_path == old(self).image_path,
                    self.cell_data@.len() == orig.len(),
                    w == self.nx() + 1,
                    idx0 == self.index_of(x as int, y as int),
                    forall|a: int, b: int|
                        i_start <= a < i_end && j_start <= b < j_end ==> #[trigger] write_fits_in(nx0, a, b),
                    forall|k: int|
                        0 <= k < orig.len() ==> #[trigger] self.cell_data@[k] == if 0 <= k < self.len_i32() && (
                        k == idx0 || hits(w, k, i_start as int, i as int, j_start as int, j_end as int)) {
                            val
                        } else {
                            orig[k]
                        },
                decreases i_end - i,
            {
                let mut j = j_start;
                while j < j_end
                    invariant
                        i_start <= i < i_end,
                        j_start <= j,
                        j <= j_end || j == j_start,
                        nx0 == self.nx(),
                        self.cell_nums == old(self).cell_nums,
                        self.image_path == old(self).image_path,
                        self.cell_data@.len() == orig.len(),
                        w == self.nx() + 1,
                        idx0 == self.index_of(x as int, y as int),
                        forall|a: int, b: int|
                            i_start <= a < i_end && j_start <= b < j_end ==> #[trigger] write_fits_in(nx0, a, b),
                        forall|k: int|
                            0 <= k < orig.len() ==> #[trigger] self.cell_data@[k] == if 0 <= k < self.len_i32() && (
                            k == idx0 || hits(w, k, i_start as int, i as int, j_start as int, j_end as int)
                                || hits(w, k, i as int, i + 1, j_start as int, j as int)) {
                                val
                            } else {
                                orig[k]
                            },
                    decreases j_end - j,
                {
                    let ghost before = self.cell_data@;
                    assert(write_fits_in(nx0, i as int, j as int));
                    if !(i == x && j == y) {
                        self.set_value(i, j, val);
                    }
                    assert forall|k: int| 0 <= k < orig.len() implies #[trigger] self.cell_data@[k] == if 0
                        <= k < self.len_i32() && (k == idx0 || hits(
                        w,
                        k,
                        i_start as int,
                        i as int,
                        j_start as int,
                        j_end as int,
                    ) || hits(w, k, i as int, i + 1, j_start as int, j + 1)) {
                        val
                    } else {
                        orig[k]
                    } by {
                        lemma_hits_step_b(w, k, i as int, j_start as int, j as int);
                    }
                    j += 1;
                }
                assert forall|k: int| 0 <= k < orig.len() implies #[trigger] self.cell_data@[k] == if 0 <= k
                    < self.len_i32() && (k == idx0 || hits(
                    w,
                    k,
                    i_start as int,
                    i + 1,
                    j_start as int,
                    j_end as int,
                )) {
                    val
                } else {
                    orig[k]
                } by {
                    lemma_hits_step_a(w, k, i_start as int, i as int, j_start as int, j_end as int);
                    if j_end <= j_start {
                        if hits(w, k, i as int, i + 1, j_start as int, j_end as int) {
                            let (a2, b2) = choose|a2: int, b2: int|
                                i <= a2 < i + 1 && j_start <= b2 < j_end && #[trigger] (b2 * w + a2) == k;
                        }
                    }
                }
                i += 1;
            }
            proof {
                if i_end <= i_start {
                    assert forall|k: int| !hits(w, k, i_start as int, i_end as int, j_start as int, j_end as int) by {
                        if hits(w, k, i_start as int, i_end as int, j_start as int, j_end as int) {
                            let (a2, b2) = choose|a2: int, b2: int|
                                i_start <= a2 < i_end && j_start <= b2 < j_end && #[trigger] (b2 * w + a2) == k;
                        }
                    }
                }
            }
        }
        assert(self.cell_data@ =~= old(self).modified_data(x as int, y as int, val, block as int, form as int));
    }
}

/// `|v| < |m|`: the range of Rust's `v % m` over all dividends `v`.
pub open spec fn within_modulus(v: int, m: int) -> bool {
    let bound = if m >= 0 { m } else { -m };
    -bound < v < bound
}

/// One random modification: the point, the value written and the size and
/// shape of the block around it.
pub struct RandomEdit {
    pub x: i32,
    pub y: i32,
    pub val: i32,
    pub block: i32,
    pub form: i32,
}

/// The cells `data` of a grid `nx` cells wide after the edit `e`: the point
/// and, for a block larger than one, the cells of the block take `e.val`.
pub open spec fn data_after_edit(nx: int, data: Seq<i32>, e: RandomEdit) -> Seq<i32> {
    let (i0, i1, j0, j1) = block_rect(e.x as int, e.y as int, e.block as int, e.form as int);
    Seq::new(
        data.len(),
        |k: int|
            if 0 <= k < (data.len() as i32) as int && (k == e.y * (nx + 1) + e.x || (e.block > 1 && hits(
                nx + 1,
                k,
                i0,
                i1,
                j0,
                j1,
            ))) {
                e.val
            } else {
                data[k]
            },
    )
}

/// The cells `data` after the edits `picks`, first to last.
pub open spec fn edits_applied(nx: int, data: Seq<i32>, picks: Seq<RandomEdit>) -> Seq<i32>
    decreases picks.len(),
{
    if picks.len() == 0 {
        data
    } else {
        data_after_edit(nx, edits_applied(nx, data, picks.drop_last()), picks.last())
    }
}

proof fn lemma_modified_data_is_edit(p: LevelPatch, e: RandomEdit)
    ensures
        p.modified_data(e.x as int, e.y as int, e.val, e.block as int, e.form as int) == data_after_edit(
            p.nx(),
            p.cell_data@,
            e,
        ),
{
    assert(p.modified_data(e.x as int, e.y as int, e.val, e.block as int, e.form as int) =~= data_after_edit(
        p.nx(),
        p.cell_data@,
        e,
    ));
}

impl LevelPatch {
    /// An edit of the kind `modify_random` makes on this grid.
    pub open spec fn random_edit_ok(&self, e: RandomEdit) -> bool {
        &&& within_modulus(e.x as int, self.nx() + 1)
        &&& within_modulus(e.y as int, self.ny() + 1)
        &&& -1 <= e.val <= 1
        &&& 3 <= e.block <= 9
        &&& -2 <= e.form <= 2
    }

    /// A random point near the grid: each coordinate is a random `i32`
    /// taken `%` the number of points in that direction, so it may be
    /// negative.
    pub fn random_point(&self) -> (r: (i32, i32))
        requires
            self.cell_nums.0 != -1 && self.cell_nums.0 != -2 && self.cell_nums.0 < i32::MAX,
            self.cell_nums.1 != -1 && self.cell_nums.1 != -2 && self.cell_nums.1 < i32::MAX,
        ensures
            within_modulus(r.0 as int, self.nx() + 1),
            within_modulus(r.1 as int, self.ny() + 1),
    {
        let x = random_i32() % (self.cell_nums.0 + 1);
        let y = random_i32() % (self.cell_nums.1 + 1);
        (x, y)
    }

    /// The grid is small enough that a random modification never leaves `i32`.
    pub open spec fn modify_random_fits(&self) -> bool {
        &&& self.nx() >= 0
        &&& self.ny() >= 0
        &&& (self.nx() + 5) * (self.ny() + 5) <= i32::MAX
    }

    /// Sets a random point, and a random block around it, to a random value
    /// in `-1..=1`; returns the point and the value.
    pub fn modify_random(&mut self) -> (r: (i32, i32, i32))
        requires
            old(self).modify_random_fits(),
        ensures
            final(self).cell_nums == old(self).cell_nums,
            final(self).image_path == old(self).image_path,
            within_modulus(r.0 as int, old(self).nx() + 1),
            within_modulus(r.1 as int, old(self).ny() + 1),
            -1 <= r.2 <= 1,
            exists|block: int, form: int|
                3 <= block <= 9 && -2 <= form <= 2 && #[trigger] old(self).modified_data(
                    r.0 as int,
                    r.1 as int,
                    r.2,
                    block,
                    form,
                ) == final(self).cell_data@,
    {
        let ghost pre = *self;
        proof {
            let nx = self.nx();
            let ny = self.ny();
            assert(nx + 5 <= (nx + 5) * (ny + 5)) by (nonlinear_arith)
                requires
                    nx >= 0,
                    ny >= 0,
            ;
            assert(ny + 5 <= (nx + 5) * (ny + 5)) by (nonlinear_arith)
                requires
                    nx >= 0,
                    ny >= 0,
            ;
        }
        let (x, y) = self.random_point();
        let val = random_i32() % 2;
        let mut block = random_i32() % 20 - 13;
        if block < 0 {
            block = 0;
        }
        block = block + 3;
        let form = random_i32() % 3;
        proof {
            lemma_modify_random_fits(*self, x as int, y as int, block as int, form as int);
        }
        self.apply_modification(x, y, val, block, form);
        assert(pre.modified_data(x as int, y as int, val, block as int, form as int) == self.cell_data@);
        assert(old(self).modified_data(x as int, y as int, val, block as int, form as int) == self.cell_data@);
        assert(3 <= block <= 9 && -2 <= form <= 2);
        let r = (x, y, val);
        assert(r.0 == x && r.1 == y && r.2 == val);
        r
    }

    /// Applies `mod_count` random modifications, one after the other: the
    /// cells end as the edits `picks`, each of the kind `modify_random`
    /// makes, leave them.
    pub fn modify_random_many(&mut self, mod_count: i32)
        requires
            old(self).modify_random_fits(),
        ensures
            final(self).cell_nums == old(self).cell_nums,
            final(self).image_path == old(self).image_path,
            final(self).cell_data@.len() == old(self).cell_data@.len(),
            exists|picks: Seq<RandomEdit>|
                picks.len() == (if mod_count > 0 { mod_count as int } else { 0 })
                && (forall|j: int| 0 <= j < picks.len() ==> #[trigger] old(self).random_edit_ok(picks[j]))
                && final(self).cell_data@ == edits_applied(old(self).nx(), old(self).cell_data@, picks),
            forall|k: int|
                0 <= k < old(self).cell_data@.len() ==> #[trigger] final(self).cell_data@[k] == old(
                    self,
                ).cell_data@[k] || -1 <= final(self).cell_data@[k] <= 1,
            mod_count <= 0 ==> final(self).cell_data@ == old(self).cell_data@,
    {
        let ghost orig = self.cell_data@;
        let ghost start = *self;
        let ghost mut picks: Seq<RandomEdit> = Seq::empty();
        let mut i: i32 = 0;
        while i < mod_count
            invariant
                self.cell_nums == old(self).cell_nums,
                self.image_path == old(self).image_path,
                start == *old(self),
                self.modify_random_fits(),
                self.cell_data@.len() == orig.len(),
                orig == old(self).cell_data@,
                forall|k: int|
                    0 <= k < orig.len() ==> #[trigger] self.cell_data@[k] == orig[k] || -1 <= self.cell_data@[k] <= 1,
                i <= 0 ==> self.cell_data@ == orig,
                0 <= i,
                i <= mod_count || i == 0,
                picks.len() == i,
                forall|j: int| 0 <= j < picks.len() ==> #[trigger] start.random_edit_ok(picks[j]),
                self.cell_data@ == edits_applied(start.nx(), orig, picks),
            decreases mod_count - i,
        {
            let ghost pre = *self;
            let (x, y, val) = self.modify_random();
            proof {
                let (block, form) = choose|block: int, form: int|
                    3 <= block <= 9 && -2 <= form <= 2 && #[trigger] pre.modified_data(
                        x as int,
                        y as int,
                        val,
                        block,
                        form,
                    ) == self.cell_data@;
                assert(pre.modified_data(x as int, y as int, val, block, form) == self.cell_data@);
                let e = RandomEdit { x, y, val, block: block as i32, form: form as i32 };
                lemma_modified_data_is_edit(pre, e);
                assert(picks.push(e).drop_last() =~= picks);
                picks = picks.push(e);
                assert(start.random_edit_ok(e));
                assert forall|k: int| 0 <= k < orig.len() implies #[trigger] self.cell_data@[k] == orig[k] || -1
                    <= self.cell_data@[k] <= 1 by {
                    assert(self.cell_data@[k] == pre.cell_data@[k] || self.cell_data@[k] == val);
                }
            }
            i += 1;
        }
        assert(self.cell_data@ == edits_applied(start.nx(), orig, picks));
    }
}

/// A point within `4` cells of a small enough grid can be written without
/// leaving `i32`.
proof fn lemma_near_point_fits(nx: int, ny: int, i: int, j: int)
    requires
        nx >= 0,
        ny >= 0,
        (nx + 5) * (ny + 5) <= i32::MAX,
        -(nx + 4) <= i <= nx + 4,
        -(ny + 4) <= j <= ny + 4,
    ensures
        write_fits_in(nx, i, j),
{
    assert(-((ny + 4) * (nx + 1)) <= j * (nx + 1) <= (ny + 4) * (nx + 1)) by (nonlinear_arith)
        requires
            -(ny + 4) <= j <= ny + 4,
            nx >= 0,
    ;
    assert((ny + 4) * (nx + 1) + nx + 4 <= (nx + 5) * (ny + 5)) by (nonlinear_arith)
        requires
            nx >= 0,
            ny >= 0,
    ;
}

proof fn lemma_modify_random_fits(p: LevelPatch, x: int, y: int, block: int, form: int)
    requires
        p.modify_random_fits(),
        within_modulus(x, p.nx() + 1),
        within_modulus(y, p.ny() + 1),
        3 <= block <= 9,
        -2 <= form <= 2,
    ensures
        p.modify_fits(x, y, block, form),
{
    let nx = p.nx();
    let ny = p.ny();
    lemma_near_point_fits(nx, ny, x, y);
    let (i0, i1, j0, j1) = block_rect(x, y, block, form);
    assert forall|i: int, j: int| i0 <= i < i1 && j0 <= j < j1 implies #[trigger] write_fits_in(nx, i, j) by {
        lemma_near_point_fits(nx, ny, i, j);
    }
    assert((nx + 5) * (ny + 5) >= 25) by (nonlinear_arith)
        requires
            nx >= 0,
            ny >= 0,
    ;
    assert(nx + 5 <= (nx + 5) * (ny + 5)) by (nonlinear_arith)
        requires
            nx >= 0,
            ny >= 0,
    ;
    assert(ny + 5 <= (nx + 5) * (ny + 5)) by (nonlinear_arith)
        requires
            nx >= 0,
            ny >= 0,
    ;
}

/// Reading a point after writing it gives the written value, every other
/// point of the grid keeps its value, and points outside the grid read as 0.
pub proof fn law_set_then_get(p: LevelPatch, q: LevelPatch, x: int, y: int, v: i32, x2: int, y2: int)
    requires
        p.valid_pt(x, y),
        0 <= p.index_of(x, y) < p.len_i32(),
        q.cell_nums == p.cell_nums,
        q.cell_data@ == p.cell_data@.update(p.index_of(x, y), v),
    ensures
        q.value_at(x, y) == v,
        p.valid_pt(x2, y2) && (x2 != x || y2 != y) ==> q.value_at(x2, y2) == p.value_at(x2, y2),
        !p.valid_pt(x2, y2) ==> q.value_at(x2, y2) == 0,
{
    lemma_len_i32(p.cell_data.len());
    assert(q.cell_data.len() == p.cell_data.len());
    if p.valid_pt(x2, y2) && (x2 != x || y2 != y) {
        lemma_index_in_grid(p.nx(), p.ny(), x2, y2);
        lemma_index_injective(p.nx(), x, y, x2, y2);
    }
}

/// Two different points of a grid row width `nx + 1` have different indexes.
pub proof fn lemma_index_injective(nx: int, x: int, y: int, x2: int, y2: int)
    requires
        0 <= x <= nx,
        0 <= x2 <= nx,
        0 <= y,
        0 <= y2,
        x != x2 || y != y2,
    ensures
        y * (nx + 1) + x != y2 * (nx + 1) + x2,
{
    if y == y2 {
    } else if y < y2 {
        assert(y * (nx + 1) + x < y2 * (nx + 1) + x2) by (nonlinear_arith)
            requires
                y < y2,
                0 <= x <= nx,
                0 <= x2,
        ;
    } else {
        assert(y2 * (nx + 1) + x2 < y * (nx + 1) + x) by (nonlinear_arith)
            requires
                y2 < y,
                0 <= x2 <= nx,
                0 <= x,
        ;
    }
}

impl LevelPatch {
    /// Every point of the grid is stored and filled.
    pub open spec fn all_filled(&self) -> bool {
        &&& self.nx() >= 0
        &&& self.ny() >= 0
        &&& self.cell_data@.len() == (self.nx() + 1) * (self.ny() + 1)
        &&& self.cell_data@.len() <= i32::MAX
        &&& forall|i: int| 0 <= i < self.cell_data@.len() ==> #[trigger] self.cell_data@[i] > 0
    }

    /// No point of the grid is filled.
    pub open spec fn none_filled(&self) -> bool {
        forall|i: int| 0 <= i < self.cell_data@.len() ==> #[trigger] self.cell_data@[i] <= 0
    }
}

/// The squares of a fully filled grid: one per cell, row by row.
pub open spec fn square_row(t: int, n: int) -> Seq<CellItem>
    decreases n,
{
    if n <= 0 {
        Seq::empty()
    } else {
        square_row(t, n - 1).push(((n - 1) as i32, t as i32, PatchCellShape::Square))
    }
}

/// The squares of the first `m` rows of a fully filled grid.
pub open spec fn square_grid(nx: int, m: int) -> Seq<CellItem>
    decreases m,
{
    if m <= 0 {
        Seq::empty()
    } else {
        square_grid(nx, m - 1) + square_row(m - 1, nx)
    }
}

/// A fully filled grid triangulates into one square per cell, in row order,
/// and a grid with no filled point triangulates into nothing.
pub proof fn law_triangulate_filled_and_empty(p: LevelPatch)
    ensures
        p.all_filled() ==> p.grid_items(p.ny()) == square_grid(p.nx(), p.ny()),
        p.none_filled() ==> p.grid_items(p.ny()) == Seq::<CellItem>::empty(),
{
    if p.all_filled() {
        lemma_filled_grid(p, p.ny());
    }
    if p.none_filled() {
        lemma_empty_grid(p, p.ny());
    }
}

/// How many of the four corners of cell `(l, t)` are filled.
pub open spec fn filled_corners(p: LevelPatch, l: int, t: int) -> int {
    (if p.value_at(l, t) > 0 { 1int } else { 0 }) + (if p.value_at(l + 1, t) > 0 { 1int } else { 0 })
        + (if p.value_at(l, t + 1) > 0 { 1int } else { 0 }) + (if p.value_at(l + 1, t + 1) > 0 { 1int } else { 0 })
}

/// Whether a shape is one of the dots drawn for lone filled points.
pub open spec fn is_dot(s: PatchCellShape) -> bool {
    s == PatchCellShape::DotLeftTop || s == PatchCellShape::DotRightTop || s == PatchCellShape::DotLeftBottom
        || s == PatchCellShape::DotRightBottom
}

/// A cell gets its shape from its filled corners: a square when all four
/// are filled, a triangle when three are, and otherwise no shape, only dots
/// for lone filled points. Every item of a cell is placed at that cell.
pub proof fn law_cell_shape_by_corners(p: LevelPatch, l: int, t: int)
    ensures
        (p.cell_shape(l, t) != PatchCellShape::Empty) <==> filled_corners(p, l, t) >= 3,
        (p.cell_shape(l, t) == PatchCellShape::Square) <==> filled_corners(p, l, t) == 4,
        filled_corners(p, l, t) >= 3 ==> p.cell_items(l, t) == seq![(l as i32, t as i32, p.cell_shape(l, t))],
        filled_corners(p, l, t) < 3 ==> forall|k: int|
            0 <= k < p.cell_items(l, t).len() ==> #[trigger] is_dot(p.cell_items(l, t)[k].2),
        forall|k: int|
            0 <= k < p.cell_items(l, t).len() ==> (#[trigger] p.cell_items(l, t)[k]).0 == l as i32
                && p.cell_items(l, t)[k].1 == t as i32,
{
}

/// `a` comes no later than `b` in row order: an earlier row, or the same
/// row and a column no further right.
pub open spec fn cell_order_le(a: CellItem, b: CellItem) -> bool {
    a.1 < b.1 || (a.1 == b.1 && a.0 <= b.0)
}

/// The items of a triangulation placed at cell `(i, j)`, in order.
pub open spec fn items_at(s: Seq<CellItem>, i: int, j: int) -> Seq<CellItem> {
    s.filter(|e: CellItem| e.0 as int == i && e.1 as int == j)
}

proof fn lemma_items_at_one_cell(s: Seq<CellItem>, i: int, j: int, l: int, t: int)
    requires
        forall|k: int| 0 <= k < s.len() ==> (#[trigger] s[k]).0 as int == l && s[k].1 as int == t,
    ensures
        items_at(s, i, j) == (if l == i && t == j { s } else { Seq::<CellItem>::empty() }),
    decreases s.len(),
{
    let pred = |e: CellItem| e.0 as int == i && e.1 as int == j;
    reveal(Seq::filter);
    if s.len() > 0 {
        let d = s.drop_last();
        assert forall|k: int| 0 <= k < d.len() implies (#[trigger] d[k]).0 as int == l && d[k].1 as int == t by {
            assert(d[k] == s[k]);
        }
        lemma_items_at_one_cell(d, i, j, l, t);
        assert(s[s.len() - 1].0 as int == l && s[s.len() - 1].1 as int == t);
        assert(s.filter(pred) == (if pred(s.last()) { d.filter(pred).push(s.last()) } else { d.filter(pred) }));
        if l == i && t == j {
            assert(d.push(s.last()) =~= s);
        }
    } else {
        assert(s =~= Seq::<CellItem>::empty());
        assert(s.filter(pred) =~= Seq::<CellItem>::empty());
    }
}

proof fn lemma_row_items_at(p: LevelPatch, t: int, n: int, i: int, j: int)
    requires
        0 <= t <= i32::MAX,
        n <= i32::MAX + 1,
    ensures
        items_at(p.row_items(t, n), i, j) == (if t == j && 0 <= i < n { p.cell_items(i, t) } else {
            Seq::<CellItem>::empty()
        }),
        forall|k: int|
            0 <= k < p.row_items(t, n).len() ==> 0 <= (#[trigger] p.row_items(t, n)[k]).0 < n
                && p.row_items(t, n)[k].1 as int == t,
        forall|k1: int, k2: int|
            0 <= k1 < k2 < p.row_items(t, n).len() ==> (#[trigger] p.row_items(t, n)[k1]).0 <= (
            #[trigger] p.row_items(t, n)[k2]).0,
    decreases n,
{
    if n > 0 {
        let l = n - 1;
        lemma_row_items_at(p, t, l, i, j);
        law_cell_shape_by_corners(p, l, t);
        let pred = |e: CellItem| e.0 as int == i && e.1 as int == j;
        Seq::filter_distributes_over_add(p.row_items(t, l), p.cell_items(l, t), pred);
        lemma_items_at_one_cell(p.cell_items(l, t), i, j, l, t);
        let a = p.row_items(t, l);
        let c = p.cell_items(l, t);
        assert forall|k: int| 0 <= k < p.row_items(t, n).len() implies 0 <= (#[trigger] p.row_items(t, n)[k]).0 < n
            && p.row_items(t, n)[k].1 as int == t by {
            if k < a.len() {
                assert(p.row_items(t, n)[k] == a[k]);
            } else {
                assert(p.row_items(t, n)[k] == c[k - a.len()]);
            }
        }
        assert forall|k1: int, k2: int| 0 <= k1 < k2 < p.row_items(t, n).len() implies (
        #[trigger] p.row_items(t, n)[k1]).0 <= (#[trigger] p.row_items(t, n)[k2]).0 by {
            if k2 < a.len() {
                assert(p.row_items(t, n)[k1] == a[k1]);
                assert(p.row_items(t, n)[k2] == a[k2]);
            } else if k1 < a.len() {
                assert(p.row_items(t, n)[k1] == a[k1]);
                assert(p.row_items(t, n)[k2] == c[k2 - a.len()]);
            } else {
                assert(p.row_items(t, n)[k1] == c[k1 - a.len()]);
                assert(p.row_items(t, n)[k2] == c[k2 - a.len()]);
            }
        }
        if t == j && i == l {
            assert(items_at(a, i, j) =~= Seq::<CellItem>::empty());
            assert(items_at(a, i, j) + items_at(c, i, j) =~= c);
        } else {
            assert(items_at(a, i, j) + Seq::<CellItem>::empty() =~= items_at(a, i, j));
        }
    } else {
        assert(p.row_items(t, n) =~= Seq::<CellItem>::empty());
    }
}

proof fn lemma_grid_items_at(p: LevelPatch, m: int, i: int, j: int)
    requires
        m <= i32::MAX + 1,
        p.nx() >= 0,
    ensures
        items_at(p.grid_items(m), i, j) == (if 0 <= j < m && 0 <= i < p.nx() { p.cell_items(i, j) } else {
            Seq::<CellItem>::empty()
        }),
        forall|k: int|
            0 <= k < p.grid_items(m).len() ==> 0 <= (#[trigger] p.grid_items(m)[k]).0 < p.nx()
                && 0 <= p.grid_items(m)[k].1 < m,
        forall|k1: int, k2: int|
            0 <= k1 < k2 < p.grid_items(m).len() ==> cell_order_le(
                #[trigger] p.grid_items(m)[k1],
                #[trigger] p.grid_items(m)[k2],
            ),
    decreases m,
{
    if m > 0 {
        let t = m - 1;
        lemma_grid_items_at(p, t, i, j);
        lemma_row_items_at(p, t, p.nx(), i, j);
        let pred = |e: CellItem| e.0 as int == i && e.1 as int == j;
        let a = p.grid_items(t);
        let r = p.row_items(t, p.nx());
        Seq::filter_distributes_over_add(a, r, pred);
        assert forall|k: int| 0 <= k < p.grid_items(m).len() implies 0 <= (#[trigger] p.grid_items(m)[k]).0 < p.nx()
            && 0 <= p.grid_items(m)[k].1 < m by {
            if k < a.len() {
                assert(p.grid_items(m)[k] == a[k]);
            } else {
                assert(p.grid_items(m)[k] == r[k - a.len()]);
            }
        }
        assert forall|k1: int, k2: int| 0 <= k1 < k2 < p.grid_items(m).len() implies cell_order_le(
            #[trigger] p.grid_items(m)[k1],
            #[trigger] p.grid_items(m)[k2],
        ) by {
            if k2 < a.len() {
                assert(p.grid_items(m)[k1] == a[k1]);
                assert(p.grid_items(m)[k2] == a[k2]);
            } else if k1 < a.len() {
                assert(p.grid_items(m)[k1] == a[k1]);
                assert(p.grid_items(m)[k2] == r[k2 - a.len()]);
            } else {
                assert(p.grid_items(m)[k1] == r[k1 - a.len()]);
                assert(p.grid_items(m)[k2] == r[k2 - a.len()]);
            }
        }
        if j == t && 0 <= i < p.nx() {
            assert(items_at(a, i, j) + items_at(r, i, j) =~= p.cell_items(i, j));
        } else {
            assert(items_at(a, i, j) + items_at(r, i, j) =~= items_at(a, i, j));
        }
    } else {
        assert(p.grid_items(m) =~= Seq::<CellItem>::empty());
    }
}

/// The triangulation of a grid places every item in one of its cells, row
/// by row and left to right, and the items it places at a cell are exactly
/// that cell's: the square or triangle its filled corners make
/// (law_cell_shape_by_corners), or its dots.
pub proof fn law_triangulation_by_cell(p: LevelPatch, i: int, j: int)
    requires
        p.nx() >= 0,
        p.ny() >= 0,
    ensures
        forall|k: int|
            0 <= k < p.grid_items(p.ny()).len() ==> 0 <= (#[trigger] p.grid_items(p.ny())[k]).0 < p.nx()
                && 0 <= p.grid_items(p.ny())[k].1 < p.ny(),
        forall|k1: int, k2: int|
            0 <= k1 < k2 < p.grid_items(p.ny()).len() ==> cell_order_le(
                #[trigger] p.grid_items(p.ny())[k1],
                #[trigger] p.grid_items(p.ny())[k2],
            ),
        0 <= i < p.nx() && 0 <= j < p.ny() ==> items_at(p.grid_items(p.ny()), i, j) == p.cell_items(i, j),
{
    lemma_grid_items_at(p, p.ny(), i, j);
}

/// Whether a shape covers part of a cell: a square or a triangle.
pub open spec fn is_area(s: PatchCellShape) -> bool {
    s != PatchCellShape::Empty && !is_dot(s)
}

/// The triangulation law, over what `triangulate` returns
/// (`grid_items(ny)`): every item lies in a cell of the grid, the items come
/// row by row and left to right, and at each cell `(i, j)` with `k` of its
/// four corners filled there is exactly one square or triangle, and no dot,
/// when `k >= 3`, the square exactly when `k == 4`, and only dots when
/// `k < 3`.
pub proof fn law_triangulate(p: LevelPatch, i: int, j: int)
    requires
        p.nx() >= 0,
        p.ny() >= 0,
        0 <= i < p.nx(),
        0 <= j < p.ny(),
    ensures
        forall|k: int|
            0 <= k < p.grid_items(p.ny()).len() ==> 0 <= (#[trigger] p.grid_items(p.ny())[k]).0 < p.nx()
                && 0 <= p.grid_items(p.ny())[k].1 < p.ny(),
        forall|k1: int, k2: int|
            0 <= k1 < k2 < p.grid_items(p.ny()).len() ==> cell_order_le(
                #[trigger] p.grid_items(p.ny())[k1],
                #[trigger] p.grid_items(p.ny())[k2],
            ),
        filled_corners(p, i, j) >= 3 ==> items_at(p.grid_items(p.ny()), i, j) == seq![
            (i as i32, j as i32, p.cell_shape(i, j)),
        ] && is_area(p.cell_shape(i, j)),
        filled_corners(p, i, j) >= 3 ==> (p.cell_shape(i, j) == PatchCellShape::Square <==> filled_corners(
            p,
            i,
            j,
        ) == 4),
        filled_corners(p, i, j) < 3 ==> forall|m: int|
            0 <= m < items_at(p.grid_items(p.ny()), i, j).len() ==> #[trigger] is_dot(
                items_at(p.grid_items(p.ny()), i, j)[m].2,
            ),
{
    law_triangulation_by_cell(p, i, j);
    law_cell_shape_by_corners(p, i, j);
}

proof fn lemma_filled_point(p: LevelPatch, x: int, y: int)
    requires
        p.all_filled(),
        p.valid_pt(x, y),
    ensures
        p.value_at(x, y) > 0,
{
    lemma_index_in_grid(p.nx(), p.ny(), x, y);
    lemma_len_i32(p.cell_data.len());
    assert(p.len_i32() == p.cell_data@.len()) by {
        assert(p.cell_data.len() <= i32::MAX);
    }
}

proof fn lemma_filled_row(p: LevelPatch, t: int, n: int)
    requires
        p.all_filled(),
        0 <= t < p.ny(),
        n <= p.nx(),
    ensures
        p.row_items(t, n) == square_row(t, n),
    decreases n,
{
    if n > 0 {
        lemma_filled_row(p, t, n - 1);
        let l = n - 1;
        lemma_filled_point(p, l, t);
        lemma_filled_point(p, l + 1, t);
        lemma_filled_point(p, l, t + 1);
        lemma_filled_point(p, l + 1, t + 1);
        assert(p.cell_items(l, t) == seq![(l as i32, t as i32, PatchCellShape::Square)]);
        assert(p.row_items(t, n) =~= square_row(t, n));
    }
}

proof fn lemma_filled_grid(p: LevelPatch, m: int)
    requires
        p.all_filled(),
        m <= p.ny(),
    ensures
        p.grid_items(m) == square_grid(p.nx(), m),
    decreases m,
{
    if m > 0 {
        lemma_filled_grid(p, m - 1);
        lemma_filled_row(p, m - 1, p.nx());
    }
}

proof fn lemma_empty_point(p: LevelPatch, x: int, y: int)
    requires
        p.none_filled(),
    ensures
        p.value_at(x, y) <= 0,
{
    lemma_len_i32(p.cell_data.len());
}

proof fn lemma_empty_row(p: LevelPatch, t: int, n: int)
    requires
        p.none_filled(),
    ensures
        p.row_items(t, n) == Seq::<CellItem>::empty(),
    decreases n,
{
    if n > 0 {
        lemma_empty_row(p, t, n - 1);
        let l = n - 1;
        lemma_empty_point(p, l, t);
        lemma_empty_point(p, l + 1, t);
        lemma_empty_point(p, l, t + 1);
        lemma_empty_point(p, l + 1, t + 1);
        assert(p.row_items(t, n) =~= Seq::<CellItem>::empty());
    }
}

proof fn lemma_empty_grid(p: LevelPatch, m: int)
    requires
        p.none_filled(),
    ensures
        p.grid_items(m) == Seq::<CellItem>::empty(),
    decreases m,
{
    if m > 0 {
        lemma_empty_grid(p, m - 1);
        lemma_empty_row(p, m - 1, p.nx());
        assert(p.grid_items(m) =~= Seq::<CellItem>::empty());
    }
}


/// The level geometry: its patches, drawn in order.
#[derive(Debug)]
pub struct LevelGridData {
    pub patches: Vec<LevelPatch>,
}

impl LevelGridData {
    /// Geometry without patches.
    pub fn new() -> (r: Self)
        ensures
            r.patches@.len() == 0,
    {
        LevelGridData { patches: Vec::new() }
    }

    /// Adds a patch on top of the others.
    pub fn add_patch(&mut self, patch: LevelPatch)
        ensures
            final(self).patches@ == old(self).patches@.push(patch),
    {
        self.patches.push(patch);
    }

    /// Removes every patch.
    pub fn clear(&mut self)
        ensures
            final(self).patches@.len() == 0,
    {
        self.patches.clear();
    }

    /// Test geometry: a filled 15 x 15 dirt patch and empty 30 x 30 and 45 x
    /// 45 patches, each changed by 350 random modifications.
    pub fn new_test_data() -> (r: Self)
        ensures
            r.patches@.len() == 3,
            r.patches@[0].cell_nums == (15i32, 15i32),
            r.patches@[1].cell_nums == (30i32, 30i32),
            r.patches@[2].cell_nums == (45i32, 45i32),
            r.patches@[0].image_path@ == "/images/dirt-grid-1.png"@,
            r.patches@[1].image_path@ == Seq::<char>::empty(),
            r.patches@[2].image_path@ == Seq::<char>::empty(),
            r.patches@[0].cell_data@.len() == 256,
            r.patches@[1].cell_data@.len() == 961,
            r.patches@[2].cell_data@.len() == 2116,
    {
        let mut this = Self::new();

        assert((15i32 + 1) * (15i32 + 1) == 256) by (nonlinear_arith);
        assert((30i32 + 1) * (30i32 + 1) == 961) by (nonlinear_arith);
        assert((45i32 + 1) * (45i32 + 1) == 2116) by (nonlinear_arith);
        let mut patch = LevelPatch::new_filled((15, 15));
        patch.image_path = "/images/dirt-grid-1.png".to_owned();
        patch.modify_random_many(350);
        this.add_patch(patch);

        let mut patch = LevelPatch::new_empty((30, 30));
        patch.modify_random_many(350);
        this.add_patch(patch);

        let mut patch = LevelPatch::new_empty((45, 45));
        patch.modify_random_many(350);
        this.add_patch(patch);

        this
    }
}


/// A cell with three filled corners gets the triangle whose two named
/// sides are its two filled edges: without its bottom-left corner the
/// right-top triangle, without its top-right the left-bottom one, without
/// its bottom-right the left-top one, without its top-left the
/// right-bottom one; with all four it gets a square, and with at most two
/// no shape.
pub proof fn law_triangle_by_missing_corner(p: LevelPatch, l: int, t: int)
    ensures
        ({
            let tl = p.value_at(l, t) > 0;
            let tr = p.value_at(l + 1, t) > 0;
            let bl = p.value_at(l, t + 1) > 0;
            let br = p.value_at(l + 1, t + 1) > 0;
            &&& (tl && tr && br && !bl ==> p.cell_shape(l, t) == PatchCellShape::TriangleRightTop)
            &&& (tl && bl && br && !tr ==> p.cell_shape(l, t) == PatchCellShape::TriangleLeftBottom)
            &&& (tl && tr && bl && !br ==> p.cell_shape(l, t) == PatchCellShape::TriangleLeftTop)
            &&& (tr && bl && br && !tl ==> p.cell_shape(l, t) == PatchCellShape::TriangleRightBottom)
            &&& (tl && tr && bl && br ==> p.cell_shape(l, t) == PatchCellShape::Square)
            &&& (filled_corners(p, l, t) <= 2 ==> p.cell_shape(l, t) == PatchCellShape::Empty)
        }),
{
}

} // verus!
