use vstd::prelude::*;

verus! {

/// Number of bytes of one 32-bit float component.
pub const FLOAT32_BYTES: u64 = 4;

/// Number of components in a column of an instance's model matrix.
pub const COLUMN_COMPONENTS: u64 = 4;

/// Number of columns of an instance's model matrix.
pub const MATRIX_COLUMNS: u32 = 4;

/// The shader location of the model matrix's first column; the vertex
/// attributes of the model take the locations before it.
pub const FIRST_INSTANCE_LOCATION: u32 = 5;

/// Instances per row (and rows) of the scene's square grid.
pub const NUM_INSTANCES_PER_ROW: u32 = 10;

/// One place of the instance grid: its column and row, and whether it lies at
/// the grid's centre (the world origin), where an instance is not rotated.
#[derive(Clone, Copy, Debug, PartialEq, Eq, Structural)]
pub struct GridCell {
    pub column: u32,
    pub row: u32,
    pub at_origin: bool,
}

/// The grid cell in column `x` and row `z` of a grid with `per_row` cells a row.
/// A cell lies at the origin when its offset from the grid's middle,
/// `x - per_row / 2` and `z - per_row / 2`, is zero in both directions.
pub open spec fn grid_cell(per_row: nat, x: nat, z: nat) -> GridCell {
    GridCell { column: x as u32, row: z as u32, at_origin: 2 * x == per_row && 2 * z == per_row }
}

/// The cells of a `per_row` by `per_row` grid, row by row, each row from its
/// first column to its last.
pub open spec fn grid_cells(per_row: nat) -> Seq<GridCell> {
    Seq::new(per_row * per_row, |i: int| grid_cell(per_row, (i % per_row as int) as nat, (i / per_row as int) as nat))
}

proof fn lemma_row_major(n: int, z: int, x: int)
    requires
        0 <= x < n,
        0 <= z,
    ensures
        (z * n + x) % n == x,
        (z * n + x) / n == z,
        z * n + x < (z + 1) * n,
{
    vstd::arithmetic::div_mod::lemma_fundamental_div_mod_converse(z * n + x, n, z, x);
    assert((z + 1) * n == z * n + n) by (nonlinear_arith);
}

/// The cells of a `per_row` by `per_row` grid, row by row.
pub fn instance_grid(per_row: u32) -> (cells: Vec<GridCell>)
    requires
        per_row * per_row <= usize::MAX,
    ensures
        cells@ == grid_cells(per_row as nat),
        cells@.len() == per_row * per_row,
        forall|i: int| 0 <= i < cells@.len() ==> {
            &&& #[trigger] cells@[i].column == i % per_row as int
            &&& cells@[i].row == i / per_row as int
            &&& cells@[i].at_origin == (2 * (i % per_row as int) == per_row && 2 * (i / per_row as int) == per_row)
        },
{
    let mut cells: Vec<GridCell> = Vec::new();
    let ghost n = per_row as int;
    let mut z: u32 = 0;
    while z < per_row
        invariant
            n == per_row,
            z <= per_row,
            cells@.len() == z * n,
            forall|i: int| 0 <= i < cells@.len() ==> #[trigger] cells@[i] == grid_cells(per_row as nat)[i],
            per_row * per_row <= usize::MAX,
        decreases per_row - z,
    {
        let mut x: u32 = 0;
        while x < per_row
            invariant
                n == per_row,
                z < per_row,
                x <= per_row,
                cells@.len() == z * n + x,
                forall|i: int| 0 <= i < cells@.len() ==> #[trigger] cells@[i] == grid_cells(per_row as nat)[i],
            decreases per_row - x,
        {
            proof {
                lemma_row_major(n, z as int, x as int);
                assert((z as int + 1) * n <= n * n) by (nonlinear_arith)
                    requires z < n;
            }
            let at_origin = 2 * (x as u64) == per_row as u64 && 2 * (z as u64) == per_row as u64;
            let ghost i = cells@.len() as int;
            cells.push(GridCell { column: x, row: z, at_origin });
            assert(cells@[i] == grid_cells(per_row as nat)[i]);
            x = x + 1;
        }
        proof {
            assert((z as int + 1) * n == z * n + n) by (nonlinear_arith);
        }
        z = z + 1;
    }
    proof {
        assert(cells@ =~= grid_cells(per_row as nat));
        assert forall|i: int| 0 <= i < cells@.len() implies {
            &&& #[trigger] cells@[i].column == i % per_row as int
            &&& cells@[i].row == i / per_row as int
            &&& cells@[i].at_origin == (2 * (i % per_row as int) == per_row && 2 * (i / per_row as int) == per_row)
        } by {
            lemma_grid_position(per_row as nat, i);
        }
    }
    cells
}

/// The cells of the scene's grid of instances.
pub fn scene_grid() -> (cells: Vec<GridCell>)
    ensures
        cells@ == grid_cells(NUM_INSTANCES_PER_ROW as nat),
{
    instance_grid(NUM_INSTANCES_PER_ROW)
}

/// The cell at position `z * per_row + x` is the one in column `x` and row `z`.
pub proof fn lemma_grid_cell_at(per_row: nat, x: nat, z: nat)
    requires
        x < per_row,
        z < per_row,
    ensures
        z * per_row + x < grid_cells(per_row).len(),
        grid_cells(per_row)[(z * per_row + x) as int] == grid_cell(per_row, x, z),
{
    lemma_row_major(per_row as int, z as int, x as int);
    assert((z as int + 1) * per_row <= per_row * per_row) by (nonlinear_arith)
        requires z < per_row;
}

/// Distinct positions of the grid hold distinct cells.
pub proof fn lemma_grid_cells_distinct(per_row: nat, i: int, j: int)
    requires
        per_row <= u32::MAX,
        0 <= i < grid_cells(per_row).len(),
        0 <= j < grid_cells(per_row).len(),
        i != j,
    ensures
        grid_cells(per_row)[i] != grid_cells(per_row)[j],
{
    let n = per_row as int;
    assert(n > 0) by (nonlinear_arith)
        requires 0 <= i < n * n, n >= 0;
    vstd::arithmetic::div_mod::lemma_fundamental_div_mod(i, n);
    vstd::arithmetic::div_mod::lemma_fundamental_div_mod(j, n);
    vstd::arithmetic::div_mod::lemma_mod_bound(i, n);
    vstd::arithmetic::div_mod::lemma_mod_bound(j, n);
    assert(i / n < n) by {
        vstd::arithmetic::div_mod::lemma_div_by_multiple_is_strongly_ordered(i, n * n, n, n);
        vstd::arithmetic::div_mod::lemma_div_by_multiple(n, n);
    }
    assert(j / n < n) by {
        vstd::arithmetic::div_mod::lemma_div_by_multiple_is_strongly_ordered(j, n * n, n, n);
        vstd::arithmetic::div_mod::lemma_div_by_multiple(n, n);
    }
    vstd::arithmetic::div_mod::lemma_div_pos_is_pos(i, n);
    vstd::arithmetic::div_mod::lemma_div_pos_is_pos(j, n);
}

/// A grid with an even number of cells a row has exactly one cell at the
/// origin, its middle one; a grid with an odd number has none.
pub proof fn lemma_grid_origin(per_row: nat, i: int)
    requires
        0 <= i < grid_cells(per_row).len(),
    ensures
        grid_cells(per_row)[i].at_origin <==> (per_row % 2 == 0 && i == (per_row / 2) * per_row
            + per_row / 2),
{
    let n = per_row as int;
    assert(n > 0) by (nonlinear_arith)
        requires 0 <= i < n * n, n >= 0;
    vstd::arithmetic::div_mod::lemma_fundamental_div_mod(i, n);
    if per_row % 2 == 0 && i == (per_row / 2) * per_row + per_row / 2 {
        lemma_row_major(n, (per_row / 2) as int, (per_row / 2) as int);
    }
    if grid_cells(per_row)[i].at_origin {
        let h = n / 2;
        assert(i % n == h && i / n == h);
        assert(i == n * h + h);
        assert(n * h == h * n) by (nonlinear_arith);
    }
}

/// The format of a vertex attribute.
#[derive(Clone, Copy, Debug, PartialEq, Eq, Structural)]
pub enum VertexFormat {
    /// Four 32-bit floats.
    Float32x4,
}

/// How often a vertex buffer advances.
#[derive(Clone, Copy, Debug, PartialEq, Eq, Structural)]
pub enum VertexStepMode {
    /// Once per vertex.
    Vertex,
    /// Once per drawn instance.
    Instance,
}

/// One attribute of a vertex buffer: its byte offset, the shader location it
/// feeds and its format.
#[derive(Clone, Copy, Debug, PartialEq, Eq, Structural)]
pub struct VertexAttribute {
    pub offset: u64,
    pub shader_location: u32,
    pub format: VertexFormat,
}

/// The layout of a vertex buffer.
#[derive(Debug)]
pub struct VertexBufferLayout {
    pub array_stride: u64,
    pub step_mode: VertexStepMode,
    pub attributes: Vec<VertexAttribute>,
}

/// Bytes of one matrix column.
pub open spec fn column_bytes() -> int {
    FLOAT32_BYTES * COLUMN_COMPONENTS
}

/// The attribute for column `i` of the model matrix.
pub open spec fn column_attribute(i: int) -> VertexAttribute {
    VertexAttribute {
        offset: (i * column_bytes()) as u64,
        shader_location: (FIRST_INSTANCE_LOCATION + i) as u32,
        format: VertexFormat::Float32x4,
    }
}

/// The layout of the instance buffer: one 4x4 matrix of 32-bit floats per
/// instance, its columns fed to four consecutive shader locations from
/// location 5, and the buffer advancing once per instance.
pub fn instance_buffer_layout() -> (layout: VertexBufferLayout)
    ensures
        layout.array_stride == MATRIX_COLUMNS * column_bytes(),
        layout.step_mode == VertexStepMode::Instance,
        layout.attributes@.len() == MATRIX_COLUMNS,
        forall|i: int| 0 <= i < MATRIX_COLUMNS ==> #[trigger] layout.attributes@[i] == column_attribute(i),
{
    let column: u64 = FLOAT32_BYTES * COLUMN_COMPONENTS;
    let mut attributes: Vec<VertexAttribute> = Vec::new();
    let mut i: u32 = 0;
    while i < MATRIX_COLUMNS
        invariant
            i <= MATRIX_COLUMNS,
            column == column_bytes(),
            attributes@.len() == i,
            forall|j: int| 0 <= j < i ==> #[trigger] attributes@[j] == column_attribute(j),
        decreases MATRIX_COLUMNS - i,
    {
        attributes.push(VertexAttribute {
            offset: (i as u64) * column,
            shader_location: FIRST_INSTANCE_LOCATION + i,
            format: VertexFormat::Float32x4,
        });
        i = i + 1;
    }
    let columns: u64 = MATRIX_COLUMNS as u64;
    assert(column == 16 && columns == 4);
    VertexBufferLayout {
        array_stride: columns * column,
        step_mode: VertexStepMode::Instance,
        attributes,
    }
}

/// The instance attributes lie back to back, the first at offset zero and the
/// last ending at the stride, so together they cover each instance exactly;
/// their shader locations follow one another.
pub proof fn lemma_layout_tiles_stride(i: int)
    requires
        0 <= i < MATRIX_COLUMNS,
    ensures
        column_attribute(0).offset == 0,
        i + 1 < MATRIX_COLUMNS ==> column_attribute(i).offset + column_bytes() == column_attribute(
            i + 1,
        ).offset,
        i + 1 < MATRIX_COLUMNS ==> column_attribute(i).shader_location + 1 == column_attribute(
            i + 1,
        ).shader_location,
        column_attribute(MATRIX_COLUMNS - 1).offset + column_bytes() == MATRIX_COLUMNS
            * column_bytes(),
{
    assert(column_bytes() == 16);
    assert(0 <= i * 16 <= 48);
    assert(0 <= (i + 1) * 16 <= 64);
}

/// The cell at position `i` of an `n` by `n` grid lies in column `i % n` and
/// row `i / n`, both less than `n`, and lies at the origin exactly when twice
/// its column and twice its row are both `n`.
pub proof fn lemma_grid_position(n: nat, i: int)
    requires
        n <= u32::MAX,
        0 <= i < grid_cells(n).len(),
    ensures
        grid_cells(n).len() == n * n,
        grid_cells(n)[i].column == i % n as int,
        grid_cells(n)[i].row == i / n as int,
        0 <= i % (n as int) && i % (n as int) < n,
        0 <= i / (n as int) && i / (n as int) < n,
        grid_cells(n)[i].at_origin == (2 * (i % n as int) == n && 2 * (i / n as int) == n),
{
    let m = n as int;
    assert(m > 0) by (nonlinear_arith)
        requires 0 <= i < m * m, m >= 0;
    vstd::arithmetic::div_mod::lemma_mod_bound(i, m);
    vstd::arithmetic::div_mod::lemma_div_pos_is_pos(i, m);
    assert(i / m < m) by {
        vstd::arithmetic::div_mod::lemma_div_by_multiple_is_strongly_ordered(i, m * m, m, m);
        vstd::arithmetic::div_mod::lemma_div_by_multiple(m, m);
    }
}

/// The cell in column `x` and row `z` has exactly that column and row.
pub proof fn lemma_grid_cell_column_row(n: nat, x: nat, z: nat)
    requires
        n <= u32::MAX,
        x < n,
        z < n,
    ensures
        grid_cells(n)[(z * n + x) as int].column == x,
        grid_cells(n)[(z * n + x) as int].row == z,
{
    lemma_grid_cell_at(n, x, z);
}

} // verus!
