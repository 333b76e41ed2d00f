//! Per-instance transforms and the startup instance grid.
//!
//! Coordinates are integers in a caller-chosen scale; the constants below
//! use thousandths of a world unit.  A rotation is kept as what defines
//! it — the zero-rotation default or an axis and an angle — because the
//! trigonometry that turns it into a quaternion is the host's
//! floating-point job.

use vstd::prelude::*;

verus! {

/// A position or direction, in thousandths of a world unit.
#[derive(Clone, Copy, Debug, PartialEq, Eq, Structural)]
pub struct Vec3 {
    pub x: i64,
    pub y: i64,
    pub z: i64,
}

/// A rotation, by what defines it.
#[derive(Clone, Copy, Debug, PartialEq, Eq, Structural)]
pub enum Rotation {
    /// The zero-rotation default.
    Identity,
    /// A rotation of `angle_deg` degrees about `axis` (the host normalizes
    /// the axis before building the quaternion).
    AxisAngleDeg { axis: Vec3, angle_deg: i64 },
    /// A rotation carried over verbatim from the simulation, as the bit
    /// patterns of a `(w, x, y, z)` quaternion.
    Quaternion { w_bits: u32, x_bits: u32, y_bits: u32, z_bits: u32 },
}

/// One draw-time copy of a shared mesh: its own position and rotation.
/// Rebuilt every frame and flattened to a matrix by the host on upload.
#[derive(Clone, Copy, Debug, PartialEq, Eq, Structural)]
pub struct Instance {
    pub position: Vec3,
    pub rotation: Rotation,
}

/// How many instances the startup grid has along each side.
pub const NUM_INSTANCES_PER_ROW: u32 = 10;

/// The spacing between neighbouring grid cells, in thousandths of a unit.
pub const SPACE_BETWEEN: i64 = 3000;

/// The per-axis displacement that centers the grid, in thousandths of a
/// unit: half a unit for each of the ten rows.
pub const INSTANCE_DISPLACEMENT: i64 = 5000;

/// The startup grid's shape: `rows` by `rows` cells, `spacing` apart,
/// shifted back by the per-axis displacement.
#[derive(Clone, Copy, Debug, PartialEq, Eq, Structural)]
pub struct GridConfig {
    pub rows: u32,
    pub spacing: i64,
    pub displacement_x: i64,
    pub displacement_z: i64,
}

/// Bounds under which every grid coordinate fits comfortably in `i64`.
pub open spec fn grid_config_wf(cfg: GridConfig) -> bool {
    &&& cfg.rows <= 10000
    &&& 0 <= cfg.spacing <= 1000000000
    &&& 0 <= cfg.displacement_x <= 1000000000000
    &&& 0 <= cfg.displacement_z <= 1000000000000
}

/// The grid the tutorials build: ten by ten, three units apart, shifted
/// back five units on each axis.
pub fn default_grid_config() -> (cfg: GridConfig)
    ensures
        cfg == (GridConfig {
            rows: NUM_INSTANCES_PER_ROW,
            spacing: SPACE_BETWEEN,
            displacement_x: INSTANCE_DISPLACEMENT,
            displacement_z: INSTANCE_DISPLACEMENT,
        }),
        grid_config_wf(cfg),
{
    GridConfig {
        rows: NUM_INSTANCES_PER_ROW,
        spacing: SPACE_BETWEEN,
        displacement_x: INSTANCE_DISPLACEMENT,
        displacement_z: INSTANCE_DISPLACEMENT,
    }
}

/// The position of grid cell `(x, z)`: the cell coordinates scaled by the
/// spacing, shifted back by the displacement, at height zero.
pub open spec fn grid_position(cfg: GridConfig, x: int, z: int) -> Vec3 {
    Vec3 {
        x: (x * cfg.spacing - cfg.displacement_x) as i64,
        y: 0,
        z: (z * cfg.spacing - cfg.displacement_z) as i64,
    }
}

/// The rotation of a grid cell: an instance away from the origin leans 45
/// degrees about its own position direction; an instance exactly at the
/// origin gets the zero-rotation default, guarding the normalization of a
/// zero-length axis.
pub open spec fn grid_rotation(p: Vec3) -> Rotation {
    if p == (Vec3 { x: 0, y: 0, z: 0 }) {
        Rotation::Identity
    } else {
        Rotation::AxisAngleDeg { axis: p, angle_deg: 45 }
    }
}

/// The instance of grid cell `(x, z)`.
pub open spec fn grid_cell(cfg: GridConfig, x: int, z: int) -> Instance {
    Instance {
        position: grid_position(cfg, x, z),
        rotation: grid_rotation(grid_position(cfg, x, z)),
    }
}

/// A cell of an earlier row lies strictly below the current row's base
/// index.
proof fn lemma_cell_index_bound(zz: int, xx: int, z: int, rows: int)
    requires
        0 <= zz < z,
        0 <= xx < rows,
    ensures
        0 <= zz * rows + xx < z * rows,
{
    assert(0 <= zz * rows + xx < z * rows) by (nonlinear_arith)
        requires
            0 <= zz < z,
            0 <= xx < rows,
    ;
}

/// Build the startup grid, row by row: cell `(x, z)` lands at index
/// `z * rows + x`.
pub fn make_instance_grid(cfg: GridConfig) -> (grid: Vec<Instance>)
    requires
        grid_config_wf(cfg),
    ensures
        grid@.len() == cfg.rows * cfg.rows,
        forall|z: int, x: int|
            0 <= z < cfg.rows && 0 <= x < cfg.rows ==> #[trigger] grid@[z * cfg.rows + x]
                == grid_cell(cfg, x, z),
{
    let rows = cfg.rows as usize;
    let mut grid: Vec<Instance> = Vec::new();
    let mut z: usize = 0;
    proof {
        assert(cfg.rows * cfg.rows <= 10000 * 10000) by (nonlinear_arith)
            requires
                cfg.rows <= 10000,
        ;
    }
    while z < rows
        invariant
            grid_config_wf(cfg),
            rows == cfg.rows,
            z <= rows,
            grid@.len() == z * rows,
            z * rows <= rows * rows <= 100000000,
            forall|zz: int, xx: int|
                0 <= zz < z && 0 <= xx < rows ==> #[trigger] grid@[zz * rows + xx]
                    == grid_cell(cfg, xx, zz),
        decreases rows - z,
    {
        let mut x: usize = 0;
        while x < rows
            invariant
                grid_config_wf(cfg),
                rows == cfg.rows,
                z < rows,
                x <= rows,
                grid@.len() == z * rows + x,
                z * rows + x <= rows * rows <= 100000000,
                forall|zz: int, xx: int|
                    0 <= zz < z && 0 <= xx < rows ==> #[trigger] grid@[zz * rows + xx]
                        == grid_cell(cfg, xx, zz),
                forall|xx: int|
                    0 <= xx < x ==> #[trigger] grid@[z * rows + xx] == grid_cell(cfg, xx, z as int),
            decreases rows - x,
        {
            proof {
                assert(0 <= (x as int) * cfg.spacing <= 10000000000000) by (nonlinear_arith)
                    requires
                        0 <= x < 10001,
                        0 <= cfg.spacing <= 1000000000,
                ;
                assert(0 <= (z as int) * cfg.spacing <= 10000000000000) by (nonlinear_arith)
                    requires
                        0 <= z < 10001,
                        0 <= cfg.spacing <= 1000000000,
                ;
            }
            let px: i64 = (x as i64) * cfg.spacing - cfg.displacement_x;
            let pz: i64 = (z as i64) * cfg.spacing - cfg.displacement_z;
            let position = Vec3 { x: px, y: 0, z: pz };
            let rotation = if px == 0 && pz == 0 {
                Rotation::Identity
            } else {
                Rotation::AxisAngleDeg { axis: position, angle_deg: 45 }
            };
            proof {
                assert((z * rows + x) + 1 <= rows * rows) by (nonlinear_arith)
                    requires
                        0 <= z < rows,
                        0 <= x < rows,
                ;
            }
            grid.push(Instance { position, rotation });
            x = x + 1;
            proof {
                assert forall|zz: int, xx: int|
                    0 <= zz < z && 0 <= xx < rows implies #[trigger] grid@[zz * rows + xx]
                    == grid_cell(cfg, xx, zz) by {
                    lemma_cell_index_bound(zz, xx, z as int, rows as int);
                };
                assert(forall|xx: int|
                    0 <= xx < x ==> #[trigger] grid@[z * rows + xx] == grid_cell(
                        cfg,
                        xx,
                        z as int,
                    ));
            }
        }
        z = z + 1;
        proof {
            assert(z * rows == (z - 1) * rows + rows) by (nonlinear_arith);
            assert(z * rows <= rows * rows) by (nonlinear_arith)
                requires
                    z <= rows,
            ;
            assert forall|zz: int, xx: int|
                0 <= zz < z && 0 <= xx < rows implies #[trigger] grid@[zz * rows + xx] == grid_cell(
                cfg,
                xx,
                zz,
            ) by {
                if zz < z - 1 {
                    lemma_cell_index_bound(zz, xx, z - 1, rows as int);
                }
            };
        }
    }
    grid
}

} // verus!
