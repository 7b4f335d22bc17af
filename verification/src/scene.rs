//! The startup scene: a camera and a grid of bouncing spheres.
//!
//! Built once at startup. The camera starts with a 75-degree field of view
//! and the "natural" bloom preset attached. The spheres stand on a 10-by-10
//! grid of integer cells centred near the origin, two world units apart, and
//! each is given the material its cell's coordinates select. The host
//! runtime spawns a renderable entity for each cell and an initially empty
//! status overlay; every frame thereafter it recomputes each sphere's
//! vertical position from the cell's world coordinates and the elapsed
//! time, so the grid undulates without accumulating any state here.

use crate::bloom::BloomSettings;
use crate::controller::{CameraState, INITIAL_FOV};
use crate::material::{spec_select, select, MaterialCategory};
use vstd::prelude::*;

verus! {

/// The lowest cell coordinate on each axis.
pub const GRID_MIN: i32 = -5;

/// How many cells the grid spans on each axis.
pub const GRID_SIDE: i32 = 10;

/// World distance between neighbouring spheres.
pub const SPHERE_SPACING: i32 = 2;

/// One cell of the sphere grid: its integer coordinates, its fixed world
/// position on the ground plane, and the material its coordinates select.
#[derive(Clone, Copy, Debug, PartialEq, Eq, Structural)]
pub struct GridCell {
    /// The cell's coordinate along the first horizontal axis.
    pub x: i32,
    /// The cell's coordinate along the second horizontal axis.
    pub z: i32,
    /// The sphere's world position along the first horizontal axis.
    pub pos_x: i32,
    /// The sphere's world position along the second horizontal axis.
    pub pos_z: i32,
    /// The material the cell's coordinates select.
    pub category: MaterialCategory,
}

/// The scene as built at startup.
pub struct Scene {
    /// The camera, with its initial field of view and bloom preset.
    pub camera: CameraState,
    /// The sphere grid, row by row: cell `(x, z)` sits at index
    /// `(x - GRID_MIN) * GRID_SIDE + (z - GRID_MIN)`.
    pub cells: Vec<GridCell>,
}

/// The cell at index `i` of the built grid: rows advance along the first
/// axis, columns along the second, and each sphere stands `SPHERE_SPACING`
/// world units from its neighbours.
pub open spec fn spec_cell(i: int) -> GridCell {
    let x = i / (GRID_SIDE as int) + GRID_MIN;
    let z = i % (GRID_SIDE as int) + GRID_MIN;
    GridCell {
        x: x as i32,
        z: z as i32,
        pos_x: (SPHERE_SPACING * x) as i32,
        pos_z: (SPHERE_SPACING * z) as i32,
        category: spec_select(x as i32, z as i32),
    }
}

/// Builds the startup scene: the camera at its initial field of view with
/// the natural bloom preset, and the full 10-by-10 sphere grid with each
/// cell's selected material.
pub fn setup_scene() -> (scene: Scene)
    ensures
        scene.camera.fov == INITIAL_FOV,
        scene.camera.bloom == Some(BloomSettings::spec_natural()),
        scene.camera.wf(),
        scene.cells@.len() == GRID_SIDE * GRID_SIDE,
        forall|i: int| 0 <= i < GRID_SIDE * GRID_SIDE ==> scene.cells@[i] == spec_cell(i),
{
    let camera = CameraState { fov: INITIAL_FOV, bloom: Some(BloomSettings::natural()) };
    let mut cells: Vec<GridCell> = Vec::new();
    let mut x: i32 = GRID_MIN;
    while x < GRID_MIN + GRID_SIDE
        invariant
            GRID_MIN <= x <= GRID_MIN + GRID_SIDE,
            cells@.len() == (x - GRID_MIN) * GRID_SIDE,
            forall|i: int| 0 <= i < cells@.len() ==> cells@[i] == spec_cell(i),
        decreases GRID_MIN + GRID_SIDE - x,
    {
        let mut z: i32 = GRID_MIN;
        while z < GRID_MIN + GRID_SIDE
            invariant
                GRID_MIN <= x < GRID_MIN + GRID_SIDE,
                GRID_MIN <= z <= GRID_MIN + GRID_SIDE,
                cells@.len() == (x - GRID_MIN) * GRID_SIDE + (z - GRID_MIN),
                forall|i: int| 0 <= i < cells@.len() ==> cells@[i] == spec_cell(i),
            decreases GRID_MIN + GRID_SIDE - z,
        {
            let category = select(x, z);
            let cell = GridCell { x, z, pos_x: SPHERE_SPACING * x, pos_z: SPHERE_SPACING * z, category };
            proof {
                let i = (x - GRID_MIN) * (GRID_SIDE as int) + (z - GRID_MIN);
                assert(i / (GRID_SIDE as int) == x - GRID_MIN && i % (GRID_SIDE as int) == z
                    - GRID_MIN) by (nonlinear_arith)
                    requires
                        0 <= x - GRID_MIN < GRID_SIDE as int,
                        0 <= z - GRID_MIN < GRID_SIDE as int,
                        i == (x - GRID_MIN) * (GRID_SIDE as int) + (z - GRID_MIN),
                ;
                assert(cell == spec_cell(i));
            }
            cells.push(cell);
            z += 1;
        }
        x += 1;
    }
    Scene { camera, cells }
}

} // verus!
