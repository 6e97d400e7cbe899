//! The city generator: a floor slab and one cube per occupied tile.
use crate::geometry::{compose_spec, scaling_spec, translation_spec, Transform, UNIT};
use crate::scene::{
    cube_indices, cube_vertices, indices_in_range, lemma_cube_indices_in_range, offset_indices, placed_vertices, Cube,
    Scene, Vertex,
};
use vstd::prelude::*;

verus! {

/// Tiles along the x axis.
pub const GRID_WIDTH: usize = 10;

/// Tiles along the z axis.
pub const GRID_LENGTH: usize = 10;

/// Edge of one tile, in world units.
pub const TILE_SIZE: i32 = 5;

/// The placement grid, indexed `[x][z]`: every tile holds a building but the
/// four-by-four courtyard in the middle.
pub open spec fn is_building(x: int, z: int) -> bool {
    !(3 <= x < 7 && 3 <= z < 7)
}

/// Whether the tile at `(x, z)` holds a building.
pub fn placement(x: usize, z: usize) -> (b: bool)
    requires
        x < GRID_WIDTH,
        z < GRID_LENGTH,
    ensures
        b == is_building(x as int, z as int),
{
    !(3 <= x && x < 7 && 3 <= z && z < 7)
}

/// Centre, in fixed-point steps, of tile `i` on an axis of `n` tiles: tile
/// `i` spans `[i - n/2, i + 1 - n/2]` tiles, so the grid is centred on the origin.
pub open spec fn tile_offset(i: int, n: int) -> int {
    (2 * i - n + 1) * (TILE_SIZE * UNIT / 2)
}

/// The floor slab: a cube stretched over ten times the grid's footprint and
/// lowered ten units below ground.
pub open spec fn floor_transform() -> Transform {
    compose_spec(
        translation_spec(
            (-(GRID_WIDTH as int) / 2 * TILE_SIZE * UNIT) as i32,
            (-10 * UNIT) as i32,
            (-(GRID_LENGTH as int) / 2 * TILE_SIZE * UNIT) as i32,
        ),
        scaling_spec(
            (10 * GRID_WIDTH as int * TILE_SIZE) as i32,
            1,
            (10 * GRID_LENGTH as int * TILE_SIZE) as i32,
        ),
    )
}

/// The building on tile `(x, z)`: scaled to the tile, then moved onto it.
pub open spec fn tile_transform(x: int, z: int) -> Transform {
    compose_spec(
        translation_spec(
            tile_offset(x, GRID_WIDTH as int) as i32,
            (UNIT / 2) as i32,
            tile_offset(z, GRID_LENGTH as int) as i32,
        ),
        scaling_spec(TILE_SIZE, TILE_SIZE, TILE_SIZE),
    )
}

/// Buildings of row `z` among its first `n` tiles, in order of `x`.
pub open spec fn row_tiles(z: int, n: int) -> Seq<Transform>
    decreases n,
{
    if n <= 0 {
        Seq::empty()
    } else if is_building(n - 1, z) {
        row_tiles(z, n - 1).push(tile_transform(n - 1, z))
    } else {
        row_tiles(z, n - 1)
    }
}

/// Buildings of the first `n` rows, row by row.
pub open spec fn grid_tiles(n: int) -> Seq<Transform>
    decreases n,
{
    if n <= 0 {
        Seq::empty()
    } else {
        grid_tiles(n - 1) + row_tiles(n - 1, GRID_WIDTH as int)
    }
}

/// Every cube placement of the city, the floor first.
pub open spec fn city_transforms() -> Seq<Transform> {
    seq![floor_transform()] + grid_tiles(GRID_LENGTH as int)
}

/// Vertices of a scene made by merging one cube per transform, in order.
pub open spec fn cubes_vertices(ts: Seq<Transform>) -> Seq<Vertex>
    decreases ts.len(),
{
    if ts.len() == 0 {
        Seq::empty()
    } else {
        cubes_vertices(ts.drop_last()) + placed_vertices(cube_vertices(), ts.last())
    }
}

/// Indices of a scene made by merging one cube per transform, in order.
pub open spec fn cubes_indices(ts: Seq<Transform>) -> Seq<u16>
    decreases ts.len(),
{
    if ts.len() == 0 {
        Seq::empty()
    } else {
        cubes_indices(ts.drop_last()) + offset_indices(cube_indices(), 8 * (ts.len() - 1))
    }
}

proof fn lemma_cubes_len(ts: Seq<Transform>)
    ensures
        cubes_vertices(ts).len() == 8 * ts.len(),
        cubes_indices(ts).len() == 36 * ts.len(),
    decreases ts.len(),
{
    if ts.len() > 0 {
        lemma_cubes_len(ts.drop_last());
    }
}

proof fn lemma_cubes_push(ts: Seq<Transform>, t: Transform)
    ensures
        cubes_vertices(ts.push(t)) == cubes_vertices(ts) + placed_vertices(cube_vertices(), t),
        cubes_indices(ts.push(t)) == cubes_indices(ts) + offset_indices(
            cube_indices(),
            8 * ts.len() as int,
        ),
{
    assert(ts.push(t).drop_last() =~= ts);
}

proof fn lemma_row_tiles_len(z: int, n: int)
    requires
        0 <= n,
    ensures
        row_tiles(z, n).len() <= n,
    decreases n,
{
    if n > 0 {
        lemma_row_tiles_len(z, n - 1);
    }
}

proof fn lemma_grid_tiles_len(n: int)
    requires
        0 <= n,
    ensures
        grid_tiles(n).len() <= GRID_WIDTH * n,
    decreases n,
{
    if n > 0 {
        lemma_grid_tiles_len(n - 1);
        lemma_row_tiles_len(n - 1, GRID_WIDTH as int);
    }
}

proof fn lemma_full_row_len(z: int)
    ensures
        row_tiles(z, GRID_WIDTH as int).len() == if 3 <= z < 7 {
            6int
        } else {
            10int
        },
{
    reveal_with_fuel(row_tiles, 11);
}

/// The grid holds eighty-four buildings.
pub proof fn lemma_building_count()
    ensures
        grid_tiles(GRID_LENGTH as int).len() == 84,
{
    reveal_with_fuel(grid_tiles, 11);
    lemma_full_row_len(0);
    lemma_full_row_len(1);
    lemma_full_row_len(2);
    lemma_full_row_len(3);
    lemma_full_row_len(4);
    lemma_full_row_len(5);
    lemma_full_row_len(6);
    lemma_full_row_len(7);
    lemma_full_row_len(8);
    lemma_full_row_len(9);
}

fn tile_transformation(x: usize, z: usize) -> (m: Transform)
    requires
        x < GRID_WIDTH,
        z < GRID_LENGTH,
    ensures
        m == tile_transform(x as int, z as int),
{
    let dx = (2 * x as i32 - GRID_WIDTH as i32 + 1) * (TILE_SIZE * UNIT / 2);
    let dz = (2 * z as i32 - GRID_LENGTH as i32 + 1) * (TILE_SIZE * UNIT / 2);
    let translation = Transform::translation(dx, UNIT / 2, dz);
    let scale = Transform::scaling(TILE_SIZE, TILE_SIZE, TILE_SIZE);
    translation.compose(&scale)
}

fn floor_transformation() -> (m: Transform)
    ensures
        m == floor_transform(),
{
    let translation = Transform::translation(
        -(GRID_WIDTH as i32) / 2 * TILE_SIZE * UNIT,
        -10 * UNIT,
        -(GRID_LENGTH as i32) / 2 * TILE_SIZE * UNIT,
    );
    let scale = Transform::scaling(
        10 * GRID_WIDTH as i32 * TILE_SIZE,
        1,
        10 * GRID_LENGTH as i32 * TILE_SIZE,
    );
    translation.compose(&scale)
}

/// Builds the city: the floor slab first, then one cube per occupied tile,
/// row by row along z and, within a row, along x.
pub fn build_city() -> (scene: Scene)
    ensures
        scene.vertex_buffer@ == cubes_vertices(city_transforms()),
        scene.index_buffer@ == cubes_indices(city_transforms()),
        scene.wf(),
        scene.vertex_buffer@.len() == 680,
        scene.index_buffer@.len() == 3060,
{
    let mut scene = Scene::new();
    let cube = Cube::new();
    proof {
        lemma_cube_indices_in_range();
        lemma_cubes_push(Seq::empty(), floor_transform());
        assert(Seq::<Transform>::empty().push(floor_transform()) =~= seq![floor_transform()]
            + grid_tiles(0));
        assert(Seq::<Vertex>::empty() + placed_vertices(cube_vertices(), floor_transform())
            =~= placed_vertices(cube_vertices(), floor_transform()));
        assert(Seq::<u16>::empty() + offset_indices(cube_indices(), 0) =~= offset_indices(
            cube_indices(),
            0,
        ));
    }
    scene.add_model(&cube, floor_transformation());
    let mut z: usize = 0;
    while z < GRID_LENGTH
        invariant
            z <= GRID_LENGTH,
            indices_in_range(cube_vertices(), cube_indices()),
            scene.wf(),
            scene.vertex_buffer@ == cubes_vertices(seq![floor_transform()] + grid_tiles(z as int)),
            scene.index_buffer@ == cubes_indices(seq![floor_transform()] + grid_tiles(z as int)),
        decreases GRID_LENGTH - z,
    {
        let mut x: usize = 0;
        let ghost done = seq![floor_transform()] + grid_tiles(z as int);
        proof {
            lemma_grid_tiles_len(z as int);
            assert(done + row_tiles(z as int, 0) =~= done);
        }
        while x < GRID_WIDTH
            invariant
                x <= GRID_WIDTH,
                z < GRID_LENGTH,
                indices_in_range(cube_vertices(), cube_indices()),
                done == seq![floor_transform()] + grid_tiles(z as int),
                done.len() <= 1 + GRID_WIDTH * z,
                scene.wf(),
                scene.vertex_buffer@ == cubes_vertices(done + row_tiles(z as int, x as int)),
                scene.index_buffer@ == cubes_indices(done + row_tiles(z as int, x as int)),
            decreases GRID_WIDTH - x,
        {
            let ghost before = done + row_tiles(z as int, x as int);
            proof {
                lemma_row_tiles_len(z as int, x as int);
                lemma_cubes_len(before);
            }
            if placement(x, z) {
                let t = tile_transformation(x, z);
                proof {
                    lemma_cubes_push(before, t);
                    assert(before.push(t) =~= done + row_tiles(z as int, x + 1));
                }
                scene.add_model(&cube, t);
            }
            x = x + 1;
        }
        proof {
            assert(done + row_tiles(z as int, GRID_WIDTH as int) =~= seq![floor_transform()]
                + grid_tiles(z + 1));
        }
        z = z + 1;
    }
    proof {
        lemma_building_count();
        lemma_cubes_len(city_transforms());
    }
    scene
}

} // verus!
