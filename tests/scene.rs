use random_city::geometry::{LocalPoint, Point3, Transform};
use random_city::scene::{palette_color, Cube, Model, Rgb, Scene, MAX_VERTICES, PALETTE_SIZE};

const CUBE_INDICES: [u16; 36] = [
    0, 1, 3, 0, 3, 2, 4, 5, 1, 4, 1, 0, 5, 7, 3, 5, 3, 1, 7, 6, 2, 7, 2, 3, 6, 4, 0, 6, 0, 2, 7,
    5, 4, 7, 4, 6,
];

fn all_indices_valid(scene: &Scene) -> bool {
    scene.index_buffer.iter().all(|&i| (i as usize) < scene.vertex_buffer.len())
}

#[test]
fn new_scene_is_empty() {
    let scene = Scene::new();
    assert!(scene.vertex_buffer.is_empty());
    assert!(scene.index_buffer.is_empty());
}

#[test]
fn cube_geometry() {
    let cube = Cube::new();
    let vs = cube.vertices();
    assert_eq!(vs.len(), 8);
    assert_eq!(vs[0], LocalPoint { x: -500, y: 500, z: -500 });
    assert_eq!(vs[7], LocalPoint { x: 500, y: -500, z: 500 });
    assert_eq!(cube.indices(), CUBE_INDICES.to_vec());
}

#[test]
fn two_cubes_merge_with_offset() {
    let mut scene = Scene::new();
    let cube = Cube::new();
    scene.add_model(&cube, Transform::translation(0, 0, 0));
    assert!(all_indices_valid(&scene));
    scene.add_model(&cube, Transform::translation(3000, 0, -2000));
    assert!(all_indices_valid(&scene));
    assert_eq!(scene.vertex_buffer.len(), 16);
    assert_eq!(scene.index_buffer.len(), 72);
    for k in 0..36 {
        assert_eq!(scene.index_buffer[k], CUBE_INDICES[k]);
        assert_eq!(scene.index_buffer[36 + k], CUBE_INDICES[k] + 8);
    }
}

#[test]
fn add_model_transforms_and_colors_vertices() {
    let mut scene = Scene::new();
    let m = Transform::translation(1000, 0, 0).compose(&Transform::scaling(2, 3, 4));
    scene.add_model(&Cube::new(), m);
    assert_eq!(scene.vertex_buffer[0].position, Point3 { x: 0, y: 1500, z: -2000 });
    assert_eq!(scene.vertex_buffer[7].position, Point3 { x: 2000, y: -1500, z: 2000 });
    assert_eq!(scene.vertex_buffer[0].color, Rgb { r: 1000, g: 0, b: 0 });
    assert_eq!(scene.vertex_buffer[7].color, Rgb { r: 500, g: 500, b: 500 });
}

#[test]
fn colors_restart_for_each_model() {
    let mut scene = Scene::new();
    let cube = Cube::new();
    scene.add_model(&cube, Transform::translation(0, 0, 0));
    scene.add_model(&cube, Transform::translation(0, 0, 0));
    for j in 0..8 {
        assert_eq!(scene.vertex_buffer[j].color, scene.vertex_buffer[8 + j].color);
        assert_eq!(scene.vertex_buffer[j].color, palette_color(j));
    }
}

#[test]
fn palette_wraps_around() {
    assert_eq!(PALETTE_SIZE, 8);
    assert_eq!(palette_color(8), palette_color(0));
    assert_eq!(palette_color(10), Rgb { r: 0, g: 0, b: 1000 });
    assert_eq!(palette_color(6), Rgb { r: 1000, g: 1000, b: 1000 });
}

#[test]
fn clear_empties_scene() {
    let mut scene = Scene::new();
    scene.add_model(&Cube::new(), Transform::scaling(1, 1, 1));
    scene.clear();
    assert!(scene.vertex_buffer.is_empty());
    assert!(scene.index_buffer.is_empty());
}

#[test]
fn scene_can_fill_index_range() {
    let mut scene = Scene::new();
    let cube = Cube::new();
    for _ in 0..(MAX_VERTICES / 8) {
        scene.add_model(&cube, Transform::translation(0, 0, 0));
    }
    assert_eq!(scene.vertex_buffer.len(), MAX_VERTICES);
    assert_eq!(*scene.index_buffer.iter().max().unwrap(), 65535);
    assert!(all_indices_valid(&scene));
}
