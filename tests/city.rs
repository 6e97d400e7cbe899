use random_city::city::{build_city, placement, GRID_LENGTH, GRID_WIDTH};
use random_city::geometry::Point3;

#[test]
fn city_has_floor_and_84_buildings() {
    let scene = build_city();
    assert_eq!(scene.vertex_buffer.len(), 85 * 8);
    assert_eq!(scene.index_buffer.len(), 85 * 36);
    assert_eq!(scene.vertex_buffer.len(), 680);
    assert_eq!(scene.index_buffer.len(), 3060);
    assert!(scene.index_buffer.iter().all(|&i| (i as usize) < scene.vertex_buffer.len()));
}

#[test]
fn placement_grid_has_courtyard() {
    let mut buildings = 0;
    for x in 0..GRID_WIDTH {
        for z in 0..GRID_LENGTH {
            if placement(x, z) {
                buildings += 1;
            }
        }
    }
    assert_eq!(buildings, 84);
    assert!(placement(0, 0));
    assert!(!placement(3, 3));
    assert!(!placement(6, 6));
    assert!(placement(7, 6));
    assert!(placement(2, 4));
}

#[test]
fn floor_comes_first() {
    let scene = build_city();
    assert_eq!(scene.vertex_buffer[0].position, Point3 { x: -275000, y: -9500, z: -275000 });
    assert_eq!(scene.vertex_buffer[7].position, Point3 { x: 225000, y: -10500, z: 225000 });
    assert_eq!(scene.index_buffer[0], 0);
}

#[test]
fn first_building_sits_on_corner_tile() {
    let scene = build_city();
    // tile (0, 0): centred at (-22.5, 0.5, -22.5) world units, edge 5 units
    assert_eq!(scene.vertex_buffer[8].position, Point3 { x: -25000, y: 3000, z: -25000 });
    assert_eq!(scene.vertex_buffer[11].position, Point3 { x: -20000, y: 3000, z: -20000 });
    assert_eq!(scene.index_buffer[36], 8);
    // tile (1, 0) follows tile (0, 0): x runs fastest
    assert_eq!(scene.vertex_buffer[16].position, Point3 { x: -20000, y: 3000, z: -25000 });
}

#[test]
fn buildings_are_centred_on_origin() {
    let scene = build_city();
    let buildings = &scene.vertex_buffer[8..];
    let xs: Vec<i64> = buildings.iter().map(|v| v.position.x).collect();
    let zs: Vec<i64> = buildings.iter().map(|v| v.position.z).collect();
    assert_eq!(*xs.iter().min().unwrap(), -25000);
    assert_eq!(*xs.iter().max().unwrap(), 25000);
    assert_eq!(*zs.iter().min().unwrap(), -25000);
    assert_eq!(*zs.iter().max().unwrap(), 25000);
}
