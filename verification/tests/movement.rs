use rapier3d::na::Vector3;
use scrape_core::collider::GameCollider;

fn wall_at_x(collider: &mut GameCollider, x: f32) {
    // A quad spanning the plane at the given x, built from two triangles.
    let vertices = vec![
        Vector3::new(x, -5.0, -10.0),
        Vector3::new(x, 15.0, -10.0),
        Vector3::new(x, 15.0, 10.0),
        Vector3::new(x, -5.0, 10.0),
    ];
    let indices = vec![[0u32, 1, 2], [0, 2, 3]];
    collider.add_tri_mesh(vertices, indices);
}

#[test]
fn geometry_in_the_path_clips_movement() {
    let mut collider = GameCollider::new();
    wall_at_x(&mut collider, 1.0);
    let (body, _collider_handle) = collider.load_player(&Vector3::new(0.0, 5.0, 0.0));

    let desired = Vector3::new(3.0, 0.0, 0.0);
    let movement = collider.calculate_movement(body, None, &desired);

    // The wall stands in the displacement path: the resolved delta is
    // strictly shorter than the request.
    assert!(movement.translation.norm() < desired.norm());
    assert!(movement.translation.norm() < 1.0);
    assert!(!movement.collisions.is_empty());
}

#[test]
fn free_movement_is_not_clipped() {
    let mut collider = GameCollider::new();
    let (body, _collider_handle) = collider.load_player(&Vector3::new(0.0, 5.0, 0.0));

    let desired = Vector3::new(1.0, 0.0, 0.0);
    let movement = collider.calculate_movement(body, None, &desired);
    assert!((movement.translation.norm() - 1.0).abs() < 1e-3);
    assert!(movement.collisions.is_empty());

    let committed = collider.commit_translation(body, &movement.translation);
    assert!((committed.x - 1.0).abs() < 1e-3);
}

#[test]
fn unloaded_body_is_gone() {
    let mut collider = GameCollider::new();
    let (body, _collider_handle) = collider.load_player(&Vector3::new(0.0, 0.0, 0.0));
    assert!(collider.has_body(body));
    collider.unload_player(body);
    assert!(!collider.has_body(body));
}
