use ray_tracer::scene::{SceneState, Vec3Bits};

fn bits(x: f32, y: f32, z: f32) -> Vec3Bits {
    Vec3Bits { x: x.to_bits(), y: y.to_bits(), z: z.to_bits() }
}

#[test]
fn a_new_scene_is_empty() {
    let s = SceneState::new();
    assert!(s.sphere_centers.is_empty());
    assert!(s.sphere_radii.is_empty());
    assert!(s.sphere_colors.is_empty());
    assert!(s.light_positions.is_empty());
}

#[test]
fn spheres_and_lights_keep_insertion_order() {
    let mut s = SceneState::new();
    s.add_sphere(bits(0.0, 0.0, -6.0), 0.1f32.to_bits(), bits(2.0, 2.0, 2.0));
    s.add_sphere(bits(1.0, 2.0, 3.0), 1.5f32.to_bits(), bits(0.5, 0.25, 1.0));
    s.add_light(bits(0.0, 1.0, -5.0));
    assert_eq!(s.sphere_centers, vec![bits(0.0, 0.0, -6.0), bits(1.0, 2.0, 3.0)]);
    assert_eq!(s.sphere_radii, vec![0.1f32.to_bits(), 1.5f32.to_bits()]);
    assert_eq!(s.sphere_colors, vec![bits(2.0, 2.0, 2.0), bits(0.5, 0.25, 1.0)]);
    assert_eq!(s.light_positions, vec![bits(0.0, 1.0, -5.0)]);
}

#[test]
fn the_orbit_is_a_noop_without_lights() {
    let mut s = SceneState::new();
    s.add_sphere(bits(4.0, 5.0, 6.0), 1.0f32.to_bits(), bits(1.0, 1.0, 1.0));
    s.apply_light_orbit(3.25f32.to_bits(), (-6.5f32).to_bits());
    assert_eq!(s.sphere_centers, vec![bits(4.0, 5.0, 6.0)]);
    assert!(s.light_positions.is_empty());
}

#[test]
fn the_orbit_couples_the_first_light_to_its_proxy_sphere() {
    let mut s = SceneState::new();
    s.add_sphere(bits(0.0, 0.0, -6.0), 0.1f32.to_bits(), bits(2.0, 2.0, 2.0));
    s.add_light(bits(0.0, 1.0, -5.0));
    s.apply_light_orbit(3.25f32.to_bits(), (-6.5f32).to_bits());
    // the light took the orbit x and z and kept its own y
    assert_eq!(s.light_positions[0], bits(3.25, 1.0, -6.5));
    // the proxy sphere sits at exactly the same bits
    assert_eq!(s.sphere_centers[0], s.light_positions[0]);
}

#[test]
fn the_orbit_leaves_everything_else_alone() {
    let mut s = SceneState::new();
    s.add_sphere(bits(0.0, 0.0, -6.0), 0.1f32.to_bits(), bits(2.0, 2.0, 2.0));
    s.add_sphere(bits(1.0, 2.0, 3.0), 1.5f32.to_bits(), bits(0.5, 0.25, 1.0));
    s.add_light(bits(0.0, 1.0, -5.0));
    s.add_light(bits(9.0, 9.0, 9.0));
    s.apply_light_orbit(3.25f32.to_bits(), (-6.5f32).to_bits());
    assert_eq!(s.sphere_centers[1], bits(1.0, 2.0, 3.0));
    assert_eq!(s.sphere_radii, vec![0.1f32.to_bits(), 1.5f32.to_bits()]);
    assert_eq!(s.sphere_colors, vec![bits(2.0, 2.0, 2.0), bits(0.5, 0.25, 1.0)]);
    assert_eq!(s.light_positions[1], bits(9.0, 9.0, 9.0));
}

#[test]
fn repeated_orbit_steps_keep_the_coupling() {
    let mut s = SceneState::new();
    s.add_sphere(bits(0.0, 0.0, -6.0), 0.1f32.to_bits(), bits(2.0, 2.0, 2.0));
    s.add_light(bits(0.0, 1.0, -5.0));
    s.apply_light_orbit(1.0f32.to_bits(), 2.0f32.to_bits());
    s.apply_light_orbit((-2.0f32).to_bits(), 0.5f32.to_bits());
    assert_eq!(s.light_positions[0], bits(-2.0, 1.0, 0.5));
    assert_eq!(s.sphere_centers[0], s.light_positions[0]);
}
