use desktop_pet::layer_surface::{WaylandEdge, WaylandLayer, WaylandLayerSurfaceManager};
use desktop_pet::physics::PetPhysics;
use desktop_pet::types::PetState;

const PX: i64 = 1000;

#[test]
fn test_bounding_box_and_input_region_calculation() {
    let mut physics = PetPhysics::new(1920 * PX, 96 * PX);
    physics.x = 100 * PX;
    physics.y = 32 * PX;

    let (x1, y1, x2, y2) = physics.bounding_box();
    assert_eq!((x1, y1, x2, y2), (100, 32, 164, 96));

    let mut layer_manager = WaylandLayerSurfaceManager::new(1920, 96, false);
    let region = layer_manager.update_input_region(&physics);
    assert_eq!(region, (100, 32, 164, 96));

    assert!(physics.contains_point(120, 50));
    assert!(!physics.contains_point(200, 50));
    assert!(!physics.contains_point(50, 50));
}

#[test]
fn test_physics_patrol_wandering_and_border_bounce() {
    let mut physics = PetPhysics::new(100 * PX, 96 * PX); // 100px width surface, sprite is 64px, max_x = 36px
    physics.x = 35 * PX;
    physics.vx = 2 * PX;

    physics.tick(PetState::Walking);
    assert_eq!(physics.x, 36 * PX);
    assert_eq!(physics.vx, -2 * PX);

    physics.tick(PetState::Walking);
    assert_eq!(physics.x, 34 * PX);

    physics.x = 1 * PX;
    physics.vx = -2 * PX;
    physics.tick(PetState::Walking);
    assert_eq!(physics.x, 0);
    assert_eq!(physics.vx, 2 * PX);
}

#[test]
fn test_celebrating_jumping_physics() {
    let mut physics = PetPhysics::new(1920 * PX, 96 * PX);
    physics.y = physics.ground_level;
    physics.vy = -7 * PX; // Initial hop velocity

    physics.tick(PetState::Celebrating);
    assert!(physics.y < physics.ground_level); // Up in the air
    assert_eq!(physics.vy, -6500); // Gravity applied (+0.5)
}

#[test]
fn physics_new_centres_the_pet() {
    let physics = PetPhysics::new(1920 * PX, 96 * PX);
    assert_eq!(physics.x, 928 * PX);
    assert_eq!(physics.y, 32 * PX);
    assert_eq!(physics.vx, 1200);
    assert_eq!(physics.vy, 0);
    assert_eq!(physics.sprite_size, 64 * PX);
}

#[test]
fn physics_jump_lands_and_bounces() {
    let mut physics = PetPhysics::new(1920 * PX, 96 * PX);
    physics.y = physics.ground_level - 100;
    physics.vy = 3 * PX;
    physics.tick(PetState::Celebrating);
    assert_eq!(physics.y, physics.ground_level);
    assert_eq!(physics.vy, -7 * PX);
}

#[test]
fn physics_standing_still_starts_walking() {
    let mut physics = PetPhysics::new(1920 * PX, 96 * PX);
    physics.vx = 0;
    physics.y = 10 * PX;
    physics.tick(PetState::Walking);
    assert_eq!(physics.vx, 1200);
    assert_eq!(physics.x, 928 * PX + 1200);
    assert_eq!(physics.y, 32 * PX);
    physics.vy = 5;
    physics.tick(PetState::Sleeping);
    assert_eq!(physics.vy, 0);
    assert_eq!(physics.x, 928 * PX + 1200);
}

#[test]
fn physics_bounding_box_rounds_to_nearest_pixel() {
    let mut physics = PetPhysics::new(1920 * PX, 96 * PX);
    physics.x = 100_500;
    physics.y = 31_499;
    assert_eq!(physics.bounding_box(), (101, 31, 165, 95));
    physics.x = -1_500;
    assert_eq!(physics.bounding_box().0, -2);
}

#[test]
fn layer_surface_is_anchored_bottom_left_right() {
    let manager = WaylandLayerSurfaceManager::new(1920, 96, true);
    assert_eq!(manager.config.width, 1920);
    assert_eq!(manager.config.height, 96);
    assert_eq!(manager.config.layer, WaylandLayer::Top);
    assert_eq!(manager.config.anchored_edges, 2 | 4 | 8);
    assert_eq!(WaylandEdge::Top.bit(), 1);
    assert!(manager.is_wayland_active);
    assert_eq!(manager.current_input_region, None);
}

#[test]
fn input_region_goes_to_the_compositor_only_under_wayland() {
    let physics = PetPhysics::new(1920 * PX, 96 * PX);
    let mut plain = WaylandLayerSurfaceManager::new(1920, 96, false);
    let region = plain.update_input_region(&physics);
    assert_eq!(plain.current_input_region, Some(region));
    assert_eq!(plain.input_region_to_apply(), None);
    let mut wayland = WaylandLayerSurfaceManager::new(1920, 96, true);
    assert_eq!(wayland.input_region_to_apply(), None);
    let region = wayland.update_input_region(&physics);
    assert_eq!(wayland.input_region_to_apply(), Some(region));
}

#[test]
fn physics_range_checks() {
    let mut physics = PetPhysics::new(1920 * PX, 96 * PX);
    assert!(physics.frame_fits(PetState::Walking));
    assert!(physics.box_in_range());
    physics.x = i64::MAX;
    assert!(!physics.frame_fits(PetState::Walking));
    assert!(physics.frame_fits(PetState::Idle));
    assert!(!physics.box_in_range());
    physics.vy = i64::MAX;
    assert!(!physics.frame_fits(PetState::Celebrating));
}
