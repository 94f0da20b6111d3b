use level_collision::extract::{Mesh, Surface, SurfaceSharedData, Vertex};
use level_collision::level::{GameTime, Level, Player};
use level_collision::math::Vec3;
use level_collision::pool::{Handle, Pool};
use level_collision::scene::{attach_static_geometry, ExtractError, Node, NodeKind, Scene};
use level_collision::transform::Transform;

fn vertex(x: i64, y: i64, z: i64) -> Vertex {
    Vertex { position: Vec3::make(x, y, z) }
}

fn quad_data() -> SurfaceSharedData {
    SurfaceSharedData {
        vertices: vec![vertex(0, 0, 0), vertex(1, 0, 0), vertex(1, 1, 0), vertex(0, 1, 0)],
        indices: vec![0, 1, 2, 0, 2, 3],
    }
}

/// A scene holding one mesh node of the given name over the given surface
/// data pool.
fn scene_with_mesh(name: &str, storage: &mut Pool<SurfaceSharedData>) -> Scene {
    let data_handle = storage.spawn(quad_data());
    let mesh = Mesh::new(vec![Surface::new(data_handle)]);
    let mut scene = Scene::new();
    scene.add_node(Node::new(String::from("Root"), NodeKind::Base));
    scene.add_node(Node::new(String::from(name), NodeKind::Mesh(mesh)));
    scene
}

#[test]
fn pool_handles_are_generation_checked() {
    let mut pool: Pool<u32> = Pool::new();
    let h1 = pool.spawn(10);
    let h2 = pool.spawn(20);
    assert_eq!(pool.slot_count(), 2);
    assert_eq!(pool.borrow(&h1), Some(&10));
    assert_eq!(pool.borrow(&h2), Some(&20));
    pool.free(&h1);
    // The freed slot no longer resolves, and its slot is not reused.
    assert_eq!(pool.borrow(&h1), None);
    assert_eq!(pool.borrow(&h2), Some(&20));
    let h3 = pool.spawn(30);
    assert_eq!(pool.slot_count(), 3);
    assert_eq!(pool.borrow(&h3), Some(&30));
    assert_eq!(pool.borrow(&h1), None);
}

#[test]
fn none_handle_resolves_nowhere() {
    let mut pool: Pool<u32> = Pool::new();
    pool.spawn(1);
    let none = Handle::none();
    assert!(none.is_none());
    assert_eq!(pool.borrow(&none), None);
    assert!(pool.entry_at(0).is_some());
}

#[test]
fn find_node_by_name_returns_first_match() {
    let mut scene = Scene::new();
    scene.add_node(Node::new(String::from("A"), NodeKind::Base));
    let hb = scene.add_node(Node::new(String::from("B"), NodeKind::Base));
    scene.add_node(Node::new(String::from("B"), NodeKind::Base));
    let found = scene.find_node_by_name(&String::from("B"));
    assert_eq!(found, hb);
    let node = scene.get_node(&found).expect("found handle resolves");
    assert_eq!(node.name, "B");
    let missing = scene.find_node_by_name(&String::from("C"));
    assert!(missing.is_none());
    assert!(scene.get_node(&missing).is_none());
}

#[test]
fn attach_registers_quad_geometry() {
    let mut storage: Pool<SurfaceSharedData> = Pool::new();
    let mut scene = scene_with_mesh("Polygon", &mut storage);
    let registered = attach_static_geometry(&mut scene, &storage, &String::from("Polygon"));
    assert_eq!(registered, Ok(2));
    assert_eq!(scene.physics.static_geometry_count(), 1);
    let geometry = scene.physics.static_geometry_at(0);
    assert_eq!(geometry.len(), 2);
    assert_eq!(geometry.triangle_at(0).corner_a(), Vec3::make(0, 0, 0));
}

/// The named node is absent: the step contributes nothing and the scene is
/// untouched, so level assembly proceeds.
#[test]
fn attach_skips_when_node_is_absent() {
    let mut storage: Pool<SurfaceSharedData> = Pool::new();
    let mut scene = scene_with_mesh("Polygon", &mut storage);
    let r = attach_static_geometry(&mut scene, &storage, &String::from("Missing"));
    assert_eq!(r, Err(ExtractError::NodeNotFound));
    assert_eq!(scene.physics.static_geometry_count(), 0);
    // Assembly proceeds: the scene is still usable afterwards.
    let r2 = attach_static_geometry(&mut scene, &storage, &String::from("Polygon"));
    assert_eq!(r2, Ok(2));
}

#[test]
fn attach_skips_when_node_is_not_a_mesh() {
    let storage: Pool<SurfaceSharedData> = Pool::new();
    let mut scene = Scene::new();
    scene.add_node(Node::new(String::from("Polygon"), NodeKind::Base));
    let r = attach_static_geometry(&mut scene, &storage, &String::from("Polygon"));
    assert_eq!(r, Err(ExtractError::NotAMesh));
    assert_eq!(scene.physics.static_geometry_count(), 0);
}

#[test]
fn attach_skips_when_surface_data_is_unresolvable() {
    let mut storage: Pool<SurfaceSharedData> = Pool::new();
    let stale = storage.spawn(quad_data());
    storage.free(&stale);
    let mesh = Mesh::new(vec![Surface::new(stale)]);
    let mut scene = Scene::new();
    scene.add_node(Node::new(String::from("Polygon"), NodeKind::Mesh(mesh)));
    let r = attach_static_geometry(&mut scene, &storage, &String::from("Polygon"));
    assert_eq!(r, Err(ExtractError::UnresolvedSurfaceData));
    assert_eq!(scene.physics.static_geometry_count(), 0);
}

#[test]
fn node_accessors_work() {
    let mut node = Node::new(String::from("N"), NodeKind::Base);
    assert!(matches!(node.borrow_kind(), NodeKind::Base));
    node.set_local_position(Vec3::make(1, 2, 3));
    assert_eq!(node.local_position, Vec3::make(1, 2, 3));
    node.set_global_transform(Transform::uniform_scale(2));
    let p = node.global_transform.transform_vector(Vec3::make(4, 5, 6));
    assert_eq!(p, Vec3::make(8, 10, 12));
}

#[test]
fn level_updates_its_player() {
    let mut scenes: Pool<Scene> = Pool::new();
    let mut scene = Scene::new();
    let node = scene.add_node(Node::new(String::from("PlayerNode"), NodeKind::Base));
    let scene_handle = scenes.spawn(scene);
    let mut level = Level::new(scene_handle, Player::new(node));
    let time = GameTime { elapsed_ms: 16, delta_ms: 16 };
    level.update(&scenes, &time);
    level.update(&scenes, &time);
    assert_eq!(level.get_player().time_alive_ms(), 32);
    assert!(level.get_player().is_in_scene());
}

#[test]
fn level_with_stale_scene_handle_changes_nothing() {
    let mut scenes: Pool<Scene> = Pool::new();
    let scene_handle = scenes.spawn(Scene::new());
    scenes.free(&scene_handle);
    let mut level = Level::new(scene_handle, Player::new(Handle::none()));
    level.update(&scenes, &GameTime { elapsed_ms: 16, delta_ms: 16 });
    assert_eq!(level.get_player().time_alive_ms(), 0);
}

#[test]
fn player_time_saturates() {
    let scene = Scene::new();
    let mut player = Player::new(Handle::none());
    player.update(&scene, &GameTime { elapsed_ms: 0, delta_ms: u64::MAX });
    player.update(&scene, &GameTime { elapsed_ms: 0, delta_ms: 7 });
    assert_eq!(player.time_alive_ms(), u64::MAX);
    assert!(!player.is_in_scene());
}

#[test]
fn player_is_reachable_mutably_through_level() {
    let mut level = Level::new(Handle::none(), Player::new(Handle::none()));
    let scene = Scene::new();
    level.get_player_mut().update(&scene, &GameTime { elapsed_ms: 5, delta_ms: 5 });
    assert_eq!(level.get_player().time_alive_ms(), 5);
}
