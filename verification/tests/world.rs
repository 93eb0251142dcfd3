use rapier3d::dynamics::RigidBodyHandle;
use sim_engine::entity::{
    EntityCreationData, EntityCreationPhysicsData, GameWorld, InteractiveRenderingConfig,
    Motion,
};
use sim_engine::handle_user_input::{
    ElementState, KeyboardInput, Thrust, Turn, VirtualKeyCode, WindowEvent,
};

type World = GameWorld<u32, i64>;

fn visual(mesh: Vec<u32>, isometry: i64) -> EntityCreationData<u32, i64> {
    let geometry = place(&mesh, isometry);
    EntityCreationData { physics: None, mesh, isometry, geometry }
}

fn physical(mesh: Vec<u32>, isometry: i64, is_dynamic: bool, index: u32) -> EntityCreationData<u32, i64> {
    let geometry = place(&mesh, isometry);
    let body = body(index);
    EntityCreationData {
        physics: Some(EntityCreationPhysicsData { is_dynamic, body }),
        mesh,
        isometry,
        geometry,
    }
}

fn body(index: u32) -> RigidBodyHandle {
    RigidBodyHandle::from_raw_parts(index, 1)
}

/// A stand-in for a rigid transform: it shifts every vertex.
fn place(mesh: &[u32], isometry: i64) -> Vec<u32> {
    mesh.iter().map(|v| (*v as i64 + isometry) as u32).collect()
}

/// What the world gives to draw, batch by batch.
fn drawn(world: &mut World) -> Vec<Vec<u32>> {
    world.vertex_buffers().into_iter().flatten().cloned().collect()
}

fn key(code: VirtualKeyCode, state: ElementState) -> WindowEvent<(i32, i32)> {
    WindowEvent::KeyboardInput { input: KeyboardInput { state, virtual_keycode: Some(code) } }
}

#[test]
fn new_world_is_empty() {
    let mut world = World::new(None);
    assert!(world.entity_ids().is_empty());
    assert_eq!(world.tracking_entity(), None);
    assert_eq!(world.vertex_buffers(), [None, None]);
    assert!(!world.dynamic_scene().needs_update());
    assert!(!world.static_scene().needs_update());
    assert!(world.entity(0).is_none());
}

#[test]
fn visual_entity_goes_to_the_static_batch() {
    let mut world = World::new(None);
    assert_eq!(world.add_entity(3, visual(vec![1, 2, 3], 10)), None);
    assert!(world.static_scene().needs_update());
    assert!(!world.dynamic_scene().needs_update());
    assert_eq!(world.static_scene().objects().get(&3), Some(&vec![11, 12, 13]));
    assert!(world.dynamic_scene().objects().is_empty());
    let entity = world.entity(3).unwrap();
    assert_eq!(entity.rigid_body_handle, None);
    assert!(!entity.is_dynamic);
    assert_eq!(entity.mesh, vec![1, 2, 3]);
    assert_eq!(entity.isometry, 10);
}

#[test]
fn dynamic_body_goes_to_the_dynamic_batch() {
    let mut world = World::new(None);
    world.add_entity(3, physical(vec![1, 2, 3], 10, true, 8));
    assert!(world.dynamic_scene().needs_update());
    assert!(!world.static_scene().needs_update());
    assert_eq!(world.dynamic_scene().objects().get(&3), Some(&vec![11, 12, 13]));
    assert!(world.static_scene().objects().is_empty());
    let entity = world.entity(3).unwrap();
    assert_eq!(entity.rigid_body_handle, Some(body(8)));
    assert!(entity.is_dynamic);
}

#[test]
fn fixed_body_goes_to_the_static_batch() {
    let mut world = World::new(None);
    world.add_entity(3, physical(vec![1], 0, false, 8));
    assert_eq!(world.static_scene().objects().get(&3), Some(&vec![1]));
    assert!(world.dynamic_scene().objects().is_empty());
    let entity = world.entity(3).unwrap();
    assert_eq!(entity.rigid_body_handle, Some(body(8)));
    assert!(!entity.is_dynamic);
}

#[test]
fn entity_ids_are_listed_once() {
    let mut world = World::new(None);
    world.add_entity(3, visual(vec![1], 0));
    world.add_entity(1, physical(vec![2], 0, true, 4));
    world.add_entity(2, visual(vec![3], 0));
    world.add_entity(3, visual(vec![4], 0));
    let mut ids = world.entity_ids();
    ids.sort();
    assert_eq!(ids, vec![1, 2, 3]);
}

#[test]
fn bodies_are_listed_with_their_entities() {
    let mut world = World::new(None);
    assert!(world.bodies().is_empty());
    world.add_entity(3, visual(vec![1], 0));
    world.add_entity(1, physical(vec![2], 0, true, 4));
    world.add_entity(2, physical(vec![3], 0, false, 9));
    world.add_entity(7, visual(vec![4], 0));
    let mut bodies = world.bodies();
    bodies.sort_by_key(|(id, _)| *id);
    assert_eq!(
        bodies,
        vec![
            (1, body(4)),
            (2, body(9)),
        ]
    );
    world.remove_entity(1);
    assert_eq!(world.bodies(), vec![(2, body(9))]);
    world.add_entity(2, visual(vec![3], 0));
    assert!(world.bodies().is_empty());
}

#[test]
fn removal_clears_both_batches_and_returns_the_body() {
    let mut world = World::new(None);
    world.add_entity(1, physical(vec![1, 2], 0, true, 4));
    world.add_entity(2, visual(vec![7], 0));
    world.add_entity(5, physical(vec![9], 0, true, 6));
    assert_eq!(drawn(&mut world).len(), 2);
    assert_eq!(world.remove_entity(1), Some(body(4)));
    assert!(world.entity(1).is_none());
    assert!(world.dynamic_scene().needs_update());
    assert!(!world.static_scene().needs_update());
    assert_eq!(drawn(&mut world), vec![vec![9], vec![7]]);
    assert_eq!(world.remove_entity(2), None);
    assert_eq!(drawn(&mut world), vec![vec![9]]);
    assert_eq!(world.remove_entity(5), Some(body(6)));
    assert_eq!(world.vertex_buffers(), [None, None]);
    assert!(world.entity_ids().is_empty());
}

#[test]
fn removal_of_a_missing_entity_changes_nothing() {
    let mut world = World::new(None);
    world.add_entity(1, visual(vec![1, 2], 0));
    assert_eq!(drawn(&mut world), vec![vec![1, 2]]);
    assert_eq!(world.remove_entity(9), None);
    assert!(!world.dynamic_scene().needs_update());
    assert!(!world.static_scene().needs_update());
    assert_eq!(world.entity_ids(), vec![1]);
    assert_eq!(drawn(&mut world), vec![vec![1, 2]]);
}

#[test]
fn adding_under_a_used_id_replaces_the_entity() {
    let mut world = World::new(None);
    world.add_entity(1, physical(vec![1, 2], 0, true, 4));
    let released = world.add_entity(1, visual(vec![5], 0));
    assert_eq!(released, Some(body(4)));
    assert!(world.dynamic_scene().objects().is_empty());
    assert_eq!(world.static_scene().objects().get(&1), Some(&vec![5]));
    assert_eq!(world.entity(1).unwrap().mesh, vec![5]);
    assert_eq!(drawn(&mut world), vec![vec![5]]);
}

#[test]
fn step_moves_entities_in_their_own_batch() {
    let mut world = World::new(None);
    world.add_entity(1, physical(vec![1, 2], 0, true, 4));
    world.add_entity(2, visual(vec![7], 0));
    assert_eq!(drawn(&mut world), vec![vec![1, 2], vec![7]]);
    let plan = world.step(vec![Motion { entity_id: 1, isometry: 100, geometry: vec![101, 102] }]);
    assert!(plan.drive.is_none());
    assert!(plan.focus.is_none());
    assert!(world.dynamic_scene().needs_update());
    assert!(!world.static_scene().needs_update());
    assert_eq!(world.entity(1).unwrap().isometry, 100);
    assert_eq!(world.entity(1).unwrap().mesh, vec![1, 2]);
    assert_eq!(world.entity(2).unwrap().isometry, 0);
    assert_eq!(drawn(&mut world), vec![vec![101, 102], vec![7]]);
    world.step(vec![Motion { entity_id: 2, isometry: -3, geometry: vec![4] }]);
    assert!(!world.dynamic_scene().needs_update());
    assert!(world.static_scene().needs_update());
    assert_eq!(drawn(&mut world), vec![vec![101, 102], vec![4]]);
}

#[test]
fn step_without_motions_keeps_the_batches_clean() {
    let mut world = World::new(None);
    world.add_entity(1, physical(vec![1, 2], 0, true, 4));
    drawn(&mut world);
    world.step(vec![]);
    assert!(!world.dynamic_scene().needs_update());
    assert!(!world.static_scene().needs_update());
    assert_eq!(world.entity(1).unwrap().isometry, 0);
}

#[test]
fn step_drops_motions_of_missing_entities() {
    let mut world = World::new(None);
    world.add_entity(1, visual(vec![1], 0));
    drawn(&mut world);
    world.step(vec![Motion { entity_id: 2, isometry: 5, geometry: vec![6] }]);
    assert!(!world.dynamic_scene().needs_update());
    assert!(!world.static_scene().needs_update());
    assert_eq!(world.entity_ids(), vec![1]);
    assert_eq!(drawn(&mut world), vec![vec![1]]);
}

#[test]
fn last_motion_of_an_entity_wins() {
    let mut world = World::new(None);
    world.add_entity(1, visual(vec![1], 0));
    world.step(vec![
        Motion { entity_id: 1, isometry: 5, geometry: vec![6] },
        Motion { entity_id: 1, isometry: 7, geometry: vec![8] },
    ]);
    assert_eq!(world.entity(1).unwrap().isometry, 7);
    assert_eq!(drawn(&mut world), vec![vec![8]]);
}

#[test]
fn move_entity_is_one_motion() {
    let mut world = World::new(None);
    world.add_entity(1, physical(vec![1], 0, true, 2));
    world.move_entity(Motion { entity_id: 1, isometry: 5, geometry: vec![6] });
    assert_eq!(world.entity(1).unwrap().isometry, 5);
    assert_eq!(drawn(&mut world), vec![vec![6]]);
}

#[test]
fn keys_drive_the_followed_body() {
    let mut world = World::new(Some(InteractiveRenderingConfig { tracking_entity: 1 }));
    assert_eq!(world.tracking_entity(), Some(1));
    assert!(world.drive().is_none());
    assert!(world.focus().is_none());
    world.add_entity(1, physical(vec![1], 40, true, 2));
    let drive = world.drive().unwrap();
    assert_eq!(drive.body, body(2));
    assert_eq!(drive.isometry, 40);
    assert_eq!(drive.thrust, Thrust::Neutral);
    assert_eq!(drive.turn, Turn::Straight);
    assert!(world.handle_window_event(&key(VirtualKeyCode::S, ElementState::Pressed)));
    assert!(world.handle_window_event(&key(VirtualKeyCode::A, ElementState::Pressed)));
    assert!(world.user_input_state().s);
    let plan = world.step(vec![Motion { entity_id: 1, isometry: 41, geometry: vec![42] }]);
    let drive = plan.drive.unwrap();
    assert_eq!(drive.isometry, 41);
    assert_eq!(drive.thrust, Thrust::Reverse);
    assert_eq!(drive.turn, Turn::Left);
    assert_eq!(plan.focus, Some(41));
    world.handle_window_event(&key(VirtualKeyCode::S, ElementState::Released));
    world.handle_window_event(&key(VirtualKeyCode::W, ElementState::Pressed));
    world.handle_window_event(&key(VirtualKeyCode::A, ElementState::Released));
    world.handle_window_event(&key(VirtualKeyCode::D, ElementState::Pressed));
    let drive = world.step(vec![]).drive.unwrap();
    assert_eq!(drive.thrust, Thrust::Forward);
    assert_eq!(drive.turn, Turn::Right);
}

#[test]
fn followed_entity_without_a_body_is_not_driven() {
    let mut world = World::new(Some(InteractiveRenderingConfig { tracking_entity: 1 }));
    world.add_entity(1, visual(vec![1], 40));
    world.add_entity(2, physical(vec![1], 50, true, 2));
    let plan = world.step(vec![]);
    assert!(plan.drive.is_none());
    assert_eq!(plan.focus, Some(40));
    world.remove_entity(1);
    let plan = world.step(vec![]);
    assert!(plan.drive.is_none());
    assert!(plan.focus.is_none());
    assert_eq!(world.tracking_entity(), Some(1));
}

#[test]
fn world_without_a_window_is_not_interactive() {
    let mut world = World::new(None);
    world.add_entity(1, physical(vec![1], 40, true, 2));
    assert!(!world.handle_window_event(&key(VirtualKeyCode::W, ElementState::Pressed)));
    assert!(world.user_input_state().w);
    assert!(!world.handle_window_event(&WindowEvent::CursorMoved { position: (1, 2) }));
    let plan = world.step(vec![]);
    assert!(plan.drive.is_none());
    assert!(plan.focus.is_none());
}

#[test]
fn render_draws_only_with_a_window() {
    let mut world = World::new(None);
    world.add_entity(1, visual(vec![1], 0));
    assert!(world.render().is_none());
    assert!(world.static_scene().needs_update());
    let mut world = World::new(Some(InteractiveRenderingConfig { tracking_entity: 9 }));
    assert_eq!(world.render(), Some([None, None]));
    world.add_entity(1, visual(vec![1], 0));
    world.add_entity(2, physical(vec![5, 6], 0, true, 3));
    assert_eq!(world.render(), Some([Some(&vec![5, 6]), Some(&vec![1])]));
    world.remove_entity(2);
    assert_eq!(world.render(), Some([None, Some(&vec![1])]));
    assert!(!world.static_scene().needs_update());
    assert!(!world.dynamic_scene().needs_update());
}
