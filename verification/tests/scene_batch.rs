use sim_engine::render_system::scene::{vertex_buffer, Scene};
use std::collections::HashMap;

fn sorted(mut vertexes: Vec<u32>) -> Vec<u32> {
    vertexes.sort();
    vertexes
}

/// Whether `list` stands in `buffer` as one unbroken run.
fn holds_run(buffer: &[u32], list: &[u32]) -> bool {
    list.is_empty() || buffer.windows(list.len()).any(|window| window == list)
}

#[test]
fn empty_batch_has_no_buffer() {
    let mut scene: Scene<u32> = Scene::new(HashMap::new());
    assert!(!scene.needs_update());
    assert_eq!(scene.vertex_buffer(), None);
    assert!(scene.objects().is_empty());
}

#[test]
fn batch_of_empty_objects_has_no_buffer() {
    let mut scene: Scene<u32> = Scene::new(HashMap::new());
    scene.add_object(1, vec![]);
    scene.add_object(2, vec![]);
    assert_eq!(scene.vertex_buffer(), None);
    assert_eq!(scene.objects().len(), 2);
}

#[test]
fn new_batch_is_built_at_once() {
    let mut objects = HashMap::new();
    objects.insert(4, vec![40, 41]);
    objects.insert(9, vec![90]);
    let mut scene = Scene::new(objects);
    assert!(!scene.needs_update());
    let buffer = scene.vertex_buffer().unwrap().clone();
    assert_eq!(sorted(buffer.clone()), vec![40, 41, 90]);
    assert!(holds_run(&buffer, &[40, 41]));
}

#[test]
fn add_marks_stale_and_read_cleans() {
    let mut scene: Scene<u32> = Scene::new(HashMap::new());
    scene.add_object(1, vec![10, 11, 12]);
    assert!(scene.needs_update());
    assert_eq!(scene.vertex_buffer(), Some(&vec![10, 11, 12]));
    assert!(!scene.needs_update());
    assert_eq!(scene.vertex_buffer(), Some(&vec![10, 11, 12]));
}

#[test]
fn add_replaces_the_object_under_the_key() {
    let mut scene: Scene<u32> = Scene::new(HashMap::new());
    scene.add_object(1, vec![10, 11, 12]);
    scene.add_object(1, vec![13]);
    assert_eq!(scene.vertex_buffer(), Some(&vec![13]));
    assert_eq!(scene.objects().get(&1), Some(&vec![13]));
}

#[test]
fn remove_of_a_missing_key_leaves_the_batch_clean() {
    let mut scene: Scene<u32> = Scene::new(HashMap::new());
    scene.add_object(1, vec![10]);
    assert_eq!(scene.vertex_buffer(), Some(&vec![10]));
    scene.remove_object(2);
    assert!(!scene.needs_update());
    assert_eq!(scene.vertex_buffer(), Some(&vec![10]));
}

#[test]
fn remove_of_a_held_key_marks_stale() {
    let mut scene: Scene<u32> = Scene::new(HashMap::new());
    scene.add_object(1, vec![10]);
    assert_eq!(scene.vertex_buffer(), Some(&vec![10]));
    scene.remove_object(1);
    assert!(scene.needs_update());
    assert_eq!(scene.vertex_buffer(), None);
    assert!(!scene.needs_update());
}

#[test]
fn read_after_interleaved_edits_shows_the_final_objects() {
    let mut scene: Scene<u32> = Scene::new(HashMap::new());
    scene.add_object(1, vec![10, 11]);
    scene.add_object(2, vec![20]);
    scene.remove_object(1);
    scene.add_object(3, vec![30, 31, 32]);
    scene.add_object(2, vec![21, 22]);
    scene.remove_object(7);
    scene.add_object(1, vec![12]);
    scene.remove_object(3);
    scene.add_object(3, vec![33, 34]);
    let buffer = scene.vertex_buffer().unwrap().clone();
    assert_eq!(sorted(buffer.clone()), vec![12, 21, 22, 33, 34]);
    assert!(holds_run(&buffer, &[21, 22]));
    assert!(holds_run(&buffer, &[33, 34]));
    assert!(holds_run(&buffer, &[12]));
}

#[test]
fn reads_between_edits_follow_the_objects() {
    let mut scene: Scene<u32> = Scene::new(HashMap::new());
    for round in 0..20u32 {
        scene.add_object(round, vec![round; 3]);
        if round % 3 == 2 {
            scene.remove_object(round - 1);
        }
        let mut expected: Vec<u32> = scene.objects().values().flatten().copied().collect();
        expected.sort();
        let buffer = scene.vertex_buffer().cloned().unwrap_or_default();
        assert_eq!(sorted(buffer), expected);
    }
}

#[test]
fn free_vertex_buffer_flattens_a_map() {
    let mut objects: HashMap<u32, Vec<u32>> = HashMap::new();
    assert_eq!(vertex_buffer(&objects), None);
    objects.insert(5, vec![]);
    assert_eq!(vertex_buffer(&objects), None);
    objects.insert(6, vec![60, 61]);
    assert_eq!(vertex_buffer(&objects), Some(vec![60, 61]));
}
