use libobs_wrapper::scene::{ObsFilterRef, ObsSceneRef, ObsSourceRef, OutputChannels, SourceInfo, FilterCall, UNIT_SCALE_BITS};
use libobs_wrapper::{ObsError, Vec2};

fn info(id: &str, name: &str) -> SourceInfo {
    SourceInfo { id: id.to_string(), name: name.to_string() }
}

fn scene_with(names: &[&str]) -> ObsSceneRef {
    let mut scene = ObsSceneRef::new("main".to_string(), 100);
    for (k, n) in names.iter().enumerate() {
        let k = k as u64;
        scene.add_source(info("window_capture", n), Some((10 + k, 20 + k))).unwrap();
    }
    scene
}

#[test]
fn new_scene_is_empty() {
    let scene = ObsSceneRef::new("main".to_string(), 100);
    assert_eq!(scene.len(), 0);
    assert_eq!(scene.as_ptr(), 100);
    assert_eq!(scene.name(), "main");
    assert!(scene.get_source_by_index(0).is_none());
    assert!(scene.get_source_mut("cam").is_none());
}

#[test]
fn add_source_returns_handle_and_appends() {
    let mut scene = ObsSceneRef::new("main".to_string(), 100);
    let src = scene.add_source(info("dshow_input", "cam"), Some((7, 8))).unwrap();
    assert_eq!(src, ObsSourceRef { source: 7, id: "dshow_input".to_string(), name: "cam".to_string() });
    assert_eq!(scene.len(), 1);
    assert_eq!(scene.get_source_by_index(0), Some(src.clone()));
    assert_eq!(scene.get_source_mut("cam"), Some(src));
    assert_eq!(scene.get_source_position("cam"), Ok(Vec2::new(0, 0)));
    assert_eq!(scene.get_source_scale("cam"), Ok(Vec2::new(UNIT_SCALE_BITS, UNIT_SCALE_BITS)));
}

#[test]
fn add_source_rejected_by_engine() {
    let mut scene = scene_with(&["a"]);
    assert_eq!(scene.add_source(info("bogus", "b"), None), Err(ObsError::SourceCreationFailed));
    assert_eq!(scene.len(), 1);
    assert!(scene.get_source_mut("b").is_none());
}

#[test]
fn lookups_keep_order() {
    let scene = scene_with(&["a", "b", "c"]);
    assert_eq!(scene.get_source_by_index(1).unwrap().name, "b");
    assert_eq!(scene.get_source_by_index(2).unwrap().source, 12);
    assert!(scene.get_source_by_index(3).is_none());
    assert!(scene.get_source_by_index(usize::MAX).is_none());
    assert_eq!(scene.get_source_mut("c").unwrap().source, 12);
}

#[test]
fn duplicate_names_resolve_to_first() {
    let mut scene = scene_with(&["dup", "x", "dup"]);
    assert_eq!(scene.get_source_mut("dup").unwrap().source, 10);
    assert_eq!(scene.remove_source("dup").unwrap().item, 20);
    assert_eq!(scene.get_source_mut("dup").unwrap().source, 12);
}

#[test]
fn add_then_remove_leaves_nothing() {
    let mut scene = scene_with(&["a", "b"]);
    scene.add_source(info("window_capture", "n"), Some((50, 60))).unwrap();
    let item = scene.remove_source("n").unwrap();
    assert_eq!(item.item, 60);
    assert!(scene.get_source_mut("n").is_none());
    assert_eq!(scene.remove_source("n"), Err(ObsError::SourceNotFound));
    assert_eq!(scene.len(), 2);
    assert_eq!(scene.get_source_by_index(1).unwrap().name, "b");
}

#[test]
fn remove_keeps_order_of_rest() {
    let mut scene = scene_with(&["a", "b", "c"]);
    assert_eq!(scene.remove_source("b").unwrap().item, 21);
    assert_eq!(scene.get_source_by_index(0).unwrap().name, "a");
    assert_eq!(scene.get_source_by_index(1).unwrap().name, "c");
}

#[test]
fn enable_source_only_changes_state() {
    let mut scene = scene_with(&["a"]);
    assert_eq!(scene.enable_source("a", true), Err(ObsError::SourceNotFound));
    assert_eq!(scene.enable_source("a", false), Ok(10));
    assert_eq!(scene.enable_source("a", false), Err(ObsError::SourceNotFound));
    assert_eq!(scene.enable_source("a", true), Ok(10));
    assert_eq!(scene.enable_source("missing", true), Err(ObsError::SourceNotFound));
}

#[test]
fn filter_calls_name_the_source() {
    let scene = scene_with(&["a", "b"]);
    let f = ObsFilterRef { filter: 99 };
    assert_eq!(scene.add_source_filter("b", &f), Ok(FilterCall { source: 11, filter: 99 }));
    assert_eq!(scene.remove_source_filter("a", &f), Ok(FilterCall { source: 10, filter: 99 }));
    assert_eq!(scene.add_source_filter("z", &f), Err(ObsError::SourceNotFound));
    assert_eq!(scene.remove_source_filter("z", &f), Err(ObsError::SourceNotFound));
}

#[test]
fn position_round_trip() {
    let mut scene = scene_with(&["a", "b"]);
    let p = Vec2::new(1.5f32.to_bits(), (-20.25f32).to_bits());
    assert_eq!(scene.set_source_position("b", p), Ok(21));
    assert_eq!(scene.get_source_position("b"), Ok(p));
    assert_eq!(scene.get_source_position("a"), Ok(Vec2::new(0, 0)));
    assert_eq!(scene.set_source_position("z", p), Err(ObsError::SourceNotFound));
    assert_eq!(scene.get_source_position("z"), Err(ObsError::SourceNotFound));
}

#[test]
fn scale_setter_changes_scale_not_position() {
    let mut scene = scene_with(&["a"]);
    let s = Vec2::new(0.2f32.to_bits(), 0.2f32.to_bits());
    assert_eq!(scene.set_source_scale("a", s), Ok(20));
    assert_eq!(scene.get_source_scale("a"), Ok(s));
    assert_eq!(scene.get_source_position("a"), Ok(Vec2::new(0, 0)));
    assert_eq!(scene.set_source_scale("z", s), Err(ObsError::SourceNotFound));
    assert_eq!(scene.get_source_scale("z"), Err(ObsError::SourceNotFound));
}

#[test]
fn last_bind_wins() {
    let a = ObsSceneRef::new("a".to_string(), 1);
    let b = ObsSceneRef::new("b".to_string(), 2);
    let mut channels = OutputChannels::new();
    assert_eq!(channels.active_scene(0), None);
    a.add_and_set(&mut channels, 0);
    assert_eq!(channels.active_scene(0), Some(1));
    b.add_and_set(&mut channels, 0);
    assert_eq!(channels.active_scene(0), Some(2));
    a.add_and_set(&mut channels, 5);
    assert_eq!(channels.active_scene(0), Some(2));
    assert_eq!(channels.active_scene(5), Some(1));
    assert_eq!(channels.active_scene(1), None);
}

#[test]
fn find_scene_item_does_not_remove() {
    let scene = scene_with(&["a", "b"]);
    assert_eq!(scene.find_scene_item("b").unwrap().item, 21);
    assert_eq!(scene.len(), 2);
    assert_eq!(scene.find_scene_item("z"), Err(ObsError::SourceNotFound));
}

#[test]
fn interleaved_callers_read_their_own_positions() {
    let mut scene = scene_with(&["n1", "n2"]);
    for k in 1..=5u32 {
        let p1 = Vec2::new(k, 100 + k);
        let p2 = Vec2::new(1000 + k, 2000 + k);
        scene.set_source_position("n1", p1).unwrap();
        scene.set_source_position("n2", p2).unwrap();
        assert_eq!(scene.get_source_position("n1"), Ok(p1));
        assert_eq!(scene.get_source_position("n2"), Ok(p2));
    }
}
