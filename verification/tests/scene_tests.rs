use jakar_engine::engine::{creation_error, CreationErrors, CreationStage, EngineStatus};
use jakar_engine::scene::filter::{flags_match, node_matches, ContentKind, SceneComparer, ValueTypeBool};
use jakar_engine::scene::sorting::{should_be_added, AttributeState, NodeFlags, SortAttributes};
use jakar_engine::scene::tree::SceneNode;

#[test]
fn sort_attributes_builders() {
    let s = SortAttributes::new();
    assert_eq!(s.casts_shadow, AttributeState::Ignore);
    assert_eq!(s.is_translucent, AttributeState::Ignore);
    assert_eq!(s.hide_in_game, AttributeState::Ignore);
    let s = s.casts_shadow().is_not_translucent().hidden_in_game();
    assert_eq!((s.casts_shadow, s.is_translucent, s.hide_in_game), (AttributeState::Yes, AttributeState::No, AttributeState::Yes));
    let s = s.casts_no_shadow().is_translucent().not_hidden_in_game();
    assert_eq!((s.casts_shadow, s.is_translucent, s.hide_in_game), (AttributeState::No, AttributeState::Yes, AttributeState::No));
}

#[test]
fn nodes_are_added_when_every_attribute_matches() {
    let flags = NodeFlags::new();
    assert!(flags.cast_shadow && !flags.is_transparent && !flags.hide_in_game);
    assert!(should_be_added(&flags, SortAttributes::new()));
    assert!(should_be_added(&flags, SortAttributes::new().casts_shadow().is_not_translucent()));
    assert!(!should_be_added(&flags, SortAttributes::new().casts_no_shadow()));
    assert!(!should_be_added(&flags, SortAttributes::new().is_translucent()));
    assert!(!should_be_added(&flags, SortAttributes::new().hidden_in_game()));
}

#[test]
fn value_types_compare_as_subsets() {
    let mesh = ValueTypeBool::of_kind(ContentKind::Mesh);
    assert!(mesh.mesh && !mesh.camera);
    assert!(mesh.is_part_of(&ValueTypeBool::none().with_mesh()));
    assert!(mesh.is_part_of(&ValueTypeBool::none().with_mesh().with_camera()));
    assert!(mesh.is_part_of(&ValueTypeBool::all()));
    assert!(!mesh.is_part_of(&ValueTypeBool::none().with_camera()));
    assert!(!ValueTypeBool::all().is_part_of(&mesh));
    assert!(ValueTypeBool::none().is_part_of(&ValueTypeBool::none()));
    assert!(ValueTypeBool::all().is_part_of(&ValueTypeBool::all()));
    let all = ValueTypeBool::none()
        .with_render_able()
        .with_mesh()
        .with_point_light()
        .with_directional_light()
        .with_spot_light()
        .with_empty()
        .with_camera();
    assert_eq!(all, ValueTypeBool::all());
}

#[test]
fn comparer_flags() {
    let flags = NodeFlags::new();
    assert!(flags_match(&flags, &SceneComparer::new()));
    assert!(flags_match(&flags, &SceneComparer::new().with_shadows().without_transparency().without_is_hidden()));
    assert!(!flags_match(&flags, &SceneComparer::new().without_shadows()));
    assert!(!flags_match(&flags, &SceneComparer::new().with_transparency()));
    assert!(!flags_match(&flags, &SceneComparer::new().with_is_hidden()));
    let c = SceneComparer::new().with_is_emessive().without_is_emessive();
    assert_eq!(c.is_emessive, Some(false));
}

#[test]
fn node_matching() {
    let flags = NodeFlags::new();
    assert!(node_matches(false, &flags, ContentKind::Camera, &None));
    let lights = SceneComparer::new().with_value_type(ValueTypeBool::none().with_point_light());
    assert!(node_matches(true, &flags, ContentKind::PointLight, &Some(lights)));
    assert!(!node_matches(true, &flags, ContentKind::SpotLight, &Some(lights)));
    assert!(!node_matches(false, &flags, ContentKind::PointLight, &Some(lights)));
    assert!(node_matches(true, &flags, ContentKind::Empty, &Some(SceneComparer::new())));
    let lights_or_meshes = SceneComparer::new().with_value_type(ValueTypeBool::none().with_point_light().with_mesh());
    assert!(node_matches(true, &flags, ContentKind::Mesh, &Some(lights_or_meshes)));
    assert!(node_matches(true, &flags, ContentKind::PointLight, &Some(lights_or_meshes)));
    assert!(!node_matches(true, &flags, ContentKind::Camera, &Some(lights_or_meshes)));
}

#[test]
fn engine_status_ends_on_ending_and_abort() {
    assert!(EngineStatus::ENDING.should_end());
    assert!(EngineStatus::Aboarding("no device".to_string()).should_end());
    assert!(!EngineStatus::STARTING.should_end());
    assert!(!EngineStatus::RUNNING.should_end());
    assert!(!EngineStatus::WAITING.should_end());
}

#[test]
fn creation_errors_by_stage() {
    assert!(matches!(creation_error(CreationStage::Instance, "a".to_string()), CreationErrors::FailedToCreateRenderer(m) if m == "a"));
    assert!(matches!(creation_error(CreationStage::InputSystem, "b".to_string()), CreationErrors::FailedToCreateInputManager(m) if m == "b"));
    assert!(matches!(creation_error(CreationStage::Renderer, "c".to_string()), CreationErrors::FailedToCreateRenderer(m) if m == "c"));
}

fn node(name: &str, kind: ContentKind, transparent: bool, children: Vec<SceneNode>) -> SceneNode {
    let mut flags = NodeFlags::new();
    flags.is_transparent = transparent;
    let mut n = SceneNode::new(name, kind, flags);
    for child in children {
        n.add_child(child);
    }
    n
}

fn sample_tree() -> SceneNode {
    node(
        "root",
        ContentKind::Empty,
        false,
        vec![
            node("car", ContentKind::Mesh, false, vec![node("lamp", ContentKind::PointLight, false, vec![]), node("glass", ContentKind::Mesh, true, vec![])]),
            node("cam", ContentKind::Camera, false, vec![]),
        ],
    )
}

#[test]
fn tree_names_post_order() {
    let names = sample_tree().get_all_names(&None);
    assert_eq!(names, vec!["cam", "glass", "lamp", "car", "root"]);
}

#[test]
fn tree_children_keep_name_order() {
    let tree = sample_tree();
    let names: Vec<&str> = tree.children.iter().map(|c| c.name.as_str()).collect();
    assert_eq!(names, vec!["cam", "car"]);
    let mut tree = tree;
    tree.add_child(node("car", ContentKind::Empty, false, vec![]));
    assert_eq!(tree.children.len(), 2);
    assert_eq!(tree.children[1].kind, ContentKind::Empty);
    assert_eq!(tree.get_all_names(&None), vec!["cam", "car", "root"]);
    tree.add_child(node("B", ContentKind::Empty, false, vec![]));
    tree.add_child(node("ca", ContentKind::Empty, false, vec![]));
    let names: Vec<&str> = tree.children.iter().map(|c| c.name.as_str()).collect();
    assert_eq!(names, vec!["B", "ca", "cam", "car"]);
}

#[test]
fn tree_names_filtered() {
    let meshes = SceneComparer::new().with_value_type(ValueTypeBool::none().with_mesh());
    assert_eq!(sample_tree().get_all_names(&Some(meshes)), vec!["glass", "car"]);
    let opaque_meshes = meshes.without_transparency();
    assert_eq!(sample_tree().get_all_names(&Some(opaque_meshes)), vec!["car"]);
    let lights_or_cameras = SceneComparer::new().with_value_type(ValueTypeBool::none().with_point_light().with_camera());
    assert_eq!(sample_tree().get_all_names(&Some(lights_or_cameras)), vec!["cam", "lamp"]);
}

#[test]
fn law_unfiltered_lists_every_node_on_values() {
    assert_eq!(sample_tree().get_all_names(&None).len(), 5);
    let leaf = node("only", ContentKind::Empty, false, vec![]);
    assert_eq!(leaf.get_all_names(&None), vec!["only"]);
    assert!(leaf.get_all_names(&Some(SceneComparer::new().with_transparency())).is_empty());
}
