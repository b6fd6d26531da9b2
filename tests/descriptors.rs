use maskerad_data_parser::descriptor::Descriptor;
use maskerad_data_parser::error::ErrorKind;
use maskerad_data_parser::gameobject::GameObject;
use maskerad_data_parser::gameobject_builder::GameObjectBuilder;
use maskerad_data_parser::gameobject_description::GameObjectDescription;
use maskerad_data_parser::level::Level;
use maskerad_data_parser::level_description::LevelDescription;
use maskerad_data_parser::mesh_description::MeshDescription;
use maskerad_data_parser::transform_description::{Transform, TransformDescription, Vector3};

fn bits(v: &[f64]) -> Vec<u64> {
    v.iter().map(|x| x.to_bits()).collect()
}

fn numbers(v: &[u64]) -> Vec<f64> {
    v.iter().map(|x| f64::from_bits(*x)).collect()
}

fn transform(p: &[f64], r: &[f64], s: &[f64]) -> TransformDescription {
    TransformDescription::new(bits(p), bits(r), bits(s))
}

#[test]
fn level_file_test_serialization() {}

#[test]
fn mesh_description_keeps_its_path() {
    let m = MeshDescription::new("m.bin");
    assert_eq!(m.path(), "m.bin");
    assert_eq!(m.duplicate().path(), "m.bin");
}

#[test]
fn transform_description_keeps_its_sequences() {
    let t = transform(&[1.0, 2.0, 3.0], &[0.0, 0.0, 0.0], &[2.0, 2.0, 2.0]);
    assert_eq!(numbers(t.position()), vec![1.0, 2.0, 3.0]);
    assert_eq!(numbers(t.rotation()), vec![0.0, 0.0, 0.0]);
    assert_eq!(numbers(t.scale()), vec![2.0, 2.0, 2.0]);
    assert!(t.is_valid());
}

#[test]
fn transform_with_two_components_is_rejected() {
    let t = transform(&[1.0, 2.0], &[0.0, 0.0, 0.0], &[2.0, 2.0, 2.0]);
    assert!(!t.is_valid());
    let e = Transform::from_description(&t).unwrap_err();
    assert_eq!(e.error_kind(), ErrorKind::Deserialization);
    assert_eq!(e.message().as_str(), "transform.position");

    let t = transform(&[1.0, 2.0, 3.0], &[0.0, 0.0, 0.0], &[2.0, 2.0, 2.0, 2.0]);
    let e = Transform::from_description(&t).unwrap_err();
    assert_eq!(e.message().as_str(), "transform.scale");
}

#[test]
fn transform_from_description_reads_components() {
    let t = transform(&[5.0, 7.0, 11.0], &[0.8, 5.2, 1.0], &[2.4, 2.2, 2.9]);
    let d = Transform::from_description(&t).unwrap();
    assert_eq!(d.position, Vector3 { x: 5.0f64.to_bits(), y: 7.0f64.to_bits(), z: 11.0f64.to_bits() });
    assert_eq!(f64::from_bits(d.rotation.y), 5.2);
    assert_eq!(f64::from_bits(d.scale.z), 2.9);
    let back = TransformDescription::from_transform(&d);
    assert_eq!(numbers(back.rotation()), vec![0.8, 5.2, 1.0]);
}

#[test]
fn gameobject_description_holds_its_fields() {
    let t = transform(&[1.0, 2.0, 3.0], &[0.0, 0.0, 0.0], &[2.0, 2.0, 2.0]);
    let g = GameObjectDescription::new("go4", t, Some(MeshDescription::new("path_test_mesh")));
    assert_eq!(g.id(), "go4");
    assert_eq!(numbers(g.transform().position()), vec![1.0, 2.0, 3.0]);
    assert_eq!(g.mesh().as_ref().unwrap().path(), "path_test_mesh");
    assert_eq!(g.mesh_description().as_ref().unwrap().path(), "path_test_mesh");
    assert_eq!(Descriptor::id(&g), "go4");
    let copy = g.duplicate();
    assert_eq!(copy.id(), "go4");
    assert_eq!(numbers(copy.transform().scale()), vec![2.0, 2.0, 2.0]);
}

#[test]
fn gameobject_description_with_empty_id_is_rejected() {
    let t = transform(&[1.0, 2.0, 3.0], &[0.0, 0.0, 0.0], &[2.0, 2.0, 2.0]);
    let g = GameObjectDescription::new("", t, None);
    assert!(!g.is_valid());
    let e = g.validate().unwrap_err();
    assert_eq!(e.error_kind(), ErrorKind::Deserialization);
    assert_eq!(e.message().as_str(), "id");
    assert_eq!(e.description(), "DeserializationError");
}

#[test]
fn gameobject_description_with_short_rotation_is_rejected() {
    let t = transform(&[1.0, 2.0, 3.0], &[0.0], &[2.0, 2.0, 2.0]);
    let e = GameObjectDescription::new("go", t, None).validate().unwrap_err();
    assert_eq!(e.message().as_str(), "transform.rotation");
}

#[test]
fn valid_gameobject_description_passes_validation() {
    let t = transform(&[1.0, 2.0, 3.0], &[0.0, 0.0, 0.0], &[2.0, 2.0, 2.0]);
    let g = GameObjectDescription::new("go", t, None).validate().unwrap();
    assert_eq!(g.id(), "go");
    assert!(g.mesh().is_none());
}

#[test]
fn builder_sets_transform_and_mesh() {
    let mut b = GameObjectBuilder::new("go4");
    assert!(b.get_mesh_resource().is_none());
    assert!(b.transform().position().is_empty());
    b.add_transform(transform(&[1.0, 2.0, 3.0], &[0.0, 0.0, 0.0], &[2.0, 2.0, 2.0]))
        .add_mesh(Some(MeshDescription::new("path_test_mesh")));
    assert_eq!(b.id(), "go4");
    assert_eq!(b.get_mesh_resource(), Some(String::from("path_test_mesh")));
    assert_eq!(numbers(b.transform().scale()), vec![2.0, 2.0, 2.0]);
    let g = b.build();
    assert_eq!(g.id(), "go4");
    assert_eq!(numbers(g.transform().position()), vec![1.0, 2.0, 3.0]);
    assert_eq!(numbers(g.transform().rotation()), vec![0.0, 0.0, 0.0]);
    assert_eq!(g.mesh().as_ref().unwrap().path(), "path_test_mesh");
    b.add_mesh(None);
    assert!(b.get_mesh_resource().is_none());
    assert!(b.mesh_description().is_none());
}

#[test]
fn level_description_keeps_path_order_and_duplicates() {
    let mut l = LevelDescription::new("level2");
    assert_eq!(l.title(), "level2");
    assert_eq!(l.slice().iter().count(), 0);
    l.add_gameobject("gameobject4.toml")
        .add_gameobject("gameobject5.toml")
        .add_gameobject("gameobject4.toml");
    assert_eq!(l.len(), 3);
    assert_eq!(l.slice(), &["gameobject4.toml", "gameobject5.toml", "gameobject4.toml"]);
    assert_eq!(l.gameobject(1), "gameobject5.toml");
    let l = LevelDescription::from_parts("l", vec![String::from("a"), String::from("b")]);
    assert_eq!(l.slice(), &["a", "b"]);
}

#[test]
fn gameobject_round_trips_through_its_description() {
    let t = transform(&[5.0, 7.0, 11.0], &[0.8, 5.2, 1.0], &[2.4, 2.2, 2.9]);
    let d = GameObjectDescription::new("go5", t, None);
    let g = GameObject::from_gameobject_description(&d, None).unwrap();
    assert_eq!(g.id(), "go5");
    assert!(g.mesh().is_none());
    let back = g.to_description();
    assert_eq!(back.id(), "go5");
    assert_eq!(numbers(back.transform().position()), vec![5.0, 7.0, 11.0]);
    assert_eq!(numbers(back.transform().rotation()), vec![0.8, 5.2, 1.0]);
    assert_eq!(numbers(back.transform().scale()), vec![2.4, 2.2, 2.9]);
    assert!(back.mesh().is_none());
}

#[test]
fn gameobject_from_invalid_description_fails() {
    let t = transform(&[5.0, 7.0, 11.0], &[0.8, 5.2], &[2.4, 2.2, 2.9]);
    let d = GameObjectDescription::new("go5", t, None);
    let e = GameObject::from_gameobject_description(&d, None).unwrap_err();
    assert_eq!(e.error_kind(), ErrorKind::Deserialization);
    assert_eq!(e.message().as_str(), "transform.rotation");
}

#[test]
fn level_flattens_into_paths_and_descriptions() {
    let id = Transform {
        position: Vector3 { x: 0, y: 0, z: 0 },
        rotation: Vector3 { x: 0, y: 0, z: 0 },
        scale: Vector3 { x: 1.0f64.to_bits(), y: 1.0f64.to_bits(), z: 1.0f64.to_bits() },
    };
    let objects = vec![GameObject::new("a.toml", id, None), GameObject::new("b.toml", id, None)];
    let level = Level::new("level3", objects);
    assert_eq!(level.level_title(), "level3");
    assert_eq!(level.gameobjects().len(), 2);
    let d = level.to_description();
    assert_eq!(d.title(), "level3");
    assert_eq!(d.slice(), &["a.toml", "b.toml"]);
    let descs = level.gameobject_descriptions();
    assert_eq!(descs.len(), 2);
    assert_eq!(descs[1].id(), "b.toml");
    assert_eq!(numbers(descs[0].transform().scale()), vec![1.0, 1.0, 1.0]);
}

#[test]
fn empty_level_flattens_into_empty_description() {
    let level = Level::new("level3", Vec::new());
    assert_eq!(level.gameobjects().iter().count(), 0);
    assert_eq!(level.to_description().slice().len(), 0);
}
