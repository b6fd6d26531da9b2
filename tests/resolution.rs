use maskerad_data_parser::error::{ErrorKind, LevelParserError};
use maskerad_data_parser::gameobject_description::GameObjectDescription;
use maskerad_data_parser::gltf_resource::{is_short_glb_header, GltfResource};
use maskerad_data_parser::level_description::LevelDescription;
use maskerad_data_parser::mesh_description::MeshDescription;
use maskerad_data_parser::resolver::{LevelResolver, ResolvePhase, ResolveStep};
use maskerad_data_parser::transform_description::TransformDescription;

const MINIMAL_GLTF: &str = "{\"asset\":{\"version\":\"2.0\"}}";

fn bits(v: &[f64]) -> Vec<u64> {
    v.iter().map(|x| x.to_bits()).collect()
}

fn description(id: &str, mesh: Option<&str>) -> GameObjectDescription {
    let t = TransformDescription::new(bits(&[0.0, 0.0, 0.0]), bits(&[0.0, 0.0, 0.0]), bits(&[1.0, 1.0, 1.0]));
    GameObjectDescription::new(id, t, mesh.map(MeshDescription::new))
}

fn not_found(path: &str) -> LevelParserError {
    LevelParserError::from_file_system(std::io::Error::new(std::io::ErrorKind::NotFound, path.to_string()))
}

fn expect_gameobject(r: &LevelResolver) -> String {
    match r.next_step() {
        ResolveStep::LoadGameObject(p) => p,
        other => panic!("unexpected step {:?}", other),
    }
}

fn expect_mesh(r: &LevelResolver) -> String {
    match r.next_step() {
        ResolveStep::LoadMesh(p) => p,
        other => panic!("unexpected step {:?}", other),
    }
}

#[test]
fn two_gameobjects_one_with_mesh_resolve_in_order() {
    let mut level = LevelDescription::new("level1");
    level.add_gameobject("gameobject1.toml");
    level.add_gameobject("gameobject2.toml");
    let mut r = LevelResolver::resolve_level(level);

    assert_eq!(expect_gameobject(&r), "gameobject1.toml");
    r.on_gameobject(description("gameobject1", None));
    assert_eq!(expect_gameobject(&r), "gameobject2.toml");
    r.on_gameobject(description("gameobject2", Some("mesh2.bin")));
    assert_eq!(r.phase(), ResolvePhase::AwaitingMesh);
    assert_eq!(expect_mesh(&r), "mesh2.bin");
    r.on_mesh_bytes(MINIMAL_GLTF.as_bytes());
    assert!(matches!(r.next_step(), ResolveStep::Finished));

    let level = r.into_level().unwrap();
    assert_eq!(level.level_title(), "level1");
    assert_eq!(level.gameobjects().len(), 2);
    assert_eq!(level.gameobjects()[0].id(), "gameobject1");
    assert!(level.gameobjects()[0].mesh().is_none());
    assert_eq!(level.gameobjects()[1].id(), "gameobject2");
    assert_eq!(level.gameobjects()[1].mesh().as_ref().unwrap().id(), "mesh2.bin");
}

#[test]
fn three_paths_resolve_in_path_order() {
    let mut level = LevelDescription::new("l");
    for p in ["p1", "p2", "p3"] {
        level.add_gameobject(p);
    }
    let mut r = LevelResolver::resolve_level(level);
    let mut asked = Vec::new();
    while let ResolveStep::LoadGameObject(p) = r.next_step() {
        let id = format!("object from {}", p);
        asked.push(p);
        r.on_gameobject(description(&id, None));
    }
    assert_eq!(asked, vec!["p1", "p2", "p3"]);
    let level = r.into_level().unwrap();
    let ids: Vec<&str> = level.gameobjects().iter().map(|g| g.id()).collect();
    assert_eq!(ids, vec!["object from p1", "object from p2", "object from p3"]);
}

#[test]
fn missing_second_path_fails_the_whole_level() {
    let mut level = LevelDescription::new("l");
    level.add_gameobject("p1");
    level.add_gameobject("p2");
    level.add_gameobject("p3");
    let mut r = LevelResolver::resolve_level(level);
    r.on_gameobject(description("g1", None));
    assert_eq!(expect_gameobject(&r), "p2");
    r.on_failure(not_found("p2"));
    assert_eq!(r.phase(), ResolvePhase::Failed);
    assert!(matches!(r.next_step(), ResolveStep::Failed));
    let e = r.into_level().unwrap_err();
    assert_eq!(e.error_kind(), ErrorKind::FileSystem);
    assert_eq!(e.description(), "FileSystemError");
    assert_eq!(e.message().as_str(), "p2: Error while manipulating the file system.");
}

#[test]
fn invalid_descriptor_fails_with_its_path_and_field() {
    let mut level = LevelDescription::new("l");
    level.add_gameobject("p1");
    let mut r = LevelResolver::resolve_level(level);
    r.on_gameobject(description("", None));
    let e = r.into_level().unwrap_err();
    assert_eq!(e.error_kind(), ErrorKind::Deserialization);
    assert_eq!(e.message().as_str(), "p1: id");
}

#[test]
fn undecodable_mesh_fails_with_asset_decode_error() {
    let mut level = LevelDescription::new("l");
    level.add_gameobject("p1");
    let mut r = LevelResolver::resolve_level(level);
    r.on_gameobject(description("g1", Some("broken.bin")));
    r.on_mesh_bytes(b"not a gltf asset");
    let e = r.into_level().unwrap_err();
    assert_eq!(e.error_kind(), ErrorKind::AssetDecode);
    assert_eq!(e.message().as_str(), "broken.bin: Error while manipulating gltf data.");
}

#[test]
fn empty_level_is_finished_at_once() {
    let mut r = LevelResolver::resolve_level(LevelDescription::new("empty"));
    assert_eq!(r.phase(), ResolvePhase::Finished);
    let level = r.into_level().unwrap();
    assert_eq!(level.gameobjects().len(), 0);
    r = LevelResolver::load_level_descriptions(LevelDescription::new("empty"));
    assert_eq!(r.into_descriptions().unwrap().len(), 0);
}

#[test]
fn duplicate_paths_are_resolved_independently() {
    let mut level = LevelDescription::new("l");
    level.add_gameobject("same");
    level.add_gameobject("same");
    let mut r = LevelResolver::resolve_level(level);
    assert_eq!(expect_gameobject(&r), "same");
    r.on_gameobject(description("first", None));
    assert_eq!(expect_gameobject(&r), "same");
    r.on_gameobject(description("second", None));
    let level = r.into_level().unwrap();
    assert_eq!(level.gameobjects()[0].id(), "first");
    assert_eq!(level.gameobjects()[1].id(), "second");
}

#[test]
fn descriptions_only_do_not_follow_meshes() {
    let mut level = LevelDescription::new("l");
    level.add_gameobject("p1");
    level.add_gameobject("p2");
    let mut r = LevelResolver::load_level_descriptions(level);
    r.on_gameobject(description("g1", Some("m.bin")));
    assert_eq!(expect_gameobject(&r), "p2");
    r.on_gameobject(description("g2", None));
    let descs = r.into_descriptions().unwrap();
    assert_eq!(descs.len(), 2);
    assert_eq!(descs[0].mesh().as_ref().unwrap().path(), "m.bin");
    assert_eq!(descs[1].id(), "g2");
}

#[test]
fn descriptions_only_fail_fast() {
    let mut level = LevelDescription::new("l");
    level.add_gameobject("p1");
    level.add_gameobject("p2");
    let mut r = LevelResolver::load_level_descriptions(level);
    r.on_failure(not_found("p1"));
    let e = r.into_descriptions().unwrap_err();
    assert_eq!(e.message().as_str(), "p1: Error while manipulating the file system.");
}

#[test]
fn gltf_decode_accepts_valid_and_rejects_garbage() {
    let ok = GltfResource::decode("mesh.gltf", MINIMAL_GLTF.as_bytes()).unwrap();
    assert_eq!(ok.id(), "mesh.gltf");
    assert_eq!(ok.gltf_data().meshes().len(), 0);
    let e = GltfResource::decode("mesh.gltf", b"{").unwrap_err();
    assert_eq!(e.error_kind(), ErrorKind::AssetDecode);
}

#[test]
fn decoded_mesh_completes_its_object() {
    let mut level = LevelDescription::new("l");
    level.add_gameobject("p1");
    let mut r = LevelResolver::resolve_level(level);
    r.on_gameobject(description("g1", Some("m.gltf")));
    r.on_mesh_decoded(gltf::Gltf::from_slice(MINIMAL_GLTF.as_bytes()));
    let level = r.into_level().unwrap();
    assert_eq!(level.gameobjects()[0].mesh().as_ref().unwrap().id(), "m.gltf");
}

#[test]
fn decoder_failure_fails_the_level() {
    let mut level = LevelDescription::new("l");
    level.add_gameobject("p1");
    level.add_gameobject("p2");
    let mut r = LevelResolver::resolve_level(level);
    r.on_gameobject(description("g1", Some("m.gltf")));
    r.on_mesh_decoded(gltf::Gltf::from_slice(b"[]"));
    assert_eq!(r.phase(), ResolvePhase::Failed);
    let e = r.into_level().unwrap_err();
    assert_eq!(e.error_kind(), ErrorKind::AssetDecode);
    assert_eq!(e.message().as_str(), "m.gltf: Error while manipulating gltf data.");
}

#[test]
fn resource_from_decoder_result() {
    let ok = GltfResource::from_decoded("a.gltf", gltf::Gltf::from_slice(MINIMAL_GLTF.as_bytes())).unwrap();
    assert_eq!(ok.id(), "a.gltf");
    let e = GltfResource::from_decoded("a.gltf", gltf::Gltf::from_slice(b"")).unwrap_err();
    assert_eq!(e.description(), "AssetDecodeError");
}

#[test]
fn glb_header_shorter_than_itself_is_refused() {
    let bytes: &[u8] = b"glTF\x02\x00\x00\x00\x05\x00\x00\x00";
    assert!(is_short_glb_header(bytes));
    assert!(!is_short_glb_header(b"glTF\x02\x00\x00\x00\x0c\x00\x00\x00"));
    assert!(!is_short_glb_header(MINIMAL_GLTF.as_bytes()));
    let e = GltfResource::decode("short.glb", bytes).unwrap_err();
    assert_eq!(e.error_kind(), ErrorKind::AssetDecode);

    let mut level = LevelDescription::new("l");
    level.add_gameobject("p1");
    let mut r = LevelResolver::resolve_level(level);
    r.on_gameobject(description("g1", Some("short.glb")));
    r.on_mesh_bytes(bytes);
    let e = r.into_level().unwrap_err();
    assert_eq!(e.message().as_str(), "short.glb: Error while manipulating gltf data.");
}

#[test]
fn glb_with_declared_length_at_least_its_header_reaches_the_decoder() {
    let e = GltfResource::decode("x.glb", b"glTF\x02\x00\x00\x00\x0c\x00\x00\x00").unwrap_err();
    assert_eq!(e.description(), "AssetDecodeError");
}

#[test]
fn dangling_position_accessor_is_refused_without_panic() {
    let bytes = br#"{"asset":{"version":"2.0"},"meshes":[{"primitives":[{"attributes":{"POSITION":0}}]}]}"#;
    let e = GltfResource::decode("dangling.gltf", bytes).unwrap_err();
    assert_eq!(e.error_kind(), ErrorKind::AssetDecode);
    assert!(matches!(
        e,
        LevelParserError::AssetDecodeError(_, gltf::Error::Validation(_))
    ));

    let mut level = LevelDescription::new("l");
    level.add_gameobject("p1");
    let mut r = LevelResolver::resolve_level(level);
    r.on_gameobject(description("g1", Some("dangling.gltf")));
    r.on_mesh_bytes(bytes);
    let e = r.into_level().unwrap_err();
    assert_eq!(e.message().as_str(), "dangling.gltf: Error while manipulating gltf data.");
}

#[test]
fn position_accessor_in_bounds_reaches_validation() {
    let bytes = br#"{"asset":{"version":"2.0"},"accessors":[{"componentType":5126,"count":1,"type":"VEC3"}],"meshes":[{"primitives":[{"attributes":{"POSITION":0}}]}]}"#;
    let e = GltfResource::decode("m.gltf", bytes).unwrap_err();
    assert_eq!(e.error_kind(), ErrorKind::AssetDecode);
}

#[test]
fn decoded_asset_is_kept() {
    let m = GltfResource::decode("m.gltf", MINIMAL_GLTF.as_bytes()).unwrap();
    assert_eq!(m.gltf_data().document.as_json().asset.version, "2.0");
}
