use gltf_viewer::asset::scene_asset_path;

#[test]
fn first_scene_of_helmet() {
    let p = scene_asset_path("models/FlightHelmet/FlightHelmet.gltf", 0);
    assert_eq!(p, Some("models/FlightHelmet/FlightHelmet.gltf#Scene0".to_string()));
}

#[test]
fn scene_index_with_several_digits() {
    assert_eq!(scene_asset_path("a.gltf", 10), Some("a.gltf#Scene10".to_string()));
    assert_eq!(scene_asset_path("a.gltf", 907), Some("a.gltf#Scene907".to_string()));
}

#[test]
fn largest_scene_index() {
    let p = scene_asset_path("b.glb", u64::MAX);
    assert_eq!(p, Some(format!("b.glb#Scene{}", u64::MAX)));
}

#[test]
fn empty_file_path() {
    assert_eq!(scene_asset_path("", 3), Some("#Scene3".to_string()));
}

#[test]
fn non_ascii_file_path() {
    assert_eq!(scene_asset_path("mödel/é.gltf", 2), Some("mödel/é.gltf#Scene2".to_string()));
}

#[test]
fn file_path_with_label_mark_is_refused() {
    assert_eq!(scene_asset_path("a.gltf#Scene0", 1), None);
    assert_eq!(scene_asset_path("#", 0), None);
    assert_eq!(scene_asset_path("dir#/x.gltf", 5), None);
}
