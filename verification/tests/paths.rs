use tutti_session::neural_assets::NeuralModelLoader;
use tutti_session::paths::last_char_pos;
use tutti_session::paths::model_name_from_path;
use tutti_session::paths::to_lower_char;

#[test]
fn model_names_come_from_the_file_stem() {
    assert_eq!(model_name_from_path("models/violin.mpk"), "violin");
    assert_eq!(model_name_from_path("cello.mpk"), "cello");
    assert_eq!(model_name_from_path("a/b/c/drum.kit.mpk"), "drum.kit");
    assert_eq!(model_name_from_path("noext"), "noext");
    assert_eq!(model_name_from_path(".hidden"), ".hidden");
}

#[test]
fn pathless_names_fall_back_to_unknown() {
    assert_eq!(model_name_from_path(""), "unknown");
    assert_eq!(model_name_from_path("dir/"), "unknown");
}

#[test]
fn loader_names_the_asset_and_keeps_the_bytes() {
    let loader = NeuralModelLoader;
    let source = loader.load_from_bytes(vec![1, 2, 3], "models/violin.mpk");
    assert_eq!(source.name, "violin");
    assert_eq!(source.bytes(), &[1, 2, 3]);
}

#[test]
fn last_char_pos_scans_from_the_end() {
    assert_eq!(last_char_pos("a/b/c", '/'), Some(3));
    assert_eq!(last_char_pos("abc", '/'), None);
    assert_eq!(last_char_pos("x.y.z", '.'), Some(3));
}

#[test]
fn lowering_touches_only_ascii_capitals() {
    assert_eq!(to_lower_char('A'), 'a');
    assert_eq!(to_lower_char('Z'), 'z');
    assert_eq!(to_lower_char('a'), 'a');
    assert_eq!(to_lower_char('0'), '0');
    assert_eq!(to_lower_char('_'), '_');
}
