use spectra::module::ModuleKey;
use spectra::texture::TextureKey;

#[test]
fn module_key_keeps_its_path() {
    let key = ModuleKey::new("foo.bar.zoo");
    assert_eq!(key.as_str(), "foo.bar.zoo");
    assert_eq!(key, ModuleKey::new("foo.bar.zoo"));
    assert_ne!(key, ModuleKey::new("foo.bar"));
}

#[test]
fn module_key_maps_to_a_file_path() {
    assert_eq!(ModuleKey::new("foo.bar.zoo").key_to_path(), "foo/bar/zoo.chdr");
    assert_eq!(ModuleKey::new("solo").key_to_path(), "solo.chdr");
    assert_eq!(ModuleKey::new("").key_to_path(), ".chdr");
}

#[test]
fn texture_key_is_its_path() {
    let key = TextureKey::new("textures/wall.png");
    assert_eq!(key.0, "textures/wall.png");
    assert_eq!(key.key_to_path(), "textures/wall.png");
    assert_eq!(TextureKey::from("a.png"), TextureKey::new("a.png"));
}

#[test]
fn export_list_copies_to_an_equal_list() {
    let list = spectra::ssl::ExportList { export_list: std::collections::HashSet::new() };
    assert_eq!(list.clone(), list);
    assert!(list.clone().export_list.is_empty());
}
