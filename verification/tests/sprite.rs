use bioscape::common::component::marker::{Hoverable, Island, Player, SelectedIsland, Sea};
use bioscape::common::component::sprite::{get_assets_folder, Sprite, TextureFile};

#[test]
fn assets_folder_is_assets() {
    assert_eq!(get_assets_folder(), "assets/");
}

#[test]
fn texture_displays_as_its_path() {
    assert_eq!(TextureFile::Unimplemented.to_string(), "assets/unimplemented.png");
}

#[test]
fn texture_path_starts_with_assets_folder() {
    let path = TextureFile::Unimplemented.to_string();
    assert!(path.starts_with(&get_assets_folder()));
    assert!(path.len() > get_assets_folder().len());
}

#[test]
fn sprite_keeps_its_textures() {
    let sprite = Sprite::new(vec![TextureFile::Unimplemented, TextureFile::Unimplemented]);
    assert_eq!(sprite.textures, vec![TextureFile::Unimplemented, TextureFile::Unimplemented]);
    let empty = Sprite::new(Vec::new());
    assert!(empty.textures.is_empty());
}

#[test]
fn markers_debug_print_their_names() {
    assert_eq!(format!("{:?}", Hoverable), "Hoverable");
    assert_eq!(format!("{:?}", Player), "Player");
    assert_eq!(format!("{:?}", Island), "Island");
    assert_eq!(format!("{:?}", SelectedIsland), "SelectedIsland");
    assert_eq!(format!("{:?}", Sea), "Sea");
}
