//! Sprites and the texture files they are drawn from.

use vstd::prelude::*;

verus! {

/// The folder, relative to the working directory, that holds the game's assets.
pub open spec fn assets_folder() -> Seq<char> {
    "assets/"@
}

/// Returns the folder that holds the game's assets.
pub fn get_assets_folder() -> (folder: String)
    ensures
        folder@ == assets_folder(),
{
    String::from_str("assets/")
}

/// A sprite can be made from multiple textures (images in our case).
#[derive(Debug, Clone, PartialEq, Eq, Hash)]
pub struct Sprite {
    pub textures: Vec<TextureFile>,
}

impl Sprite {
    /// A sprite drawn from the given textures, in the given order.
    pub fn new(textures: Vec<TextureFile>) -> (sprite: Self)
        ensures
            sprite.textures@ == textures@,
    {
        Sprite { textures }
    }
}

/// An image file that a sprite can be drawn from.
#[derive(Debug, Clone, Copy, PartialEq, Eq, Hash, Structural)]
pub enum TextureFile {
    Unimplemented,
}

/// The name of a texture's file inside the assets folder.
pub open spec fn texture_file_name(texture: TextureFile) -> Seq<char> {
    match texture {
        TextureFile::Unimplemented => "unimplemented.png"@,
    }
}

/// The path of a texture's file: the assets folder followed by the file's name.
pub open spec fn texture_path(texture: TextureFile) -> Seq<char> {
    assets_folder() + texture_file_name(texture)
}

impl TextureFile {
    /// The path to the texture's image file, which is what the texture displays as.
    pub fn to_string(&self) -> (path: String)
        ensures
            path@ == texture_path(*self),
    {
        let folder = get_assets_folder();
        let file = match self {
            TextureFile::Unimplemented => "unimplemented.png",
        };
        folder.concat(file)
    }
}

/// Every texture's path lies inside the assets folder: the folder is a prefix of it.
pub proof fn lemma_texture_path_in_assets_folder(texture: TextureFile)
    ensures
        assets_folder().is_prefix_of(texture_path(texture)),
        texture_path(texture).len() > assets_folder().len(),
{
    reveal_strlit("assets/");
    reveal_strlit("unimplemented.png");
    let path = texture_path(texture);
    assert(path.subrange(0, assets_folder().len() as int) =~= assets_folder());
}

} // verus!
