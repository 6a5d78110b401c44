//! What the rendering surface is handed: a sprite that names an image, a
//! layout and a cell of that layout.

pub mod animation;

use crate::atlas::LayoutHandle;
use vstd::prelude::*;

verus! {

/// Names one image of the image set.
#[derive(Clone, Copy, Debug, PartialEq, Eq, Structural)]
pub struct ImageHandle {
    pub id: u64,
}

/// One cell of a layout.
#[derive(Clone, Copy, Debug, PartialEq, Eq, Structural)]
pub struct TextureAtlas {
    pub layout: LayoutHandle,
    pub index: usize,
}

/// The visual component of an entity: an image and, where the image is a
/// sprite sheet, the cell to show.
#[derive(Clone, Copy, Debug, PartialEq, Eq, Structural)]
pub struct Sprite {
    pub image: ImageHandle,
    pub texture_atlas: Option<TextureAtlas>,
}

impl Sprite {
    /// The sprite that shows cell `atlas.index` of `image`.
    pub fn from_atlas_image(image: ImageHandle, atlas: TextureAtlas) -> (sprite: Sprite)
        ensures
            sprite == (Sprite { image, texture_atlas: Some(atlas) }),
    {
        Sprite { image, texture_atlas: Some(atlas) }
    }
}

} // verus!
