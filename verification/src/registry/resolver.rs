//! The resolution of sprites: the pass that turns pending sprite references
//! into sprites once the layout and the image of their catalog are at hand.

use crate::assets::Atlases;
use crate::atlas::{AtlasConfig, LayoutHandle};
use crate::registry::schema::{IndexConfig, SpriteRef};
use crate::registry::tracker::RegistryAccess;
use crate::registry::Registry;
use crate::render::animation::Animated;
use crate::render::{ImageHandle, Sprite, TextureAtlas};
use vstd::prelude::*;

verus! {

/// What an entity shows: a sprite reference that waits to be resolved, or
/// the sprite it was resolved to, with its animation where it has one.
#[derive(Debug)]
pub enum Visual {
    Pending(SpriteRef),
    Static(Sprite),
    Animated(Animated),
}

/// How a resolution pass ended.
#[derive(Clone, Copy, Debug, PartialEq, Eq, Structural)]
pub enum Resolution {
    /// No sprite reference is left pending.
    Resolved,
    /// No layout has been derived for the catalog yet, so nothing can be
    /// resolved in this pass.
    NotReady,
    /// The catalog has loaded and declares no grid, so no layout will ever be
    /// derived: sprite references cannot be resolved against this catalog.
    NoAtlas,
    /// The image set holds no image under the catalog's name, so every
    /// pending sprite reference stays pending.
    MissingImage,
}

/// The sprite that shows cell `index` of `image` under `layout`.
pub open spec fn sprite_at(image: ImageHandle, layout: LayoutHandle, index: usize) -> Sprite {
    Sprite { image, texture_atlas: Some(TextureAtlas { layout, index }) }
}

/// What a visual is after resolution. A reference to a single cell becomes
/// the sprite of that cell; a reference to a range becomes the sprite of the
/// first cell of the range together with the animation. Anything already
/// resolved stays as it is.
pub open spec fn resolved_visual(visual: Visual, image: ImageHandle, layout: LayoutHandle)
    -> Visual {
    match visual {
        Visual::Pending(sprite) => match sprite.idx_config {
            IndexConfig::Single(index) => Visual::Static(sprite_at(image, layout, index)),
            IndexConfig::Range(animation) => Visual::Animated(
                Animated { sprite: sprite_at(image, layout, animation.start), config: animation },
            ),
        },
        _ => visual,
    }
}

/// Whether any of the entities waits to be resolved.
pub open spec fn has_pending(entities: Seq<Visual>) -> bool {
    exists|i: int| 0 <= i < entities.len() && #[trigger] entities[i] is Pending
}

/// What a resolution pass makes of the entities, given the layout of the
/// catalog and the image under its name, where there are such. `declared` is
/// `None` while the catalog has not loaded, and otherwise what it declares as
/// its grid.
pub open spec fn resolution(
    entities: Seq<Visual>,
    layout: Option<LayoutHandle>,
    declared: Option<Option<AtlasConfig>>,
    image: Option<ImageHandle>,
) -> (Resolution, Seq<Visual>) {
    match layout {
        None => if declared == Some(None::<AtlasConfig>) {
            (Resolution::NoAtlas, entities)
        } else {
            (Resolution::NotReady, entities)
        },
        Some(layout) => if !has_pending(entities) {
            (Resolution::Resolved, entities)
        } else {
            match image {
                None => (Resolution::MissingImage, entities),
                Some(image) => (
                    Resolution::Resolved,
                    Seq::new(entities.len(), |i: int| resolved_visual(entities[i], image, layout)),
                ),
            }
        },
    }
}

impl<Item> Registry<Item> {
    /// Resolves every pending sprite reference among `entities` against the
    /// layout of the catalog and the image that `atlases` holds under the
    /// catalog's name. Either all of them are resolved or none is.
    pub fn update_sprite_refs(
        entities: &mut Vec<Visual>,
        registry: &RegistryAccess<'_, Item>,
        atlases: &Atlases,
    ) -> (outcome: Resolution)
        ensures
            (outcome, final(entities)@) == resolution(
                old(entities)@,
                registry.spec_handle().spec_atlas_layout(),
                registry.spec_declared(),
                registry.spec_image(*atlases),
            ),
    {
        let layout = match registry.texture_atlas_layout() {
            Some(layout) => layout,
            None => {
                return match registry.loaded() {
                    Some(reg) => match reg.atlas_layout() {
                        Some(_) => Resolution::NotReady,
                        None => Resolution::NoAtlas,
                    },
                    None => Resolution::NotReady,
                };
            },
        };
        let image = match registry.loaded() {
            Some(reg) => atlases.get_field(reg.identifier()),
            None => None,
        };
        let mut i: usize = 0;
        while i < entities.len()
            invariant
                i <= entities@.len(),
                entities@.len() == old(entities)@.len(),
                registry.spec_handle().spec_atlas_layout() == Some(layout),
                image == registry.spec_image(*atlases),
                forall|j: int| i <= j < entities@.len() ==> entities@[j] == old(entities)@[j],
                image matches Some(found) ==> forall|j: int|
                    0 <= j < i ==> #[trigger] entities@[j] == resolved_visual(
                        old(entities)@[j],
                        found,
                        layout,
                    ),
                image is None ==> forall|j: int|
                    0 <= j < i ==> entities@[j] == old(entities)@[j] && !(
                    #[trigger] old(entities)@[j] is Pending),
            decreases entities@.len() - i,
        {
            let pending = match &entities[i] {
                Visual::Pending(sprite) => Some(sprite.idx_config),
                _ => None,
            };
            if let Some(idx_config) = pending {
                let found = match image {
                    Some(found) => found,
                    None => {
                        assert(entities@ =~= old(entities)@);
                        assert(old(entities)@[i as int] is Pending);
                        return Resolution::MissingImage;
                    },
                };
                let visual = match idx_config {
                    IndexConfig::Single(idx) => Visual::Static(
                        Sprite::from_atlas_image(found, TextureAtlas { layout, index: idx }),
                    ),
                    IndexConfig::Range(ac) => Visual::Animated(
                        Animated {
                            sprite: Sprite::from_atlas_image(
                                found,
                                TextureAtlas { layout, index: ac.start },
                            ),
                            config: ac,
                        },
                    ),
                };
                entities.set(i, visual);
            }
            i += 1;
        }
        proof {
            if has_pending(old(entities)@) {
                let found = image->0;
                assert(entities@ =~= Seq::new(
                    old(entities)@.len(),
                    |k: int| resolved_visual(old(entities)@[k], found, layout),
                ));
            } else {
                assert forall|j: int| 0 <= j < entities@.len() implies entities@[j] == old(
                    entities,
                )@[j] by {
                    assert(!(old(entities)@[j] is Pending));
                }
                assert(entities@ =~= old(entities)@);
            }
        }
        Resolution::Resolved
    }
}

/// A second resolution pass changes nothing: what the first pass resolved
/// holds no sprite reference any more, and what it left alone is left alone
/// again.
pub proof fn lemma_resolution_is_idempotent(
    entities: Seq<Visual>,
    layout: Option<LayoutHandle>,
    declared: Option<Option<AtlasConfig>>,
    image: Option<ImageHandle>,
)
    ensures
        resolution(resolution(entities, layout, declared, image).1, layout, declared, image)
            == resolution(entities, layout, declared, image),
{
    let first = resolution(entities, layout, declared, image);
    if layout is Some && has_pending(entities) && image is Some {
        assert(!has_pending(first.1));
    }
}

} // verus!
