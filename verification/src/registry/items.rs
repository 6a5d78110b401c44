//! The items of the game.

use crate::json::Json;
use crate::registry::{ContentKind, SpriteRef};
use vstd::prelude::*;

verus! {

/// The definition of an item.
#[derive(Debug)]
pub struct Item {
    pub sprite: SpriteRef,
}

impl Clone for Item {
    fn clone(&self) -> (copy: Item)
        ensures
            copy == *self,
    {
        Item { sprite: self.sprite.clone() }
    }
}

/// The sprite that the `sprite` member of a definition describes, where the
/// definition is an object with that member and no other.
pub open spec fn sprite_of(doc: Json) -> Option<SpriteRef> {
    if !doc.spec_has_only(seq!["sprite"]) {
        None
    } else {
        match doc.spec_member("sprite"@) {
            Some(sprite) => SpriteRef::described(sprite),
            None => None,
        }
    }
}

/// Reads the sprite of a definition.
pub fn read_sprite(doc: &Json) -> (sprite: Option<SpriteRef>)
    ensures
        sprite == sprite_of(*doc),
{
    let names = ["sprite"];
    assert(names@ =~= seq!["sprite"]);
    if !doc.has_only(names.as_slice()) {
        return None;
    }
    match doc.member("sprite") {
        Some(sprite) => SpriteRef::from_json(sprite),
        None => None,
    }
}

impl ContentKind for Item {
    /// An item is an object with the member `sprite` and no other.
    open spec fn described(doc: Json) -> Option<Item> {
        match sprite_of(doc) {
            Some(sprite) => Some(Item { sprite }),
            None => None,
        }
    }

    fn from_json(doc: &Json) -> (item: Option<Item>) {
        match read_sprite(doc) {
            Some(sprite) => Some(Item { sprite }),
            None => None,
        }
    }
}

} // verus!
