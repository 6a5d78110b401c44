//! The entities that are spawned from the catalogs.

pub mod movement;
pub mod player;

use crate::entity::movement::Controller;
use crate::json::Json;
use crate::registry::items::{read_sprite, sprite_of};
use crate::registry::{ContentKind, SpriteRef};
use vstd::prelude::*;

verus! {

/// How the physics engine treats a body.
#[derive(Clone, Copy, Debug, PartialEq, Eq, Structural)]
pub enum RigidBody {
    /// Moved by forces and contacts.
    Dynamic,
    /// Never moves.
    Static,
    /// Moved by its velocity alone.
    Kinematic,
}

/// Asks `avian2d` for the body that `RigidBody::default()` gives, which its
/// source marks as the dynamic one, and names the variant that came back.
#[verifier::external_body]
fn default_body() -> (body: RigidBody)
    ensures
        body == RigidBody::Dynamic,
{
    match avian2d::prelude::RigidBody::default() {
        avian2d::prelude::RigidBody::Dynamic => RigidBody::Dynamic,
        avian2d::prelude::RigidBody::Static => RigidBody::Static,
        avian2d::prelude::RigidBody::Kinematic => RigidBody::Kinematic,
    }
}

impl Default for RigidBody {
    fn default() -> (body: RigidBody)
        ensures
            body == RigidBody::Dynamic,
    {
        default_body()
    }
}

/// The definition of a creature: its sprite, and the steering and the body
/// that the engine manages once the creature lives.
#[derive(Debug)]
pub struct LivingEntity {
    pub sprite: SpriteRef,
    pub controller: Controller,
    pub rb: RigidBody,
}

/// The definition with the given sprite whose steering and body are as the
/// engine first makes them.
pub open spec fn fresh_entity(sprite: SpriteRef) -> LivingEntity {
    LivingEntity { sprite, controller: Controller { action: None }, rb: RigidBody::Dynamic }
}

impl Clone for LivingEntity {
    /// A copy keeps the sprite. It does not keep the steering and the body:
    /// those belong to one living entity and start afresh in the copy.
    fn clone(&self) -> (copy: LivingEntity)
        ensures
            copy == fresh_entity(self.sprite),
    {
        LivingEntity {
            sprite: self.sprite.clone(),
            controller: Controller::default(),
            rb: RigidBody::default(),
        }
    }
}

impl ContentKind for LivingEntity {
    /// A creature is an object with the member `sprite` and no other. Its
    /// steering and its body are not read: they start afresh.
    open spec fn described(doc: Json) -> Option<LivingEntity> {
        match sprite_of(doc) {
            Some(sprite) => Some(fresh_entity(sprite)),
            None => None,
        }
    }

    fn from_json(doc: &Json) -> (item: Option<LivingEntity>) {
        match read_sprite(doc) {
            Some(sprite) => Some(
                LivingEntity { sprite, controller: Controller::default(), rb: RigidBody::default() },
            ),
            None => None,
        }
    }
}

} // verus!
