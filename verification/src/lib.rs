//! A data-driven content registry: named content definitions loaded from a
//! JSON document, the sprite-sheet layout derived from it, and the passes that
//! turn pending sprite references into renderable state.

pub mod assets;
pub mod atlas;
pub mod discriminant;
pub mod entity;
pub mod identifier;
pub mod json;
pub mod mesh;
pub mod pipeline;
pub mod registry;
pub mod render;
pub mod stage;
