//! Which stage follows asset loading, and which systems wait for it.

use crate::json::text_eq;
use crate::render::ImageHandle;
use crate::stage::Stage;
use vstd::prelude::*;

verus! {

/// How far the loading of the asset collections has come.
#[derive(Clone, Copy, Debug, PartialEq, Eq, Structural)]
pub enum Loading {
    Pending,
    Done,
    Failed,
}

/// The stage that follows `stage` once loading stands at `loading`.
pub open spec fn stage_after(stage: Stage, loading: Loading) -> Stage {
    match (stage, loading) {
        (Stage::Initial, Loading::Done) => Stage::Game,
        (Stage::Initial, Loading::Failed) => Stage::Fail,
        _ => stage,
    }
}

/// The rule that moves the application out of its initial stage: to the game
/// when every collection has loaded, to the failure stage when one could not
/// be.
pub struct AssetInitiatorPlugin;

impl AssetInitiatorPlugin {
    /// The stage to continue in. Only the initial stage is ever left, and
    /// only when loading has ended.
    pub fn advance(&self, stage: Stage, loading: Loading) -> (next: Stage)
        ensures
            next == stage_after(stage, loading),
    {
        match stage {
            Stage::Initial => match loading {
                Loading::Pending => Stage::Initial,
                Loading::Done => Stage::Game,
                Loading::Failed => Stage::Fail,
            },
            _ => stage,
        }
    }
}

/// The set of systems that need the loaded assets.
#[derive(Clone, Copy, Debug, PartialEq, Eq, Structural, Hash)]
pub struct RequiresAssetSet;

impl RequiresAssetSet {
    /// Whether the systems of this set run in `stage`: they do in the game
    /// and in no other stage.
    pub fn runs_in(&self, stage: Stage) -> (runs: bool)
        ensures
            runs <==> stage == Stage::Game,
    {
        match stage {
            Stage::Game => true,
            _ => false,
        }
    }
}

/// The images of the game, each under the name of the catalog that it
/// belongs to.
#[derive(Clone, Copy, Debug, PartialEq, Eq, Structural)]
pub struct Atlases {
    pub items: ImageHandle,
}

impl Atlases {
    /// The image that stands under `name`: that of the items for the name
    /// `items`, none for any other name.
    pub open spec fn spec_get_field(&self, name: Seq<char>) -> Option<ImageHandle> {
        if name == "items"@ {
            Some(self.items)
        } else {
            None
        }
    }

    pub fn get_field(&self, name: &str) -> (image: Option<ImageHandle>)
        ensures
            image == self.spec_get_field(name@),
    {
        if text_eq(name, "items") {
            Some(self.items)
        } else {
            None
        }
    }
}

} // verus!
