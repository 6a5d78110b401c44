//! The stages that the application moves through while its assets load.

use crate::discriminant::{Enum, FromDiscriminant};
use vstd::prelude::*;

verus! {

/// Where the application stands: still loading, running, or stopped because
/// loading failed.
#[derive(Clone, Copy, Debug, PartialEq, Eq, Structural, Hash)]
pub enum Stage {
    Initial,
    Game,
    Fail,
}

impl Default for Stage {
    fn default() -> (stage: Stage)
        ensures
            stage == Stage::Initial,
    {
        Stage::Initial
    }
}

impl Enum for Stage {
    type Discriminant = u8;

    open spec fn value_of(d: u8) -> int {
        d as int
    }

    open spec fn discriminant(self) -> int {
        match self {
            Stage::Initial => 0,
            Stage::Game => 1,
            Stage::Fail => 2,
        }
    }

    fn min() -> (d: u8) {
        assert(Stage::Initial.discriminant() == 0);
        0
    }

    fn max() -> (d: u8) {
        assert(Stage::Fail.discriminant() == 2);
        2
    }

    proof fn variants_are_distinct(a: Stage, b: Stage) {
    }
}

impl FromDiscriminant for Stage {
    fn from_discriminant(d: u8) -> (v: Option<Stage>) {
        match d {
            0 => Some(Stage::Initial),
            1 => Some(Stage::Game),
            2 => Some(Stage::Fail),
            _ => None,
        }
    }

    fn next(self) -> (v: Option<Stage>) {
        match self {
            Stage::Initial => Some(Stage::Game),
            Stage::Game => Some(Stage::Fail),
            Stage::Fail => None,
        }
    }

    fn previous(self) -> (v: Option<Stage>) {
        match self {
            Stage::Initial => None,
            Stage::Game => Some(Stage::Initial),
            Stage::Fail => Some(Stage::Game),
        }
    }
}

} // verus!
