//! The player's entity.

use crate::entity::{fresh_entity, LivingEntity};
use crate::identifier::Identifier;
use crate::registry::{Commands, Registry, RegistryAccess};
use vstd::prelude::*;

verus! {

/// Marks the entity that the player controls.
#[derive(Clone, Copy, Debug, PartialEq, Eq, Structural)]
pub struct PlayerMarker;

impl Default for PlayerMarker {
    fn default() -> (marker: PlayerMarker)
        ensures
            marker == PlayerMarker,
    {
        PlayerMarker
    }
}

/// What the player's entity carries beside its definition.
#[derive(Clone, Copy, Debug, PartialEq, Eq, Structural)]
pub struct Player {
    pub marker: PlayerMarker,
}

impl Default for Player {
    fn default() -> (player: Player)
        ensures
            player == (Player { marker: PlayerMarker }),
    {
        Player { marker: PlayerMarker::default() }
    }
}

/// A direction along one of the axes of the plane.
#[derive(Clone, Copy, Debug, PartialEq, Eq, Structural)]
pub enum Direction {
    X,
    NegX,
    Y,
    NegY,
}

/// The direction that the pressed keys ask for: up before down before left
/// before right, and none where none of them is pressed.
pub open spec fn direction_of(up: bool, down: bool, left: bool, right: bool) -> Option<Direction> {
    if up {
        Some(Direction::Y)
    } else if down {
        Some(Direction::NegY)
    } else if left {
        Some(Direction::X)
    } else if right {
        Some(Direction::NegX)
    } else {
        None
    }
}

/// Decides where the player walks from the keys that are held down.
pub fn control(up: bool, down: bool, left: bool, right: bool) -> (dir: Option<Direction>)
    ensures
        dir == direction_of(up, down, left, right),
{
    if up {
        Some(Direction::Y)
    } else if down {
        Some(Direction::NegY)
    } else if left {
        Some(Direction::X)
    } else if right {
        Some(Direction::NegX)
    } else {
        None
    }
}

/// The entities asked for once the player has been spawned from `catalog`:
/// one more where the catalog holds a definition named `player`, a fresh copy
/// of that definition together with the player's marker.
pub open spec fn with_player(
    catalog: Option<Registry<LivingEntity>>,
    before: Seq<(LivingEntity, Player)>,
) -> Seq<(LivingEntity, Player)> {
    match catalog {
        Some(catalog) => if catalog@.items.contains_key("player"@) {
            before.push(
                (fresh_entity(catalog@.items["player"@].sprite), Player { marker: PlayerMarker }),
            )
        } else {
            before
        },
        None => before,
    }
}

/// Spawns the player from the definition named `player`, the first time it
/// runs. `run_once` is the latch of this system: once it is set, nothing is
/// done. The first run sets it whether or not the catalog holds such a
/// definition; the catalog must have loaded by then.
pub fn spawn_player(
    commands: &mut Commands<(LivingEntity, Player)>,
    reg: &RegistryAccess<'_, LivingEntity>,
    run_once: &mut bool,
)
    requires
        !*old(run_once) ==> reg.is_loaded(),
    ensures
        *final(run_once),
        *old(run_once) ==> final(commands)@ == old(commands)@,
        !*old(run_once) ==> final(commands)@ == with_player(
            reg.spec_registry(),
            old(commands)@,
        ),
{
    if *run_once {
        return ;
    }
    let spawned = reg.registry().spawn(commands, &Identifier::new("player"), Player::default());
    proof {
        if spawned {
            let catalog = reg.spec_registry()->0;
            let entity = commands@.last().0;
            assert(entity == fresh_entity(catalog@.items["player"@].sprite));
            assert(commands@ =~= commands@.drop_last().push(commands@.last()));
        }
    }
    *run_once = true;
}

} // verus!
