//! What steers an entity.

use vstd::prelude::*;

verus! {

/// Names an action that the application keeps: how fast, how hard and in
/// which direction to move.
#[derive(Clone, Copy, Debug, PartialEq, Eq, Structural)]
pub struct ActionHandle {
    pub id: u64,
}

/// The steering of one entity: the action to apply next, where one is set.
#[derive(Clone, Copy, Debug, PartialEq, Eq, Structural)]
pub struct Controller {
    pub action: Option<ActionHandle>,
}

impl Default for Controller {
    fn default() -> (controller: Controller)
        ensures
            controller == (Controller { action: None }),
    {
        Controller { action: None }
    }
}

impl Controller {
    /// Sets the action to apply next, in place of any that was set.
    pub fn action(&mut self, action: ActionHandle)
        ensures
            *final(self) == (Controller { action: Some(action) }),
    {
        self.action = Some(action);
    }

    /// Hands out the action to apply, and leaves none set.
    pub fn take(&mut self) -> (action: Option<ActionHandle>)
        ensures
            action == old(self).action,
            *final(self) == (Controller { action: None }),
    {
        let action = self.action;
        self.action = None;
        action
    }
}

} // verus!
