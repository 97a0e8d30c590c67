//! Decisions taken on player input: what the pickup actor is told, the
//! auto-jump switch, and the movement, pause and debug toggles.
use vstd::prelude::*;

verus! {

/// An order for the pickup actor.
#[derive(Clone, Copy, Debug, PartialEq, Eq, Structural)]
pub enum PickupAction {
    Throw,
    Drop,
    Pull,
}

/// The orders for one frame of mouse input: a throw on a fresh left click,
/// a drop on a fresh right click, and a pull for as long as the right button
/// is held, in that order.
pub open spec fn pickup_actions_spec(left_just: bool, right_just: bool, right_held: bool) -> Seq<
    PickupAction,
> {
    let a = if left_just {
        seq![PickupAction::Throw]
    } else {
        Seq::empty()
    };
    let b = if right_just {
        a.push(PickupAction::Drop)
    } else {
        a
    };
    if right_held {
        b.push(PickupAction::Pull)
    } else {
        b
    }
}

pub fn pickup_actions(left_just: bool, right_just: bool, right_held: bool) -> (r: Vec<PickupAction>)
    ensures
        r@ == pickup_actions_spec(left_just, right_just, right_held),
{
    let mut r: Vec<PickupAction> = Vec::new();
    if left_just {
        r.push(PickupAction::Throw);
    }
    if right_just {
        r.push(PickupAction::Drop);
    }
    if right_held {
        r.push(PickupAction::Pull);
    }
    proof {
        if left_just {
            assert(seq![PickupAction::Throw] == Seq::<PickupAction>::empty().push(
                PickupAction::Throw,
            ));
        }
    }
    r
}

/// Auto-jump flips when jump is freshly pressed with the modifier held.
pub fn auto_jump_after(enabled: bool, jump_just: bool, modifier_held: bool) -> (r: bool)
    ensures
        r == if jump_just && modifier_held {
            !enabled
        } else {
            enabled
        },
{
    if !jump_just || !modifier_held {
        return enabled;
    }
    !enabled
}

/// How the player's controller moves.
#[derive(Clone, Copy, Debug, PartialEq, Eq, Structural)]
pub enum MoveMode {
    Ground,
    Noclip,
}

impl MoveMode {
    pub fn toggled(self) -> (r: MoveMode)
        ensures
            r != self,
    {
        match self {
            MoveMode::Noclip => MoveMode::Ground,
            MoveMode::Ground => MoveMode::Noclip,
        }
    }
}

/// Whether debugging aids are shown.
#[derive(Clone, Copy, Debug, PartialEq, Eq, Structural)]
pub enum DebugState {
    Disabled,
    Enabled,
}

impl DebugState {
    pub fn toggled(self) -> (r: DebugState)
        ensures
            r != self,
    {
        match self {
            DebugState::Disabled => DebugState::Enabled,
            DebugState::Enabled => DebugState::Disabled,
        }
    }
}

} // verus!
