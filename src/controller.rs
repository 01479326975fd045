use vstd::prelude::*;
use crate::movement::{axis_from_keys, axis_of, HeldKeys, MoveAxis};

verus! {

/// Whether yaw and pitch have been seeded from the camera's orientation yet.
#[derive(Clone, Copy, Debug, PartialEq, Eq, Structural)]
pub enum ControllerPhase {
    Uninitialized,
    Active,
}

/// Whether the cursor is held by the window for mouse-look.
#[derive(Clone, Copy, Debug, PartialEq, Eq, Structural)]
pub enum CursorLock {
    Free,
    Locked,
}

/// What the host's window layer must do with the cursor after a frame.
#[derive(Clone, Copy, Debug, PartialEq, Eq, Structural)]
pub enum CursorAction {
    Keep,
    Lock,
    Release,
}

/// The discrete state of one camera's controller.
#[derive(Clone, Copy, Debug, PartialEq, Eq, Structural)]
pub struct ControllerState {
    pub enabled: bool,
    pub phase: ControllerPhase,
    pub cursor: CursorLock,
}

/// The discrete input of one frame.
#[derive(Clone, Copy, Debug, PartialEq, Eq, Structural)]
pub struct TickInput {
    pub keys: HeldKeys,
    pub grab_held: bool,
}

/// What the host does during one frame.
#[derive(Clone, Copy, Debug, PartialEq, Eq, Structural)]
pub struct TickPlan {
    /// Decompose the camera's orientation into yaw and pitch before anything else.
    pub seed_orientation: bool,
    /// The direction of the target velocity, in camera-local terms.
    pub axis: MoveAxis,
    /// Use the run speed rather than the walk speed.
    pub run: bool,
    /// Smooth the velocity toward the target, apply scroll and move the camera.
    pub integrate_motion: bool,
    /// Turn the mouse delta into yaw and pitch; otherwise the delta is discarded.
    pub apply_look: bool,
    pub cursor: CursorAction,
}

/// The cursor lock that the window holds after an action.
pub open spec fn lock_after(lock: CursorLock, action: CursorAction) -> CursorLock {
    match action {
        CursorAction::Keep => lock,
        CursorAction::Lock => CursorLock::Locked,
        CursorAction::Release => CursorLock::Free,
    }
}

/// The action that moves the cursor from `current` to the lock wanted, and
/// `Keep` where it is there already.
pub open spec fn cursor_action_spec(current: CursorLock, want_locked: bool) -> CursorAction {
    if want_locked && current == CursorLock::Free {
        CursorAction::Lock
    } else if !want_locked && current == CursorLock::Locked {
        CursorAction::Release
    } else {
        CursorAction::Keep
    }
}

/// The plan of a frame. A disabled controller ignores all input and only
/// releases a cursor that is still locked; an enabled one seeds its
/// orientation on its first frame, moves as the keys ask, and looks around
/// while the grab button is held.
pub open spec fn plan_of(s: ControllerState, i: TickInput) -> TickPlan {
    if !s.enabled {
        TickPlan {
            seed_orientation: false,
            axis: MoveAxis { x: 0, y: 0, z: 0 },
            run: false,
            integrate_motion: false,
            apply_look: false,
            cursor: cursor_action_spec(s.cursor, false),
        }
    } else {
        TickPlan {
            seed_orientation: s.phase == ControllerPhase::Uninitialized,
            axis: axis_of(i.keys),
            run: i.keys.run,
            integrate_motion: true,
            apply_look: i.grab_held,
            cursor: cursor_action_spec(s.cursor, i.grab_held),
        }
    }
}

/// The state after a frame.
pub open spec fn next_state(s: ControllerState, i: TickInput) -> ControllerState {
    if !s.enabled {
        ControllerState { cursor: CursorLock::Free, ..s }
    } else {
        ControllerState {
            enabled: true,
            phase: ControllerPhase::Active,
            cursor: if i.grab_held { CursorLock::Locked } else { CursorLock::Free },
        }
    }
}

/// Chooses the cursor action toward the lock wanted.
pub fn cursor_action(current: CursorLock, want_locked: bool) -> (r: CursorAction)
    ensures
        r == cursor_action_spec(current, want_locked),
        lock_after(current, r) == (if want_locked { CursorLock::Locked } else { CursorLock::Free }),
{
    match current {
        CursorLock::Free => if want_locked {
            CursorAction::Lock
        } else {
            CursorAction::Keep
        },
        CursorLock::Locked => if want_locked {
            CursorAction::Keep
        } else {
            CursorAction::Release
        },
    }
}

impl ControllerState {
    /// A controller for a newly spawned camera: enabled, not yet seeded, the
    /// cursor free.
    pub fn new() -> (r: ControllerState)
        ensures
            r.enabled,
            r.phase == ControllerPhase::Uninitialized,
            r.cursor == CursorLock::Free,
    {
        ControllerState {
            enabled: true,
            phase: ControllerPhase::Uninitialized,
            cursor: CursorLock::Free,
        }
    }

    /// Switches the controller on or off. Switching it off takes effect at the
    /// next frame, which releases the cursor.
    pub fn set_enabled(&mut self, on: bool)
        ensures
            *final(self) == (ControllerState { enabled: on, ..*old(self) }),
    {
        self.enabled = on;
    }

    /// Whether the cursor is locked for mouse-look.
    pub fn is_locked(&self) -> (r: bool)
        ensures
            r == (self.cursor == CursorLock::Locked),
    {
        match self.cursor {
            CursorLock::Locked => true,
            CursorLock::Free => false,
        }
    }

    /// Advances the controller by one frame and returns what the host must do.
    pub fn tick(&mut self, input: &TickInput) -> (plan: TickPlan)
        ensures
            plan == plan_of(*old(self), *input),
            *final(self) == next_state(*old(self), *input),
            final(self).cursor == lock_after(old(self).cursor, plan.cursor),
            plan.axis.unit_steps(),
    {
        if !self.enabled {
            let action = cursor_action(self.cursor, false);
            self.cursor = CursorLock::Free;
            return TickPlan {
                seed_orientation: false,
                axis: MoveAxis::zero(),
                run: false,
                integrate_motion: false,
                apply_look: false,
                cursor: action,
            };
        }
        let seed = match self.phase {
            ControllerPhase::Uninitialized => true,
            ControllerPhase::Active => false,
        };
        let action = cursor_action(self.cursor, input.grab_held);
        self.phase = ControllerPhase::Active;
        self.cursor = if input.grab_held {
            CursorLock::Locked
        } else {
            CursorLock::Free
        };
        TickPlan {
            seed_orientation: seed,
            axis: axis_from_keys(&input.keys),
            run: input.keys.run,
            integrate_motion: true,
            apply_look: input.grab_held,
            cursor: action,
        }
    }
}

/// A disabled controller ignores its input: it plans no seeding, no motion
/// and no look, keeps its phase, and leaves the cursor free. Where the cursor
/// is free already, the frame changes nothing at all.
pub proof fn lemma_disabled_tick_is_inert(s: ControllerState, i: TickInput)
    requires
        !s.enabled,
    ensures
        !plan_of(s, i).seed_orientation,
        !plan_of(s, i).integrate_motion,
        !plan_of(s, i).apply_look,
        plan_of(s, i).axis.len_sq_spec() == 0,
        plan_of(s, i).cursor != CursorAction::Lock,
        !next_state(s, i).enabled,
        next_state(s, i).phase == s.phase,
        next_state(s, i).cursor == CursorLock::Free,
        s.cursor == CursorLock::Free ==> next_state(s, i) == s && plan_of(s, i).cursor
            == CursorAction::Keep,
{
}

/// Once a disabled controller has had one frame, every further frame leaves
/// its state as it is and asks nothing of the cursor, whatever the input.
pub proof fn lemma_disabled_ticks_settle(s: ControllerState, i1: TickInput, i2: TickInput)
    requires
        !s.enabled,
    ensures
        next_state(next_state(s, i1), i2) == next_state(s, i1),
        plan_of(next_state(s, i1), i2).cursor == CursorAction::Keep,
        !plan_of(next_state(s, i1), i2).integrate_motion,
        !plan_of(next_state(s, i1), i2).apply_look,
{
}

/// A cursor action is only ever a change: the cursor is locked only when free
/// and released only when locked, so the window layer sees no repeated toggle,
/// and applying the action brings it to the controller's new lock state.
pub proof fn lemma_cursor_actions_are_changes(s: ControllerState, i: TickInput)
    ensures
        plan_of(s, i).cursor == CursorAction::Lock ==> s.cursor == CursorLock::Free,
        plan_of(s, i).cursor == CursorAction::Release ==> s.cursor == CursorLock::Locked,
        lock_after(s.cursor, plan_of(s, i).cursor) == next_state(s, i).cursor,
        next_state(s, i).cursor == CursorLock::Locked <==> s.enabled && i.grab_held,
{
}

/// Mouse-look is applied exactly on the frames of an enabled controller with
/// the grab button held.
pub proof fn lemma_look_needs_grab(s: ControllerState, i: TickInput)
    ensures
        plan_of(s, i).apply_look <==> s.enabled && i.grab_held,
{
}

/// The orientation is seeded on the first frame of an enabled controller and
/// never again after it.
pub proof fn lemma_seed_at_most_once(s: ControllerState, i1: TickInput, i2: TickInput)
    ensures
        s.enabled && s.phase == ControllerPhase::Uninitialized ==> plan_of(s, i1).seed_orientation,
        s.phase == ControllerPhase::Active ==> !plan_of(s, i1).seed_orientation,
        s.enabled ==> !plan_of(next_state(s, i1), i2).seed_orientation,
{
}

/// With no movement key held, an enabled controller aims at rest: the target
/// direction is zero while motion is still integrated, so the velocity decays.
pub proof fn lemma_no_keys_aims_at_rest(s: ControllerState, i: TickInput)
    requires
        s.enabled,
        !i.keys.forward && !i.keys.back && !i.keys.left && !i.keys.right && !i.keys.up
            && !i.keys.down,
    ensures
        plan_of(s, i).integrate_motion,
        plan_of(s, i).axis.len_sq_spec() == 0,
{
}

} // verus!
