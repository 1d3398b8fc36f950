use vstd::prelude::*;

verus! {

/// Playback speed multipliers are stored in tenths of the base rate, so the
/// unit multiplier is 10 and the attack boost below is 1.8 times the base.
pub const UNIT_SPEED_TENTHS: u32 = 10;

/// Speed multiplier applied on top of the base playback when the attack
/// state is entered, in tenths.
pub const ATTACK_SPEED_TENTHS: u32 = 18;

/// When the idle state is re-entered its clip resumes this many time units
/// into its cycle instead of restarting, avoiding a visible cross-fade.
pub const IDLE_RESUME_OFFSET: u32 = 2;

/// The named animation states. Exactly one is active at a time; the selector
/// recomputes the target fresh every frame from the current signals.
#[derive(Clone, Copy, PartialEq, Eq, Structural, Debug)]
pub enum AnimationState {
    Idle,
    Walk,
    Run,
    Attack,
}

/// The playback parameters applied when a transition fires: a speed
/// multiplier in tenths on top of the state's base playback, a start offset
/// into the clip, and whether the clip loops. All states loop indefinitely.
#[derive(Clone, Copy, PartialEq, Eq, Structural, Debug)]
pub struct PlaybackParams {
    pub speed_multiplier_tenths: u32,
    pub start_offset: u32,
    pub looped: bool,
}

/// The state the selector targets for the given per-frame signals, by
/// decreasing priority: colliding while moving selects the attack state,
/// then running selects the run state, then plain movement the walk state,
/// and otherwise the idle state.
pub open spec fn spec_target(moved: bool, running: bool, colliding: bool) -> AnimationState {
    if moved && colliding {
        AnimationState::Attack
    } else if moved && running {
        AnimationState::Run
    } else if moved {
        AnimationState::Walk
    } else {
        AnimationState::Idle
    }
}

/// The playback parameters associated with entering a state: the attack
/// state carries the speed boost, the idle state resumes off the start of
/// its cycle, and every state loops.
pub open spec fn spec_params(s: AnimationState) -> PlaybackParams {
    match s {
        AnimationState::Idle => PlaybackParams {
            speed_multiplier_tenths: UNIT_SPEED_TENTHS,
            start_offset: IDLE_RESUME_OFFSET,
            looped: true,
        },
        AnimationState::Walk => PlaybackParams {
            speed_multiplier_tenths: UNIT_SPEED_TENTHS,
            start_offset: 0,
            looped: true,
        },
        AnimationState::Run => PlaybackParams {
            speed_multiplier_tenths: UNIT_SPEED_TENTHS,
            start_offset: 0,
            looped: true,
        },
        AnimationState::Attack => PlaybackParams {
            speed_multiplier_tenths: ATTACK_SPEED_TENTHS,
            start_offset: 0,
            looped: true,
        },
    }
}

/// What the selector does for the given signals from the given active state:
/// a transition fires, carrying the target's playback parameters, exactly
/// when the target differs from the active state; an already-playing state
/// is never restarted.
pub open spec fn spec_transition(
    current: AnimationState,
    moved: bool,
    running: bool,
    colliding: bool,
) -> Option<PlaybackParams> {
    if spec_target(moved, running, colliding) == current {
        None
    } else {
        Some(spec_params(spec_target(moved, running, colliding)))
    }
}

/// The per-actor animation controller: remembers only which state is
/// currently active. Fresh controllers start idle.
pub struct AnimationController {
    pub current: AnimationState,
}

impl AnimationController {
    pub fn new() -> (c: AnimationController)
        ensures
            c.current == AnimationState::Idle,
    {
        AnimationController { current: AnimationState::Idle }
    }

    /// Animation state selector: recomputes the target state from the
    /// current frame's signals, switches to it, and returns the playback
    /// parameters to apply if and only if that is a real change of state.
    pub fn advance(&mut self, moved: bool, running: bool, colliding: bool) -> (fired: Option<
        PlaybackParams,
    >)
        ensures
            final(self).current == spec_target(moved, running, colliding),
            fired == spec_transition(old(self).current, moved, running, colliding),
    {
        let target = if moved && colliding {
            AnimationState::Attack
        } else if moved && running {
            AnimationState::Run
        } else if moved {
            AnimationState::Walk
        } else {
            AnimationState::Idle
        };
        if target == self.current {
            None
        } else {
            self.current = target;
            params_for(target)
        }
    }
}

/// The playback parameters for entering the given state.
fn params_for(s: AnimationState) -> (p: Option<PlaybackParams>)
    ensures
        p == Some(spec_params(s)),
{
    match s {
        AnimationState::Idle => Some(
            PlaybackParams {
                speed_multiplier_tenths: UNIT_SPEED_TENTHS,
                start_offset: IDLE_RESUME_OFFSET,
                looped: true,
            },
        ),
        AnimationState::Walk => Some(
            PlaybackParams { speed_multiplier_tenths: UNIT_SPEED_TENTHS, start_offset: 0, looped: true },
        ),
        AnimationState::Run => Some(
            PlaybackParams { speed_multiplier_tenths: UNIT_SPEED_TENTHS, start_offset: 0, looped: true },
        ),
        AnimationState::Attack => Some(
            PlaybackParams { speed_multiplier_tenths: ATTACK_SPEED_TENTHS, start_offset: 0, looped: true },
        ),
    }
}

/// Law: the selector is idempotent. Once a frame's signals have driven the
/// controller into their target state, repeating the selector with unchanged
/// signals fires no further transition, whatever state it started from.
pub proof fn lemma_selector_idempotent(moved: bool, running: bool, colliding: bool)
    ensures
        spec_transition(spec_target(moved, running, colliding), moved, running, colliding)
            is None,
{
}

} // verus!
