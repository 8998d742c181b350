//! Finish (level-exit) markers and the level-transition sequencer: the
//! process-wide state machine driving the exit animation, the input
//! freeze, the screen fades and the commit of the next level selection.

use vstd::prelude::*;
use crate::GridCoords;
use crate::effects::{MovementSideEffects, SideEffect};
use crate::notifications::Notification;

verus! {

/// How long the fade to an opaque screen runs while a level closes.
pub const SCREEN_CLOSE_MS: u64 = 1500;

/// How long the fade back to a transparent screen runs while a level opens.
pub const SCREEN_OPEN_MS: u64 = 3000;

/// How long one single-cell movement tween runs.
pub const MOVE_TWEEN_MS: u64 = 200;

/// A level-exit marker fixed to a grid cell, with an optional next-level
/// selector and an optional message shown on arrival.
#[derive(Debug, Clone, PartialEq)]
pub struct Finish {
    pub grid_coords: GridCoords,
    pub next_level: Option<String>,
    pub message: Option<Notification>,
}

impl Finish {
    /// Builds the marker from its level-data fields; an absent message
    /// field means no message, and a present one shows for the default
    /// duration.
    pub fn from_fields(grid_coords: GridCoords, next_level: Option<String>, message: Option<
        String,
    >) -> (r: Finish)
        ensures
            r.grid_coords == grid_coords,
            r.next_level == next_level,
            message is None <==> r.message is None,
            (message matches Some(m) ==> (r.message matches Some(n) && n.text@ == m@
                && n.duration_ms == crate::notifications::DEFAULT_NOTIFICATION_DURATION_MS)),
    {
        let message = match message {
            Some(m) => Some(Notification::new(m)),
            None => None,
        };
        Finish { grid_coords, next_level, message }
    }
}

/// The side-effect table with every direction disabled, as the input
/// freeze writes it.
pub open spec fn spec_all_disabled() -> MovementSideEffects {
    MovementSideEffects {
        up: SideEffect::DisabledMovement,
        down: SideEffect::DisabledMovement,
        left: SideEffect::DisabledMovement,
        right: SideEffect::DisabledMovement,
    }
}

/// Disables all four movement directions on an actor's table.
pub fn forbid_all_movement(effects: &mut MovementSideEffects)
    ensures
        *final(effects) == spec_all_disabled(),
{
    effects.set(crate::actions::MovementDirection::Up, SideEffect::DisabledMovement);
    effects.set(crate::actions::MovementDirection::Down, SideEffect::DisabledMovement);
    effects.set(crate::actions::MovementDirection::Left, SideEffect::DisabledMovement);
    effects.set(crate::actions::MovementDirection::Right, SideEffect::DisabledMovement);
}

/// Whether some finish marker on cell `c` requests a level transition
/// (it names a next level).
pub open spec fn spec_finish_requests_transition(finishes: Seq<Finish>, c: GridCoords) -> bool {
    exists|i: int|
        0 <= i < finishes.len() && (#[trigger] finishes[i]).grid_coords == c
            && finishes[i].next_level is Some
}

/// Whether some finish marker on cell `c` names no next level, which
/// freezes the player's movement instead of starting a transition.
pub open spec fn spec_finish_freezes(finishes: Seq<Finish>, c: GridCoords) -> bool {
    exists|i: int|
        0 <= i < finishes.len() && (#[trigger] finishes[i]).grid_coords == c
            && finishes[i].next_level is None
}

/// The messages of the finish markers on cell `c`, in declaration order.
pub open spec fn spec_finish_messages(finishes: Seq<Finish>, c: GridCoords) -> Seq<Notification>
    decreases finishes.len(),
{
    if finishes.len() == 0 {
        Seq::empty()
    } else {
        let rest = spec_finish_messages(finishes.drop_last(), c);
        if finishes.last().grid_coords == c {
            match finishes.last().message {
                Some(m) => rest.push(m),
                None => rest,
            }
        } else {
            rest
        }
    }
}

/// Reacts to the player arriving on cell `c`: every finish marker there
/// emits its message; one naming a next level requests the transition,
/// and one naming none freezes all movement directions instead. Returns
/// whether a transition was requested, and appends the messages emitted.
pub fn finish_reached(
    finishes: &Vec<Finish>,
    c: GridCoords,
    effects: &mut MovementSideEffects,
    messages: &mut Vec<Notification>,
) -> (requested: bool)
    ensures
        requested == spec_finish_requests_transition(finishes@, c),
        *final(effects) == if spec_finish_freezes(finishes@, c) {
            spec_all_disabled()
        } else {
            *old(effects)
        },
        final(messages)@ == old(messages)@ + spec_finish_messages(finishes@, c),
{
    let mut requested = false;
    let mut i: usize = 0;
    while i < finishes.len()
        invariant
            0 <= i <= finishes@.len(),
            requested == spec_finish_requests_transition(finishes@.take(i as int), c),
            *effects == if spec_finish_freezes(finishes@.take(i as int), c) {
                spec_all_disabled()
            } else {
                *old(effects)
            },
            messages@ == old(messages)@ + spec_finish_messages(finishes@.take(i as int), c),
        decreases finishes@.len() - i,
    {
        proof {
            assert(finishes@.take(i + 1).drop_last() =~= finishes@.take(i as int));
            assert(finishes@.take(i + 1).last() == finishes@[i as int]);
        }
        let on_finish = finishes[i].grid_coords.x == c.x && finishes[i].grid_coords.y == c.y;
        if on_finish {
            match &finishes[i].message {
                Some(m) => {
                    messages.push(m.clone());
                },
                None => {},
            }
            if finishes[i].next_level.is_some() {
                requested = true;
            } else {
                forbid_all_movement(effects);
            }
        }
        proof {
            let pre = finishes@.take(i as int);
            let post = finishes@.take(i + 1);
            assert(spec_finish_requests_transition(post, c) == (spec_finish_requests_transition(
                pre,
                c,
            ) || (finishes@[i as int].grid_coords == c && finishes@[i as int].next_level is Some)))
                by {
                if spec_finish_requests_transition(pre, c) {
                    let w = choose|j: int|
                        0 <= j < pre.len() && (#[trigger] pre[j]).grid_coords == c
                            && pre[j].next_level is Some;
                    assert(post[w].grid_coords == c && post[w].next_level is Some);
                }
                if finishes@[i as int].grid_coords == c && finishes@[i as int].next_level is Some {
                    assert(post[i as int].grid_coords == c && post[i as int].next_level is Some);
                }
                if spec_finish_requests_transition(post, c) && !(finishes@[i as int].grid_coords
                    == c && finishes@[i as int].next_level is Some) {
                    let w = choose|j: int|
                        0 <= j < post.len() && (#[trigger] post[j]).grid_coords == c
                            && post[j].next_level is Some;
                    assert(pre[w].grid_coords == c && pre[w].next_level is Some);
                }
            }
            assert(spec_finish_freezes(post, c) == (spec_finish_freezes(pre, c) || (
            finishes@[i as int].grid_coords == c && finishes@[i as int].next_level is None))) by {
                if spec_finish_freezes(pre, c) {
                    let w = choose|j: int|
                        0 <= j < pre.len() && (#[trigger] pre[j]).grid_coords == c
                            && pre[j].next_level is None;
                    assert(post[w].grid_coords == c && post[w].next_level is None);
                }
                if finishes@[i as int].grid_coords == c && finishes@[i as int].next_level is None {
                    assert(post[i as int].grid_coords == c && post[i as int].next_level is None);
                }
                if spec_finish_freezes(post, c) && !(finishes@[i as int].grid_coords == c
                    && finishes@[i as int].next_level is None) {
                    let w = choose|j: int|
                        0 <= j < post.len() && (#[trigger] post[j]).grid_coords == c
                            && post[j].next_level is None;
                    assert(pre[w].grid_coords == c && pre[w].next_level is None);
                }
            }
        }
        i = i + 1;
    }
    proof {
        assert(finishes@.take(finishes@.len() as int) =~= finishes@);
    }
    requested
}

/// The next level committed when the transition fires: the last finish
/// marker naming one wins, matching iteration order.
pub open spec fn spec_committed_level(finishes: Seq<Finish>) -> Option<Seq<char>>
    decreases finishes.len(),
{
    if finishes.len() == 0 {
        None
    } else {
        match finishes.last().next_level {
            Some(l) => Some(l@),
            None => spec_committed_level(finishes.drop_last()),
        }
    }
}

/// The pending level selection: the next level named by the last finish
/// marker that names one, or nothing.
pub fn committed_level(finishes: &Vec<Finish>) -> (r: Option<String>)
    ensures
        r.deep_view() == spec_committed_level(finishes@),
{
    let mut i: usize = finishes.len();
    proof {
        assert(finishes@.take(finishes@.len() as int) =~= finishes@);
    }
    while i > 0
        invariant
            0 <= i <= finishes@.len(),
            spec_committed_level(finishes@.take(i as int)) == spec_committed_level(finishes@),
        decreases i,
    {
        proof {
            assert(finishes@.take(i as int).drop_last() =~= finishes@.take(i - 1));
            assert(finishes@.take(i as int).last() == finishes@[i - 1]);
        }
        match &finishes[i - 1].next_level {
            Some(l) => {
                return Some(l.clone());
            },
            None => {},
        }
        i = i - 1;
    }
    None
}

/// The level-transition sequencer's step. Exactly one instance exists:
/// one transition runs at a time.
#[derive(Debug, Clone, Copy, PartialEq, Eq, Structural)]
pub enum LevelTransitionStep {
    /// No transition in progress.
    Rest,
    LiftWillClose,
    LiftCloses,
    ScreenWillClose,
    ScreenCloses,
    ScreenWillOpen,
    ScreenOpens,
}

impl Default for LevelTransitionStep {
    fn default() -> (r: LevelTransitionStep)
        ensures
            r == LevelTransitionStep::Rest,
    {
        LevelTransitionStep::Rest
    }
}

/// What one sequencer step asks the surrounding tick to do.
#[derive(Debug, Clone, Copy, PartialEq, Eq, Structural)]
pub struct TransitionEffects {
    /// Forbid all movement directions on the player now (input freeze).
    pub freeze_player: bool,
    /// Start playing the lift-door close animation.
    pub start_lift_close: bool,
    /// Start the fade to an opaque screen (`SCREEN_CLOSE_MS`) and the
    /// parallel slide tweens of lift and player visuals.
    pub start_screen_close: bool,
    /// Commit the pending level selection now.
    pub commit_level: bool,
    /// Start the fade back to a transparent screen (`SCREEN_OPEN_MS`).
    pub start_screen_open: bool,
}

/// No demands on the surrounding tick.
pub open spec fn spec_no_transition_effects() -> TransitionEffects {
    TransitionEffects {
        freeze_player: false,
        start_lift_close: false,
        start_screen_close: false,
        commit_level: false,
        start_screen_open: false,
    }
}

/// One step of the sequencer: from rest a request freezes input and heads
/// for the lift close; the lift close plays only if its animation asset
/// resolved, else the screen close is reached directly; the screen close
/// starts its fade and tweens at once; the elapsed close timer leads to
/// the commit step, which commits the pending selection, starts the
/// opening fade and waits for its timer; the elapsed open timer rests.
pub open spec fn spec_transition_step(
    s: LevelTransitionStep,
    requested: bool,
    lift_anim_resolved: bool,
    lift_anim_finished: bool,
    timer_finished: bool,
) -> (LevelTransitionStep, TransitionEffects) {
    let quiet = spec_no_transition_effects();
    match s {
        LevelTransitionStep::Rest => {
            if requested {
                (
                    LevelTransitionStep::LiftWillClose,
                    TransitionEffects { freeze_player: true, ..quiet },
                )
            } else {
                (LevelTransitionStep::Rest, quiet)
            }
        },
        LevelTransitionStep::LiftWillClose => {
            if lift_anim_resolved {
                (
                    LevelTransitionStep::LiftCloses,
                    TransitionEffects { start_lift_close: true, ..quiet },
                )
            } else {
                (LevelTransitionStep::ScreenWillClose, quiet)
            }
        },
        LevelTransitionStep::LiftCloses => {
            if lift_anim_finished {
                (LevelTransitionStep::ScreenWillClose, quiet)
            } else {
                (LevelTransitionStep::LiftCloses, quiet)
            }
        },
        LevelTransitionStep::ScreenWillClose => (
            LevelTransitionStep::ScreenCloses,
            TransitionEffects { start_screen_close: true, ..quiet },
        ),
        LevelTransitionStep::ScreenCloses => {
            if timer_finished {
                (LevelTransitionStep::ScreenWillOpen, quiet)
            } else {
                (LevelTransitionStep::ScreenCloses, quiet)
            }
        },
        LevelTransitionStep::ScreenWillOpen => (
            LevelTransitionStep::ScreenOpens,
            TransitionEffects { commit_level: true, start_screen_open: true, ..quiet },
        ),
        LevelTransitionStep::ScreenOpens => {
            if timer_finished {
                (LevelTransitionStep::Rest, quiet)
            } else {
                (LevelTransitionStep::ScreenOpens, quiet)
            }
        },
    }
}

impl LevelTransitionStep {
    /// Advances the sequencer one tick and returns what the tick must do.
    pub fn step(
        &mut self,
        requested: bool,
        lift_anim_resolved: bool,
        lift_anim_finished: bool,
        timer_finished: bool,
    ) -> (r: TransitionEffects)
        ensures
            (*final(self), r) == spec_transition_step(
                *old(self),
                requested,
                lift_anim_resolved,
                lift_anim_finished,
                timer_finished,
            ),
    {
        let quiet = TransitionEffects {
            freeze_player: false,
            start_lift_close: false,
            start_screen_close: false,
            commit_level: false,
            start_screen_open: false,
        };
        match *self {
            LevelTransitionStep::Rest => {
                if requested {
                    *self = LevelTransitionStep::LiftWillClose;
                    TransitionEffects { freeze_player: true, ..quiet }
                } else {
                    quiet
                }
            },
            LevelTransitionStep::LiftWillClose => {
                if lift_anim_resolved {
                    *self = LevelTransitionStep::LiftCloses;
                    TransitionEffects { start_lift_close: true, ..quiet }
                } else {
                    *self = LevelTransitionStep::ScreenWillClose;
                    quiet
                }
            },
            LevelTransitionStep::LiftCloses => {
                if lift_anim_finished {
                    *self = LevelTransitionStep::ScreenWillClose;
                }
                quiet
            },
            LevelTransitionStep::ScreenWillClose => {
                *self = LevelTransitionStep::ScreenCloses;
                TransitionEffects { start_screen_close: true, ..quiet }
            },
            LevelTransitionStep::ScreenCloses => {
                if timer_finished {
                    *self = LevelTransitionStep::ScreenWillOpen;
                }
                quiet
            },
            LevelTransitionStep::ScreenWillOpen => {
                *self = LevelTransitionStep::ScreenOpens;
                TransitionEffects { commit_level: true, start_screen_open: true, ..quiet }
            },
            LevelTransitionStep::ScreenOpens => {
                if timer_finished {
                    *self = LevelTransitionStep::Rest;
                }
                quiet
            },
        }
    }
}

} // verus!
