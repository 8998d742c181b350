//! The whole simulation state of one level instance and its per-tick
//! pipeline, in the fixed stage order: intents, movement resolution,
//! coordinate-changed reactions (panels), death check, transition
//! sequencer and respawn, then the gating recomputation for the tick's
//! final state.

use vstd::prelude::*;
use vstd::string::StringExecFns;
use crate::GridCoords;
use crate::actions::Actions;
use crate::death::{spec_death_anim_step, spec_death_at, DyingState};
use crate::grid::TileIndex;
use crate::gating::{open_lasers, spec_regated_tile};
use crate::notifications::Notification;
use crate::panel::{
    spec_effects_after_step_upto, spec_plates_after_step, step_on_panel, PressurePlate,
};
use crate::player::{
    spec_fresh_player, spec_handle_intent, spec_next_movement_state, spec_player_color_switched,
    Player,
};
use crate::transition::{
    committed_level, finish_reached, forbid_all_movement, spec_all_disabled, spec_committed_level,
    spec_finish_freezes, spec_finish_messages, spec_finish_requests_transition,
    spec_transition_step, Finish, LevelTransitionStep,
    TransitionEffects,
};

verus! {

/// How long the panel-step notification shows.
pub const PANEL_NOTIFICATION_DURATION_MS: u64 = 2000;

/// How long the level-reset and death notifications show.
pub const RESET_NOTIFICATION_DURATION_MS: u64 = 1000;

/// Everything the simulation owns for one level instance.
pub struct GameWorld {
    pub tiles: TileIndex,
    pub plates: Vec<PressurePlate>,
    pub finishes: Vec<Finish>,
    pub player: Player,
    pub spawn: GridCoords,
    pub transition: LevelTransitionStep,
    pub dying: DyingState,
}

/// What the outside world feeds one tick: the sampled intents and the
/// timer/animation signals the tick's decisions wait on.
#[derive(Debug, Clone, Copy)]
pub struct TickInputs {
    /// The intents sampled this tick, if any control was pressed.
    pub actions: Option<Actions>,
    /// The in-flight movement tween completed this tick.
    pub tween_finished: bool,
    /// The death animation completed this tick.
    pub death_anim_finished: bool,
    /// The lift-close animation asset is available.
    pub lift_anim_resolved: bool,
    /// The lift-close animation completed this tick.
    pub lift_anim_finished: bool,
    /// The running transition timer elapsed this tick.
    pub timer_finished: bool,
}

/// What one tick asks the outside world to do.
#[derive(Debug)]
pub struct TickOutputs {
    /// Notifications raised this tick, in order.
    pub notifications: Vec<Notification>,
    /// Drop every queued notification (a level respawn happened).
    pub clear_notifications: bool,
    /// The player's coordinate changed: animate the slide over
    /// `MOVE_TWEEN_MS`.
    pub moved: bool,
    /// The player stepped onto at least one pressure plate.
    pub stepped_on_panel: bool,
    /// Start playing the death animation.
    pub start_death_animation: bool,
    /// What the transition sequencer asks for this tick.
    pub transition_effects: TransitionEffects,
    /// The level selection committed this tick, if the sequencer reached
    /// its commit step and a finish marker names a next level.
    pub committed_level: Option<String>,
    /// The level was despawned and respawned fresh this tick.
    pub respawned: bool,
}

/// The plates of a freshly respawned level: the declarations survive (they
/// come from level data), every latch is released.
pub open spec fn spec_unlatched(plates: Seq<PressurePlate>) -> Seq<PressurePlate> {
    plates.map(|i: int, p: PressurePlate| PressurePlate { active: false, ..p })
}

/// Whether the tick's actions request a level reset.
pub open spec fn spec_reset_requested(actions: Option<Actions>) -> bool {
    match actions {
        Some(a) => a.level_reset is Some,
        None => false,
    }
}

/// The player after the tick's intent stage: the color toggle applies
/// first, then the movement intent (dropped while the death animation
/// owns the actor).
pub open spec fn spec_player_after_intents(
    p: Player,
    dying: DyingState,
    actions: Option<Actions>,
    tiles: TileIndex,
    plates: Seq<PressurePlate>,
) -> Player {
    match actions {
        None => p,
        Some(a) => {
            let p1 = if a.color_switch is Some {
                spec_player_color_switched(p)
            } else {
                p
            };
            match a.player_movement {
                Some(d) => {
                    if dying is Alive {
                        spec_handle_intent(p1, d, tiles, plates)
                    } else {
                        p1
                    }
                },
                None => p1,
            }
        },
    }
}

/// The player after the tick's continuation stage: a completed slide
/// tween advances the movement state machine (unless the death animation
/// owns the actor).
pub open spec fn spec_player_after_continuation(
    p: Player,
    dying: DyingState,
    tween_finished: bool,
    tiles: TileIndex,
    plates: Seq<PressurePlate>,
) -> Player {
    if tween_finished && dying is Alive {
        spec_next_movement_state(p, tiles, plates)
    } else {
        p
    }
}

/// The notifications one tick emits, in order: the panel-step note, the
/// messages of reached finish markers, the reset note, the death note.
pub open spec fn spec_tick_notifications(
    out: Seq<Notification>,
    stepped: bool,
    finish_msgs: Seq<Notification>,
    reset: bool,
    death: bool,
) -> bool {
    let n0: int = if stepped {
        1
    } else {
        0
    };
    let n1 = n0 + finish_msgs.len();
    &&& out.len() == n1 + (if reset {
        1int
    } else {
        0
    }) + (if death {
        1int
    } else {
        0
    })
    &&& (stepped ==> out[0].text@ == "You stepped on a panel!"@ && out[0].duration_ms
        == PANEL_NOTIFICATION_DURATION_MS)
    &&& (forall|i: int| 0 <= i < finish_msgs.len() ==> out[n0 + i] == finish_msgs[i])
    &&& (reset ==> out[n1].text@ == "Resetting level..."@ && out[n1].duration_ms
        == RESET_NOTIFICATION_DURATION_MS)
    &&& (death ==> out[out.len() - 1].text@ == "You died :("@ && out[out.len() - 1].duration_ms
        == RESET_NOTIFICATION_DURATION_MS)
}

impl GameWorld {
    /// Well-formedness: the tile index covers its declared rectangle.
    pub open spec fn wf(&self) -> bool {
        self.tiles.wf()
    }

    /// A freshly loaded level instance: the actor spawns fresh, no
    /// transition runs, and the gates carry their first recomputed flags.
    pub fn new(
        tiles: TileIndex,
        plates: Vec<PressurePlate>,
        finishes: Vec<Finish>,
        spawn: GridCoords,
    ) -> (r: GameWorld)
        requires
            tiles.wf(),
        ensures
            r.wf(),
            r.player == spec_fresh_player(spawn),
            r.spawn == spawn,
            r.plates@ == plates@,
            r.finishes@ == finishes@,
            r.transition == LevelTransitionStep::Rest,
            r.dying == DyingState::Alive,
            r.tiles.width == tiles.width,
            r.tiles.height == tiles.height,
            forall|j: int|
                0 <= j < tiles.cells@.len() ==> r.tiles.cells@[j] == spec_regated_tile(
                    #[trigger] tiles.cells@[j],
                    spec_fresh_player(spawn).color_control,
                    plates@,
                ),
    {
        let player = Player::new(spawn);
        let mut tiles = tiles;
        open_lasers(&mut tiles, player.color_control, &plates);
        GameWorld {
            tiles,
            plates,
            finishes,
            player,
            spawn,
            transition: LevelTransitionStep::Rest,
            dying: DyingState::Alive,
        }
    }

    /// Despawns and respawns the level instance: the actor is recreated
    /// fresh (idle, blue, empty side-effect table — no effect persists
    /// across a respawn), every plate latch is released, and the death
    /// machine re-arms. The tile data and finish markers come from level
    /// data and are unchanged.
    pub fn respawn(&mut self)
        ensures
            final(self).player == spec_fresh_player(old(self).spawn),
            final(self).plates@ == spec_unlatched(old(self).plates@),
            final(self).dying == DyingState::Alive,
            final(self).tiles == old(self).tiles,
            final(self).finishes@ == old(self).finishes@,
            final(self).spawn == old(self).spawn,
            final(self).transition == old(self).transition,
    {
        self.player = Player::new(self.spawn);
        self.dying = DyingState::Alive;
        let n = self.plates.len();
        let mut i: usize = 0;
        while i < n
            invariant
                0 <= i <= n,
                n == self.plates@.len(),
                self.plates@.len() == old(self).plates@.len(),
                forall|j: int| i <= j < n ==> self.plates@[j] == old(self).plates@[j],
                forall|j: int|
                    0 <= j < i ==> self.plates@[j] == spec_unlatched(old(self).plates@)[j],
                self.player == spec_fresh_player(old(self).spawn),
                self.dying == DyingState::Alive,
                self.tiles == old(self).tiles,
                self.finishes@ == old(self).finishes@,
                self.spawn == old(self).spawn,
                self.transition == old(self).transition,
            decreases n - i,
        {
            let plate = &mut self.plates[i];
            plate.reset_latch();
            i = i + 1;
        }
        proof {
            assert(self.plates@ =~= spec_unlatched(old(self).plates@));
        }
    }

    /// Advances the simulation one tick, in the fixed stage order:
    /// intents (color toggle first, then the movement intent), movement
    /// continuation on a completed tween, panel reactions to a changed
    /// coordinate, the edge-triggered death check feeding the death
    /// machine, the finish reaction and transition sequencer, then the
    /// respawn that a reset intent or the forwarded death event demands
    /// (both in one tick collapse to a single respawn), and finally one
    /// gating recomputation for the tick's final color and latches.
    #[verifier::rlimit(100)]
    pub fn tick(&mut self, inputs: TickInputs) -> (outputs: TickOutputs)
        requires
            old(self).wf(),
        ensures
            final(self).wf(),
            ({
                let w0 = *old(self);
                let p1 = spec_player_after_intents(
                    w0.player,
                    w0.dying,
                    inputs.actions,
                    w0.tiles,
                    w0.plates@,
                );
                let p2 = spec_player_after_continuation(
                    p1,
                    w0.dying,
                    inputs.tween_finished,
                    w0.tiles,
                    w0.plates@,
                );
                let coords_changed = p2.grid_coords != w0.player.grid_coords;
                let color_changed = p2.color_control != w0.player.color_control;
                let plates3 = if coords_changed {
                    spec_plates_after_step(w0.plates@, p2.grid_coords)
                } else {
                    w0.plates@
                };
                let effects3 = if coords_changed {
                    spec_effects_after_step_upto(
                        w0.plates@,
                        p2.grid_coords,
                        p2.side_effects,
                        w0.plates@.len() as int,
                    )
                } else {
                    p2.side_effects
                };
                let stepped = coords_changed && exists|i: int|
                    0 <= i < w0.plates@.len() && (#[trigger] w0.plates@[i]).grid_coords
                        == p2.grid_coords;
                let death_now = (coords_changed || color_changed) && spec_death_at(
                    w0.tiles,
                    p2.grid_coords,
                    p2.color_control,
                    plates3,
                );
                let dystep = spec_death_anim_step(
                    w0.dying,
                    death_now,
                    inputs.death_anim_finished,
                    false,
                );
                let send_death = dystep.2;
                let requested = coords_changed && spec_finish_requests_transition(
                    w0.finishes@,
                    p2.grid_coords,
                );
                let finish_msgs = if coords_changed {
                    spec_finish_messages(w0.finishes@, p2.grid_coords)
                } else {
                    Seq::empty()
                };
                let effects4 = if coords_changed && spec_finish_freezes(
                    w0.finishes@,
                    p2.grid_coords,
                ) {
                    spec_all_disabled()
                } else {
                    effects3
                };
                let tstep = spec_transition_step(
                    w0.transition,
                    requested,
                    inputs.lift_anim_resolved,
                    inputs.lift_anim_finished,
                    inputs.timer_finished,
                );
                let teffects = tstep.1;
                let effects5 = if teffects.freeze_player {
                    spec_all_disabled()
                } else {
                    effects4
                };
                let p5 = Player { side_effects: effects5, ..p2 };
                let reset_action = spec_reset_requested(inputs.actions);
                let respawn = reset_action || send_death;
                let player_f = if respawn {
                    spec_fresh_player(w0.spawn)
                } else {
                    p5
                };
                let plates_f = if respawn {
                    spec_unlatched(plates3)
                } else {
                    plates3
                };
                &&& final(self).spawn == w0.spawn
                &&& final(self).finishes@ == w0.finishes@
                &&& final(self).transition == tstep.0
                &&& final(self).player == player_f
                &&& final(self).dying == (if respawn {
                    DyingState::Alive
                } else {
                    dystep.0
                })
                &&& final(self).plates@ == plates_f
                &&& final(self).tiles.width == w0.tiles.width
                &&& final(self).tiles.height == w0.tiles.height
                &&& final(self).tiles.cells@.len() == w0.tiles.cells@.len()
                &&& (forall|j: int|
                    0 <= j < w0.tiles.cells@.len() ==> final(self).tiles.cells@[j]
                        == spec_regated_tile(
                        #[trigger] w0.tiles.cells@[j],
                        player_f.color_control,
                        plates_f,
                    ))
                &&& outputs.moved == coords_changed
                &&& outputs.stepped_on_panel == stepped
                &&& outputs.start_death_animation == dystep.1
                &&& outputs.transition_effects == teffects
                &&& outputs.clear_notifications == respawn
                &&& outputs.respawned == respawn
                &&& outputs.committed_level.deep_view() == (if teffects.commit_level {
                    spec_committed_level(w0.finishes@)
                } else {
                    Option::<Seq<char>>::None
                })
                &&& spec_tick_notifications(
                    outputs.notifications@,
                    stepped,
                    finish_msgs,
                    reset_action,
                    send_death,
                )
            }),
    {
        let ghost w0 = *self;
        let old_coords = self.player.grid_coords;
        let old_color = self.player.color_control;
        let mut notes: Vec<Notification> = Vec::new();

        // Stage 1: intents. The color toggle applies before the movement
        // intent of the same tick; the movement intent is dropped while
        // the death animation owns the actor.
        let mut reset_action = false;
        match &inputs.actions {
            Some(a) => {
                if a.level_reset.is_some() {
                    reset_action = true;
                }
                if a.color_switch.is_some() {
                    self.player.color_control.switch();
                }
                match a.player_movement {
                    Some(d) => {
                        if matches!(self.dying, DyingState::Alive) {
                            self.player.handle_intent(d, &self.tiles, &self.plates);
                        }
                    },
                    None => {},
                }
            },
            None => {},
        }

        // Stage 2: movement continuation on a completed slide tween.
        if inputs.tween_finished && matches!(self.dying, DyingState::Alive) {
            self.player.next_movement_state(&self.tiles, &self.plates);
        }
        let ghost p2 = self.player;

        // Stage 3: coordinate-changed reactions (panel latching and side
        // effects).
        let coords_changed = self.player.grid_coords != old_coords;
        let mut stepped = false;
        if coords_changed {
            stepped = step_on_panel(
                self.player.grid_coords,
                &mut self.plates,
                &mut self.player.side_effects,
            );
        }
        if stepped {
            notes.push(
                Notification {
                    text: String::from_str("You stepped on a panel!"),
                    duration_ms: PANEL_NOTIFICATION_DURATION_MS,
                },
            );
        }

        // Stage 4: edge-triggered death check feeding the death machine.
        let death_now = (coords_changed || self.player.color_control != old_color)
            && crate::death::check_death(
            self.player.grid_coords,
            &self.tiles,
            self.player.color_control,
            &self.plates,
        );
        let (start_death_animation, send_death) = self.dying.step(
            death_now,
            inputs.death_anim_finished,
            false,
        );

        // Stage 5: finish reaction, transition sequencer, respawn.
        let mut requested = false;
        if coords_changed {
            requested = finish_reached(
                &self.finishes,
                self.player.grid_coords,
                &mut self.player.side_effects,
                &mut notes,
            );
        }
        let transition_effects = self.transition.step(
            requested,
            inputs.lift_anim_resolved,
            inputs.lift_anim_finished,
            inputs.timer_finished,
        );
        if transition_effects.freeze_player {
            forbid_all_movement(&mut self.player.side_effects);
        }
        let committed = if transition_effects.commit_level {
            committed_level(&self.finishes)
        } else {
            None
        };
        let respawn = reset_action || send_death;
        if reset_action {
            notes.push(
                Notification {
                    text: String::from_str("Resetting level..."),
                    duration_ms: RESET_NOTIFICATION_DURATION_MS,
                },
            );
        }
        if send_death {
            notes.push(
                Notification {
                    text: String::from_str("You died :("),
                    duration_ms: RESET_NOTIFICATION_DURATION_MS,
                },
            );
        }
        if respawn {
            self.respawn();
        }

        // The gating recomputation for the tick's final color and latches.
        open_lasers(&mut self.tiles, self.player.color_control, &self.plates);

        TickOutputs {
            notifications: notes,
            clear_notifications: respawn,
            moved: coords_changed,
            stepped_on_panel: stepped,
            start_death_animation,
            transition_effects,
            committed_level: committed,
            respawned: respawn,
        }
    }
}

} // verus!
