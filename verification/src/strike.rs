//! An arrow that strikes an entity, as a conversation with the world.
//!
//! A strike begins in [`StrikePhase::Start`] and goes on as a tick does: each call of
//! [`ArrowEntity::on_hit_entity`] takes the phase and what the world answered, and names the next
//! phase and what the world is to do or to tell, until [`StrikeAction::Finish`].

use crate::arrow::{ArrowEntity, DamageSource};
use crate::pickup::Pickup;
use vstd::prelude::*;

verus! {

/// Where in a strike an arrow stands.
#[derive(Debug, Clone, Copy, PartialEq, Eq, Structural)]
pub enum StrikePhase {
    /// Nothing has happened yet.
    Start,
    /// The force of the impact is being measured.
    Measuring {
        /// The id of the struck entity.
        target: i32,
    },
    /// The struck entity is being hurt.
    Hurting {
        /// The id of the struck entity.
        target: i32,
    },
    /// The struck entity is unharmed and turns the arrow back.
    Deflecting {
        /// The id of the struck entity.
        target: i32,
    },
    /// The arrow has stopped and is being dropped as an item.
    Dropping,
    /// The sound of the hit is being played.
    Sounding,
    /// The arrow is being discarded.
    Discarding,
    /// The strike is over.
    Finished,
}

/// What the world answers.
#[derive(Debug, Clone, Copy, PartialEq, Eq, Structural)]
pub enum StrikeEvent {
    /// The arrow has struck an entity.
    Struck {
        /// The id of the struck entity.
        target: i32,
        /// Whether that entity is in a world.
        level: bool,
    },
    /// How hard the arrow struck.
    Impact {
        /// The damage without luck: the impact speed times the damage multiplier, rounded up.
        damage: i32,
        /// The id of the owner of the arrow, if there is one.
        owner: Option<i32>,
    },
    /// What the damage did.
    Outcome {
        /// Whether the struck entity took the damage.
        hurt: bool,
        /// Whether the struck entity is an enderman.
        enderman: bool,
    },
    /// The arrow was turned back and slowed down.
    Deflected {
        /// Whether that stopped it.
        stopped: bool,
    },
    /// What was asked for has been done.
    Done,
}

/// What the world is to do or to tell next.
#[derive(Debug, Clone, Copy, PartialEq, Eq, Structural)]
pub enum StrikeAction {
    /// Tell how hard the arrow struck, and who owns it.
    MeasureImpact,
    /// Hurt the struck entity, and tell what came of it.
    Hurt {
        /// Who is to blame.
        source: DamageSource,
        /// How much damage is done.
        amount: i32,
    },
    /// Reverse and slow down the arrow, and tell whether it has stopped.
    Deflect,
    /// Drop an arrow item where the arrow is.
    DropArrow,
    /// Play the sound of the hit.
    PlayHitSound,
    /// Remove the arrow from the world.
    Discard,
    /// Nothing: the strike is over.
    Finish,
}

/// What one call of [`ArrowEntity::on_hit_entity`] decides.
#[derive(Debug, Clone, Copy, PartialEq, Eq, Structural)]
pub struct StrikeTurn {
    /// The phase that the answer is to be handed in with.
    pub phase: StrikePhase,
    /// What the world is to do or to tell.
    pub action: StrikeAction,
}

impl StrikePhase {
    /// The place of a phase in the order that every strike keeps.
    pub open spec fn rank(self) -> nat {
        match self {
            StrikePhase::Start => 0,
            StrikePhase::Measuring { .. } => 1,
            StrikePhase::Hurting { .. } => 2,
            StrikePhase::Deflecting { .. } => 3,
            StrikePhase::Dropping => 4,
            StrikePhase::Sounding => 5,
            StrikePhase::Discarding => 6,
            StrikePhase::Finished => 7,
        }
    }

    /// Whether `event` is an answer to what was asked for in this phase.
    pub open spec fn accepts(self, event: StrikeEvent) -> bool {
        match self {
            StrikePhase::Start => event is Struck,
            StrikePhase::Measuring { .. } => event is Impact,
            StrikePhase::Hurting { .. } => event is Outcome,
            StrikePhase::Deflecting { .. } => event is Deflected,
            StrikePhase::Finished => false,
            _ => event is Done,
        }
    }
}

/// The model: what an answer does to an arrow, and what follows.
impl ArrowEntity {
    /// Whether the hit on `target` is passed over, because it turned the arrow back in this tick or
    /// the last one.
    pub open spec fn passes_over(self, target: i32) -> bool {
        self.runtime.last_deflected_by == Some(target)
    }

    /// The arrow after the answer `event` in `phase`. Only the memory of who turned it back
    /// changes: a hit that is passed over and a hit that does damage clear it, a hit that does
    /// none sets it.
    pub open spec fn struck(self, phase: StrikePhase, event: StrikeEvent) -> Self {
        match (phase, event) {
            (StrikePhase::Start, StrikeEvent::Struck { target, .. }) => if self.passes_over(
                target,
            ) {
                self.with_last_deflected_by(None)
            } else {
                self
            },
            (StrikePhase::Hurting { .. }, StrikeEvent::Outcome { hurt, .. }) => if hurt {
                self.with_last_deflected_by(None)
            } else {
                self
            },
            (
                StrikePhase::Deflecting { target },
                StrikeEvent::Deflected { .. },
            ) => self.with_last_deflected_by(Some(target)),
            _ => self,
        }
    }

    /// What follows the answer `event` in `phase` when the dice show `roll`.
    pub open spec fn strike_turn(
        self,
        phase: StrikePhase,
        event: StrikeEvent,
        roll: u32,
    ) -> StrikeTurn {
        match (phase, event) {
            (StrikePhase::Start, StrikeEvent::Struck { target, level }) => if !self.passes_over(
                target,
            ) && level {
                StrikeTurn {
                    phase: StrikePhase::Measuring { target },
                    action: StrikeAction::MeasureImpact,
                }
            } else {
                StrikeTurn::over()
            },
            (StrikePhase::Measuring { target }, StrikeEvent::Impact { damage, owner }) => {
                StrikeTurn {
                    phase: StrikePhase::Hurting { target },
                    action: StrikeAction::Hurt {
                        source: self.blame(owner),
                        amount: self.damage_on(damage, roll) as i32,
                    },
                }
            },
            (StrikePhase::Hurting { target }, StrikeEvent::Outcome { hurt, enderman }) => {
                if !hurt {
                    StrikeTurn {
                        phase: StrikePhase::Deflecting { target },
                        action: StrikeAction::Deflect,
                    }
                } else if enderman {
                    StrikeTurn::over()
                } else {
                    StrikeTurn { phase: StrikePhase::Sounding, action: StrikeAction::PlayHitSound }
                }
            },
            (StrikePhase::Deflecting { .. }, StrikeEvent::Deflected { stopped }) => {
                if !stopped {
                    StrikeTurn::over()
                } else if self.runtime.pickup == Pickup::Allowed {
                    StrikeTurn { phase: StrikePhase::Dropping, action: StrikeAction::DropArrow }
                } else {
                    StrikeTurn { phase: StrikePhase::Discarding, action: StrikeAction::Discard }
                }
            },
            (StrikePhase::Dropping, _) | (StrikePhase::Sounding, _) => {
                StrikeTurn { phase: StrikePhase::Discarding, action: StrikeAction::Discard }
            },
            _ => StrikeTurn::over(),
        }
    }

    /// Whether the answer calls for the dice: a critical arrow is about to do damage.
    pub open spec fn rolls(self, phase: StrikePhase, event: StrikeEvent) -> bool {
        phase is Measuring && event is Impact && self.crit()
    }

    /// Whether the damage of this answer is not negative and fits in its type for this roll.
    pub open spec fn damage_fits(self, phase: StrikePhase, event: StrikeEvent, roll: u32) -> bool {
        match (phase, event) {
            (StrikePhase::Measuring { .. }, StrikeEvent::Impact { damage, .. }) => {
                0 <= damage && self.damage_on(damage, roll) <= i32::MAX
            },
            _ => true,
        }
    }

    /// Whether the damage of this answer is not negative and fits in its type for every roll.
    pub open spec fn damage_always_fits(self, phase: StrikePhase, event: StrikeEvent) -> bool {
        match (phase, event) {
            (StrikePhase::Measuring { .. }, StrikeEvent::Impact { damage, .. }) => {
                0 <= damage && self.damage_bound(damage) <= i32::MAX
            },
            _ => true,
        }
    }
}

impl StrikeTurn {
    /// The end of the strike.
    pub open spec fn over() -> Self {
        StrikeTurn { phase: StrikePhase::Finished, action: StrikeAction::Finish }
    }

    fn finish() -> (r: Self)
        ensures
            r == StrikeTurn::over(),
    {
        StrikeTurn { phase: StrikePhase::Finished, action: StrikeAction::Finish }
    }
}

/// A number from the thread's random number generator, by `rand::random`. Every value can come
/// up, so nothing is claimed of the result.
#[verifier::external_body]
fn random_u32() -> (r: u32) {
    rand::random::<u32>()
}

impl ArrowEntity {
    /// Takes the answer `event` in the phase `phase` of a strike with the dice showing `roll`,
    /// changes the arrow accordingly and decides what comes next.
    ///
    /// The damage must fit in its type for this roll.
    pub fn on_hit_entity_with_roll(
        &mut self,
        phase: StrikePhase,
        event: StrikeEvent,
        roll: u32,
    ) -> (turn: StrikeTurn)
        requires
            phase.accepts(event),
            old(self).damage_fits(phase, event, roll),
        ensures
            *final(self) == old(self).struck(phase, event),
            turn == old(self).strike_turn(phase, event, roll),
            old(self).wf() ==> final(self).wf(),
    {
        match (phase, event) {
            (StrikePhase::Start, StrikeEvent::Struck { target, level }) => {
                let passed: bool = match self.runtime.last_deflected_by {
                    Some(by) => by == target,
                    None => false,
                };
                if passed {
                    self.set_last_deflected_by(None);
                    StrikeTurn::finish()
                } else if level {
                    StrikeTurn {
                        phase: StrikePhase::Measuring { target },
                        action: StrikeAction::MeasureImpact,
                    }
                } else {
                    StrikeTurn::finish()
                }
            },
            (StrikePhase::Measuring { target }, StrikeEvent::Impact { damage, owner }) => {
                let amount: i32 = self.damage_with_roll(damage, roll);
                let source = self.damage_source(owner);
                StrikeTurn {
                    phase: StrikePhase::Hurting { target },
                    action: StrikeAction::Hurt { source, amount },
                }
            },
            (StrikePhase::Hurting { target }, StrikeEvent::Outcome { hurt, enderman }) => {
                if hurt {
                    self.set_last_deflected_by(None);
                    if enderman {
                        StrikeTurn::finish()
                    } else {
                        StrikeTurn {
                            phase: StrikePhase::Sounding,
                            action: StrikeAction::PlayHitSound,
                        }
                    }
                } else {
                    StrikeTurn {
                        phase: StrikePhase::Deflecting { target },
                        action: StrikeAction::Deflect,
                    }
                }
            },
            (StrikePhase::Deflecting { target }, StrikeEvent::Deflected { stopped }) => {
                self.set_last_deflected_by(Some(target));
                if stopped {
                    if self.runtime.pickup == Pickup::Allowed {
                        StrikeTurn {
                            phase: StrikePhase::Dropping,
                            action: StrikeAction::DropArrow,
                        }
                    } else {
                        StrikeTurn {
                            phase: StrikePhase::Discarding,
                            action: StrikeAction::Discard,
                        }
                    }
                } else {
                    StrikeTurn::finish()
                }
            },
            (StrikePhase::Dropping, _) | (StrikePhase::Sounding, _) => StrikeTurn {
                phase: StrikePhase::Discarding,
                action: StrikeAction::Discard,
            },
            _ => StrikeTurn::finish(),
        }
    }

    /// Takes the answer `event` in the phase `phase` of a strike, changes the arrow accordingly
    /// and decides what comes next. A critical arrow that is about to do damage rolls the dice.
    ///
    /// The damage must fit in its type whatever the dice show.
    pub fn on_hit_entity(&mut self, phase: StrikePhase, event: StrikeEvent) -> (turn: StrikeTurn)
        requires
            phase.accepts(event),
            old(self).damage_always_fits(phase, event),
        ensures
            *final(self) == old(self).struck(phase, event),
            exists|roll: u32| turn == #[trigger] old(self).strike_turn(phase, event, roll),
            !old(self).rolls(phase, event) ==> turn == old(self).strike_turn(phase, event, 0),
            turn.action matches StrikeAction::Hurt { amount, .. } ==> amount
                <= old(self).damage_bound(event->damage) && amount >= event->damage,
            old(self).wf() ==> final(self).wf(),
    {
        let roll: u32 = match (phase, event) {
            (StrikePhase::Measuring { .. }, StrikeEvent::Impact { .. }) => {
                if self.is_crit_arrow() {
                    random_u32()
                } else {
                    0
                }
            },
            _ => 0,
        };
        proof {
            if let StrikeEvent::Impact { damage, .. } = event {
                if phase is Measuring {
                    self.law_damage_is_bounded(damage, roll);
                }
            }
        }
        self.on_hit_entity_with_roll(phase, event, roll)
    }
}

} // verus!
