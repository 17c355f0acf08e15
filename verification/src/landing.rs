//! An arrow that hits a block, as a conversation with the world.
//!
//! A landing begins in [`LandingPhase::Start`] and goes on as a tick does: each call of
//! [`ArrowEntity::on_hit_block`] takes the phase and what the world answered, and names the next
//! phase and what the world is to do or to tell, until [`LandingAction::Finish`].

use crate::arrow::{ArrowEntity, BlockStateId};
use vstd::prelude::*;

verus! {

/// Where in a landing an arrow stands.
#[derive(Debug, Clone, Copy, PartialEq, Eq, Structural)]
pub enum LandingPhase {
    /// Nothing has happened yet.
    Start,
    /// The hit block is reacting.
    Reacting {
        /// Whether the arrow is in a world.
        level: bool,
    },
    /// The arrow is backing off from the surface and coming to a halt.
    BackingOff,
    /// The sound of the hit is being played.
    Sounding,
    /// The block at the resting point is being looked at.
    Settling,
    /// The landing is over.
    Finished,
}

/// What the world answers.
#[derive(Debug, Clone, Copy, PartialEq, Eq, Structural)]
pub enum LandingEvent {
    /// The state of the block that was hit, or nothing if the arrow is in no world.
    Hit(Option<BlockStateId>),
    /// The state of the block at the resting point.
    RestingIn(BlockStateId),
    /// What was asked for has been done.
    Done,
}

/// What the world is to do or to tell next.
#[derive(Debug, Clone, Copy, PartialEq, Eq, Structural)]
pub enum LandingAction {
    /// Let the hit block react as to any projectile.
    React,
    /// Move the arrow a little back from where it came, if that can be done, and stop it.
    BackOff,
    /// Play the sound of the hit.
    PlayHitSound,
    /// Tell the state of the block at the resting point.
    AskBlock,
    /// Nothing: the landing is over.
    Finish,
}

/// What one call of [`ArrowEntity::on_hit_block`] decides.
#[derive(Debug, Clone, Copy, PartialEq, Eq, Structural)]
pub struct LandingTurn {
    /// The phase that the answer is to be handed in with.
    pub phase: LandingPhase,
    /// What the world is to do or to tell.
    pub action: LandingAction,
}

impl LandingPhase {
    /// Whether `event` is an answer to what was asked for in this phase.
    pub open spec fn accepts(self, event: LandingEvent) -> bool {
        match self {
            LandingPhase::Start => event is Hit,
            LandingPhase::Settling => event is RestingIn,
            LandingPhase::Finished => false,
            _ => event is Done,
        }
    }

    /// The phase after this one; an arrow in no world does not stick.
    pub open spec fn next(self, event: LandingEvent) -> LandingPhase {
        match self {
            LandingPhase::Start => LandingPhase::Reacting { level: event->Hit_0 is Some },
            LandingPhase::Reacting { level } => if level {
                LandingPhase::BackingOff
            } else {
                LandingPhase::Finished
            },
            LandingPhase::BackingOff => LandingPhase::Sounding,
            LandingPhase::Sounding => LandingPhase::Settling,
            LandingPhase::Settling | LandingPhase::Finished => LandingPhase::Finished,
        }
    }

    /// What is asked for in this phase.
    pub open spec fn action(self) -> LandingAction {
        match self {
            LandingPhase::Start | LandingPhase::Finished => LandingAction::Finish,
            LandingPhase::Reacting { .. } => LandingAction::React,
            LandingPhase::BackingOff => LandingAction::BackOff,
            LandingPhase::Sounding => LandingAction::PlayHitSound,
            LandingPhase::Settling => LandingAction::AskBlock,
        }
    }
}

impl ArrowEntity {
    /// The arrow after the answer `event` of a landing: the hit block is remembered at once, and
    /// the arrow sticks in the block that it comes to rest in.
    pub open spec fn landed(self, event: LandingEvent) -> Self {
        match event {
            LandingEvent::Hit(Some(block)) => self.with_last_state(block),
            LandingEvent::RestingIn(block) => self.stuck(block),
            _ => self,
        }
    }

    /// Takes the answer `event` in the phase `phase` of a landing, changes the arrow accordingly
    /// and decides what comes next.
    pub fn on_hit_block(&mut self, phase: LandingPhase, event: LandingEvent) -> (turn: LandingTurn)
        requires
            phase.accepts(event),
        ensures
            *final(self) == old(self).landed(event),
            turn.phase == phase.next(event),
            turn.action == turn.phase.action(),
            old(self).wf() ==> final(self).wf(),
    {
        match (phase, event) {
            (LandingPhase::Start, LandingEvent::Hit(Some(block))) => {
                self.runtime.last_state = Some(block);
                LandingTurn {
                    phase: LandingPhase::Reacting { level: true },
                    action: LandingAction::React,
                }
            },
            (LandingPhase::Start, LandingEvent::Hit(None)) => LandingTurn {
                phase: LandingPhase::Reacting { level: false },
                action: LandingAction::React,
            },
            (LandingPhase::Reacting { level: true }, _) => LandingTurn {
                phase: LandingPhase::BackingOff,
                action: LandingAction::BackOff,
            },
            (LandingPhase::BackingOff, _) => LandingTurn {
                phase: LandingPhase::Sounding,
                action: LandingAction::PlayHitSound,
            },
            (LandingPhase::Sounding, _) => LandingTurn {
                phase: LandingPhase::Settling,
                action: LandingAction::AskBlock,
            },
            (LandingPhase::Settling, LandingEvent::RestingIn(block)) => {
                self.stick_in_ground(block);
                LandingTurn { phase: LandingPhase::Finished, action: LandingAction::Finish }
            },
            _ => LandingTurn { phase: LandingPhase::Finished, action: LandingAction::Finish },
        }
    }
}

/// What a landing makes of an arrow, and what it asks of the world, in order: the outcome of
/// taking turns from `phase` on, when the arrow hits the block `hit`, if it is in a world, and
/// comes to rest in the block `resting`.
#[verifier::opaque]
pub open spec fn play(
    arrow: ArrowEntity,
    phase: LandingPhase,
    hit: Option<BlockStateId>,
    resting: BlockStateId,
) -> (ArrowEntity, Seq<LandingAction>)
    decreases
            match phase {
                LandingPhase::Start => 5int,
                LandingPhase::Reacting { .. } => 4,
                LandingPhase::BackingOff => 3,
                LandingPhase::Sounding => 2,
                LandingPhase::Settling => 1,
                LandingPhase::Finished => 0,
            },
{
    if phase == LandingPhase::Finished {
        (arrow, seq![])
    } else {
        let event = match phase {
            LandingPhase::Start => LandingEvent::Hit(hit),
            LandingPhase::Settling => LandingEvent::RestingIn(resting),
            _ => LandingEvent::Done,
        };
        let next = phase.next(event);
        let rest = play(arrow.landed(event), next, hit, resting);
        (rest.0, seq![next.action()] + rest.1)
    }
}

/// An arrow that hits a block of its world lets the block react, backs off and stops, sounds, and
/// sticks in the block at its resting point.
pub proof fn law_arrow_sticks(arrow: ArrowEntity, hit: BlockStateId, resting: BlockStateId)
    ensures
        play(arrow, LandingPhase::Start, Some(hit), resting) == (
            arrow.stuck(resting),
            seq![
                LandingAction::React,
                LandingAction::BackOff,
                LandingAction::PlayHitSound,
                LandingAction::AskBlock,
                LandingAction::Finish,
            ],
        ),
{
    reveal_with_fuel(play, 7);
    assert(play(arrow, LandingPhase::Start, Some(hit), resting).1 =~= seq![
        LandingAction::React,
        LandingAction::BackOff,
        LandingAction::PlayHitSound,
        LandingAction::AskBlock,
        LandingAction::Finish,
    ]);
}

/// An arrow in no world lets the hit block react, and is not changed.
pub proof fn law_arrow_in_no_world_does_not_stick(arrow: ArrowEntity, resting: BlockStateId)
    ensures
        play(arrow, LandingPhase::Start, None, resting) == (
            arrow,
            seq![LandingAction::React, LandingAction::Finish],
        ),
{
    reveal_with_fuel(play, 4);
    assert(play(arrow, LandingPhase::Start, None, resting).1 =~= seq![
        LandingAction::React,
        LandingAction::Finish,
    ]);
}

/// A stuck arrow is in the ground, wobbles, remembers its block, and is neither critical nor
/// piercing; its age, its damage, its pickup rule and its other flags are kept.
pub proof fn law_stuck_arrow(arrow: ArrowEntity, resting: BlockStateId)
    ensures
        ({
            let stuck = arrow.stuck(resting);
            &&& stuck.entity_data.in_ground
            &&& stuck.runtime.shake_time == crate::arrow::SHAKE_TIME
            &&& stuck.runtime.last_state == Some(resting)
            &&& !stuck.crit()
            &&& stuck.entity_data.pierce_level == 0
            &&& stuck.runtime.life == arrow.runtime.life
            &&& stuck.runtime.base_damage == arrow.runtime.base_damage
            &&& stuck.runtime.pickup == arrow.runtime.pickup
            &&& stuck.runtime.last_deflected_by == arrow.runtime.last_deflected_by
            &&& stuck.runtime.deflected_this_tick == arrow.runtime.deflected_this_tick
            &&& stuck.entity_data.id_flags | 1 == arrow.entity_data.id_flags | 1
        }),
{
    let flags = arrow.entity_data.id_flags;
    assert((flags & !1i8) & 1 == 0) by (bit_vector);
    assert((flags & !1i8) | 1 == flags | 1) by (bit_vector);
}

} // verus!
