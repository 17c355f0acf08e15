//! One tick of an arrow, as a conversation with the world.
//!
//! A tick begins in [`TickPhase::Start`]. Each call of [`ArrowEntity::tick`] takes the phase and
//! what the world answered, changes the arrow, and names the next phase and what the world is to
//! do or to tell. The tick is over with [`TickAction::Finish`].

use crate::arrow::{ArrowEntity, BlockStateId};
use vstd::prelude::*;

verus! {

/// Where in a tick an arrow stands.
#[derive(Debug, Clone, Copy, PartialEq, Eq, Structural)]
pub enum TickPhase {
    /// Nothing has happened yet.
    Start,
    /// The old position and rotation are being recorded.
    Recording,
    /// The surroundings are being looked at.
    Probing,
    /// The arrow sits in a changed block, and the room around it is being looked at.
    Loosening,
    /// The arrow has come loose and its velocity is being scaled.
    Falling,
    /// The arrow has grown too old in the ground and is being discarded.
    Expiring,
    /// The arrow has rested for a tick, and whether it still lives is being asked.
    Resting,
    /// The blocks around the resting arrow are acting on it.
    Affected,
    /// In flight: whether the arrow is in water before the move is being asked.
    Wading,
    /// The water is slowing the arrow down.
    Dragging,
    /// The path of this tick is being traced.
    Tracing,
    /// The arrow is being moved.
    Moving {
        /// Whether the path ended at something.
        hit: bool,
    },
    /// The move failed and the arrow is being discarded.
    Lost,
    /// The arrow has hit something, and whether it still lives is being asked.
    Hitting,
    /// The hit is being resolved.
    Resolving,
    /// Whether the arrow is in water after the move is being asked.
    Surfacing,
    /// The air is slowing the arrow down.
    Slowing,
    /// Gravity is pulling the arrow down.
    Sinking,
    /// The tick that all projectiles share is being run.
    Closing,
    /// The tick is over.
    Finished,
}

/// What the world answers.
#[derive(Debug, Clone, Copy, PartialEq, Eq, Structural)]
pub enum TickEvent {
    /// Whether the arrow is in a world.
    Level(bool),
    /// What was asked for has been done.
    Done,
    /// What the arrow sits in.
    Surroundings {
        /// The block state at the position of the arrow.
        block: BlockStateId,
        /// Whether that block state is air.
        air: bool,
        /// Whether the velocity of the arrow is zero.
        still: bool,
        /// Whether the arrow moves without regard to blocks.
        no_physics: bool,
    },
    /// Whether the space around the resting point is free.
    Free(bool),
    /// Whether the arrow lives.
    Alive(bool),
    /// Whether the arrow is in water.
    InWater(bool),
    /// Whether the path of this tick ends at a block or an entity.
    Traced(bool),
    /// The block state at the new position, or nothing if the arrow could not be moved there.
    Moved(Option<BlockStateId>),
}

/// What the world is to do or to tell next.
#[derive(Debug, Clone, Copy, PartialEq, Eq, Structural)]
pub enum TickAction {
    /// Make the current position and rotation the old ones.
    RecordPose,
    /// Tell what the arrow sits in.
    Probe,
    /// Tell whether the space around the resting point is free.
    AskFree,
    /// Scale each axis of the velocity by a small random factor.
    JitterVelocity,
    /// Remove the arrow from the world.
    Discard,
    /// Tell whether the arrow lives.
    AskAlive,
    /// Let the blocks around the arrow act on it.
    ApplyBlockEffects,
    /// Tell whether the arrow is in water.
    AskWater,
    /// Scale the velocity by the drag of water.
    ApplyWaterDrag,
    /// Turn the arrow along its flight, note whether it has left its owner, and trace its path.
    Trace,
    /// Move to where the traced path ended.
    MoveToHit,
    /// Move by the velocity.
    MoveByVelocity,
    /// Let what was hit be struck, or let it turn the arrow back.
    ResolveHit,
    /// Scale the velocity by the drag of air.
    ApplyAirDrag,
    /// Pull the velocity down.
    ApplyGravity,
    /// Run the tick that all projectiles share.
    BaseTick,
    /// Nothing: the tick is over.
    Finish,
}

/// What one call of [`ArrowEntity::tick`] decides.
#[derive(Debug, Clone, Copy, PartialEq, Eq, Structural)]
pub struct TickTurn {
    /// The phase that the answer is to be handed in with.
    pub phase: TickPhase,
    /// What the world is to do or to tell.
    pub action: TickAction,
}

impl TickPhase {
    /// Whether `event` is an answer to what was asked for in this phase.
    pub open spec fn accepts(self, event: TickEvent) -> bool {
        match self {
            TickPhase::Start => event is Level,
            TickPhase::Probing => event is Surroundings,
            TickPhase::Loosening => event is Free,
            TickPhase::Resting | TickPhase::Hitting => event is Alive,
            TickPhase::Wading | TickPhase::Surfacing => event is InWater,
            TickPhase::Tracing => event is Traced,
            TickPhase::Moving { .. } => event is Moved,
            TickPhase::Finished => false,
            _ => event is Done,
        }
    }

    /// The place of a phase in the order that every tick keeps.
    pub open spec fn rank(self) -> nat {
        match self {
            TickPhase::Start => 0,
            TickPhase::Recording => 1,
            TickPhase::Probing => 2,
            TickPhase::Loosening => 3,
            TickPhase::Expiring => 4,
            TickPhase::Resting => 5,
            TickPhase::Affected => 6,
            TickPhase::Falling => 7,
            TickPhase::Wading => 8,
            TickPhase::Dragging => 9,
            TickPhase::Tracing => 10,
            TickPhase::Moving { .. } => 11,
            TickPhase::Lost => 12,
            TickPhase::Hitting => 13,
            TickPhase::Resolving => 14,
            TickPhase::Surfacing => 15,
            TickPhase::Slowing => 16,
            TickPhase::Sinking => 17,
            TickPhase::Closing => 18,
            TickPhase::Finished => 19,
        }
    }

    /// What is asked for in this phase.
    pub open spec fn action(self) -> TickAction {
        match self {
            TickPhase::Start | TickPhase::Finished => TickAction::Finish,
            TickPhase::Recording => TickAction::RecordPose,
            TickPhase::Probing => TickAction::Probe,
            TickPhase::Loosening => TickAction::AskFree,
            TickPhase::Falling => TickAction::JitterVelocity,
            TickPhase::Expiring | TickPhase::Lost => TickAction::Discard,
            TickPhase::Resting | TickPhase::Hitting => TickAction::AskAlive,
            TickPhase::Affected => TickAction::ApplyBlockEffects,
            TickPhase::Wading | TickPhase::Surfacing => TickAction::AskWater,
            TickPhase::Dragging => TickAction::ApplyWaterDrag,
            TickPhase::Tracing => TickAction::Trace,
            TickPhase::Moving { hit } => if hit {
                TickAction::MoveToHit
            } else {
                TickAction::MoveByVelocity
            },
            TickPhase::Resolving => TickAction::ResolveHit,
            TickPhase::Slowing => TickAction::ApplyAirDrag,
            TickPhase::Sinking => TickAction::ApplyGravity,
            TickPhase::Closing => TickAction::BaseTick,
        }
    }
}

/// The model: what an answer does to an arrow, and which phase follows.
impl ArrowEntity {
    /// The arrow after looking at its surroundings. One that lies still in a block is stuck in
    /// it; one that is free, or ignores blocks, has its count of ground ticks reset.
    pub open spec fn probed(self, air: bool, still: bool, no_physics: bool) -> Self {
        let settled = if !air && still {
            self.with_in_ground(true)
        } else {
            self
        };
        if settled.entity_data.in_ground && !no_physics {
            settled
        } else {
            settled.airborne()
        }
    }

    /// Whether this answer makes the arrow spend the tick in the ground: it is stuck, and its
    /// block is the remembered one or leaves it no room to fall.
    pub open spec fn rests(self, phase: TickPhase, event: TickEvent) -> bool {
        match (phase, event) {
            (TickPhase::Probing, TickEvent::Surroundings { block, air, still, no_physics }) => {
                &&& self.probed(air, still, no_physics).entity_data.in_ground
                &&& !no_physics
                &&& !self.block_changed(block)
            },
            (TickPhase::Loosening, TickEvent::Free(free)) => !free,
            _ => false,
        }
    }

    /// The arrow after the answer `event` in `phase`.
    pub open spec fn ticked(self, phase: TickPhase, event: TickEvent) -> Self {
        match (phase, event) {
            (TickPhase::Recording, _) => self.shaken().forgetting(),
            (TickPhase::Probing, TickEvent::Surroundings { block, air, still, no_physics }) => {
                let probed = self.probed(air, still, no_physics);
                if self.rests(phase, event) {
                    probed.rested()
                } else {
                    probed
                }
            },
            (TickPhase::Loosening, TickEvent::Free(free)) => if free {
                self.fallen()
            } else {
                self.rested()
            },
            (TickPhase::Moving { .. }, TickEvent::Moved(Some(block))) => self.with_last_state(
                block,
            ),
            _ => self,
        }
    }

    /// The phase after the answer `event` in `phase`.
    pub open spec fn next_phase(self, phase: TickPhase, event: TickEvent) -> TickPhase {
        match (phase, event) {
            (TickPhase::Start, TickEvent::Level(true)) => TickPhase::Recording,
            (TickPhase::Recording, _) => TickPhase::Probing,
            (TickPhase::Probing, TickEvent::Surroundings { block, air, still, no_physics }) => {
                let probed = self.probed(air, still, no_physics);
                if self.rests(phase, event) {
                    probed.phase_at_rest()
                } else if probed.entity_data.in_ground && !no_physics {
                    TickPhase::Loosening
                } else {
                    TickPhase::Wading
                }
            },
            (TickPhase::Loosening, TickEvent::Free(free)) => if free {
                TickPhase::Falling
            } else {
                self.phase_at_rest()
            },
            (TickPhase::Falling, _) => TickPhase::Wading,
            (TickPhase::Expiring, _) => TickPhase::Resting,
            (TickPhase::Resting, TickEvent::Alive(true)) => TickPhase::Affected,
            (TickPhase::Wading, TickEvent::InWater(wet)) => if wet {
                TickPhase::Dragging
            } else {
                TickPhase::Tracing
            },
            (TickPhase::Dragging, _) => TickPhase::Tracing,
            (TickPhase::Tracing, TickEvent::Traced(hit)) => TickPhase::Moving { hit },
            (TickPhase::Moving { hit }, TickEvent::Moved(block)) => if block is None {
                TickPhase::Lost
            } else if hit {
                TickPhase::Hitting
            } else {
                TickPhase::Surfacing
            },
            (TickPhase::Hitting, TickEvent::Alive(alive)) => if alive {
                TickPhase::Resolving
            } else {
                TickPhase::Surfacing
            },
            (TickPhase::Resolving, _) => TickPhase::Surfacing,
            (TickPhase::Surfacing, TickEvent::InWater(wet)) => if wet {
                self.phase_after_drag()
            } else {
                TickPhase::Slowing
            },
            (TickPhase::Slowing, _) => self.phase_after_drag(),
            (TickPhase::Sinking, _) => TickPhase::Closing,
            _ => TickPhase::Finished,
        }
    }

    /// The phase that follows a tick of rest: an arrow that comes of age is discarded first.
    pub open spec fn phase_at_rest(self) -> TickPhase {
        if self.runtime.life + 1 >= crate::arrow::DESPAWN_LIFE {
            TickPhase::Expiring
        } else {
            TickPhase::Resting
        }
    }

    /// The phase that follows the drag: gravity pulls unless the arrow is stuck.
    pub open spec fn phase_after_drag(self) -> TickPhase {
        if self.entity_data.in_ground {
            TickPhase::Closing
        } else {
            TickPhase::Sinking
        }
    }
}

impl TickTurn {
    /// The end of the tick.
    fn finish() -> (r: Self)
        ensures
            r.phase == TickPhase::Finished,
            r.action == r.phase.action(),
    {
        TickTurn { phase: TickPhase::Finished, action: TickAction::Finish }
    }
}

impl ArrowEntity {
    /// Whether this answer makes the arrow spend the tick in the ground, for which
    /// [`ArrowEntity::tick`] needs room in the counters.
    pub fn would_rest(&self, phase: TickPhase, event: TickEvent) -> (r: bool)
        ensures
            r == self.rests(phase, event),
    {
        match (phase, event) {
            (TickPhase::Probing, TickEvent::Surroundings { block, air, still, no_physics }) => {
                (self.is_in_ground() || (!air && still)) && !no_physics
                    && !self.is_block_changed(block)
            },
            (TickPhase::Loosening, TickEvent::Free(free)) => !free,
            _ => false,
        }
    }

    /// Spends a tick in the ground.
    fn rest(&mut self) -> (turn: TickTurn)
        requires
            old(self).can_age(),
        ensures
            *final(self) == old(self).rested(),
            turn.phase == old(self).phase_at_rest(),
            turn.action == turn.phase.action(),
    {
        let expired: bool = self.tick_despawn();
        self.runtime.in_ground_time += 1;
        if expired {
            TickTurn { phase: TickPhase::Expiring, action: TickAction::Discard }
        } else {
            TickTurn { phase: TickPhase::Resting, action: TickAction::AskAlive }
        }
    }

    /// Goes on once the drag of the medium has been dealt with.
    fn after_drag(&self) -> (turn: TickTurn)
        ensures
            turn.phase == self.phase_after_drag(),
            turn.action == turn.phase.action(),
    {
        if self.is_in_ground() {
            TickTurn { phase: TickPhase::Closing, action: TickAction::BaseTick }
        } else {
            TickTurn { phase: TickPhase::Sinking, action: TickAction::ApplyGravity }
        }
    }

    /// Looks at the surroundings.
    fn probe(&mut self, block: BlockStateId, air: bool, still: bool, no_physics: bool) -> (turn:
        TickTurn)
        requires
            old(self).rests(
                TickPhase::Probing,
                TickEvent::Surroundings { block, air, still, no_physics },
            ) ==> old(self).can_age(),
        ensures
            *final(self) == old(self).ticked(
                TickPhase::Probing,
                TickEvent::Surroundings { block, air, still, no_physics },
            ),
            turn.phase == old(self).next_phase(
                TickPhase::Probing,
                TickEvent::Surroundings { block, air, still, no_physics },
            ),
            turn.action == turn.phase.action(),
    {
        if !air && still {
            self.set_in_ground(true);
        }
        if self.is_in_ground() && !no_physics {
            if self.is_block_changed(block) {
                TickTurn { phase: TickPhase::Loosening, action: TickAction::AskFree }
            } else {
                self.rest()
            }
        } else {
            self.runtime.in_ground_time = 0;
            TickTurn { phase: TickPhase::Wading, action: TickAction::AskWater }
        }
    }

    /// Takes the answer `event` in the phase `phase` of a tick, changes the arrow accordingly
    /// and decides what comes next.
    ///
    /// An arrow that spends the tick in the ground needs room in its two counters.
    pub fn tick(&mut self, phase: TickPhase, event: TickEvent) -> (turn: TickTurn)
        requires
            phase.accepts(event),
            old(self).rests(phase, event) ==> old(self).can_age(),
        ensures
            *final(self) == old(self).ticked(phase, event),
            turn.phase == old(self).next_phase(phase, event),
            turn.action == turn.phase.action(),
            old(self).wf() ==> final(self).wf(),
    {
        match (phase, event) {
            (TickPhase::Start, TickEvent::Level(level)) => if level {
                TickTurn { phase: TickPhase::Recording, action: TickAction::RecordPose }
            } else {
                TickTurn::finish()
            },
            (TickPhase::Recording, _) => {
                if self.runtime.shake_time > 0 {
                    self.runtime.shake_time -= 1;
                }
                self.age_deflection();
                TickTurn { phase: TickPhase::Probing, action: TickAction::Probe }
            },
            (
                TickPhase::Probing,
                TickEvent::Surroundings { block, air, still, no_physics },
            ) => self.probe(block, air, still, no_physics),
            (TickPhase::Loosening, TickEvent::Free(free)) => if free {
                self.start_falling();
                TickTurn { phase: TickPhase::Falling, action: TickAction::JitterVelocity }
            } else {
                self.rest()
            },
            (TickPhase::Falling, _) => TickTurn {
                phase: TickPhase::Wading,
                action: TickAction::AskWater,
            },
            (TickPhase::Expiring, _) => TickTurn {
                phase: TickPhase::Resting,
                action: TickAction::AskAlive,
            },
            (TickPhase::Resting, TickEvent::Alive(alive)) => if alive {
                TickTurn { phase: TickPhase::Affected, action: TickAction::ApplyBlockEffects }
            } else {
                TickTurn::finish()
            },
            (TickPhase::Wading, TickEvent::InWater(wet)) => if wet {
                TickTurn { phase: TickPhase::Dragging, action: TickAction::ApplyWaterDrag }
            } else {
                TickTurn { phase: TickPhase::Tracing, action: TickAction::Trace }
            },
            (TickPhase::Dragging, _) => TickTurn {
                phase: TickPhase::Tracing,
                action: TickAction::Trace,
            },
            (TickPhase::Tracing, TickEvent::Traced(hit)) => if hit {
                TickTurn { phase: TickPhase::Moving { hit }, action: TickAction::MoveToHit }
            } else {
                TickTurn { phase: TickPhase::Moving { hit }, action: TickAction::MoveByVelocity }
            },
            (TickPhase::Moving { hit }, TickEvent::Moved(Some(block))) => {
                self.runtime.last_state = Some(block);
                if hit {
                    TickTurn { phase: TickPhase::Hitting, action: TickAction::AskAlive }
                } else {
                    TickTurn { phase: TickPhase::Surfacing, action: TickAction::AskWater }
                }
            },
            (TickPhase::Moving { .. }, TickEvent::Moved(None)) => TickTurn {
                phase: TickPhase::Lost,
                action: TickAction::Discard,
            },
            (TickPhase::Hitting, TickEvent::Alive(alive)) => if alive {
                TickTurn { phase: TickPhase::Resolving, action: TickAction::ResolveHit }
            } else {
                TickTurn { phase: TickPhase::Surfacing, action: TickAction::AskWater }
            },
            (TickPhase::Resolving, _) => TickTurn {
                phase: TickPhase::Surfacing,
                action: TickAction::AskWater,
            },
            (TickPhase::Surfacing, TickEvent::InWater(wet)) => if wet {
                self.after_drag()
            } else {
                TickTurn { phase: TickPhase::Slowing, action: TickAction::ApplyAirDrag }
            },
            (TickPhase::Slowing, _) => self.after_drag(),
            (TickPhase::Sinking, _) => TickTurn {
                phase: TickPhase::Closing,
                action: TickAction::BaseTick,
            },
            _ => TickTurn::finish(),
        }
    }
}

} // verus!
