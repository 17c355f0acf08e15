//! What holds of whole ticks, and of ticks in a row.

use crate::arrow::{ArrowEntity, BlockStateId, DESPAWN_LIFE};
use crate::landing::LandingPhase;
use crate::tick::{TickAction, TickEvent, TickPhase};
use vstd::prelude::*;

verus! {

/// All that the world may be asked for in one tick, answered ahead of time.
pub struct World {
    /// Whether the arrow is in a world.
    pub level: bool,
    /// The block state at the position of the arrow.
    pub block: BlockStateId,
    /// Whether that block state is air.
    pub air: bool,
    /// Whether the velocity is zero.
    pub still: bool,
    /// Whether the arrow ignores blocks.
    pub no_physics: bool,
    /// Whether the space around the resting point is free.
    pub free: bool,
    /// Whether the arrow lives after a tick of rest.
    pub alive_at_rest: bool,
    /// Whether the arrow is in water before the move.
    pub wet_before: bool,
    /// Whether the path ends at something.
    pub hit: bool,
    /// The block state at the new position, or nothing if the move fails.
    pub moved: Option<BlockStateId>,
    /// Whether the arrow lives when it hits.
    pub alive_at_hit: bool,
    /// What the resolution of the hit makes of the arrow.
    pub struck: ArrowEntity,
    /// Whether the arrow is in water after the move.
    pub wet_after: bool,
}

impl World {
    /// The answer to what is asked for in `phase`.
    pub open spec fn answer(self, phase: TickPhase) -> TickEvent {
        match phase {
            TickPhase::Start => TickEvent::Level(self.level),
            TickPhase::Probing => TickEvent::Surroundings {
                block: self.block,
                air: self.air,
                still: self.still,
                no_physics: self.no_physics,
            },
            TickPhase::Loosening => TickEvent::Free(self.free),
            TickPhase::Resting => TickEvent::Alive(self.alive_at_rest),
            TickPhase::Wading => TickEvent::InWater(self.wet_before),
            TickPhase::Tracing => TickEvent::Traced(self.hit),
            TickPhase::Moving { .. } => TickEvent::Moved(self.moved),
            TickPhase::Hitting => TickEvent::Alive(self.alive_at_hit),
            TickPhase::Surfacing => TickEvent::InWater(self.wet_after),
            _ => TickEvent::Done,
        }
    }

    /// The arrow that is handed in with the answer: the world changes it only by resolving a hit.
    pub open spec fn arrow(self, phase: TickPhase, arrow: ArrowEntity) -> ArrowEntity {
        if phase == TickPhase::Resolving {
            self.struck
        } else {
            arrow
        }
    }

    /// Whether an arrow spends this tick in the ground.
    pub open spec fn grounds(self, arrow: ArrowEntity) -> bool {
        &&& self.level
        &&& !self.no_physics
        &&& arrow.entity_data.in_ground || (!self.air && self.still)
        &&& !(arrow.block_changed(self.block) && self.free)
    }

    /// Whether a hit of the arrow is resolved in this tick.
    pub open spec fn resolves(self, arrow: ArrowEntity) -> bool {
        &&& self.level
        &&& !self.grounds(arrow)
        &&& self.moved is Some
        &&& self.hit
        &&& self.alive_at_hit
    }

    /// Whether the arrow is in a world and what it hits in this tick, if anything, leaves its
    /// wobble alone: strikes do, landings do not.
    pub open spec fn leaves_wobble(self, arrow: ArrowEntity) -> bool {
        &&& self.level
        &&& self.resolves(arrow) ==> self.struck.runtime.shake_time == moved(
            arrow,
            self,
        ).runtime.shake_time
    }

    /// Whether an arrow that was stuck comes loose in this tick.
    pub open spec fn loosens(self, arrow: ArrowEntity) -> bool {
        &&& self.level
        &&& !self.no_physics
        &&& arrow.entity_data.in_ground || (!self.air && self.still)
        &&& arrow.block_changed(self.block)
        &&& self.free
    }
}

/// A tick in which every answer may come with an arrow that the world has changed: phase `i` is
/// answered by event `i`, handed in with arrow `i`.
pub struct TickRun {
    /// The phases, from the first on.
    pub phases: Seq<TickPhase>,
    /// The answers.
    pub events: Seq<TickEvent>,
    /// The arrows that are handed in with the answers.
    pub arrows: Seq<ArrowEntity>,
}

impl TickRun {
    /// Whether phase `i + 1` follows from phase `i` as [`ArrowEntity::tick`] decides.
    pub open spec fn follows(self, i: int) -> bool {
        &&& self.phases[i].accepts(self.events[i])
        &&& self.phases[i + 1] == self.arrows[i].next_phase(self.phases[i], self.events[i])
    }

    /// Whether the phases follow from one another, from the start of a tick on.
    pub open spec fn valid(self) -> bool {
        &&& self.phases.len() > 0
        &&& self.phases[0] == TickPhase::Start
        &&& self.events.len() + 1 >= self.phases.len()
        &&& self.arrows.len() + 1 >= self.phases.len()
        &&& forall|i: int| 0 <= i < self.phases.len() - 1 ==> #[trigger] self.follows(i)
    }
}

/// One action, or none.
pub open spec fn when(condition: bool, action: TickAction) -> Seq<TickAction> {
    if condition {
        seq![action]
    } else {
        seq![]
    }
}

/// What a tick makes of an arrow, and what it asks of the world, in order: the outcome of taking
/// turns from `phase` on until the tick is over.
#[verifier::opaque]
pub open spec fn play(arrow: ArrowEntity, phase: TickPhase, world: World) -> (
    ArrowEntity,
    Seq<TickAction>,
)
    decreases TickPhase::Finished.rank() - phase.rank(),
{
    if phase == TickPhase::Finished {
        (arrow, seq![])
    } else {
        let handed = world.arrow(phase, arrow);
        let event = world.answer(phase);
        let next = handed.next_phase(phase, event);
        let rest = play(handed.ticked(phase, event), next, world);
        (rest.0, seq![next.action()] + rest.1)
    }
}

/// The arrow with which a tick that starts in `phase` reaches the phase `sought`, if it does.
#[verifier::opaque]
pub open spec fn arrow_at(
    arrow: ArrowEntity,
    phase: TickPhase,
    world: World,
    sought: TickPhase,
) -> Option<ArrowEntity>
    decreases TickPhase::Finished.rank() - phase.rank(),
{
    if phase == sought {
        Some(arrow)
    } else if phase == TickPhase::Finished {
        None
    } else {
        let handed = world.arrow(phase, arrow);
        let event = world.answer(phase);
        arrow_at(handed.ticked(phase, event), handed.next_phase(phase, event), world, sought)
    }
}

/// The arrow after looking around: a tick older in wobble and memory, and stuck or free.
pub open spec fn settled(arrow: ArrowEntity, world: World) -> ArrowEntity {
    arrow.shaken().forgetting().probed(world.air, world.still, world.no_physics)
}

/// The arrow that sets out on the flight of a tick: let go first, if it comes loose.
pub open spec fn loose(arrow: ArrowEntity, world: World) -> ArrowEntity {
    if world.loosens(arrow) {
        settled(arrow, world).fallen()
    } else {
        settled(arrow, world)
    }
}

/// The arrow after the move of a tick, before any hit is resolved.
pub open spec fn moved(arrow: ArrowEntity, world: World) -> ArrowEntity {
    match world.moved {
        None => loose(arrow, world),
        Some(block) => loose(arrow, world).with_last_state(block),
    }
}

/// What a tick makes of an arrow.
pub open spec fn outcome(arrow: ArrowEntity, world: World) -> ArrowEntity {
    if !world.level {
        arrow
    } else if world.grounds(arrow) {
        settled(arrow, world).rested()
    } else if world.moved is Some && world.hit && world.alive_at_hit {
        world.struck
    } else {
        moved(arrow, world)
    }
}

/// What a tick in the ground asks of the world after looking around.
pub open spec fn ground_script(arrow: ArrowEntity, world: World) -> Seq<TickAction> {
    when(arrow.block_changed(world.block), TickAction::AskFree)
        + when(arrow.runtime.life + 1 >= DESPAWN_LIFE, TickAction::Discard)
        + seq![TickAction::AskAlive]
        + when(world.alive_at_rest, TickAction::ApplyBlockEffects)
        + seq![TickAction::Finish]
}

/// What a tick in flight asks of the world after the move, which makes `after` of the arrow.
pub open spec fn landing_script(after: ArrowEntity, world: World) -> Seq<TickAction> {
    if world.moved is None {
        seq![TickAction::Discard, TickAction::Finish]
    } else {
        when(world.hit, TickAction::AskAlive)
            + when(world.hit && world.alive_at_hit, TickAction::ResolveHit)
            + seq![TickAction::AskWater]
            + when(!world.wet_after, TickAction::ApplyAirDrag)
            + when(!after.entity_data.in_ground, TickAction::ApplyGravity)
            + seq![TickAction::BaseTick, TickAction::Finish]
    }
}

/// What a tick in flight, which makes `after` of the arrow, asks of the world.
pub open spec fn flight_script(after: ArrowEntity, world: World) -> Seq<TickAction> {
    when(world.wet_before, TickAction::ApplyWaterDrag)
        + seq![TickAction::Trace]
        + seq![if world.hit { TickAction::MoveToHit } else { TickAction::MoveByVelocity }]
        + landing_script(after, world)
}

/// What a tick asks of the world.
pub open spec fn script(arrow: ArrowEntity, world: World) -> Seq<TickAction> {
    if !world.level {
        seq![TickAction::Finish]
    } else {
        seq![TickAction::RecordPose, TickAction::Probe] + if world.grounds(arrow) {
            ground_script(arrow, world)
        } else {
            when(world.loosens(arrow), TickAction::AskFree)
                + when(world.loosens(arrow), TickAction::JitterVelocity)
                + seq![TickAction::AskWater]
                + flight_script(outcome(arrow, world), world)
        }
    }
}

/// The arrow after one tick in each of the worlds, in order.
pub open spec fn passed(arrow: ArrowEntity, worlds: Seq<World>) -> ArrowEntity
    decreases worlds.len(),
{
    if worlds.len() == 0 {
        arrow
    } else {
        outcome(passed(arrow, worlds.drop_last()), worlds.last())
    }
}

/// Whether the arrow spends each of these ticks in the ground.
pub open spec fn rests_through(arrow: ArrowEntity, worlds: Seq<World>) -> bool
    decreases worlds.len(),
{
    worlds.len() > 0 ==> {
        &&& rests_through(arrow, worlds.drop_last())
        &&& worlds.last().grounds(passed(arrow, worlds.drop_last()))
    }
}

/// Whether the arrow is in a world in each of these ticks and does not land in any.
pub open spec fn wobbles_through(arrow: ArrowEntity, worlds: Seq<World>) -> bool
    decreases worlds.len(),
{
    worlds.len() > 0 ==> {
        &&& wobbles_through(arrow, worlds.drop_last())
        &&& worlds.last().leaves_wobble(passed(arrow, worlds.drop_last()))
    }
}

/// What is left of a wobble of `shake` ticks after `n` ticks.
pub open spec fn wobble_left(shake: int, n: nat) -> int {
    if shake <= 0 {
        shake
    } else if n < shake {
        shake - n
    } else {
        0
    }
}

/// Every turn of a tick leads to a later phase, whatever the world answers.
pub proof fn law_turns_advance(arrow: ArrowEntity, phase: TickPhase, event: TickEvent)
    requires
        phase.accepts(event),
    ensures
        arrow.next_phase(phase, event).rank() > phase.rank(),
{
}

/// Within a tick no phase comes back: later phases are later in the order of phases.
pub proof fn law_run_keeps_order(run: TickRun, i: int, j: int)
    requires
        run.valid(),
        0 <= i < j < run.phases.len(),
    ensures
        run.phases[i].rank() < run.phases[j].rank(),
    decreases j - i,
{
    assert(run.follows(j - 1));
    law_turns_advance(run.arrows[j - 1], run.phases[j - 1], run.events[j - 1]);
    if i < j - 1 {
        law_run_keeps_order(run, i, j - 1);
    }
}

/// A tick ends: it has at most twenty phases.
pub proof fn law_run_is_finite(run: TickRun)
    requires
        run.valid(),
    ensures
        run.phases.len() <= 20,
{
    lemma_rank_grows(run, run.phases.len() - 1);
}

proof fn lemma_rank_grows(run: TickRun, j: int)
    requires
        run.valid(),
        0 <= j < run.phases.len(),
    ensures
        run.phases[j].rank() >= j,
    decreases j,
{
    if j > 0 {
        lemma_rank_grows(run, j - 1);
        law_run_keeps_order(run, j - 1, j);
    }
}

/// A hit is resolved before the drag of air, before gravity and before the shared tick, so that
/// those act on what the hit made of the velocity; gravity comes after the drag, and the shared
/// tick comes last.
pub proof fn law_hit_before_drag_before_gravity(run: TickRun, i: int, j: int)
    requires
        run.valid(),
        0 <= i < run.phases.len(),
        0 <= j < run.phases.len(),
        ({
            ||| run.phases[i] is Resolving && run.phases[j] is Slowing
            ||| run.phases[i] is Resolving && run.phases[j] is Sinking
            ||| run.phases[i] is Resolving && run.phases[j] is Closing
            ||| run.phases[i] is Slowing && run.phases[j] is Sinking
            ||| run.phases[i] is Slowing && run.phases[j] is Closing
            ||| run.phases[i] is Sinking && run.phases[j] is Closing
        }),
    ensures
        i < j,
{
    if j < i {
        law_run_keeps_order(run, j, i);
    }
}

/// An arrow that rests through a tick does not move, is not slowed or pulled in it, and does not
/// reach the shared tick.
pub proof fn law_ground_tick_has_no_flight(run: TickRun, i: int, j: int)
    requires
        run.valid(),
        0 <= i < run.phases.len(),
        0 <= j < run.phases.len(),
        run.phases[i] is Resting,
    ensures
        run.phases[j].rank() <= TickPhase::Affected.rank() || run.phases[j] is Finished,
{
    if j < i {
        law_run_keeps_order(run, j, i);
    } else if j > i {
        assert(run.follows(i));
        if j > i + 1 {
            assert(run.follows(i + 1));
            if j > i + 2 {
                assert(run.follows(i + 2));
            }
        }
    }
}

/// Gravity pulls only on an arrow that is not stuck at that moment, and it pulls on every such
/// arrow once the drag has been dealt with.
pub proof fn law_gravity_spares_stuck_arrows(
    arrow: ArrowEntity,
    phase: TickPhase,
    event: TickEvent,
)
    requires
        phase.accepts(event),
    ensures
        arrow.next_phase(phase, event) is Sinking ==> !arrow.entity_data.in_ground,
        arrow.next_phase(phase, event) is Closing && !(phase is Sinking)
            ==> arrow.entity_data.in_ground,
        phase is Slowing && !arrow.entity_data.in_ground ==> arrow.next_phase(
            phase,
            event,
        ) is Sinking,
{
}

/// A tick leaves alone what the arrow is, the damage it does and who may take it.
pub proof fn law_tick_keeps_the_rest(arrow: ArrowEntity, phase: TickPhase, event: TickEvent)
    ensures
        ({
            let after = arrow.ticked(phase, event);
            &&& after.id == arrow.id
            &&& after.entity_type == arrow.entity_type
            &&& after.entity_data.id_flags == arrow.entity_data.id_flags
            &&& after.entity_data.pierce_level == arrow.entity_data.pierce_level
            &&& after.runtime.base_damage == arrow.runtime.base_damage
            &&& after.runtime.pickup == arrow.runtime.pickup
        }),
{
}

/// Whatever the world answers, the turns of a tick amount to [`outcome`] and [`script`].
pub proof fn law_tick_follows_script(arrow: ArrowEntity, world: World)
    ensures
        play(arrow, TickPhase::Start, world) == (outcome(arrow, world), script(arrow, world)),
{
    lemma_turn(arrow, TickPhase::Start, world);
    if !world.level {
        lemma_turn(arrow, TickPhase::Finished, world);
        assert(play(arrow, TickPhase::Start, world).1 =~= script(arrow, world));
    } else {
        lemma_turn(arrow, TickPhase::Recording, world);
        if world.grounds(arrow) {
            lemma_ground(arrow, world);
        } else {
            lemma_loose(arrow, world);
        }
        assert(play(arrow, TickPhase::Start, world).1 =~= script(arrow, world));
    }
}

/// The turns of a tick in the ground, from the look around on.
proof fn lemma_ground(arrow: ArrowEntity, world: World)
    requires
        world.grounds(arrow),
    ensures
        play(arrow.shaken().forgetting(), TickPhase::Probing, world) == (
            settled(arrow, world).rested(),
            ground_script(arrow, world),
        ),
{
    let settled = settled(arrow, world);
    let rested = settled.rested();
    lemma_turn(arrow.shaken().forgetting(), TickPhase::Probing, world);
    lemma_turn(settled, TickPhase::Loosening, world);
    lemma_turn(rested, TickPhase::Expiring, world);
    lemma_turn(rested, TickPhase::Resting, world);
    lemma_turn(rested, TickPhase::Affected, world);
    lemma_turn(rested, TickPhase::Finished, world);
    assert(play(arrow.shaken().forgetting(), TickPhase::Probing, world).1 =~= ground_script(
        arrow,
        world,
    ));
}

/// The turns of a tick in flight, from the look around on.
proof fn lemma_loose(arrow: ArrowEntity, world: World)
    requires
        world.level,
        !world.grounds(arrow),
    ensures
        play(arrow.shaken().forgetting(), TickPhase::Probing, world) == (
            outcome(arrow, world),
            when(world.loosens(arrow), TickAction::AskFree)
                + when(world.loosens(arrow), TickAction::JitterVelocity)
                + seq![TickAction::AskWater] + flight_script(outcome(arrow, world), world),
        ),
{
    let settled = settled(arrow, world);
    lemma_turn(arrow.shaken().forgetting(), TickPhase::Probing, world);
    if world.loosens(arrow) {
        lemma_turn(settled, TickPhase::Loosening, world);
        lemma_turn(settled.fallen(), TickPhase::Falling, world);
        lemma_flight(settled.fallen(), world);
        assert(flown(settled.fallen(), world) == outcome(arrow, world));
    } else {
        lemma_flight(settled, world);
        assert(flown(settled, world) == outcome(arrow, world));
    }
    assert(play(arrow.shaken().forgetting(), TickPhase::Probing, world).1 =~= when(
        world.loosens(arrow),
        TickAction::AskFree,
    ) + when(world.loosens(arrow), TickAction::JitterVelocity) + seq![TickAction::AskWater]
        + flight_script(outcome(arrow, world), world));
}

/// One turn of [`play`].
proof fn lemma_turn(arrow: ArrowEntity, phase: TickPhase, world: World)
    ensures
        play(arrow, phase, world) == (if phase == TickPhase::Finished {
            (arrow, seq![])
        } else {
            let handed = world.arrow(phase, arrow);
            let event = world.answer(phase);
            let next = handed.next_phase(phase, event);
            let rest = play(handed.ticked(phase, event), next, world);
            (rest.0, seq![next.action()] + rest.1)
        }),
{
    reveal(play);
}

/// The turns from the drag of the air on.
proof fn lemma_drag(arrow: ArrowEntity, world: World)
    ensures
        play(arrow, TickPhase::Surfacing, world) == (
            arrow,
            when(!world.wet_after, TickAction::ApplyAirDrag)
                + when(!arrow.entity_data.in_ground, TickAction::ApplyGravity)
                + seq![TickAction::BaseTick, TickAction::Finish],
        ),
{
    lemma_turn(arrow, TickPhase::Surfacing, world);
    lemma_turn(arrow, TickPhase::Slowing, world);
    lemma_turn(arrow, TickPhase::Sinking, world);
    lemma_turn(arrow, TickPhase::Closing, world);
    lemma_turn(arrow, TickPhase::Finished, world);
    assert(play(arrow, TickPhase::Surfacing, world).1 =~= when(
        !world.wet_after,
        TickAction::ApplyAirDrag,
    ) + when(!arrow.entity_data.in_ground, TickAction::ApplyGravity)
        + seq![TickAction::BaseTick, TickAction::Finish]);
}

/// What the flight of one tick makes of an arrow that sets out as `loose`.
spec fn flown(loose: ArrowEntity, world: World) -> ArrowEntity {
    match world.moved {
        None => loose,
        Some(block) => if world.hit && world.alive_at_hit {
            world.struck
        } else {
            loose.with_last_state(block)
        },
    }
}

/// The turns from the move on.
proof fn lemma_move(loose: ArrowEntity, world: World)
    ensures
        play(loose, TickPhase::Moving { hit: world.hit }, world) == (
            flown(loose, world),
            landing_script(flown(loose, world), world),
        ),
{
    let moving = TickPhase::Moving { hit: world.hit };
    lemma_turn(loose, moving, world);
    match world.moved {
        None => {
            lemma_turn(loose, TickPhase::Lost, world);
            lemma_turn(loose, TickPhase::Finished, world);
        },
        Some(block) => {
            let moved = loose.with_last_state(block);
            lemma_turn(moved, TickPhase::Hitting, world);
            lemma_turn(moved, TickPhase::Resolving, world);
            lemma_drag(moved, world);
            lemma_drag(world.struck, world);
        },
    }
    assert(play(loose, moving, world).1 =~= landing_script(flown(loose, world), world));
}

/// The turns of the flight.
proof fn lemma_flight(loose: ArrowEntity, world: World)
    ensures
        play(loose, TickPhase::Wading, world) == (
            flown(loose, world),
            flight_script(flown(loose, world), world),
        ),
{
    lemma_turn(loose, TickPhase::Wading, world);
    lemma_turn(loose, TickPhase::Dragging, world);
    lemma_turn(loose, TickPhase::Tracing, world);
    lemma_move(loose, world);
    assert(play(loose, TickPhase::Wading, world).1 =~= flight_script(flown(loose, world), world));
}

/// A hit is resolved exactly if the arrow is in flight, its move succeeds and ends at something,
/// and it still lives; what is handed to the resolution is the moved arrow.
pub proof fn law_strike_gets_moved_arrow(arrow: ArrowEntity, world: World)
    ensures
        arrow_at(arrow, TickPhase::Start, world, TickPhase::Resolving) == (if world.resolves(
            arrow,
        ) {
            Some(moved(arrow, world))
        } else {
            None
        }),
{
    let settled = settled(arrow, world);
    lemma_next(arrow, TickPhase::Start, world);
    lemma_next(arrow, TickPhase::Recording, world);
    lemma_next(arrow.shaken().forgetting(), TickPhase::Probing, world);
    lemma_next(settled, TickPhase::Loosening, world);
    lemma_next(settled.fallen(), TickPhase::Falling, world);
    lemma_next(settled.rested(), TickPhase::Expiring, world);
    lemma_next(settled.rested(), TickPhase::Resting, world);
    lemma_next(settled.rested(), TickPhase::Affected, world);
    lemma_next(settled.rested(), TickPhase::Finished, world);
    lemma_next(arrow, TickPhase::Finished, world);
    lemma_approach(settled, world);
    lemma_approach(settled.fallen(), world);
}

/// One turn of [`arrow_at`] on the way to the resolution of a hit.
proof fn lemma_next(arrow: ArrowEntity, phase: TickPhase, world: World)
    ensures
        arrow_at(arrow, phase, world, TickPhase::Resolving) == (if phase == TickPhase::Resolving {
            Some(arrow)
        } else if phase == TickPhase::Finished {
            None
        } else {
            let event = world.answer(phase);
            arrow_at(
                arrow.ticked(phase, event),
                arrow.next_phase(phase, event),
                world,
                TickPhase::Resolving,
            )
        }),
{
    reveal(arrow_at);
}

/// The flight up to the resolution of a hit, and past it if there is none.
proof fn lemma_approach(loose: ArrowEntity, world: World)
    ensures
        arrow_at(loose, TickPhase::Wading, world, TickPhase::Resolving) == (match world.moved {
            Some(block) => if world.hit && world.alive_at_hit {
                Some(loose.with_last_state(block))
            } else {
                None
            },
            None => None,
        }),
{
    lemma_next(loose, TickPhase::Wading, world);
    lemma_next(loose, TickPhase::Dragging, world);
    lemma_next(loose, TickPhase::Tracing, world);
    lemma_next(loose, TickPhase::Moving { hit: world.hit }, world);
    match world.moved {
        None => {
            lemma_next(loose, TickPhase::Lost, world);
            lemma_next(loose, TickPhase::Finished, world);
        },
        Some(block) => {
            let moved = loose.with_last_state(block);
            lemma_next(moved, TickPhase::Hitting, world);
            lemma_next(moved, TickPhase::Resolving, world);
            lemma_next(moved, TickPhase::Surfacing, world);
            lemma_next(moved, TickPhase::Slowing, world);
            lemma_next(moved, TickPhase::Sinking, world);
            lemma_next(moved, TickPhase::Closing, world);
            lemma_next(moved, TickPhase::Finished, world);
        },
    }
}

/// The age limit: an arrow grows older by one in every tick that it spends in the ground, in
/// whatever block and for whatever reason, and is discarded by the tick in which its age reaches
/// 1200, hence by the 1200th one from landing, and by none before.
pub proof fn law_resting_arrow_despawns(arrow: ArrowEntity, worlds: Seq<World>)
    requires
        rests_through(arrow, worlds),
        arrow.runtime.life + worlds.len() <= i32::MAX,
        arrow.runtime.in_ground_time + worlds.len() <= i32::MAX,
    ensures
        passed(arrow, worlds).runtime.life == arrow.runtime.life + worlds.len(),
        passed(arrow, worlds).runtime.in_ground_time == arrow.runtime.in_ground_time
            + worlds.len(),
        worlds.len() > 0 ==> (script(
            passed(arrow, worlds.drop_last()),
            worlds.last(),
        ).contains(TickAction::Discard) <==> arrow.runtime.life + worlds.len() >= DESPAWN_LIFE),
    decreases worlds.len(),
{
    if worlds.len() > 0 {
        law_resting_arrow_despawns(arrow, worlds.drop_last());
        lemma_ground_script(passed(arrow, worlds.drop_last()), worlds.last());
    }
}

/// A tick in the ground discards the arrow exactly if it makes it too old.
proof fn lemma_ground_script(arrow: ArrowEntity, world: World)
    requires
        world.grounds(arrow),
    ensures
        script(arrow, world).contains(TickAction::Discard) <==> arrow.runtime.life + 1
            >= DESPAWN_LIFE,
{
    let s = script(arrow, world);
    if arrow.runtime.life + 1 >= DESPAWN_LIFE {
        let at: int = if arrow.block_changed(world.block) {
            3
        } else {
            2
        };
        assert(s[at] == TickAction::Discard);
    } else {
        assert forall|i: int| 0 <= i < s.len() implies s[i] != TickAction::Discard by {}
    }
}

/// A tick in a world uses up one tick of wobble if any is left, and changes nothing of it
/// otherwise, in flight and in the ground alike, unless the arrow lands in it.
pub proof fn law_tick_uses_up_wobble(arrow: ArrowEntity, world: World)
    requires
        world.leaves_wobble(arrow),
    ensures
        outcome(arrow, world).runtime.shake_time == (if arrow.runtime.shake_time > 0 {
            arrow.runtime.shake_time - 1
        } else {
            arrow.runtime.shake_time as int
        }),
        arrow.runtime.shake_time >= 0 ==> outcome(arrow, world).runtime.shake_time >= 0,
{
}

/// After any number of ticks without a landing, that many ticks of wobble are used up, and none
/// below zero.
pub proof fn law_ticks_use_up_wobble(arrow: ArrowEntity, worlds: Seq<World>)
    requires
        wobbles_through(arrow, worlds),
    ensures
        passed(arrow, worlds).runtime.shake_time == wobble_left(
            arrow.runtime.shake_time as int,
            worlds.len(),
        ),
    decreases worlds.len(),
{
    if worlds.len() > 0 {
        law_ticks_use_up_wobble(arrow, worlds.drop_last());
        law_tick_uses_up_wobble(passed(arrow, worlds.drop_last()), worlds.last());
    }
}

/// The wobble after landing lasts seven ticks: it is zero once seven ticks have passed without
/// another landing, and not before, whether the arrow stays in its block or flies on.
pub proof fn law_wobble_lasts_seven_ticks(
    arrow: ArrowEntity,
    resting: BlockStateId,
    worlds: Seq<World>,
)
    requires
        wobbles_through(arrow.stuck(resting), worlds),
    ensures
        passed(arrow.stuck(resting), worlds).runtime.shake_time == 0 <==> worlds.len() >= 7,
        passed(arrow.stuck(resting), worlds).runtime.shake_time > 0 <==> worlds.len() < 7,
{
    law_ticks_use_up_wobble(arrow.stuck(resting), worlds);
}

/// An arrow that hits a block in its flight ends the tick stuck in the block that it rests in,
/// with its move of that tick made, and gravity does not pull on it.
pub proof fn law_flight_ends_stuck(
    arrow: ArrowEntity,
    world: World,
    hit: BlockStateId,
    resting: BlockStateId,
)
    requires
        world.resolves(arrow),
        world.struck == crate::landing::play(
            moved(arrow, world),
            LandingPhase::Start,
            Some(hit),
            resting,
        ).0,
    ensures
        outcome(arrow, world) == moved(arrow, world).stuck(resting),
        script(arrow, world).contains(TickAction::ResolveHit),
        !script(arrow, world).contains(TickAction::ApplyGravity),
{
    crate::landing::law_arrow_sticks(moved(arrow, world), hit, resting);
    let start = seq![TickAction::RecordPose, TickAction::Probe]
        + when(world.loosens(arrow), TickAction::AskFree)
        + when(world.loosens(arrow), TickAction::JitterVelocity)
        + seq![TickAction::AskWater]
        + when(world.wet_before, TickAction::ApplyWaterDrag)
        + seq![TickAction::Trace, TickAction::MoveToHit, TickAction::AskAlive];
    let end = seq![TickAction::AskWater]
        + when(!world.wet_after, TickAction::ApplyAirDrag)
        + seq![TickAction::BaseTick, TickAction::Finish];
    let s = script(arrow, world);
    assert(s =~= start + seq![TickAction::ResolveHit] + end);
    assert(s[start.len() as int] == TickAction::ResolveHit);
    assert forall|i: int| 0 <= i < s.len() implies s[i] != TickAction::ApplyGravity by {}
}

/// An arrow that has just stuck in a block stays in it: the next tick in that block neither looks
/// for room to fall nor lets the arrow fly.
pub proof fn law_landed_arrow_stays(arrow: ArrowEntity, world: World)
    requires
        world.level,
        !world.no_physics,
    ensures
        world.grounds(arrow.stuck(world.block)),
        !script(arrow.stuck(world.block), world).contains(TickAction::AskFree),
        outcome(arrow.stuck(world.block), world).entity_data.in_ground,
{
    let landed = arrow.stuck(world.block);
    let s = script(landed, world);
    assert(s == seq![TickAction::RecordPose, TickAction::Probe] + ground_script(landed, world));
    assert(ground_script(landed, world) =~= when(
        landed.runtime.life + 1 >= DESPAWN_LIFE,
        TickAction::Discard,
    ) + seq![TickAction::AskAlive] + when(world.alive_at_rest, TickAction::ApplyBlockEffects)
        + seq![TickAction::Finish]);
    assert forall|i: int| 0 <= i < s.len() implies s[i] != TickAction::AskFree by {}
}

/// A stuck arrow that remembers no block, as after a load, looks for room to fall, and falls if
/// there is any, with its age forgotten.
pub proof fn law_forgotten_block_counts_as_changed(arrow: ArrowEntity, world: World)
    requires
        world.level,
        !world.no_physics,
        arrow.entity_data.in_ground,
        arrow.runtime.last_state is None,
    ensures
        script(arrow, world)[2] == TickAction::AskFree,
        world.loosens(arrow) == world.free,
        world.grounds(arrow) == !world.free,
        world.free && !(world.moved is Some && world.hit && world.alive_at_hit) ==> outcome(
            arrow,
            world,
        ).runtime.life == 0 && !outcome(arrow, world).entity_data.in_ground,
{
    assert(when(true, TickAction::AskFree)[0] == TickAction::AskFree);
}

/// An arrow that flies on flies on: a tick of an arrow that is neither stuck nor lies still in a
/// block, moves, and resolves no hit leaves it free and pulls on it, and changes nothing of it but
/// the remembered block, the counters that run down with every tick, and the count of ground
/// ticks, which is zero.
pub proof fn law_free_flight_goes_on(arrow: ArrowEntity, world: World, block: BlockStateId)
    requires
        world.level,
        !arrow.entity_data.in_ground,
        world.air || !world.still,
        world.moved == Some(block),
        !(world.hit && world.alive_at_hit),
    ensures
        ({
            let (after, asked) = play(arrow, TickPhase::Start, world);
            &&& asked.contains(TickAction::ApplyGravity)
            &&& !asked.contains(TickAction::AskFree)
            &&& !asked.contains(TickAction::Discard)
            &&& after.runtime.last_state == Some(block)
            &&& after.runtime.in_ground_time == 0
            &&& after.runtime.life == arrow.runtime.life
            &&& after.runtime.base_damage == arrow.runtime.base_damage
            &&& after.runtime.pickup == arrow.runtime.pickup
            &&& after.entity_data == arrow.entity_data
            &&& after.id == arrow.id
            &&& after.entity_type == arrow.entity_type
        }),
{
    law_tick_follows_script(arrow, world);
    let s = script(arrow, world);
    let start = seq![TickAction::RecordPose, TickAction::Probe, TickAction::AskWater]
        + when(world.wet_before, TickAction::ApplyWaterDrag)
        + seq![TickAction::Trace]
        + seq![if world.hit { TickAction::MoveToHit } else { TickAction::MoveByVelocity }]
        + when(world.hit, TickAction::AskAlive)
        + seq![TickAction::AskWater]
        + when(!world.wet_after, TickAction::ApplyAirDrag);
    assert(s =~= start + seq![
        TickAction::ApplyGravity,
        TickAction::BaseTick,
        TickAction::Finish,
    ]);
    assert(s[start.len() as int] == TickAction::ApplyGravity);
    assert forall|i: int| 0 <= i < s.len() implies s[i] != TickAction::AskFree && s[i]
        != TickAction::Discard by {}
}

/// A stuck arrow whose block is not the one that it remembers looks for room to fall. With room it
/// comes loose, its age forgotten; without, it stays and grows older. Nothing but the two blocks
/// and the room decides this.
pub proof fn law_changed_block_lets_go(
    arrow: ArrowEntity,
    world: World,
    remembered: BlockStateId,
)
    requires
        world.level,
        !world.no_physics,
        arrow.entity_data.in_ground,
        arrow.runtime.last_state == Some(remembered),
        remembered != world.block,
        !world.free ==> arrow.runtime.life < i32::MAX,
    ensures
        ({
            let (after, asked) = play(arrow, TickPhase::Start, world);
            &&& asked[2] == TickAction::AskFree
            &&& world.free ==> asked[3] == TickAction::JitterVelocity
            &&& world.free && !(world.moved is Some && world.hit && world.alive_at_hit)
                ==> !after.entity_data.in_ground && after.runtime.life == 0
            &&& !world.free ==> after.entity_data.in_ground && after.runtime.life
                == arrow.runtime.life + 1
        }),
{
    law_tick_follows_script(arrow, world);
    let s = script(arrow, world);
    assert(s[2] == TickAction::AskFree);
    if world.free {
        assert(s =~= seq![
            TickAction::RecordPose,
            TickAction::Probe,
            TickAction::AskFree,
            TickAction::JitterVelocity,
            TickAction::AskWater,
        ] + flight_script(outcome(arrow, world), world));
    }
}

/// A stuck arrow in the block that it remembers stays there and grows older, whether or not there
/// is room around it, and does not even ask; it is discarded in this tick exactly if that makes it
/// 1200 ticks old.
pub proof fn law_same_block_holds_on(arrow: ArrowEntity, world: World)
    requires
        world.level,
        !world.no_physics,
        arrow.entity_data.in_ground,
        arrow.runtime.last_state == Some(world.block),
        arrow.runtime.life < i32::MAX,
        arrow.runtime.in_ground_time < i32::MAX,
    ensures
        ({
            let (after, asked) = play(arrow, TickPhase::Start, world);
            &&& after.entity_data == arrow.entity_data
            &&& after.runtime.last_state == arrow.runtime.last_state
            &&& after.runtime.life == arrow.runtime.life + 1
            &&& after.runtime.in_ground_time == arrow.runtime.in_ground_time + 1
            &&& !asked.contains(TickAction::AskFree)
            &&& !asked.contains(TickAction::Trace)
            &&& !asked.contains(TickAction::ApplyGravity)
            &&& asked.contains(TickAction::Discard) <==> arrow.runtime.life >= 1199
            &&& asked.contains(TickAction::ApplyBlockEffects) <==> world.alive_at_rest
        }),
{
    law_tick_follows_script(arrow, world);
    lemma_ground_script(arrow, world);
    let s = script(arrow, world);
    let start = seq![TickAction::RecordPose, TickAction::Probe]
        + when(arrow.runtime.life + 1 >= DESPAWN_LIFE, TickAction::Discard)
        + seq![TickAction::AskAlive];
    assert(s =~= start + when(world.alive_at_rest, TickAction::ApplyBlockEffects) + seq![
        TickAction::Finish,
    ]);
    if world.alive_at_rest {
        assert(s[start.len() as int] == TickAction::ApplyBlockEffects);
    }
    assert forall|i: int| 0 <= i < s.len() implies s[i] != TickAction::AskFree && s[i]
        != TickAction::Trace && s[i] != TickAction::ApplyGravity && (s[i]
        == TickAction::ApplyBlockEffects ==> world.alive_at_rest) by {}
}

} // verus!
