//! What single turns do, told by the fields of the arrow and the answers of the world alone.

use crate::arrow::{ArrowEntity, ArrowEntityData, ArrowRuntime, BlockStateId};
use crate::landing::{LandingEvent, LandingPhase};
use crate::strike::{StrikeEvent, StrikePhase};
use crate::tick::{TickEvent, TickPhase};
use crate::touch::{TakeItemEntity, TouchAction, TouchEvent, TouchPhase};
use vstd::prelude::*;

verus! {

/// An arrow spends a tick in the ground exactly if it is stuck, or lies still in a block, does not
/// ignore blocks, and finds the very block that it remembers; or if it finds another one without
/// room to fall.
pub proof fn law_what_keeps_an_arrow_in_the_ground(
    arrow: ArrowEntity,
    phase: TickPhase,
    event: TickEvent,
)
    ensures
        arrow.rests(phase, event) <==> {
            ||| phase is Probing && event is Surroundings && !event->no_physics && (
            arrow.entity_data.in_ground || (!event->air && event->still))
                && arrow.runtime.last_state == Some(event->block)
            ||| phase is Loosening && event == TickEvent::Free(false)
        },
{
}

/// Each field of an arrow changes in a tick at its own occasions and at no other.
///
/// The wobble and the memory of a deflection run down while the pose is recorded. A look around
/// can only put the arrow into the ground, and only a free space takes it out. The age grows by
/// one with a rest and is forgotten with a fall; the count of ground ticks grows with a rest and is
/// forgotten by an arrow that looks around without being held. The remembered block changes with
/// a successful move, and with that alone.
pub proof fn law_when_fields_change_in_a_tick(
    arrow: ArrowEntity,
    phase: TickPhase,
    event: TickEvent,
)
    requires
        arrow.rests(phase, event) ==> arrow.runtime.life < i32::MAX
            && arrow.runtime.in_ground_time < i32::MAX,
    ensures
        ({
            let after = arrow.ticked(phase, event);
            let looks = phase is Probing && event is Surroundings;
            let held = looks && !event->no_physics && (arrow.entity_data.in_ground || (!event->air
                && event->still));
            let rests = (held && arrow.runtime.last_state == Some(event->block)) || (
            phase is Loosening && event == TickEvent::Free(false));
            let falls = phase is Loosening && event == TickEvent::Free(true);
            &&& after.id == arrow.id
            &&& after.entity_type == arrow.entity_type
            &&& after.entity_data.id_flags == arrow.entity_data.id_flags
            &&& after.entity_data.pierce_level == arrow.entity_data.pierce_level
            &&& after.runtime.base_damage == arrow.runtime.base_damage
            &&& after.runtime.pickup == arrow.runtime.pickup
            &&& after.entity_data.in_ground <==> !falls && (arrow.entity_data.in_ground || (looks
                && !event->air && event->still))
            &&& rests ==> after.runtime.life == arrow.runtime.life + 1
            &&& falls ==> after.runtime.life == 0
            &&& !rests && !falls ==> after.runtime.life == arrow.runtime.life
            &&& rests ==> after.runtime.in_ground_time == arrow.runtime.in_ground_time + 1
            &&& looks && !held ==> after.runtime.in_ground_time == 0
            &&& !rests && !(looks && !held) ==> after.runtime.in_ground_time
                == arrow.runtime.in_ground_time
            &&& phase is Recording && arrow.runtime.shake_time > 0 ==> after.runtime.shake_time
                == arrow.runtime.shake_time - 1
            &&& !(phase is Recording && arrow.runtime.shake_time > 0) ==> after.runtime.shake_time
                == arrow.runtime.shake_time
            &&& phase is Recording ==> !after.runtime.deflected_this_tick
            &&& phase is Recording && !arrow.runtime.deflected_this_tick
                ==> after.runtime.last_deflected_by is None
            &&& !(phase is Recording && !arrow.runtime.deflected_this_tick)
                ==> after.runtime.last_deflected_by == arrow.runtime.last_deflected_by
            &&& !(phase is Recording) ==> after.runtime.deflected_this_tick
                == arrow.runtime.deflected_this_tick
            &&& phase is Moving ==> (event matches TickEvent::Moved(Some(block))
                ==> after.runtime.last_state == Some(block))
            &&& !(phase is Moving && event is Moved && event != TickEvent::Moved(None))
                ==> after.runtime.last_state == arrow.runtime.last_state
        }),
{
    law_what_keeps_an_arrow_in_the_ground(arrow, phase, event);
}

/// A successful move changes nothing in an arrow but the remembered block, whatever was remembered
/// before; a failed one changes nothing at all.
pub proof fn law_move_only_remembers_the_block(arrow: ArrowEntity, hit: bool, block: BlockStateId)
    ensures
        arrow.ticked(TickPhase::Moving { hit }, TickEvent::Moved(Some(block))) == (ArrowEntity {
            runtime: ArrowRuntime { last_state: Some(block), ..arrow.runtime },
            ..arrow
        }),
        arrow.ticked(TickPhase::Moving { hit }, TickEvent::Moved(None)) == arrow,
{
}

/// Each phase of a tick is reached on its own occasions and on no other; where none of these
/// holds the tick is over.
pub proof fn law_when_phases_of_a_tick_follow(
    arrow: ArrowEntity,
    phase: TickPhase,
    event: TickEvent,
)
    ensures
        ({
            let next = arrow.next_phase(phase, event);
            let looks = phase is Probing && event is Surroundings;
            let held = looks && !event->no_physics && (arrow.entity_data.in_ground || (!event->air
                && event->still));
            let same = arrow.runtime.last_state == Some(event->block);
            let rests = (held && same) || (phase is Loosening && event == TickEvent::Free(false));
            let dragged = phase is Slowing || (phase is Surfacing && event == TickEvent::InWater(
                true,
            ));
            &&& next !is Start
            &&& next is Recording <==> phase is Start && event == TickEvent::Level(true)
            &&& next is Probing <==> phase is Recording
            &&& next is Loosening <==> held && !same
            &&& next is Falling <==> phase is Loosening && event == TickEvent::Free(true)
            &&& next is Expiring <==> rests && arrow.runtime.life >= 1199
            &&& next is Resting <==> phase is Expiring || (rests && arrow.runtime.life < 1199)
            &&& next is Affected <==> phase is Resting && event == TickEvent::Alive(true)
            &&& next is Wading <==> phase is Falling || (looks && !held)
            &&& next is Dragging <==> phase is Wading && event == TickEvent::InWater(true)
            &&& next is Tracing <==> phase is Dragging || (phase is Wading && event
                == TickEvent::InWater(false))
            &&& next is Moving <==> phase is Tracing && event is Traced
            &&& phase is Tracing && event is Traced ==> next == TickPhase::Moving {
                hit: event == TickEvent::Traced(true),
            }
            &&& next is Lost <==> phase is Moving && event == TickEvent::Moved(None)
            &&& next is Hitting <==> phase == TickPhase::Moving { hit: true } && event is Moved
                && event != TickEvent::Moved(None)
            &&& next is Resolving <==> phase is Hitting && event == TickEvent::Alive(true)
            &&& next is Surfacing <==> {
                ||| phase is Resolving
                ||| phase is Hitting && event == TickEvent::Alive(false)
                ||| phase == TickPhase::Moving { hit: false } && event is Moved && event
                    != TickEvent::Moved(None)
            }
            &&& next is Slowing <==> phase is Surfacing && event == TickEvent::InWater(false)
            &&& next is Sinking <==> dragged && !arrow.entity_data.in_ground
            &&& next is Closing <==> phase is Sinking || (dragged && arrow.entity_data.in_ground)
        }),
{
}

/// Each thing that a tick can ask of the world belongs to its own phases.
pub proof fn law_what_a_tick_asks(phase: TickPhase)
    ensures
        ({
            let action = phase.action();
            &&& action is RecordPose <==> phase is Recording
            &&& action is Probe <==> phase is Probing
            &&& action is AskFree <==> phase is Loosening
            &&& action is JitterVelocity <==> phase is Falling
            &&& action is Discard <==> phase is Expiring || phase is Lost
            &&& action is AskAlive <==> phase is Resting || phase is Hitting
            &&& action is ApplyBlockEffects <==> phase is Affected
            &&& action is AskWater <==> phase is Wading || phase is Surfacing
            &&& action is ApplyWaterDrag <==> phase is Dragging
            &&& action is Trace <==> phase is Tracing
            &&& action is MoveToHit <==> phase == TickPhase::Moving { hit: true }
            &&& action is MoveByVelocity <==> phase == TickPhase::Moving { hit: false }
            &&& action is ResolveHit <==> phase is Resolving
            &&& action is ApplyAirDrag <==> phase is Slowing
            &&& action is ApplyGravity <==> phase is Sinking
            &&& action is BaseTick <==> phase is Closing
            &&& action is Finish <==> phase is Start || phase is Finished
        }),
{
}

/// What a tick decides rests on whether the arrow is stuck, on the block that it remembers and on
/// its age: two arrows that agree on these go the same way, whatever else they differ in.
pub proof fn law_tick_decides_on_three_fields(
    arrow: ArrowEntity,
    other: ArrowEntity,
    phase: TickPhase,
    event: TickEvent,
)
    requires
        arrow.entity_data.in_ground == other.entity_data.in_ground,
        arrow.runtime.last_state == other.runtime.last_state,
        arrow.runtime.life == other.runtime.life,
    ensures
        arrow.next_phase(phase, event) == other.next_phase(phase, event),
        arrow.rests(phase, event) == other.rests(phase, event),
        arrow.ticked(phase, event).entity_data.in_ground == other.ticked(
            phase,
            event,
        ).entity_data.in_ground,
        arrow.ticked(phase, event).runtime.last_state == other.ticked(
            phase,
            event,
        ).runtime.last_state,
        arrow.ticked(phase, event).runtime.life == other.ticked(phase, event).runtime.life,
{
}

/// A hit on an entity counts exactly if that entity is in a world and is not the one that the
/// arrow remembers as having turned it back; one on the remembered entity ends the memory, and
/// any other hit leaves the arrow as it is. Nothing else about the arrow matters.
pub proof fn law_which_hits_count(arrow: ArrowEntity, target: i32, level: bool, roll: u32)
    ensures
        ({
            let event = StrikeEvent::Struck { target, level };
            let turn = arrow.strike_turn(StrikePhase::Start, event, roll);
            let after = arrow.struck(StrikePhase::Start, event);
            &&& level && arrow.runtime.last_deflected_by != Some(target) ==> turn.phase
                == StrikePhase::Measuring { target } && turn.action is MeasureImpact
            &&& !level || arrow.runtime.last_deflected_by == Some(target)
                ==> turn.phase is Finished && turn.action is Finish
            &&& arrow.runtime.last_deflected_by != Some(target) ==> after == arrow
            &&& arrow.runtime.last_deflected_by == Some(target) ==> after == ArrowEntity {
                runtime: ArrowRuntime {
                    last_deflected_by: None,
                    deflected_this_tick: false,
                    ..arrow.runtime
                },
                ..arrow
            }
        }),
{
}

/// A measured impact hurts the struck entity in the name of the arrow and of its owner, by the
/// measured damage; an arrow with odd flags, a critical one, adds a bonus that is congruent to the
/// roll and below half the damage plus two. The arrow does not change.
pub proof fn law_what_an_impact_does(
    arrow: ArrowEntity,
    target: i32,
    damage: i32,
    owner: Option<i32>,
    roll: u32,
)
    requires
        0 <= damage,
        arrow.entity_data.id_flags as int % 2 == 1 ==> damage + roll as int % (damage as int / 2
            + 2) <= i32::MAX,
    ensures
        ({
            let phase = StrikePhase::Measuring { target };
            let event = StrikeEvent::Impact { damage, owner };
            let turn = arrow.strike_turn(phase, event, roll);
            let range = damage as int / 2 + 2;
            &&& arrow.struck(phase, event) == arrow
            &&& turn.phase == StrikePhase::Hurting { target }
            &&& turn.action is Hurt
            &&& turn.action->source.direct_entity == arrow.id
            &&& turn.action->source.causing_entity == (if owner is Some {
                owner->0
            } else {
                arrow.id
            })
            &&& arrow.entity_data.id_flags as int % 2 == 0 ==> turn.action->amount == damage
            &&& arrow.entity_data.id_flags as int % 2 == 1 ==> {
                &&& 0 <= turn.action->amount - damage < range
                &&& turn.action->amount - damage == roll as int % range
                &&& (roll - (turn.action->amount - damage)) % range == 0
            }
        }),
{
    crate::arrow_laws::law_crit_is_odd_flags(arrow);
    crate::arrow_laws::law_damage_of_a_roll(arrow, damage, roll);
    let range = damage as int / 2 + 2;
    vstd::arithmetic::div_mod::lemma_mod_bound(roll as int, range);
    vstd::arithmetic::div_mod::lemma_fundamental_div_mod(roll as int, range);
    vstd::arithmetic::div_mod::lemma_mod_multiples_basic(roll as int / range, range);
    vstd::arithmetic::mul::lemma_mul_is_commutative(range, roll as int / range);
}

/// An impact can be dealt with whatever the dice show as soon as its damage is not negative and
/// leaves room for the largest bonus of this arrow; a single roll needs room for its own bonus. No
/// other answer has such a condition.
pub proof fn law_which_impacts_fit(
    arrow: ArrowEntity,
    phase: StrikePhase,
    event: StrikeEvent,
    roll: u32,
)
    ensures
        !(phase is Measuring && event is Impact) ==> arrow.damage_fits(phase, event, roll)
            && arrow.damage_always_fits(phase, event) && !arrow.rolls(phase, event),
        phase is Measuring && event is Impact ==> {
            let damage = event->damage;
            let crit = arrow.entity_data.id_flags as int % 2 == 1;
            let most = if crit {
                damage as int / 2 + 1
            } else {
                0
            };
            let bonus = if crit {
                roll as int % (damage as int / 2 + 2)
            } else {
                0
            };
            &&& arrow.rolls(phase, event) <==> crit
            &&& arrow.damage_always_fits(phase, event) <==> 0 <= damage && damage + most
                <= i32::MAX
            &&& arrow.damage_fits(phase, event, roll) <==> 0 <= damage && damage + bonus
                <= i32::MAX
        },
{
    crate::arrow_laws::law_crit_is_odd_flags(arrow);
}

/// Damage that was taken ends the memory of a deflection, and the arrow with it, but for endermen,
/// who let it fly on; damage that was not taken turns the arrow back.
pub proof fn law_what_damage_leads_to(
    arrow: ArrowEntity,
    target: i32,
    hurt: bool,
    enderman: bool,
    roll: u32,
)
    ensures
        ({
            let phase = StrikePhase::Hurting { target };
            let event = StrikeEvent::Outcome { hurt, enderman };
            let turn = arrow.strike_turn(phase, event, roll);
            let after = arrow.struck(phase, event);
            &&& !hurt ==> turn.phase == StrikePhase::Deflecting { target }
                && turn.action is Deflect && after == arrow
            &&& hurt && enderman ==> turn.phase is Finished && turn.action is Finish
            &&& hurt && !enderman ==> turn.phase is Sounding && turn.action is PlayHitSound
            &&& hurt ==> after == ArrowEntity {
                runtime: ArrowRuntime {
                    last_deflected_by: None,
                    deflected_this_tick: false,
                    ..arrow.runtime
                },
                ..arrow
            }
        }),
{
}

/// An arrow that is turned back remembers by whom, and that it was in this tick. It flies on
/// unless that stopped it; then it is discarded, and dropped as an item before that exactly if
/// anyone may take it.
pub proof fn law_what_a_deflection_leads_to(
    arrow: ArrowEntity,
    target: i32,
    stopped: bool,
    roll: u32,
)
    ensures
        ({
            let phase = StrikePhase::Deflecting { target };
            let event = StrikeEvent::Deflected { stopped };
            let turn = arrow.strike_turn(phase, event, roll);
            &&& arrow.struck(phase, event) == (ArrowEntity {
                runtime: ArrowRuntime {
                    last_deflected_by: Some(target),
                    deflected_this_tick: true,
                    ..arrow.runtime
                },
                ..arrow
            })
            &&& !stopped ==> turn.phase is Finished && turn.action is Finish
            &&& stopped && arrow.runtime.pickup is Allowed ==> turn.phase is Dropping
                && turn.action is DropArrow
            &&& stopped && !(arrow.runtime.pickup is Allowed) ==> turn.phase is Discarding
                && turn.action is Discard
        }),
{
}

/// A dropped arrow and one whose hit has sounded are discarded, and a discarded one is done with;
/// none of this changes the arrow.
pub proof fn law_how_strikes_end(arrow: ArrowEntity, phase: StrikePhase, roll: u32)
    requires
        phase is Dropping || phase is Sounding || phase is Discarding,
    ensures
        ({
            let turn = arrow.strike_turn(phase, StrikeEvent::Done, roll);
            &&& arrow.struck(phase, StrikeEvent::Done) == arrow
            &&& phase is Dropping || phase is Sounding ==> turn.phase is Discarding
                && turn.action is Discard
            &&& phase is Discarding ==> turn.phase is Finished && turn.action is Finish
        }),
{
}

/// An arrow that lies in the ground and no longer wobbles is offered to whoever touches it, if
/// anyone may take it, or the toucher is asked for infinite materials, if only those with them
/// may; whatever else is true of the arrow. Any other touch is over at once.
pub proof fn law_which_touches_are_answered(arrow: ArrowEntity, player: i32, removed: bool)
    ensures
        ({
            let turn = arrow.touch_turn(
                TouchPhase::Start,
                TouchEvent::Touched { player, removed },
            );
            let settled = !removed && arrow.entity_data.in_ground && arrow.runtime.shake_time <= 0;
            &&& turn.phase is Offering <==> settled && arrow.runtime.pickup is Allowed
            &&& turn.phase is Offering ==> turn.phase == TouchPhase::Offering { player }
            &&& turn.action is OfferArrow <==> settled && arrow.runtime.pickup is Allowed
            &&& turn.phase is Asking <==> settled && arrow.runtime.pickup is CreativeOnly
            &&& turn.phase is Asking ==> turn.phase == TouchPhase::Asking { player }
            &&& turn.action is AskInfiniteMaterials <==> settled
                && arrow.runtime.pickup is CreativeOnly
            &&& turn.phase is Finished <==> !settled || arrow.runtime.pickup is Disallowed
            &&& turn.action is Finish <==> !settled || arrow.runtime.pickup is Disallowed
        }),
{
}

/// An offered arrow is taken exactly if the inventory took some of it and nothing is left over.
pub proof fn law_which_offers_are_taken(
    arrow: ArrowEntity,
    player: i32,
    added: bool,
    emptied: bool,
)
    ensures
        ({
            let turn = arrow.touch_turn(
                TouchPhase::Offering { player },
                TouchEvent::Offered { added, emptied },
            );
            &&& added && emptied ==> turn.phase == TouchPhase::Taken { player }
                && turn.action is AskLevel
            &&& !added || !emptied ==> turn.phase is Finished && turn.action is Finish
        }),
{
}

/// An arrow for creative players alone is taken exactly by those with infinite materials.
pub proof fn law_infinite_materials_take(arrow: ArrowEntity, player: i32, infinite: bool)
    ensures
        ({
            let turn = arrow.touch_turn(
                TouchPhase::Asking { player },
                TouchEvent::InfiniteMaterials(infinite),
            );
            &&& infinite ==> turn.phase == TouchPhase::Taken { player } && turn.action is AskLevel
            &&& !infinite ==> turn.phase is Finished && turn.action is Finish
        }),
{
}

/// A taken arrow is discarded; before that, in a world, those nearby hear which arrow was taken,
/// that it was one, and by whom.
pub proof fn law_taken_arrows_go(arrow: ArrowEntity, player: i32)
    ensures
        ({
            let news = TakeItemEntity { item: arrow.id, collector: player, amount: 1 };
            let heard = arrow.touch_turn(TouchPhase::Taken { player }, TouchEvent::Level(true));
            let unheard = arrow.touch_turn(TouchPhase::Taken { player }, TouchEvent::Level(false));
            let gone = arrow.touch_turn(TouchPhase::Announcing, TouchEvent::Done);
            let over = arrow.touch_turn(TouchPhase::Discarding, TouchEvent::Done);
            &&& heard.phase is Announcing && heard.action == TouchAction::Announce(news)
            &&& unheard.phase is Discarding && unheard.action is Discard
            &&& gone.phase is Discarding && gone.action is Discard
            &&& over.phase is Finished && over.action is Finish
        }),
{
}

/// A touch rests on whether the arrow is stuck, on its wobble, its pickup rule and its id alone.
pub proof fn law_touch_decides_on_four_fields(
    arrow: ArrowEntity,
    other: ArrowEntity,
    phase: TouchPhase,
    event: TouchEvent,
)
    requires
        arrow.entity_data.in_ground == other.entity_data.in_ground,
        arrow.runtime.shake_time <= 0 <==> other.runtime.shake_time <= 0,
        arrow.runtime.pickup == other.runtime.pickup,
        arrow.id == other.id,
    ensures
        arrow.touch_turn(phase, event) == other.touch_turn(phase, event),
{
}

/// A landing remembers the block that was hit, sticks the arrow in the block that it rests in, and
/// changes nothing at its other turns.
pub proof fn law_what_landings_change(arrow: ArrowEntity, block: BlockStateId)
    ensures
        arrow.landed(LandingEvent::Hit(Some(block))) == (ArrowEntity {
            runtime: ArrowRuntime { last_state: Some(block), ..arrow.runtime },
            ..arrow
        }),
        arrow.landed(LandingEvent::Hit(None)) == arrow,
        arrow.landed(LandingEvent::Done) == arrow,
        ({
            let stuck = arrow.landed(LandingEvent::RestingIn(block));
            let flags = stuck.entity_data.id_flags;
            &&& flags as int % 2 == 0
            &&& flags as int / 2 == arrow.entity_data.id_flags as int / 2
            &&& stuck == (ArrowEntity {
                entity_data: ArrowEntityData { id_flags: flags, pierce_level: 0, in_ground: true },
                runtime: ArrowRuntime { shake_time: 7, last_state: Some(block), ..arrow.runtime },
                ..arrow
            })
        }),
{
    crate::arrow_laws::law_sticking(arrow, block);
}

/// A landing goes on, past the reaction of the block that was hit, exactly if there is a world to
/// land in; its turns then come in one order.
pub proof fn law_order_of_a_landing(hit: Option<BlockStateId>, resting: BlockStateId)
    ensures
        ({
            let reacting = LandingPhase::Start.next(LandingEvent::Hit(hit));
            &&& reacting == LandingPhase::Reacting { level: hit is Some }
            &&& reacting.action() is React
            &&& hit is None ==> reacting.next(LandingEvent::Done) is Finished
            &&& hit is Some ==> {
                let backing = reacting.next(LandingEvent::Done);
                let sounding = backing.next(LandingEvent::Done);
                let settling = sounding.next(LandingEvent::Done);
                let over = settling.next(LandingEvent::RestingIn(resting));
                &&& backing is BackingOff && backing.action() is BackOff
                &&& sounding is Sounding && sounding.action() is PlayHitSound
                &&& settling is Settling && settling.action() is AskBlock
                &&& over is Finished && over.action() is Finish
            }
        }),
{
}

/// In a tick each kind of answer is taken in the phases that ask for it, whatever it says, and
/// nothing is taken once the tick is over.
pub proof fn law_which_answers_a_tick_takes(phase: TickPhase, event: TickEvent)
    ensures
        event is Level ==> (phase.accepts(event) <==> phase is Start),
        event is Surroundings ==> (phase.accepts(event) <==> phase is Probing),
        event is Free ==> (phase.accepts(event) <==> phase is Loosening),
        event is Alive ==> (phase.accepts(event) <==> phase is Resting || phase is Hitting),
        event is InWater ==> (phase.accepts(event) <==> phase is Wading || phase is Surfacing),
        event is Traced ==> (phase.accepts(event) <==> phase is Tracing),
        event is Moved ==> (phase.accepts(event) <==> phase is Moving),
        phase is Recording || phase is Falling || phase is Expiring || phase is Affected
            || phase is Dragging || phase is Lost || phase is Resolving || phase is Slowing
            || phase is Sinking || phase is Closing ==> (phase.accepts(event) <==> event is Done),
        phase is Finished ==> !phase.accepts(event),
{
}

/// In a strike each kind of answer is taken in the phases that ask for it, whatever it says, and
/// nothing is taken once the strike is over.
pub proof fn law_which_answers_a_strike_takes(phase: StrikePhase, event: StrikeEvent)
    ensures
        event is Struck ==> (phase.accepts(event) <==> phase is Start),
        event is Impact ==> (phase.accepts(event) <==> phase is Measuring),
        event is Outcome ==> (phase.accepts(event) <==> phase is Hurting),
        event is Deflected ==> (phase.accepts(event) <==> phase is Deflecting),
        event is Done ==> (phase.accepts(event) <==> phase is Dropping || phase is Sounding
            || phase is Discarding),
{
}

/// In a landing each kind of answer is taken in the phases that ask for it, whatever it says, and
/// nothing is taken once the landing is over.
pub proof fn law_which_answers_a_landing_takes(phase: LandingPhase, event: LandingEvent)
    ensures
        event is Hit ==> (phase.accepts(event) <==> phase is Start),
        event is RestingIn ==> (phase.accepts(event) <==> phase is Settling),
        event is Done ==> (phase.accepts(event) <==> phase is Reacting || phase is BackingOff
            || phase is Sounding),
{
}

/// In a touch each kind of answer is taken in the phases that ask for it, whatever it says, and
/// nothing is taken once the touch is over.
pub proof fn law_which_answers_a_touch_takes(phase: TouchPhase, event: TouchEvent)
    ensures
        event is Touched ==> (phase.accepts(event) <==> phase is Start),
        event is Offered ==> (phase.accepts(event) <==> phase is Offering),
        event is InfiniteMaterials ==> (phase.accepts(event) <==> phase is Asking),
        event is Level ==> (phase.accepts(event) <==> phase is Taken),
        event is Done ==> (phase.accepts(event) <==> phase is Announcing || phase is Discarding),
{
}

} // verus!
