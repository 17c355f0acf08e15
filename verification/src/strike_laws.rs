//! What holds of whole strikes, and of strikes in a row.

use crate::arrow::{ArrowEntity, ArrowRuntime, CRIT_DAMAGE_FLOOR};
use crate::pickup::Pickup;
use crate::strike::{StrikeAction, StrikeEvent, StrikePhase};
use crate::tick::TickPhase;
use crate::tick_laws::World;
use vstd::prelude::*;

verus! {

/// All that the world may be asked for in one strike, answered ahead of time.
pub struct Blow {
    /// The id of the struck entity.
    pub target: i32,
    /// Whether that entity is in a world.
    pub level: bool,
    /// The damage without luck.
    pub damage: i32,
    /// The id of the owner of the arrow, if there is one.
    pub owner: Option<i32>,
    /// What the dice show.
    pub roll: u32,
    /// Whether the struck entity takes the damage.
    pub hurt: bool,
    /// Whether the struck entity is an enderman.
    pub enderman: bool,
    /// Whether turning back stops the arrow.
    pub stopped: bool,
}

impl Blow {
    /// The answer to what is asked for in `phase`.
    pub open spec fn answer(self, phase: StrikePhase) -> StrikeEvent {
        match phase {
            StrikePhase::Start => StrikeEvent::Struck { target: self.target, level: self.level },
            StrikePhase::Measuring { .. } => StrikeEvent::Impact {
                damage: self.damage,
                owner: self.owner,
            },
            StrikePhase::Hurting { .. } => StrikeEvent::Outcome {
                hurt: self.hurt,
                enderman: self.enderman,
            },
            StrikePhase::Deflecting { .. } => StrikeEvent::Deflected { stopped: self.stopped },
            _ => StrikeEvent::Done,
        }
    }

    /// Whether the blow lands: the struck entity is in a world, and did not turn the arrow back
    /// just before.
    pub open spec fn lands(self, arrow: ArrowEntity) -> bool {
        self.level && !arrow.passes_over(self.target)
    }
}

/// What a strike makes of an arrow, and what it asks of the world, in order: the outcome of
/// taking turns from `phase` on until the strike is over.
#[verifier::opaque]
pub open spec fn play(arrow: ArrowEntity, phase: StrikePhase, blow: Blow) -> (
    ArrowEntity,
    Seq<StrikeAction>,
)
    decreases StrikePhase::Finished.rank() - phase.rank(),
{
    if phase == StrikePhase::Finished {
        (arrow, seq![])
    } else {
        let event = blow.answer(phase);
        let turn = arrow.strike_turn(phase, event, blow.roll);
        let rest = play(arrow.struck(phase, event), turn.phase, blow);
        (rest.0, seq![turn.action] + rest.1)
    }
}

/// What a strike makes of an arrow.
pub open spec fn outcome(arrow: ArrowEntity, blow: Blow) -> ArrowEntity {
    if blow.lands(arrow) {
        arrow.with_last_deflected_by(
            if blow.hurt {
                None
            } else {
                Some(blow.target)
            },
        )
    } else if arrow.passes_over(blow.target) {
        arrow.with_last_deflected_by(None)
    } else {
        arrow
    }
}

/// What a strike asks of the world.
pub open spec fn script(arrow: ArrowEntity, blow: Blow) -> Seq<StrikeAction> {
    let hurt = StrikeAction::Hurt {
        source: arrow.blame(blow.owner),
        amount: arrow.damage_on(blow.damage, blow.roll) as i32,
    };
    if !blow.lands(arrow) {
        seq![StrikeAction::Finish]
    } else if blow.hurt && blow.enderman {
        seq![StrikeAction::MeasureImpact, hurt, StrikeAction::Finish]
    } else if blow.hurt {
        seq![
            StrikeAction::MeasureImpact,
            hurt,
            StrikeAction::PlayHitSound,
            StrikeAction::Discard,
            StrikeAction::Finish,
        ]
    } else if !blow.stopped {
        seq![StrikeAction::MeasureImpact, hurt, StrikeAction::Deflect, StrikeAction::Finish]
    } else if arrow.runtime.pickup == Pickup::Allowed {
        seq![
            StrikeAction::MeasureImpact,
            hurt,
            StrikeAction::Deflect,
            StrikeAction::DropArrow,
            StrikeAction::Discard,
            StrikeAction::Finish,
        ]
    } else {
        seq![
            StrikeAction::MeasureImpact,
            hurt,
            StrikeAction::Deflect,
            StrikeAction::Discard,
            StrikeAction::Finish,
        ]
    }
}

/// Every turn of a strike leads to a later phase, whatever the world answers.
pub proof fn law_turns_advance(
    arrow: ArrowEntity,
    phase: StrikePhase,
    event: StrikeEvent,
    roll: u32,
)
    requires
        phase.accepts(event),
    ensures
        arrow.strike_turn(phase, event, roll).phase.rank() > phase.rank(),
{
}

/// Whatever the world answers, the turns of a strike amount to [`outcome`] and [`script`].
pub proof fn law_strike_follows_script(arrow: ArrowEntity, blow: Blow)
    ensures
        play(arrow, StrikePhase::Start, blow) == (outcome(arrow, blow), script(arrow, blow)),
{
    let target = blow.target;
    let turned = arrow.with_last_deflected_by(Some(target));
    let cleared = arrow.with_last_deflected_by(None);
    lemma_turn(arrow, StrikePhase::Start, blow);
    lemma_turn(arrow, StrikePhase::Measuring { target }, blow);
    lemma_turn(arrow, StrikePhase::Hurting { target }, blow);
    lemma_turn(arrow, StrikePhase::Deflecting { target }, blow);
    lemma_turn(turned, StrikePhase::Dropping, blow);
    lemma_turn(turned, StrikePhase::Discarding, blow);
    lemma_turn(turned, StrikePhase::Finished, blow);
    lemma_turn(cleared, StrikePhase::Sounding, blow);
    lemma_turn(cleared, StrikePhase::Discarding, blow);
    lemma_turn(cleared, StrikePhase::Finished, blow);
    lemma_turn(arrow, StrikePhase::Finished, blow);
    assert(play(arrow, StrikePhase::Start, blow).1 =~= script(arrow, blow));
}

/// One turn of [`play`].
proof fn lemma_turn(arrow: ArrowEntity, phase: StrikePhase, blow: Blow)
    ensures
        play(arrow, phase, blow) == (if phase == StrikePhase::Finished {
            (arrow, seq![])
        } else {
            let event = blow.answer(phase);
            let turn = arrow.strike_turn(phase, event, blow.roll);
            let rest = play(arrow.struck(phase, event), turn.phase, blow);
            (rest.0, seq![turn.action] + rest.1)
        }),
{
    reveal(play);
}

/// An entity that turned the arrow back is passed over once while that is remembered: the next hit
/// on it does nothing but end the memory, and the one after that counts again.
pub proof fn law_deflector_is_passed_over_once(arrow: ArrowEntity, first: Blow, next: Blow)
    requires
        first.lands(arrow),
        !first.hurt,
        next.target == first.target,
    ensures
        ({
            let turned = outcome(arrow, first);
            &&& script(turned, next) == seq![StrikeAction::Finish]
            &&& outcome(turned, next) == turned.with_last_deflected_by(None)
            &&& next.lands(outcome(turned, next)) == next.level
        }),
{
}

/// In the tick after the one in which an entity turned the arrow back, a hit on it is passed over.
pub proof fn law_deflection_shields_next_tick(
    arrow: ArrowEntity,
    first: Blow,
    world: World,
    next: Blow,
)
    requires
        first.lands(arrow),
        !first.hurt,
        next.target == first.target,
    ensures
        crate::tick_laws::arrow_at(
            outcome(arrow, first),
            TickPhase::Start,
            world,
            TickPhase::Resolving,
        ) matches Some(handed) ==> !next.lands(handed) && script(handed, next) == seq![
            StrikeAction::Finish,
        ],
{
    crate::tick_laws::law_strike_gets_moved_arrow(outcome(arrow, first), world);
}

/// The memory of who turned the arrow back lasts through the next tick and no longer: if that tick
/// resolves no hit, the entity is struck again in the tick after it.
pub proof fn law_deflection_lasts_one_tick(
    arrow: ArrowEntity,
    first: Blow,
    world: World,
    later: World,
    next: Blow,
)
    requires
        first.lands(arrow),
        !first.hurt,
        next.target == first.target,
        world.level,
        !(world.moved is Some && world.hit && world.alive_at_hit),
        later.level,
    ensures
        ({
            let rested = crate::tick_laws::outcome(outcome(arrow, first), world);
            &&& next.lands(crate::tick_laws::moved(rested, later)) == next.level
            &&& crate::tick_laws::arrow_at(
                rested,
                TickPhase::Start,
                later,
                TickPhase::Resolving,
            ) matches Some(handed) ==> next.lands(handed) == next.level
        }),
{
    let rested = crate::tick_laws::outcome(outcome(arrow, first), world);
    crate::tick_laws::law_strike_gets_moved_arrow(rested, later);
}

/// A strike leaves the wobble alone, so a tick in which the arrow strikes an entity uses up one
/// tick of it as any other.
pub proof fn law_striking_tick_uses_up_wobble(arrow: ArrowEntity, world: World, blow: Blow)
    requires
        world.level,
        world.resolves(arrow) ==> world.struck == outcome(
            crate::tick_laws::moved(arrow, world),
            blow,
        ),
    ensures
        world.leaves_wobble(arrow),
        crate::tick_laws::outcome(arrow, world).runtime.shake_time == (
        if arrow.runtime.shake_time > 0 {
            arrow.runtime.shake_time - 1
        } else {
            arrow.runtime.shake_time as int
        }),
{
    crate::tick_laws::law_tick_uses_up_wobble(arrow, world);
}

/// Having been turned back by one entity does not shield any other.
pub proof fn law_other_targets_are_not_passed_over(arrow: ArrowEntity, first: Blow, next: Blow)
    requires
        first.lands(arrow),
        next.target != first.target,
    ensures
        next.lands(outcome(arrow, first)) == next.level,
{
}

/// An arrow leaves the world by a strike exactly if it does damage to something other than an
/// enderman, or does none and is stopped; an item is dropped exactly if it is stopped and anyone
/// may take it.
pub proof fn law_strike_discards(arrow: ArrowEntity, blow: Blow)
    ensures
        script(arrow, blow).contains(StrikeAction::Discard) <==> blow.lands(arrow) && (
            if blow.hurt {
                !blow.enderman
            } else {
                blow.stopped
            }
        ),
        script(arrow, blow).contains(StrikeAction::DropArrow) <==> blow.lands(arrow) && !blow.hurt
            && blow.stopped && arrow.runtime.pickup == Pickup::Allowed,
{
    let s = script(arrow, blow);
    if blow.lands(arrow) && blow.hurt && !blow.enderman {
        assert(s[3] == StrikeAction::Discard);
    }
    if blow.lands(arrow) && !blow.hurt && blow.stopped {
        if arrow.runtime.pickup == Pickup::Allowed {
            assert(s[3] == StrikeAction::DropArrow);
            assert(s[4] == StrikeAction::Discard);
        } else {
            assert(s[3] == StrikeAction::Discard);
        }
    }
}

/// The dice matter only where a critical arrow is about to do damage.
pub proof fn law_only_crits_roll(
    arrow: ArrowEntity,
    phase: StrikePhase,
    event: StrikeEvent,
    roll: u32,
    other: u32,
)
    requires
        !arrow.rolls(phase, event),
    ensures
        arrow.strike_turn(phase, event, roll) == arrow.strike_turn(phase, event, other),
{
}

/// A strike changes nothing in an arrow but the memory of who turned it back.
pub proof fn law_strike_keeps_the_rest(arrow: ArrowEntity, phase: StrikePhase, event: StrikeEvent)
    ensures
        ({
            let after = arrow.struck(phase, event);
            after == ArrowEntity {
                runtime: ArrowRuntime {
                    last_deflected_by: after.runtime.last_deflected_by,
                    deflected_this_tick: after.runtime.deflected_this_tick,
                    ..arrow.runtime
                },
                ..arrow
            }
        }),
{
}

impl ArrowEntity {
    /// A critical arrow does at least the plain damage, and at most half of it plus one on top;
    /// any other arrow does the plain damage.
    pub proof fn law_damage_is_bounded(self, base: i32, roll: u32)
        requires
            0 <= base,
        ensures
            base <= self.damage_on(base, roll) <= self.damage_bound(base),
            self.damage_bound(base) == base + (if self.crit() {
                base / 2 + 1
            } else {
                0
            }),
    {
    }

    /// Every bonus below half the damage plus two comes up for some roll.
    pub proof fn law_every_bonus_comes_up(self, base: i32, bonus: u32)
        requires
            self.crit(),
            0 <= base,
            bonus < base as int / 2 + CRIT_DAMAGE_FLOOR,
        ensures
            exists|roll: u32| #[trigger] self.damage_on(base, roll) == base + bonus,
    {
        assert(self.damage_on(base, bonus) == base + bonus) by {
            vstd::arithmetic::div_mod::lemma_small_mod(
                bonus as nat,
                (base as int / 2 + CRIT_DAMAGE_FLOOR) as nat,
            );
        }
    }
}

/// A strike goes as far as doing damage exactly if the struck entity is in a world and is not the
/// one that the arrow remembers, whatever else the arrow is; otherwise it is over at once.
pub proof fn law_strike_reaches_all_others(arrow: ArrowEntity, blow: Blow)
    ensures
        ({
            let asked = play(arrow, StrikePhase::Start, blow).1;
            let reached = blow.level && arrow.runtime.last_deflected_by != Some(blow.target);
            &&& reached ==> asked.len() > 2 && asked[0] is MeasureImpact && asked[1] is Hurt
            &&& !reached ==> asked == seq![StrikeAction::Finish]
        }),
{
    law_strike_follows_script(arrow, blow);
}

} // verus!
