//! What callers can make of an arrow and get from it, told by its fields and by how one call shows
//! in the next.

use crate::arrow::{
    ArrowEntity, ArrowEntityData, ArrowRuntime, BlockStateId, DamageSource, EntityTypeId,
};
use crate::landing::{LandingEvent, LandingPhase, LandingTurn};
use crate::nbt::{NbtCompound, NbtEntry, NbtTag};
use crate::pickup::Pickup;
use crate::strike::{StrikeEvent, StrikePhase, StrikeTurn};
use crate::tick::{TickEvent, TickPhase, TickTurn};
use crate::touch::{TouchEvent, TouchPhase, TouchTurn};
use vstd::prelude::*;

verus! {

/// An arrow that is made, anew or from a saved game, keeps its type and its id, flies, is
/// ordinary, and has no age, wobble or memory; nobody can take it, and it does twice its impact
/// speed in damage.
pub proof fn law_made_arrow(entity_type: EntityTypeId, id: i32, arrow: ArrowEntity)
    requires
        call_ensures(ArrowEntity::new, (entity_type, id), arrow) || call_ensures(
            ArrowEntity::from_saved,
            (entity_type, id),
            arrow,
        ),
    ensures
        arrow.id == id,
        arrow.entity_type == entity_type,
        arrow.entity_data.id_flags == 0,
        arrow.entity_data.pierce_level == 0,
        !arrow.entity_data.in_ground,
        arrow.runtime.life == 0,
        arrow.runtime.in_ground_time == 0,
        arrow.runtime.shake_time == 0,
        arrow.runtime.base_damage == 0x4000_0000_0000_0000,
        arrow.runtime.pickup is Disallowed,
        arrow.runtime.last_state is None,
        arrow.runtime.last_deflected_by is None,
        !arrow.runtime.deflected_this_tick,
{
}

/// The two parts of a fresh arrow can be made by themselves, and are those of a made arrow.
pub proof fn law_made_parts(
    arrow: ArrowEntity,
    entity_type: EntityTypeId,
    id: i32,
    entity_data: ArrowEntityData,
    runtime: ArrowRuntime,
)
    requires
        call_ensures(ArrowEntity::new, (entity_type, id), arrow),
        call_ensures(ArrowEntityData::new, (), entity_data),
        call_ensures(ArrowRuntime::new, (), runtime),
    ensures
        arrow.entity_data == entity_data,
        arrow.runtime == runtime,
{
}

/// Whatever an arrow has gone through, players cannot strike it and blows do not hurt it.
pub proof fn law_arrows_are_beyond_harm(arrow: ArrowEntity, struck: bool, hurt: bool)
    requires
        call_ensures(ArrowEntity::attackable, (&arrow,), struck),
        call_ensures(ArrowEntity::hurt, (&arrow,), hurt),
    ensures
        !struck,
        !hurt,
{
}

/// An arrow tells its type, and in a spawn packet its owner, or zero where it has none.
pub proof fn law_what_arrows_tell(
    arrow: ArrowEntity,
    owner: Option<i32>,
    entity_type: EntityTypeId,
    data: i32,
)
    requires
        call_ensures(ArrowEntity::entity_type, (&arrow,), entity_type),
        call_ensures(ArrowEntity::spawn_data, (&arrow, owner), data),
    ensures
        entity_type == arrow.entity_type,
        owner is Some ==> data == owner->0,
        owner is None ==> data == 0,
{
}

/// Arrow damage is blamed on the arrow, and on its owner or, without one, on the arrow again.
pub proof fn law_who_is_blamed(arrow: ArrowEntity, owner: Option<i32>, source: DamageSource)
    requires
        call_ensures(ArrowEntity::damage_source, (&arrow, owner), source),
    ensures
        source.direct_entity == arrow.id,
        owner is Some ==> source.causing_entity == owner->0,
        owner is None ==> source.causing_entity == arrow.id,
{
}

/// Whether an arrow is stuck reads as it was last set, and setting it changes nothing else.
pub proof fn law_in_ground_reads_as_set(arrow: &mut ArrowEntity, value: bool, read: bool)
    requires
        call_ensures(ArrowEntity::set_in_ground, (arrow, value), ()),
        call_ensures(ArrowEntity::is_in_ground, (&*final(arrow),), read),
    ensures
        read == value,
        *final(arrow) == (ArrowEntity {
            entity_data: ArrowEntityData { in_ground: value, ..old(arrow).entity_data },
            ..*old(arrow)
        }),
{
}

/// Whether an arrow is critical reads as it was last set. It is the parity of the flags: half of
/// them, rounded down, and everything else stays.
pub proof fn law_crit_reads_as_set(arrow: &mut ArrowEntity, value: bool, read: bool, before: bool)
    requires
        call_ensures(ArrowEntity::is_crit_arrow, (&*old(arrow),), before),
        call_ensures(ArrowEntity::set_crit_arrow, (arrow, value), ()),
        call_ensures(ArrowEntity::is_crit_arrow, (&*final(arrow),), read),
    ensures
        before <==> old(arrow).entity_data.id_flags as int % 2 == 1,
        read == value,
        final(arrow).entity_data.id_flags as int / 2 == old(arrow).entity_data.id_flags as int / 2,
        *final(arrow) == (ArrowEntity {
            entity_data: ArrowEntityData {
                id_flags: final(arrow).entity_data.id_flags,
                ..old(arrow).entity_data
            },
            ..*old(arrow)
        }),
{
    crate::arrow_laws::law_crit_is_odd_flags(*old(arrow));
    crate::arrow_laws::law_crit_is_odd_flags(*final(arrow));
    crate::arrow_laws::law_set_crit_changes_parity_only(*old(arrow), value);
}

/// Setting the pickup rule changes that and nothing else.
pub proof fn law_set_pickup(arrow: &mut ArrowEntity, pickup: Pickup)
    requires
        call_ensures(ArrowEntity::set_pickup, (arrow, pickup), ()),
    ensures
        *final(arrow) == (ArrowEntity {
            runtime: ArrowRuntime { pickup, ..old(arrow).runtime },
            ..*old(arrow)
        }),
{
}

/// The pickup rule is `Disallowed` by default; the rules are saved as 0, 1 and 2, and only these
/// last two numbers are read as a rule that lets anyone take the arrow.
pub proof fn law_pickup_numbers(
    default: Pickup,
    rule: Pickup,
    ordinal: i8,
    number: i8,
    read: Pickup,
)
    requires
        call_ensures(<Pickup as Default>::default, (), default),
        call_ensures(Pickup::ordinal, (rule,), ordinal),
        call_ensures(<Pickup as From<i8>>::from, (number,), read),
    ensures
        default is Disallowed,
        rule is Disallowed <==> ordinal == 0,
        rule is Allowed <==> ordinal == 1,
        rule is CreativeOnly <==> ordinal == 2,
        read is Allowed <==> number == 1,
        read is CreativeOnly <==> number == 2,
{
}

/// An arrow that is let go is free and has no age; nothing else changes.
pub proof fn law_start_falling(arrow: &mut ArrowEntity)
    requires
        call_ensures(ArrowEntity::start_falling, (arrow,), ()),
    ensures
        *final(arrow) == (ArrowEntity {
            entity_data: ArrowEntityData { in_ground: false, ..old(arrow).entity_data },
            runtime: ArrowRuntime { life: 0, ..old(arrow).runtime },
            ..*old(arrow)
        }),
{
}

/// What is remembered of a deflection is who it was by and that it was in this tick; ageing keeps
/// who it was by if it was in this tick, and it was not in this tick any more.
pub proof fn law_deflection_ages(
    arrow: &mut ArrowEntity,
    by: Option<i32>,
    older: &mut ArrowEntity,
)
    requires
        call_ensures(ArrowEntity::set_last_deflected_by, (arrow, by), ()),
        call_ensures(ArrowEntity::age_deflection, (older,), ()),
    ensures
        *final(arrow) == (ArrowEntity {
            runtime: ArrowRuntime {
                last_deflected_by: by,
                deflected_this_tick: by is Some,
                ..old(arrow).runtime
            },
            ..*old(arrow)
        }),
        old(older).runtime.deflected_this_tick ==> *final(older) == (ArrowEntity {
            runtime: ArrowRuntime { deflected_this_tick: false, ..old(older).runtime },
            ..*old(older)
        }),
        !old(older).runtime.deflected_this_tick ==> *final(older) == (ArrowEntity {
            runtime: ArrowRuntime { last_deflected_by: None, ..old(older).runtime },
            ..*old(older)
        }),
{
}

/// A ground tick adds one to the age and changes nothing else; the arrow is too old from an age of
/// 1200 on. Every age but the largest can grow.
pub proof fn law_ageing(arrow: &mut ArrowEntity, expired: bool)
    requires
        old(arrow).runtime.life < i32::MAX,
        call_ensures(ArrowEntity::tick_despawn, (arrow,), expired),
    ensures
        call_requires(ArrowEntity::tick_despawn, (arrow,)),
        final(arrow).runtime.life == old(arrow).runtime.life + 1,
        expired <==> final(arrow).runtime.life >= 1200,
        *final(arrow) == (ArrowEntity {
            runtime: ArrowRuntime { life: final(arrow).runtime.life, ..old(arrow).runtime },
            ..*old(arrow)
        }),
{
}

/// An arrow that sticks in a block is in the ground, wobbles for seven ticks, remembers the block,
/// does not pierce and is not critical; a look at that block finds it unchanged, and a look at any
/// other finds a change. Nothing else of the arrow changes.
pub proof fn law_sticking(
    arrow: &mut ArrowEntity,
    state: BlockStateId,
    other: BlockStateId,
    changed: bool,
)
    requires
        call_ensures(ArrowEntity::stick_in_ground, (arrow, state), ()),
        call_ensures(ArrowEntity::is_block_changed, (&*final(arrow), other), changed),
    ensures
        changed <==> other != state,
        final(arrow).entity_data.id_flags as int % 2 == 0,
        final(arrow).entity_data.id_flags as int / 2 == old(arrow).entity_data.id_flags as int / 2,
        *final(arrow) == (ArrowEntity {
            entity_data: ArrowEntityData {
                id_flags: final(arrow).entity_data.id_flags,
                pierce_level: 0,
                in_ground: true,
            },
            runtime: ArrowRuntime {
                shake_time: 7,
                last_state: Some(state),
                ..old(arrow).runtime
            },
            ..*old(arrow)
        }),
{
    crate::arrow_laws::law_sticking(*old(arrow), state);
}

/// A block is a changed one exactly if it is not the one that the arrow remembers.
pub proof fn law_block_change(arrow: ArrowEntity, state: BlockStateId, changed: bool)
    requires
        call_ensures(ArrowEntity::is_block_changed, (&arrow, state), changed),
    ensures
        changed <==> arrow.runtime.last_state != Some(state),
{
}

/// An arrow with even flags does the plain damage, and one with odd flags adds the remainder of
/// the roll by half the damage plus two; whether the sum fits is known beforehand.
pub proof fn law_damage_of_a_roll(
    arrow: ArrowEntity,
    base: i32,
    roll: u32,
    fits: bool,
    damage: i32,
)
    requires
        0 <= base,
        call_ensures(ArrowEntity::damage_fits_roll, (&arrow, base, roll), fits),
        fits ==> call_ensures(ArrowEntity::damage_with_roll, (&arrow, base, roll), damage),
    ensures
        ({
            let bonus = if arrow.entity_data.id_flags as int % 2 == 1 {
                roll as int % (base as int / 2 + 2)
            } else {
                0
            };
            &&& call_requires(ArrowEntity::damage_fits_roll, (&arrow, base, roll))
            &&& fits <==> base + bonus <= i32::MAX
            &&& fits ==> call_requires(ArrowEntity::damage_with_roll, (&arrow, base, roll))
            &&& fits ==> damage == base + bonus
        }),
{
    crate::arrow_laws::law_damage_of_a_roll(arrow, base, roll);
}

/// A tick takes every answer to what it asked for; only an arrow that spends it in the ground
/// needs room in its counters, and whether it does can be asked beforehand.
pub proof fn law_ticks_can_go_on(
    arrow: &mut ArrowEntity,
    phase: TickPhase,
    event: TickEvent,
    rests: bool,
)
    requires
        phase.accepts(event),
        call_ensures(ArrowEntity::would_rest, (&*old(arrow), phase, event), rests),
    ensures
        rests <==> {
            ||| phase is Probing && event is Surroundings && !event->no_physics && (
            old(arrow).entity_data.in_ground || (!event->air && event->still))
                && old(arrow).runtime.last_state == Some(event->block)
            ||| phase is Loosening && event == TickEvent::Free(false)
        },
        !rests || (old(arrow).runtime.life < i32::MAX && old(arrow).runtime.in_ground_time
            < i32::MAX) ==> call_requires(ArrowEntity::tick, (arrow, phase, event)),
{
    crate::turn_laws::law_what_keeps_an_arrow_in_the_ground(*old(arrow), phase, event);
}

/// A turn of a tick changes neither what the arrow is nor the damage that it does nor who may take
/// it. It frees the arrow only by letting it fall, and changes the remembered block only by a move
/// that succeeds, to the block that was moved to.
pub proof fn law_turn_of_a_tick(
    arrow: &mut ArrowEntity,
    phase: TickPhase,
    event: TickEvent,
    turn: TickTurn,
)
    requires
        old(arrow).rests(phase, event) ==> old(arrow).runtime.life < i32::MAX && old(
            arrow,
        ).runtime.in_ground_time < i32::MAX,
        call_ensures(ArrowEntity::tick, (arrow, phase, event), turn),
    ensures
        final(arrow).id == old(arrow).id,
        final(arrow).entity_type == old(arrow).entity_type,
        final(arrow).entity_data.id_flags == old(arrow).entity_data.id_flags,
        final(arrow).entity_data.pierce_level == old(arrow).entity_data.pierce_level,
        final(arrow).runtime.base_damage == old(arrow).runtime.base_damage,
        final(arrow).runtime.pickup == old(arrow).runtime.pickup,
        old(arrow).entity_data.in_ground && !final(arrow).entity_data.in_ground <==> old(
            arrow,
        ).entity_data.in_ground && phase is Loosening && event == TickEvent::Free(true),
        !old(arrow).entity_data.in_ground && final(arrow).entity_data.in_ground <==> !old(
            arrow,
        ).entity_data.in_ground && phase is Probing && event is Surroundings && !event->air
            && event->still,
        phase is Moving ==> (event matches TickEvent::Moved(Some(block)) ==> *final(arrow) == (
        ArrowEntity {
            runtime: ArrowRuntime { last_state: Some(block), ..old(arrow).runtime },
            ..*old(arrow)
        })),
        !(phase is Moving) ==> final(arrow).runtime.last_state == old(arrow).runtime.last_state,
        turn.phase is Sinking <==> turn.action is ApplyGravity,
        turn.phase is Loosening <==> turn.action is AskFree,
        phase is Slowing ==> (turn.action is ApplyGravity <==> !old(arrow).entity_data.in_ground),
{
    crate::turn_laws::law_when_fields_change_in_a_tick(*old(arrow), phase, event);
    crate::turn_laws::law_when_phases_of_a_tick_follow(*old(arrow), phase, event);
    crate::turn_laws::law_what_a_tick_asks(turn.phase);
}

/// A stuck arrow that looks around, and does not ignore blocks, asks for room to fall exactly if
/// the block that it finds is not the one that it remembers; else it ages, and is discarded from
/// an age of 1200 on.
pub proof fn law_stuck_arrow_looks_around(
    arrow: &mut ArrowEntity,
    block: BlockStateId,
    air: bool,
    still: bool,
    turn: TickTurn,
)
    requires
        old(arrow).entity_data.in_ground,
        old(arrow).runtime.last_state == Some(block) ==> old(arrow).runtime.life < i32::MAX && old(
            arrow,
        ).runtime.in_ground_time < i32::MAX,
        call_ensures(
            ArrowEntity::tick,
            (
                arrow,
                TickPhase::Probing,
                TickEvent::Surroundings { block, air, still, no_physics: false },
            ),
            turn,
        ),
    ensures
        final(arrow).entity_data.in_ground,
        old(arrow).runtime.last_state != Some(block) ==> turn.action is AskFree
            && turn.phase is Loosening && *final(arrow) == *old(arrow),
        old(arrow).runtime.last_state == Some(block) ==> {
            &&& turn.action is Discard <==> old(arrow).runtime.life >= 1199
            &&& turn.action is AskAlive <==> old(arrow).runtime.life < 1199
            &&& final(arrow).runtime.life == old(arrow).runtime.life + 1
            &&& final(arrow).runtime.in_ground_time == old(arrow).runtime.in_ground_time + 1
        },
{
}

/// Room lets an arrow come loose, whatever it is otherwise: it is free, its age is forgotten and
/// its velocity is scaled.
pub proof fn law_room_lets_arrows_fall(arrow: &mut ArrowEntity, turn: TickTurn)
    requires
        call_ensures(
            ArrowEntity::tick,
            (arrow, TickPhase::Loosening, TickEvent::Free(true)),
            turn,
        ),
    ensures
        turn.action is JitterVelocity,
        *final(arrow) == (ArrowEntity {
            entity_data: ArrowEntityData { in_ground: false, ..old(arrow).entity_data },
            runtime: ArrowRuntime { life: 0, ..old(arrow).runtime },
            ..*old(arrow)
        }),
{
}

/// The first turn of a strike measures the impact exactly if the struck entity is in a world and
/// is not the one that the arrow remembers as having turned it back, whatever the arrow is
/// otherwise; and it ends that memory exactly on a hit on that one.
pub proof fn law_first_turn_of_a_strike(
    arrow: &mut ArrowEntity,
    target: i32,
    level: bool,
    roll: u32,
    turn: StrikeTurn,
)
    requires
        ({
            let event = StrikeEvent::Struck { target, level };
            ||| call_ensures(
                ArrowEntity::on_hit_entity_with_roll,
                (arrow, StrikePhase::Start, event, roll),
                turn,
            )
            ||| call_ensures(ArrowEntity::on_hit_entity, (arrow, StrikePhase::Start, event), turn)
        }),
    ensures
        level && old(arrow).runtime.last_deflected_by != Some(target) ==> turn.phase
            == (StrikePhase::Measuring { target }) && turn.action is MeasureImpact,
        !level || old(arrow).runtime.last_deflected_by == Some(target) ==> turn.phase is Finished
            && turn.action is Finish,
        old(arrow).runtime.last_deflected_by != Some(target) ==> *final(arrow) == *old(arrow),
        old(arrow).runtime.last_deflected_by == Some(target) ==> *final(arrow) == (ArrowEntity {
            runtime: ArrowRuntime {
                last_deflected_by: None,
                deflected_this_tick: false,
                ..old(arrow).runtime
            },
            ..*old(arrow)
        }),
{
}

/// A measured impact hurts the struck entity in the name of the arrow. An arrow with even flags
/// does the measured damage, and one with odd flags that and less than half of it plus two. An
/// impact that leaves room for the largest bonus can always be dealt with.
pub proof fn law_impact_of_a_strike(
    arrow: &mut ArrowEntity,
    target: i32,
    damage: i32,
    owner: Option<i32>,
    turn: StrikeTurn,
)
    requires
        0 <= damage,
        old(arrow).entity_data.id_flags as int % 2 == 1 ==> damage + damage as int / 2 + 1
            <= i32::MAX,
        call_ensures(
            ArrowEntity::on_hit_entity,
            (arrow, StrikePhase::Measuring { target }, StrikeEvent::Impact { damage, owner }),
            turn,
        ),
    ensures
        call_requires(
            ArrowEntity::on_hit_entity,
            (arrow, StrikePhase::Measuring { target }, StrikeEvent::Impact { damage, owner }),
        ),
        *final(arrow) == *old(arrow),
        turn.phase == (StrikePhase::Hurting { target }),
        turn.action is Hurt,
        turn.action->source.direct_entity == old(arrow).id,
        owner is Some ==> turn.action->source.causing_entity == owner->0,
        owner is None ==> turn.action->source.causing_entity == old(arrow).id,
        old(arrow).entity_data.id_flags as int % 2 == 0 ==> turn.action->amount == damage,
        damage <= turn.action->amount < damage + damage as int / 2 + 2,
{
    crate::arrow_laws::law_crit_is_odd_flags(*old(arrow));
}

/// An arrow that lies in the ground and no longer wobbles is offered to whoever touches it, if
/// anyone may take it, and asks for infinite materials, if only those with them may, whatever it is
/// otherwise; any other touch is over at once.
pub proof fn law_first_turn_of_a_touch(
    arrow: ArrowEntity,
    player: i32,
    removed: bool,
    turn: TouchTurn,
)
    requires
        call_ensures(
            ArrowEntity::player_touch,
            (&arrow, TouchPhase::Start, TouchEvent::Touched { player, removed }),
            turn,
        ),
    ensures
        ({
            let settled = !removed && arrow.entity_data.in_ground && arrow.runtime.shake_time <= 0;
            &&& turn.action is OfferArrow <==> settled && arrow.runtime.pickup is Allowed
            &&& turn.action is OfferArrow ==> turn.phase == TouchPhase::Offering { player }
            &&& turn.action is AskInfiniteMaterials <==> settled
                && arrow.runtime.pickup is CreativeOnly
            &&& turn.action is AskInfiniteMaterials ==> turn.phase == TouchPhase::Asking { player }
            &&& turn.action is Finish <==> !settled || arrow.runtime.pickup is Disallowed
        }),
{
}

/// The first turn of a landing remembers the block that was hit and changes nothing else; the last
/// one leaves the arrow stuck in the block that it rests in.
pub proof fn law_turns_of_a_landing(
    arrow: &mut ArrowEntity,
    block: BlockStateId,
    turn: LandingTurn,
    stuck: &mut ArrowEntity,
    last: LandingTurn,
)
    requires
        call_ensures(
            ArrowEntity::on_hit_block,
            (arrow, LandingPhase::Start, LandingEvent::Hit(Some(block))),
            turn,
        ),
        call_ensures(
            ArrowEntity::on_hit_block,
            (stuck, LandingPhase::Settling, LandingEvent::RestingIn(block)),
            last,
        ),
    ensures
        turn.action is React,
        *final(arrow) == (ArrowEntity {
            runtime: ArrowRuntime { last_state: Some(block), ..old(arrow).runtime },
            ..*old(arrow)
        }),
        last.action is Finish,
        final(stuck).entity_data.in_ground,
        final(stuck).entity_data.pierce_level == 0,
        final(stuck).entity_data.id_flags as int % 2 == 0,
        final(stuck).runtime == (ArrowRuntime {
            shake_time: 7,
            last_state: Some(block),
            ..old(stuck).runtime
        }),
{
    crate::arrow_laws::law_sticking(*old(stuck), block);
}

/// A tag that is put into tags without its name is the one that is found under its name, as the
/// kind that it is, and it stands behind the others.
pub proof fn law_inserted_tag_is_got(
    nbt: &mut NbtCompound,
    name: &str,
    tag: NbtTag,
    before: Option<NbtTag>,
    got: Option<NbtTag>,
    byte: Option<i8>,
    short: Option<i16>,
    double: Option<u64>,
)
    requires
        call_ensures(NbtCompound::get, (&*old(nbt), name), before),
        call_ensures(NbtCompound::insert, (nbt, name, tag), ()),
        call_ensures(NbtCompound::get, (&*final(nbt), name), got),
        call_ensures(NbtCompound::byte, (&*final(nbt), name), byte),
        call_ensures(NbtCompound::short, (&*final(nbt), name), short),
        call_ensures(NbtCompound::double, (&*final(nbt), name), double),
    ensures
        final(nbt)@ == old(nbt)@.push((name@, tag)),
        before is Some ==> got == before,
        before is None ==> got == Some(tag),
        byte is Some <==> got is Some && got->0 is Byte,
        byte is Some ==> got == Some(NbtTag::Byte(byte->0)),
        short is Some <==> got is Some && got->0 is Short,
        short is Some ==> got == Some(NbtTag::Short(short->0)),
        double is Some <==> got is Some && got->0 is Double,
        double is Some ==> got == Some(NbtTag::Double(double->0)),
{
    crate::nbt::law_insert_then_find(old(nbt)@, name@, tag, name@);
}

/// The entries of a compound are those that were put in, in that order: an insertion adds one
/// behind the others, with the name and the tag that were given.
pub proof fn law_entries_are_those_inserted(
    nbt: &mut NbtCompound,
    name: &str,
    tag: NbtTag,
    before: &Vec<NbtEntry>,
    after: &Vec<NbtEntry>,
)
    requires
        call_ensures(NbtCompound::entries, (&*old(nbt),), before),
        call_ensures(NbtCompound::insert, (nbt, name, tag), ()),
        call_ensures(NbtCompound::entries, (&*final(nbt),), after),
    ensures
        after@.len() == before@.len() + 1,
        after@.last().name@ == name@,
        after@.last().tag == tag,
        forall|i: int|
            0 <= i < before@.len() ==> (#[trigger] after@[i]).name@ == before@[i].name@
                && after@[i].tag == before@[i].tag,
{
    let shown = |e: NbtEntry| (e.name@, e.tag);
    let all = after@.map_values(shown);
    assert(all.len() == before@.map_values(shown).len() + 1);
    assert(all[after@.len() - 1] == (name@, tag));
    assert forall|i: int| 0 <= i < before@.len() implies (#[trigger] after@[i]).name@
        == before@[i].name@ && after@[i].tag == before@[i].tag by {
        assert(all[i] == before@.map_values(shown)[i]);
    }
}

/// A load takes the age from the first tag named `life`, as it is, if that is a short, and else
/// makes it zero; and likewise the wobble from the byte `shake`.
pub proof fn law_loaded_counters(
    arrow: &mut ArrowEntity,
    nbt: NbtCompound,
    life: Option<NbtTag>,
    shake: Option<NbtTag>,
)
    requires
        call_ensures(NbtCompound::get, (&nbt, "life"), life),
        call_ensures(NbtCompound::get, (&nbt, "shake"), shake),
        call_ensures(ArrowEntity::load_additional, (arrow, &nbt), ()),
    ensures
        match life {
            Some(NbtTag::Short(value)) => final(arrow).runtime.life == value,
            _ => final(arrow).runtime.life == 0,
        },
        match shake {
            Some(NbtTag::Byte(value)) => final(arrow).runtime.shake_time == value,
            _ => final(arrow).runtime.shake_time == 0,
        },
{
}

/// A save into an empty compound holds the age as a short and the wobble as a byte, as they are,
/// if they are a short and a byte at all, and the damage multiplier as a double.
pub proof fn law_saved_counters(
    arrow: ArrowEntity,
    nbt: &mut NbtCompound,
    life: Option<NbtTag>,
    shake: Option<NbtTag>,
    damage: Option<NbtTag>,
)
    requires
        call_ensures(NbtCompound::new, (), *old(nbt)),
        call_ensures(ArrowEntity::save_additional, (&arrow, nbt), ()),
        call_ensures(NbtCompound::get, (&*final(nbt), "life"), life),
        call_ensures(NbtCompound::get, (&*final(nbt), "shake"), shake),
        call_ensures(NbtCompound::get, (&*final(nbt), "damage"), damage),
    ensures
        -32768 <= arrow.runtime.life <= 32767 ==> (life matches Some(NbtTag::Short(value)) && value
            == arrow.runtime.life),
        -128 <= arrow.runtime.shake_time <= 127 ==> (shake matches Some(NbtTag::Byte(value))
            && value == arrow.runtime.shake_time),
        damage == Some(NbtTag::Double(arrow.runtime.base_damage)),
{
    crate::save::law_save_writes_the_numbers(arrow, old(nbt)@);
    reveal_strlit("life");
    reveal_strlit("shake");
    reveal_strlit("damage");
    assert("life"@[0] == 'l' && "shake"@[0] == 's' && "damage"@[0] == 'd');
    crate::nbt::law_first_place_is_found(final(nbt)@, "life"@, 0);
    crate::nbt::law_first_place_is_found(final(nbt)@, "shake"@, 1);
    crate::nbt::law_first_place_is_found(final(nbt)@, "damage"@, 2);
}

} // verus!
