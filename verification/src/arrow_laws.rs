//! What single changes do to the fields of an arrow, whatever the arrow was before.

use crate::arrow::{ArrowEntity, ArrowEntityData, ArrowRuntime, BlockStateId, EntityTypeId};
use crate::pickup::Pickup;
use vstd::prelude::*;

verus! {

/// A fresh arrow flies, is ordinary, has no age, wobble or memory, cannot be taken by anyone,
/// and does twice its impact speed in damage.
pub proof fn law_fresh_arrow(entity_type: EntityTypeId, id: i32)
    ensures
        ({
            let fresh = ArrowEntity::fresh(entity_type, id);
            &&& fresh.id == id
            &&& fresh.entity_type == entity_type
            &&& fresh.entity_data.id_flags == 0
            &&& fresh.entity_data.pierce_level == 0
            &&& !fresh.entity_data.in_ground
            &&& fresh.runtime.life == 0
            &&& fresh.runtime.in_ground_time == 0
            &&& fresh.runtime.shake_time == 0
            &&& fresh.runtime.base_damage == 0x4000_0000_0000_0000
            &&& fresh.runtime.pickup is Disallowed
            &&& fresh.runtime.last_state is None
            &&& fresh.runtime.last_deflected_by is None
            &&& !fresh.runtime.deflected_this_tick
        }),
{
}

/// An arrow is critical exactly if its flags are an odd number.
pub proof fn law_crit_is_odd_flags(arrow: ArrowEntity)
    ensures
        arrow.crit() <==> arrow.entity_data.id_flags as int % 2 == 1,
{
    let flags = arrow.entity_data.id_flags;
    assert(flags & 1 != 0 <==> flags % 2 != 0) by (bit_vector);
}

/// Making an arrow critical makes its flags odd, making it ordinary makes them even; half of the
/// flags, rounded down, and all other fields stay.
pub proof fn law_set_crit_changes_parity_only(arrow: ArrowEntity, value: bool)
    ensures
        ({
            let after = arrow.with_crit(value);
            let flags = after.entity_data.id_flags;
            &&& flags as int % 2 == (if value {
                1int
            } else {
                0
            })
            &&& flags as int / 2 == arrow.entity_data.id_flags as int / 2
            &&& after == (ArrowEntity {
                entity_data: ArrowEntityData { id_flags: flags, ..arrow.entity_data },
                ..arrow
            })
        }),
{
    let flags = arrow.entity_data.id_flags;
    lemma_parity(flags);
}

proof fn lemma_parity(flags: i8)
    ensures
        (flags | 1) as int % 2 == 1,
        (flags | 1) as int / 2 == flags as int / 2,
        (flags & !1i8) as int % 2 == 0,
        (flags & !1i8) as int / 2 == flags as int / 2,
{
    assert(flags & 1 == 0 || flags & 1 == 1) by (bit_vector);
    assert(flags & 1 == 1 ==> (flags | 1) == flags && (flags & !1i8) == flags - 1) by (bit_vector);
    assert(flags & 1 == 0 ==> (flags | 1) == flags + 1 && (flags & !1i8) == flags) by (bit_vector);
    assert(flags & 1 != 0 <==> flags % 2 != 0) by (bit_vector);
}

/// Setting whether the arrow is stuck, who may take it, or its remembered block changes that
/// field and no other.
pub proof fn law_setters_change_one_field(
    arrow: ArrowEntity,
    in_ground: bool,
    pickup: Pickup,
    state: BlockStateId,
)
    ensures
        arrow.with_in_ground(in_ground) == (ArrowEntity {
            entity_data: ArrowEntityData { in_ground, ..arrow.entity_data },
            ..arrow
        }),
        arrow.with_pickup(pickup) == (ArrowEntity {
            runtime: ArrowRuntime { pickup, ..arrow.runtime },
            ..arrow
        }),
        arrow.with_last_state(state) == (ArrowEntity {
            runtime: ArrowRuntime { last_state: Some(state), ..arrow.runtime },
            ..arrow
        }),
{
}

/// Remembering who turned the arrow back marks the memory as of this tick; a first ageing takes
/// the mark away and keeps the memory, a second one ends it, and neither touches anything else.
pub proof fn law_deflection_memory(arrow: ArrowEntity, by: Option<i32>)
    ensures
        ({
            let turned = arrow.with_last_deflected_by(by);
            let once = turned.forgetting();
            let twice = once.forgetting();
            &&& turned.runtime.last_deflected_by == by
            &&& turned.runtime.deflected_this_tick == (by is Some)
            &&& once.runtime.last_deflected_by == by
            &&& !once.runtime.deflected_this_tick
            &&& twice.runtime.last_deflected_by is None
            &&& !twice.runtime.deflected_this_tick
        }),
        arrow.forgetting().runtime.last_deflected_by == (if arrow.runtime.deflected_this_tick {
            arrow.runtime.last_deflected_by
        } else {
            None
        }),
        !arrow.forgetting().runtime.deflected_this_tick,
        ({
            let turned = arrow.with_last_deflected_by(by);
            turned == ArrowEntity {
                runtime: ArrowRuntime {
                    last_deflected_by: turned.runtime.last_deflected_by,
                    deflected_this_tick: turned.runtime.deflected_this_tick,
                    ..arrow.runtime
                },
                ..arrow
            }
        }),
        ({
            let aged = arrow.forgetting();
            aged == ArrowEntity {
                runtime: ArrowRuntime {
                    last_deflected_by: aged.runtime.last_deflected_by,
                    deflected_this_tick: aged.runtime.deflected_this_tick,
                    ..arrow.runtime
                },
                ..arrow
            }
        }),
{
}

/// An arrow that is let go is free and has no age; nothing else changes, not even its count of
/// ticks in the ground.
pub proof fn law_falling_frees_and_rejuvenates(arrow: ArrowEntity)
    ensures
        arrow.fallen() == (ArrowEntity {
            entity_data: ArrowEntityData { in_ground: false, ..arrow.entity_data },
            runtime: ArrowRuntime { life: 0, ..arrow.runtime },
            ..arrow
        }),
{
}

/// A ground tick makes the arrow older by one and changes nothing else.
pub proof fn law_ageing_adds_one(arrow: ArrowEntity)
    requires
        arrow.runtime.life < i32::MAX,
    ensures
        arrow.aged().runtime.life - arrow.runtime.life == 1,
        arrow.aged() == (ArrowEntity {
            runtime: ArrowRuntime { life: arrow.aged().runtime.life, ..arrow.runtime },
            ..arrow
        }),
{
}

/// Sticking puts the arrow in the ground with seven ticks of wobble, remembers the block, ends
/// piercing and leaves even flags of the same half; nothing else changes.
pub proof fn law_sticking(arrow: ArrowEntity, state: BlockStateId)
    ensures
        ({
            let stuck = arrow.stuck(state);
            let flags = stuck.entity_data.id_flags;
            &&& flags as int % 2 == 0
            &&& flags as int / 2 == arrow.entity_data.id_flags as int / 2
            &&& stuck == (ArrowEntity {
                entity_data: ArrowEntityData {
                    id_flags: flags,
                    pierce_level: 0,
                    in_ground: true,
                },
                runtime: ArrowRuntime {
                    shake_time: 7,
                    last_state: Some(state),
                    ..arrow.runtime
                },
                ..arrow
            })
        }),
{
    lemma_parity(arrow.entity_data.id_flags);
}

/// A block is a changed one exactly if it is not the one that is remembered; where none is
/// remembered every block is.
pub proof fn law_changed_block_is_another_block(arrow: ArrowEntity, state: BlockStateId)
    ensures
        arrow.runtime.last_state is None ==> arrow.block_changed(state),
        arrow.runtime.last_state matches Some(last) ==> (arrow.block_changed(state) <==> last
            != state),
{
}

/// Damage is blamed on the arrow, and behind it on its owner or, without one, on the arrow again.
pub proof fn law_blame(arrow: ArrowEntity, owner: Option<i32>)
    ensures
        arrow.blame(owner).direct_entity == arrow.id,
        owner is Some ==> arrow.blame(owner).causing_entity == owner->0,
        owner is None ==> arrow.blame(owner).causing_entity == arrow.id,
{
}

/// An arrow with even flags does the plain damage; one with odd flags adds the remainder of the
/// roll by half the damage plus two. The bound is the largest such sum.
pub proof fn law_damage_of_a_roll(arrow: ArrowEntity, base: i32, roll: u32)
    requires
        0 <= base,
    ensures
        arrow.entity_data.id_flags as int % 2 == 0 ==> {
            &&& arrow.damage_on(base, roll) == base
            &&& arrow.damage_bound(base) == base
        },
        arrow.entity_data.id_flags as int % 2 == 1 ==> {
            &&& arrow.damage_on(base, roll) - base == roll as int % (base as int / 2 + 2)
            &&& arrow.damage_bound(base) - base == base as int / 2 + 1
        },
{
    law_crit_is_odd_flags(arrow);
}

/// A spawn packet names the owner, and zero where there is none.
pub proof fn law_spawn_data(arrow: ArrowEntity, owner: Option<i32>)
    ensures
        owner is Some ==> arrow.spawned_by(owner) == owner->0,
        owner is None ==> arrow.spawned_by(owner) == 0,
{
}

/// The saved numbers of the pickup rules are 0, 1 and 2, and only 1 and 2 read as a rule that
/// lets anyone take the arrow.
pub proof fn law_pickup_numbers(rule: Pickup, value: i8)
    ensures
        rule.spec_ordinal() == 0 <==> rule is Disallowed,
        rule.spec_ordinal() == 1 <==> rule is Allowed,
        rule.spec_ordinal() == 2 <==> rule is CreativeOnly,
        Pickup::of_ordinal(value) is Allowed <==> value == 1,
        Pickup::of_ordinal(value) is CreativeOnly <==> value == 2,
        Pickup::of_ordinal(value) is Disallowed <==> value != 1 && value != 2,
{
}

} // verus!
