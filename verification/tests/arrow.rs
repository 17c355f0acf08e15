use arrow_entity::arrow::{
    ArrowEntity, ArrowEntityData, ArrowRuntime, BlockStateId, DamageSource, EntityTypeId,
    ARROW_BASE_DAMAGE,
};
use arrow_entity::nbt::NbtCompound;
use arrow_entity::pickup::Pickup;

const ARROW: EntityTypeId = EntityTypeId(6);

#[test]
fn pickup_defaults_disallowed_and_round_trips() {
    let mut arrow = ArrowEntity::new(ARROW, 1);
    assert_eq!(Pickup::from(0), Pickup::Disallowed);
    assert_eq!(Pickup::from(1), Pickup::Allowed);
    assert_eq!(Pickup::from(2), Pickup::CreativeOnly);
    assert_eq!(Pickup::from(99), Pickup::Disallowed);

    arrow.set_pickup(Pickup::CreativeOnly);
    let mut nbt = NbtCompound::new();
    arrow.save_additional(&mut nbt);
    assert_eq!(nbt.byte("pickup"), Some(2));
}

#[test]
fn crit_flag_toggles_synced_value() {
    let mut arrow = ArrowEntity::new(ARROW, 1);
    assert!(!arrow.is_crit_arrow());
    arrow.set_crit_arrow(true);
    assert!(arrow.is_crit_arrow());
    arrow.set_crit_arrow(false);
    assert!(!arrow.is_crit_arrow());
}

#[test]
fn crit_flag_keeps_the_other_flags() {
    let mut arrow = ArrowEntity::new(ARROW, 1);
    arrow.entity_data.id_flags = -128 + 6;
    arrow.set_crit_arrow(true);
    assert_eq!(arrow.entity_data.id_flags, -128 + 7);
    arrow.set_crit_arrow(true);
    assert_eq!(arrow.entity_data.id_flags, -128 + 7);
    arrow.set_crit_arrow(false);
    assert_eq!(arrow.entity_data.id_flags, -128 + 6);
}

#[test]
fn fresh_arrow() {
    let arrow = ArrowEntity::new(ARROW, 41);
    assert_eq!(arrow.id, 41);
    assert_eq!(arrow.entity_type(), ARROW);
    assert_eq!(
        arrow.entity_data,
        ArrowEntityData { id_flags: 0, pierce_level: 0, in_ground: false }
    );
    assert_eq!(
        arrow.runtime,
        ArrowRuntime {
            life: 0,
            in_ground_time: 0,
            shake_time: 0,
            base_damage: 2.0f64.to_bits(),
            pickup: Pickup::Disallowed,
            last_state: None,
            last_deflected_by: None,
            deflected_this_tick: false,
        }
    );
    assert_eq!(ArrowEntity::from_saved(ARROW, 41), arrow);
    assert!(!arrow.attackable());
    assert!(!arrow.hurt());
    assert_eq!(f64::from_bits(ARROW_BASE_DAMAGE), 2.0);
}

#[test]
fn pickup_ordinals() {
    assert_eq!(Pickup::default(), Pickup::Disallowed);
    assert_eq!(Pickup::from(-1), Pickup::Disallowed);
    assert_eq!(Pickup::from(3), Pickup::Disallowed);
    for rule in [Pickup::Disallowed, Pickup::Allowed, Pickup::CreativeOnly] {
        assert_eq!(Pickup::from(rule.ordinal()), rule);
    }
    assert_eq!(Pickup::Allowed.ordinal(), 1);
}

#[test]
fn owner_shows_in_spawn_data_and_blame() {
    let arrow = ArrowEntity::new(ARROW, 41);
    assert_eq!(arrow.spawn_data(None), 0);
    assert_eq!(arrow.spawn_data(Some(7)), 7);
    assert_eq!(
        arrow.damage_source(None),
        DamageSource { direct_entity: 41, causing_entity: 41 }
    );
    assert_eq!(
        arrow.damage_source(Some(7)),
        DamageSource { direct_entity: 41, causing_entity: 7 }
    );
}

#[test]
fn falling_forgets_the_age_only() {
    let mut arrow = ArrowEntity::new(ARROW, 1);
    arrow.set_in_ground(true);
    arrow.runtime.life = 900;
    arrow.runtime.in_ground_time = 900;
    arrow.start_falling();
    assert!(!arrow.is_in_ground());
    assert_eq!(arrow.runtime.life, 0);
    assert_eq!(arrow.runtime.in_ground_time, 900);
}

#[test]
fn age_limit() {
    let mut arrow = ArrowEntity::new(ARROW, 1);
    arrow.runtime.life = 1198;
    assert!(!arrow.tick_despawn());
    assert!(arrow.tick_despawn());
    assert_eq!(arrow.runtime.life, 1200);
    assert!(arrow.tick_despawn());
}

#[test]
fn sticking_clears_crit_and_piercing() {
    let mut arrow = ArrowEntity::new(ARROW, 1);
    arrow.set_crit_arrow(true);
    arrow.entity_data.id_flags |= 4;
    arrow.entity_data.pierce_level = 3;
    arrow.runtime.life = 11;
    arrow.stick_in_ground(BlockStateId(80));
    assert!(arrow.is_in_ground());
    assert!(!arrow.is_crit_arrow());
    assert_eq!(arrow.entity_data.id_flags, 4);
    assert_eq!(arrow.entity_data.pierce_level, 0);
    assert_eq!(arrow.runtime.shake_time, 7);
    assert_eq!(arrow.runtime.life, 11);
    assert!(!arrow.is_block_changed(BlockStateId(80)));
    assert!(arrow.is_block_changed(BlockStateId(81)));
}

#[test]
fn critical_damage() {
    let mut arrow = ArrowEntity::new(ARROW, 1);
    assert_eq!(arrow.damage_with_roll(6, 4_000_000_000), 6);
    arrow.set_crit_arrow(true);
    assert_eq!(arrow.damage_with_roll(6, 0), 6);
    assert_eq!(arrow.damage_with_roll(6, 4), 10);
    assert_eq!(arrow.damage_with_roll(6, 5), 6);
    assert_eq!(arrow.damage_with_roll(0, 1), 1);
    assert_eq!(arrow.damage_with_roll(0, u32::MAX), 1);
    assert_eq!(arrow.damage_with_roll(7, 13), 10);
}

#[test]
fn huge_critical_damage_fits_for_some_rolls_only() {
    let mut arrow = ArrowEntity::new(ARROW, 1);
    assert!(arrow.damage_fits_roll(i32::MAX, 1));
    arrow.set_crit_arrow(true);
    assert!(arrow.damage_fits_roll(i32::MAX, 0));
    assert!(!arrow.damage_fits_roll(i32::MAX, 1));
    assert!(arrow.damage_fits_roll(6, u32::MAX));
    assert_eq!(arrow.damage_with_roll(i32::MAX - 1, 1), i32::MAX);
}
