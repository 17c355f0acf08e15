use arrow_entity::arrow::{ArrowEntity, BlockStateId, EntityTypeId};
use arrow_entity::nbt::{NbtCompound, NbtEntry, NbtTag};
use arrow_entity::pickup::Pickup;

fn arrow() -> ArrowEntity {
    ArrowEntity::new(EntityTypeId(6), 41)
}

fn entry(name: &str, tag: NbtTag) -> NbtEntry {
    NbtEntry { name: String::from(name), tag }
}

#[test]
fn saved_tags_in_order() {
    let mut a = arrow();
    a.runtime.life = 300;
    a.stick_in_ground(BlockStateId(5));
    a.set_crit_arrow(true);
    a.set_pickup(Pickup::Allowed);
    let mut nbt = NbtCompound::new();
    nbt.insert("Owner", NbtTag::Other);
    a.save_additional(&mut nbt);
    assert_eq!(
        *nbt.entries(),
        vec![
            entry("Owner", NbtTag::Other),
            entry("life", NbtTag::Short(300)),
            entry("shake", NbtTag::Byte(7)),
            entry("damage", NbtTag::Double(2.0f64.to_bits())),
            entry("pickup", NbtTag::Byte(1)),
            entry("crit", NbtTag::Byte(1)),
            entry("inGround", NbtTag::Byte(1)),
        ]
    );
}

#[test]
fn load_gives_back_what_was_saved() {
    let mut a = arrow();
    a.runtime.life = 300;
    a.stick_in_ground(BlockStateId(5));
    a.runtime.base_damage = 3.5f64.to_bits();
    a.set_pickup(Pickup::CreativeOnly);
    let mut nbt = NbtCompound::new();
    a.save_additional(&mut nbt);
    let mut b = ArrowEntity::from_saved(EntityTypeId(6), 41);
    b.load_additional(&nbt);
    a.runtime.last_state = None;
    assert_eq!(a, b);
}

#[test]
fn counters_saturate() {
    let mut a = arrow();
    a.runtime.life = 32768;
    a.runtime.shake_time = 128;
    let mut nbt = NbtCompound::new();
    a.save_additional(&mut nbt);
    assert_eq!(nbt.short("life"), Some(32767));
    assert_eq!(nbt.byte("shake"), Some(127));
    a.runtime.life = -32769;
    a.runtime.shake_time = -129;
    let mut nbt = NbtCompound::new();
    a.save_additional(&mut nbt);
    assert_eq!(nbt.short("life"), Some(32767));
    assert_eq!(nbt.byte("shake"), Some(127));
    a.runtime.life = -32768;
    a.runtime.shake_time = -128;
    let mut nbt = NbtCompound::new();
    a.save_additional(&mut nbt);
    assert_eq!(nbt.short("life"), Some(-32768));
    assert_eq!(nbt.byte("shake"), Some(-128));
}

#[test]
fn missing_tags_read_as_fresh() {
    let mut a = arrow();
    a.runtime.life = 5;
    a.runtime.shake_time = 5;
    a.runtime.base_damage = 0;
    a.runtime.in_ground_time = 5;
    a.runtime.last_deflected_by = Some(2);
    a.set_pickup(Pickup::Allowed);
    a.set_crit_arrow(true);
    a.set_in_ground(true);
    a.load_additional(&NbtCompound::new());
    let mut expected = arrow();
    expected.runtime.in_ground_time = 5;
    expected.runtime.last_deflected_by = Some(2);
    assert_eq!(a, expected);
}

#[test]
fn tags_of_another_kind_are_not_read() {
    let mut nbt = NbtCompound::new();
    nbt.insert("life", NbtTag::Byte(9));
    nbt.insert("shake", NbtTag::Short(9));
    nbt.insert("damage", NbtTag::Other);
    nbt.insert("pickup", NbtTag::Short(1));
    nbt.insert("crit", NbtTag::Short(1));
    nbt.insert("inGround", NbtTag::Other);
    let mut a = arrow();
    a.load_additional(&nbt);
    assert_eq!(a, arrow());
}

#[test]
fn odd_values_are_understood() {
    let mut nbt = NbtCompound::new();
    nbt.insert("shake", NbtTag::Byte(-3));
    nbt.insert("pickup", NbtTag::Byte(99));
    nbt.insert("crit", NbtTag::Byte(-1));
    nbt.insert("inGround", NbtTag::Byte(2));
    let mut a = arrow();
    a.load_additional(&nbt);
    assert_eq!(a.runtime.shake_time, -3);
    assert_eq!(a.runtime.pickup, Pickup::Disallowed);
    assert!(a.is_crit_arrow());
    assert!(a.is_in_ground());
}

#[test]
fn first_of_two_tags_is_found() {
    let mut nbt = NbtCompound::new();
    nbt.insert("life", NbtTag::Short(1));
    nbt.insert("life", NbtTag::Short(2));
    assert_eq!(nbt.get("life"), Some(NbtTag::Short(1)));
    assert_eq!(nbt.get("Life"), None);
    let mut a = arrow();
    a.runtime.life = 77;
    a.save_additional(&mut nbt);
    assert_eq!(nbt.short("life"), Some(1));
    assert_eq!(nbt.double("damage"), Some(2.0f64.to_bits()));
    assert_eq!(nbt.double("life"), None);
}

#[test]
fn save_gives_back_what_was_loaded() {
    let mut nbt = NbtCompound::new();
    nbt.insert("inGround", NbtTag::Byte(1));
    nbt.insert("crit", NbtTag::Byte(0));
    nbt.insert("pickup", NbtTag::Byte(2));
    nbt.insert("damage", NbtTag::Double(0.25f64.to_bits()));
    nbt.insert("shake", NbtTag::Byte(-9));
    nbt.insert("life", NbtTag::Short(-4));
    let mut a = arrow();
    a.load_additional(&nbt);
    let mut again = NbtCompound::new();
    a.save_additional(&mut again);
    for name in ["life", "shake", "damage", "pickup", "crit", "inGround"] {
        assert_eq!(again.get(name), nbt.get(name));
    }
}
