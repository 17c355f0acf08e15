//! What saved games hold of an arrow.

use crate::arrow::{ArrowEntity, ArrowRuntime, ARROW_BASE_DAMAGE};
use crate::nbt::{NbtCompound, NbtTag};
use crate::pickup::Pickup;
use vstd::prelude::*;

verus! {

/// `value` if it fits in two bytes, else the largest number that does.
pub open spec fn short_of(value: i32) -> i16 {
    if i16::MIN <= value <= i16::MAX {
        value as i16
    } else {
        i16::MAX
    }
}

/// `value` if it fits in a byte, else the largest number that does.
pub open spec fn byte_of(value: i32) -> i8 {
    if i8::MIN <= value <= i8::MAX {
        value as i8
    } else {
        i8::MAX
    }
}

/// How a truth value is saved.
pub open spec fn flag_of(value: bool) -> i8 {
    if value {
        1
    } else {
        0
    }
}

/// A saved truth value: anything but zero is true, and a missing one is false.
pub open spec fn is_set(saved: Option<i8>) -> bool {
    saved is Some && saved->0 != 0
}

impl ArrowEntity {
    /// The tags that an arrow is saved as, behind the tags that are there.
    pub open spec fn saved(self, tags: Seq<(Seq<char>, NbtTag)>) -> Seq<(Seq<char>, NbtTag)> {
        tags
            .push(("life"@, NbtTag::Short(short_of(self.runtime.life))))
            .push(("shake"@, NbtTag::Byte(byte_of(self.runtime.shake_time))))
            .push(("damage"@, NbtTag::Double(self.runtime.base_damage)))
            .push(("pickup"@, NbtTag::Byte(self.runtime.pickup.spec_ordinal())))
            .push(("crit"@, NbtTag::Byte(flag_of(self.crit()))))
            .push(("inGround"@, NbtTag::Byte(flag_of(self.entity_data.in_ground))))
    }

    /// The arrow with what `tags` hold of it. What is missing, or of another kind, reads as for
    /// a fresh arrow; what is never saved is kept.
    pub open spec fn loaded(self, tags: Seq<(Seq<char>, NbtTag)>) -> Self {
        let runtime = ArrowRuntime {
            life: match crate::nbt::first_short(tags, "life"@) {
                Some(life) => life as i32,
                None => 0,
            },
            shake_time: match crate::nbt::first_byte(tags, "shake"@) {
                Some(shake) => shake as i32,
                None => 0,
            },
            base_damage: match crate::nbt::first_double(tags, "damage"@) {
                Some(bits) => bits,
                None => ARROW_BASE_DAMAGE,
            },
            pickup: match crate::nbt::first_byte(tags, "pickup"@) {
                Some(ordinal) => Pickup::of_ordinal(ordinal),
                None => Pickup::Disallowed,
            },
            ..self.runtime
        };
        ArrowEntity { runtime, ..self }.with_crit(
            is_set(crate::nbt::first_byte(tags, "crit"@)),
        ).with_in_ground(is_set(crate::nbt::first_byte(tags, "inGround"@)))
    }
}

/// `value` if it fits in two bytes, else the largest number that does.
fn to_short(value: i32) -> (r: i16)
    ensures
        r == short_of(value),
{
    if value >= -32768 && value <= 32767 {
        value as i16
    } else {
        i16::MAX
    }
}

/// `value` if it fits in a byte, else the largest number that does.
fn to_byte(value: i32) -> (r: i8)
    ensures
        r == byte_of(value),
{
    if value >= -128 && value <= 127 {
        value as i8
    } else {
        i8::MAX
    }
}

/// How a truth value is saved.
fn to_flag(value: bool) -> (r: i8)
    ensures
        r == flag_of(value),
{
    if value {
        1
    } else {
        0
    }
}

/// Whether a saved truth value is there and true.
fn read_flag(saved: Option<i8>) -> (r: bool)
    ensures
        r == is_set(saved),
{
    match saved {
        Some(value) => value != 0,
        None => false,
    }
}

impl ArrowEntity {
    /// Puts what is saved of the arrow behind the tags that are there.
    pub fn save_additional(&self, nbt: &mut NbtCompound)
        ensures
            final(nbt)@ == self.saved(old(nbt)@),
    {
        nbt.insert("life", NbtTag::Short(to_short(self.runtime.life)));
        nbt.insert("shake", NbtTag::Byte(to_byte(self.runtime.shake_time)));
        nbt.insert("damage", NbtTag::Double(self.runtime.base_damage));
        nbt.insert("pickup", NbtTag::Byte(self.runtime.pickup.ordinal()));
        nbt.insert("crit", NbtTag::Byte(to_flag(self.is_crit_arrow())));
        nbt.insert("inGround", NbtTag::Byte(to_flag(self.is_in_ground())));
    }

    /// Takes over what was saved of the arrow.
    pub fn load_additional(&mut self, nbt: &NbtCompound)
        ensures
            *final(self) == old(self).loaded(nbt@),
            old(self).wf() ==> final(self).wf(),
    {
        self.runtime.life = match nbt.short("life") {
            Some(life) => life as i32,
            None => 0,
        };
        self.runtime.shake_time = match nbt.byte("shake") {
            Some(shake) => shake as i32,
            None => 0,
        };
        self.runtime.base_damage = match nbt.double("damage") {
            Some(bits) => bits,
            None => ARROW_BASE_DAMAGE,
        };
        let ordinal: i8 = match nbt.byte("pickup") {
            Some(ordinal) => ordinal,
            None => 0,
        };
        self.runtime.pickup = Pickup::from(ordinal);
        self.set_crit_arrow(read_flag(nbt.byte("crit")));
        self.set_in_ground(read_flag(nbt.byte("inGround")));
    }
}

/// Whether none of the names that arrows are saved under occurs.
pub open spec fn unused(tags: Seq<(Seq<char>, NbtTag)>) -> bool {
    &&& crate::nbt::first_tag(tags, "life"@) is None
    &&& crate::nbt::first_tag(tags, "shake"@) is None
    &&& crate::nbt::first_tag(tags, "damage"@) is None
    &&& crate::nbt::first_tag(tags, "pickup"@) is None
    &&& crate::nbt::first_tag(tags, "crit"@) is None
    &&& crate::nbt::first_tag(tags, "inGround"@) is None
}

/// What is found in a saved arrow under each of the names.
proof fn lemma_saved_tags(arrow: ArrowEntity, tags: Seq<(Seq<char>, NbtTag)>, sought: Seq<char>)
    ensures
        ({
            let found = crate::nbt::first_tag(arrow.saved(tags), sought);
            if crate::nbt::first_tag(tags, sought) is Some {
                found == crate::nbt::first_tag(tags, sought)
            } else if sought == "life"@ {
                found == Some(NbtTag::Short(short_of(arrow.runtime.life)))
            } else if sought == "shake"@ {
                found == Some(NbtTag::Byte(byte_of(arrow.runtime.shake_time)))
            } else if sought == "damage"@ {
                found == Some(NbtTag::Double(arrow.runtime.base_damage))
            } else if sought == "pickup"@ {
                found == Some(NbtTag::Byte(arrow.runtime.pickup.spec_ordinal()))
            } else if sought == "crit"@ {
                found == Some(NbtTag::Byte(flag_of(arrow.crit())))
            } else if sought == "inGround"@ {
                found == Some(NbtTag::Byte(flag_of(arrow.entity_data.in_ground)))
            } else {
                found is None
            }
        }),
{
    let life = tags.push(("life"@, NbtTag::Short(short_of(arrow.runtime.life))));
    let shake = life.push(("shake"@, NbtTag::Byte(byte_of(arrow.runtime.shake_time))));
    let damage = shake.push(("damage"@, NbtTag::Double(arrow.runtime.base_damage)));
    let pickup = damage.push(("pickup"@, NbtTag::Byte(arrow.runtime.pickup.spec_ordinal())));
    let crit = pickup.push(("crit"@, NbtTag::Byte(flag_of(arrow.crit()))));
    crate::nbt::law_insert_then_find(
        tags,
        "life"@,
        NbtTag::Short(short_of(arrow.runtime.life)),
        sought,
    );
    crate::nbt::law_insert_then_find(
        life,
        "shake"@,
        NbtTag::Byte(byte_of(arrow.runtime.shake_time)),
        sought,
    );
    crate::nbt::law_insert_then_find(
        shake,
        "damage"@,
        NbtTag::Double(arrow.runtime.base_damage),
        sought,
    );
    crate::nbt::law_insert_then_find(
        damage,
        "pickup"@,
        NbtTag::Byte(arrow.runtime.pickup.spec_ordinal()),
        sought,
    );
    crate::nbt::law_insert_then_find(
        pickup,
        "crit"@,
        NbtTag::Byte(flag_of(arrow.crit())),
        sought,
    );
    crate::nbt::law_insert_then_find(
        crit,
        "inGround"@,
        NbtTag::Byte(flag_of(arrow.entity_data.in_ground)),
        sought,
    );
}

/// The names that arrows are saved under differ from one another.
proof fn lemma_names_differ()
    ensures
        "life"@ != "shake"@,
        "life"@ != "damage"@,
        "life"@ != "pickup"@,
        "life"@ != "crit"@,
        "life"@ != "inGround"@,
        "shake"@ != "damage"@,
        "shake"@ != "pickup"@,
        "shake"@ != "crit"@,
        "shake"@ != "inGround"@,
        "damage"@ != "pickup"@,
        "damage"@ != "crit"@,
        "damage"@ != "inGround"@,
        "pickup"@ != "crit"@,
        "pickup"@ != "inGround"@,
        "crit"@ != "inGround"@,
{
    reveal_strlit("life");
    reveal_strlit("shake");
    reveal_strlit("damage");
    reveal_strlit("pickup");
    reveal_strlit("crit");
    reveal_strlit("inGround");
    assert("life"@[0] == 'l');
    assert("shake"@[0] == 's');
    assert("damage"@[0] == 'd');
    assert("pickup"@[0] == 'p');
    assert("crit"@[0] == 'c');
    assert("inGround"@[0] == 'i');
}

/// A load gives back what a save wrote: the wobble, the damage multiplier, the pickup rule, the
/// critical bit and whether the arrow is stuck; and the age, or the largest age that can be saved
/// if it is beyond that. What is not saved stays what it was before the load.
pub proof fn law_load_gives_back_save(
    arrow: ArrowEntity,
    tags: Seq<(Seq<char>, NbtTag)>,
    before: ArrowEntity,
)
    requires
        i16::MIN <= arrow.runtime.life,
        i8::MIN <= arrow.runtime.shake_time <= i8::MAX,
        unused(tags),
    ensures
        ({
            let after = before.loaded(arrow.saved(tags));
            &&& after.runtime.life == (if arrow.runtime.life <= i16::MAX {
                arrow.runtime.life
            } else {
                i16::MAX as i32
            })
            &&& after.runtime.shake_time == arrow.runtime.shake_time
            &&& after.runtime.base_damage == arrow.runtime.base_damage
            &&& after.runtime.pickup == arrow.runtime.pickup
            &&& after.crit() == arrow.crit()
            &&& after.entity_data.in_ground == arrow.entity_data.in_ground
            &&& after.runtime.in_ground_time == before.runtime.in_ground_time
            &&& after.runtime.last_state == before.runtime.last_state
            &&& after.runtime.last_deflected_by == before.runtime.last_deflected_by
            &&& after.runtime.deflected_this_tick == before.runtime.deflected_this_tick
            &&& after.entity_data.pierce_level == before.entity_data.pierce_level
            &&& after.entity_data.id_flags | 1 == before.entity_data.id_flags | 1
            &&& after.id == before.id
            &&& after.entity_type == before.entity_type
        }),
{
    lemma_names_differ();
    lemma_saved_tags(arrow, tags, "life"@);
    lemma_saved_tags(arrow, tags, "shake"@);
    lemma_saved_tags(arrow, tags, "damage"@);
    lemma_saved_tags(arrow, tags, "pickup"@);
    lemma_saved_tags(arrow, tags, "crit"@);
    lemma_saved_tags(arrow, tags, "inGround"@);
    arrow.runtime.pickup.law_ordinal_reads_back();
    before.law_crit_flag(arrow.crit(), arrow.crit());
}

/// A save writes back what a load took over, where that is what a save could have written: every
/// tag is there and of its kind, the pickup rule is a known one and truth values are zero or one.
pub proof fn law_save_gives_back_load(arrow: ArrowEntity, tags: Seq<(Seq<char>, NbtTag)>)
    requires
        crate::nbt::first_short(tags, "life"@) is Some,
        crate::nbt::first_byte(tags, "shake"@) is Some,
        crate::nbt::first_double(tags, "damage"@) is Some,
        crate::nbt::first_byte(tags, "pickup"@) is Some,
        0 <= crate::nbt::first_byte(tags, "pickup"@)->0 <= 2,
        crate::nbt::first_byte(tags, "crit"@) is Some,
        0 <= crate::nbt::first_byte(tags, "crit"@)->0 <= 1,
        crate::nbt::first_byte(tags, "inGround"@) is Some,
        0 <= crate::nbt::first_byte(tags, "inGround"@)->0 <= 1,
    ensures
        ({
            let again = arrow.loaded(tags).saved(seq![]);
            &&& crate::nbt::first_tag(again, "life"@) == crate::nbt::first_tag(tags, "life"@)
            &&& crate::nbt::first_tag(again, "shake"@) == crate::nbt::first_tag(tags, "shake"@)
            &&& crate::nbt::first_tag(again, "damage"@) == crate::nbt::first_tag(tags, "damage"@)
            &&& crate::nbt::first_tag(again, "pickup"@) == crate::nbt::first_tag(tags, "pickup"@)
            &&& crate::nbt::first_tag(again, "crit"@) == crate::nbt::first_tag(tags, "crit"@)
            &&& crate::nbt::first_tag(again, "inGround"@) == crate::nbt::first_tag(
                tags,
                "inGround"@,
            )
        }),
{
    let loaded = arrow.loaded(tags);
    lemma_names_differ();
    lemma_saved_tags(loaded, seq![], "life"@);
    lemma_saved_tags(loaded, seq![], "shake"@);
    lemma_saved_tags(loaded, seq![], "damage"@);
    lemma_saved_tags(loaded, seq![], "pickup"@);
    lemma_saved_tags(loaded, seq![], "crit"@);
    lemma_saved_tags(loaded, seq![], "inGround"@);
    let crit = is_set(crate::nbt::first_byte(tags, "crit"@));
    arrow.law_crit_flag(crit, crit);
}

/// Saving keeps an arrow's place in the race to the age limit: it is beyond the limit after a
/// load exactly if it was before the save.
pub proof fn law_save_keeps_expiry(
    arrow: ArrowEntity,
    tags: Seq<(Seq<char>, NbtTag)>,
    before: ArrowEntity,
)
    requires
        i16::MIN <= arrow.runtime.life,
        unused(tags),
    ensures
        before.loaded(arrow.saved(tags)).runtime.life >= crate::arrow::DESPAWN_LIFE
            <==> arrow.runtime.life >= crate::arrow::DESPAWN_LIFE,
{
    lemma_saved_tags(arrow, tags, "life"@);
}

/// Nothing saved, nothing changed: a load of tags that hold nothing of an arrow leaves a fresh
/// arrow as it is.
pub proof fn law_empty_load_is_fresh(
    entity_type: crate::arrow::EntityTypeId,
    id: i32,
    tags: Seq<(Seq<char>, NbtTag)>,
)
    requires
        unused(tags),
    ensures
        ArrowEntity::fresh(entity_type, id).loaded(tags) == ArrowEntity::fresh(entity_type, id),
{
    assert(0i8 & !1i8 == 0) by (bit_vector);
}

/// A save leaves what was there before in its place.
pub proof fn law_save_keeps_other_tags(
    arrow: ArrowEntity,
    tags: Seq<(Seq<char>, NbtTag)>,
    name: Seq<char>,
)
    requires
        crate::nbt::first_tag(tags, name) is Some,
    ensures
        crate::nbt::first_tag(arrow.saved(tags), name) == crate::nbt::first_tag(tags, name),
        tags.is_prefix_of(arrow.saved(tags)),
{
    lemma_saved_tags(arrow, tags, name);
}

/// A load makes the saved numbers the arrow's own, as they are: the age from a short, the wobble
/// from a byte, the damage multiplier from a double, the pickup rule from the bytes 1 and 2, and the
/// two truth values from bytes other than zero. A tag that is missing or of another kind reads as
/// zero, but for the damage multiplier, which reads as 2.0. Nothing else changes.
pub proof fn law_load_takes_the_numbers(arrow: ArrowEntity, tags: Seq<(Seq<char>, NbtTag)>)
    ensures
        ({
            let after = arrow.loaded(tags);
            let flags = after.entity_data.id_flags;
            &&& match crate::nbt::first_tag(tags, "life"@) {
                Some(NbtTag::Short(value)) => after.runtime.life == value,
                _ => after.runtime.life == 0,
            }
            &&& match crate::nbt::first_tag(tags, "shake"@) {
                Some(NbtTag::Byte(value)) => after.runtime.shake_time == value,
                _ => after.runtime.shake_time == 0,
            }
            &&& match crate::nbt::first_tag(tags, "damage"@) {
                Some(NbtTag::Double(bits)) => after.runtime.base_damage == bits,
                _ => after.runtime.base_damage == 0x4000_0000_0000_0000,
            }
            &&& after.runtime.pickup is Allowed <==> crate::nbt::first_tag(tags, "pickup"@) == Some(
                NbtTag::Byte(1),
            )
            &&& after.runtime.pickup is CreativeOnly <==> crate::nbt::first_tag(tags, "pickup"@)
                == Some(NbtTag::Byte(2))
            &&& match crate::nbt::first_tag(tags, "crit"@) {
                Some(NbtTag::Byte(value)) => flags as int % 2 == 1 <==> value != 0,
                _ => flags as int % 2 == 0,
            }
            &&& flags as int / 2 == arrow.entity_data.id_flags as int / 2
            &&& match crate::nbt::first_tag(tags, "inGround"@) {
                Some(NbtTag::Byte(value)) => after.entity_data.in_ground <==> value != 0,
                _ => !after.entity_data.in_ground,
            }
            &&& after.entity_data.pierce_level == arrow.entity_data.pierce_level
            &&& after.runtime.in_ground_time == arrow.runtime.in_ground_time
            &&& after.runtime.last_state == arrow.runtime.last_state
            &&& after.runtime.last_deflected_by == arrow.runtime.last_deflected_by
            &&& after.runtime.deflected_this_tick == arrow.runtime.deflected_this_tick
            &&& after.id == arrow.id
            &&& after.entity_type == arrow.entity_type
        }),
{
    crate::arrow_laws::law_set_crit_changes_parity_only(arrow, true);
    crate::arrow_laws::law_set_crit_changes_parity_only(arrow, false);
}

/// A save puts six tags behind those that are there, and the numbers in them are the arrow's own:
/// the age as a short and the wobble as a byte, or the largest short and byte for numbers that are
/// neither; the damage multiplier as a double; and as bytes the pickup rule from 0 to 2, and one
/// or zero for whether the arrow is critical and whether it is stuck.
pub proof fn law_save_writes_the_numbers(arrow: ArrowEntity, tags: Seq<(Seq<char>, NbtTag)>)
    ensures
        ({
            let all = arrow.saved(tags);
            let n = tags.len() as int;
            let life = arrow.runtime.life;
            let shake = arrow.runtime.shake_time;
            &&& all.len() == n + 6
            &&& all.take(n) == tags
            &&& all[n].0 == "life"@ && all[n].1 is Short
            &&& -32768 <= life <= 32767 ==> all[n].1->Short_0 == life
            &&& !(-32768 <= life <= 32767) ==> all[n].1->Short_0 == 32767
            &&& all[n + 1].0 == "shake"@ && all[n + 1].1 is Byte
            &&& -128 <= shake <= 127 ==> all[n + 1].1->Byte_0 == shake
            &&& !(-128 <= shake <= 127) ==> all[n + 1].1->Byte_0 == 127
            &&& all[n + 2] == ("damage"@, NbtTag::Double(arrow.runtime.base_damage))
            &&& all[n + 3].0 == "pickup"@ && all[n + 3].1 is Byte
            &&& all[n + 3].1 == NbtTag::Byte(0) <==> arrow.runtime.pickup is Disallowed
            &&& all[n + 3].1 == NbtTag::Byte(1) <==> arrow.runtime.pickup is Allowed
            &&& all[n + 3].1 == NbtTag::Byte(2) <==> arrow.runtime.pickup is CreativeOnly
            &&& all[n + 4].0 == "crit"@ && all[n + 4].1 is Byte
            &&& all[n + 4].1->Byte_0 == arrow.entity_data.id_flags as int % 2
            &&& all[n + 5].0 == "inGround"@
            &&& arrow.entity_data.in_ground ==> all[n + 5].1 == NbtTag::Byte(1)
            &&& !arrow.entity_data.in_ground ==> all[n + 5].1 == NbtTag::Byte(0)
        }),
{
    crate::arrow_laws::law_crit_is_odd_flags(arrow);
    assert(arrow.saved(tags).take(tags.len() as int) =~= tags);
}

/// The age of an arrow is found in what a save leaves, as it is, if it is a short at all and no
/// age was there before.
pub proof fn law_saved_age_is_found(arrow: ArrowEntity, tags: Seq<(Seq<char>, NbtTag)>)
    requires
        -32768 <= arrow.runtime.life <= 32767,
        forall|i: int| 0 <= i < tags.len() ==> (#[trigger] tags[i]).0 != "life"@,
    ensures
        crate::nbt::first_tag(arrow.saved(tags), "life"@) matches Some(NbtTag::Short(value))
            && value == arrow.runtime.life,
{
    let all = arrow.saved(tags);
    let n = tags.len() as int;
    law_save_writes_the_numbers(arrow, tags);
    assert forall|i: int| 0 <= i < n implies (#[trigger] all[i]).0 != "life"@ by {
        assert(all[i] == all.take(n)[i]);
    }
    crate::nbt::law_first_place_is_found(all, "life"@, n);
}

} // verus!
