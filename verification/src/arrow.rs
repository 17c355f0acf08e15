//! The arrow itself: what it stores, and the changes that single events make to it.

use crate::pickup::Pickup;
use vstd::prelude::*;

verus! {

/// The bit pattern (IEEE 754 binary64) of the damage multiplier that a fresh arrow has, 2.0.
pub const ARROW_BASE_DAMAGE: u64 = 0x4000_0000_0000_0000;

/// How many ticks a landed arrow wobbles, during which nobody can take it.
pub const SHAKE_TIME: i32 = 7;

/// The age in ground ticks at which an arrow is discarded.
pub const DESPAWN_LIFE: i32 = 1200;

/// What is added to half the damage to get the exclusive bound of the critical bonus.
pub const CRIT_DAMAGE_FLOOR: i32 = 2;

/// A block state, known by its number in the block registry.
#[derive(Debug, Clone, Copy, PartialEq, Eq, Structural)]
pub struct BlockStateId(pub u32);

/// An entity type, known by its number in the entity registry.
#[derive(Debug, Clone, Copy, PartialEq, Eq, Structural)]
pub struct EntityTypeId(pub u32);

/// Who is to blame for arrow damage: the arrow, and the entity behind it.
#[derive(Debug, Clone, Copy, PartialEq, Eq, Structural)]
pub struct DamageSource {
    /// The id of the arrow.
    pub direct_entity: i32,
    /// The id of the arrow's owner, or of the arrow where it has none.
    pub causing_entity: i32,
}

/// The part of an arrow's state that clients are told of.
#[derive(Debug, Clone, Copy, PartialEq, Eq, Structural)]
pub struct ArrowEntityData {
    /// Bit 0 is set on critical arrows; the other bits are not read here.
    pub id_flags: i8,
    /// How many entities the arrow can pass through.
    pub pierce_level: i8,
    /// Whether the arrow is stuck in a block.
    pub in_ground: bool,
}

impl ArrowEntityData {
    /// The data of a fresh arrow: no flag, no piercing, in flight.
    pub fn new() -> (r: Self)
        ensures
            r == (ArrowEntityData { id_flags: 0, pierce_level: 0, in_ground: false }),
    {
        ArrowEntityData { id_flags: 0, pierce_level: 0, in_ground: false }
    }
}

/// The part of an arrow's state that only the server keeps.
#[derive(Debug, Clone, Copy, PartialEq, Eq)]
pub struct ArrowRuntime {
    /// Ground ticks since the arrow last came to rest, counted towards [`DESPAWN_LIFE`].
    pub life: i32,
    /// Consecutive ticks stuck in a block.
    pub in_ground_time: i32,
    /// Ticks of wobble that are left after landing.
    pub shake_time: i32,
    /// The bit pattern (IEEE 754 binary64) of the damage multiplier.
    pub base_damage: u64,
    /// Who may take the arrow.
    pub pickup: Pickup,
    /// The block that held the arrow when it was last moved.
    pub last_state: Option<BlockStateId>,
    /// The entity that turned the arrow back in this tick or the last one. A hit on it is passed
    /// over, which gives the arrow one tick to leave its bounding box.
    pub last_deflected_by: Option<i32>,
    /// Whether that was in this tick, so that the memory is to last through the next one.
    pub deflected_this_tick: bool,
}

impl ArrowRuntime {
    /// The runtime state of a fresh arrow.
    pub open spec fn fresh() -> Self {
        ArrowRuntime {
            life: 0,
            in_ground_time: 0,
            shake_time: 0,
            base_damage: ARROW_BASE_DAMAGE,
            pickup: Pickup::Disallowed,
            last_state: None,
            last_deflected_by: None,
            deflected_this_tick: false,
        }
    }

    /// The runtime state of a fresh arrow.
    pub fn new() -> (r: Self)
        ensures
            r == ArrowRuntime::fresh(),
    {
        ArrowRuntime {
            life: 0,
            in_ground_time: 0,
            shake_time: 0,
            base_damage: ARROW_BASE_DAMAGE,
            pickup: Pickup::Disallowed,
            last_state: None,
            last_deflected_by: None,
            deflected_this_tick: false,
        }
    }
}

/// An arrow shot from a bow or a dispenser.
#[derive(Debug, Clone, Copy, PartialEq, Eq)]
pub struct ArrowEntity {
    /// The entity id of the arrow.
    pub id: i32,
    /// The registered type of the arrow.
    pub entity_type: EntityTypeId,
    /// What clients are told of.
    pub entity_data: ArrowEntityData,
    /// What only the server keeps.
    pub runtime: ArrowRuntime,
}

/// The model: what an arrow is after one change.
impl ArrowEntity {
    /// What holds of every arrow that came out of a constructor or a saved game and was changed
    /// by the methods of this library only: the age is at least the least one that a saved game
    /// can hold, the time in ground is not negative, the wobble fits in a saved byte, and an arrow
    /// that was turned back in this tick knows by whom.
    pub open spec fn wf(self) -> bool {
        &&& i16::MIN <= self.runtime.life
        &&& 0 <= self.runtime.in_ground_time
        &&& i8::MIN <= self.runtime.shake_time <= i8::MAX
        &&& self.runtime.deflected_this_tick ==> self.runtime.last_deflected_by is Some
    }

    /// Whether the arrow's counters can take one more ground tick.
    pub open spec fn can_age(self) -> bool {
        self.runtime.life < i32::MAX && self.runtime.in_ground_time < i32::MAX
    }

    /// An arrow that nothing has happened to yet.
    pub open spec fn fresh(entity_type: EntityTypeId, id: i32) -> Self {
        ArrowEntity {
            id,
            entity_type,
            entity_data: ArrowEntityData { id_flags: 0, pierce_level: 0, in_ground: false },
            runtime: ArrowRuntime::fresh(),
        }
    }

    /// Whether the critical bit is set.
    pub open spec fn crit(self) -> bool {
        self.entity_data.id_flags & 1 != 0
    }

    /// The arrow with the critical bit set or cleared, and the other flags kept.
    pub open spec fn with_crit(self, value: bool) -> Self {
        let flags = self.entity_data.id_flags;
        ArrowEntity {
            entity_data: ArrowEntityData {
                id_flags: if value {
                    flags | 1
                } else {
                    flags & !1i8
                },
                ..self.entity_data
            },
            ..self
        }
    }

    /// The arrow stuck in a block, or free.
    pub open spec fn with_in_ground(self, value: bool) -> Self {
        ArrowEntity {
            entity_data: ArrowEntityData { in_ground: value, ..self.entity_data },
            ..self
        }
    }

    /// The arrow under another pickup rule.
    pub open spec fn with_pickup(self, pickup: Pickup) -> Self {
        ArrowEntity { runtime: ArrowRuntime { pickup, ..self.runtime }, ..self }
    }

    /// The arrow with `state` remembered as the block that holds it.
    pub open spec fn with_last_state(self, state: BlockStateId) -> Self {
        ArrowEntity { runtime: ArrowRuntime { last_state: Some(state), ..self.runtime }, ..self }
    }

    /// The arrow turned back by `by` in this tick, or by nobody that is remembered.
    pub open spec fn with_last_deflected_by(self, by: Option<i32>) -> Self {
        ArrowEntity {
            runtime: ArrowRuntime {
                last_deflected_by: by,
                deflected_this_tick: by is Some,
                ..self.runtime
            },
            ..self
        }
    }

    /// The arrow with the memory of who turned it back one tick older: what happened in the tick
    /// that is over is kept, what happened before that is gone.
    pub open spec fn forgetting(self) -> Self {
        ArrowEntity {
            runtime: ArrowRuntime {
                last_deflected_by: if self.runtime.deflected_this_tick {
                    self.runtime.last_deflected_by
                } else {
                    None
                },
                deflected_this_tick: false,
                ..self.runtime
            },
            ..self
        }
    }

    /// The arrow with one tick of wobble used up, if any is left.
    pub open spec fn shaken(self) -> Self {
        let shake = self.runtime.shake_time;
        ArrowEntity {
            runtime: ArrowRuntime {
                shake_time: if shake > 0 {
                    (shake - 1) as i32
                } else {
                    shake
                },
                ..self.runtime
            },
            ..self
        }
    }

    /// The arrow let go by its block: in flight, with its age forgotten.
    pub open spec fn fallen(self) -> Self {
        ArrowEntity {
            runtime: ArrowRuntime { life: 0, ..self.runtime },
            ..self.with_in_ground(false)
        }
    }

    /// The arrow with its count of ground ticks back at zero.
    pub open spec fn airborne(self) -> Self {
        ArrowEntity { runtime: ArrowRuntime { in_ground_time: 0, ..self.runtime }, ..self }
    }

    /// The arrow one ground tick older.
    pub open spec fn aged(self) -> Self {
        ArrowEntity {
            runtime: ArrowRuntime { life: (self.runtime.life + 1) as i32, ..self.runtime },
            ..self
        }
    }

    /// The arrow after one whole tick in the ground.
    pub open spec fn rested(self) -> Self {
        let aged = self.aged();
        ArrowEntity {
            runtime: ArrowRuntime {
                in_ground_time: (aged.runtime.in_ground_time + 1) as i32,
                ..aged.runtime
            },
            ..aged
        }
    }

    /// The arrow stuck in the block `state`: wobbling, and neither critical nor piercing.
    pub open spec fn stuck(self, state: BlockStateId) -> Self {
        let landed = self.with_in_ground(true).with_crit(false);
        ArrowEntity {
            entity_data: ArrowEntityData { pierce_level: 0, ..landed.entity_data },
            runtime: ArrowRuntime {
                shake_time: SHAKE_TIME,
                last_state: Some(state),
                ..landed.runtime
            },
            ..landed
        }
    }

    /// Whether the block under the arrow differs from the remembered one. A missing memory,
    /// as after a load, counts as a difference.
    pub open spec fn block_changed(self, state: BlockStateId) -> bool {
        self.runtime.last_state != Some(state)
    }

    /// Who is to blame for the damage that the arrow does.
    pub open spec fn blame(self, owner: Option<i32>) -> DamageSource {
        DamageSource {
            direct_entity: self.id,
            causing_entity: match owner {
                Some(id) => id,
                None => self.id,
            },
        }
    }

    /// What a spawn packet says of the arrow.
    pub open spec fn spawned_by(self, owner: Option<i32>) -> i32 {
        match owner {
            Some(id) => id,
            None => 0,
        }
    }

    /// The damage of a hit that is worth `base` without luck, when the dice show `roll`.
    pub open spec fn damage_on(self, base: i32, roll: u32) -> int {
        if self.crit() {
            base + roll as int % (base as int / 2 + CRIT_DAMAGE_FLOOR)
        } else {
            base as int
        }
    }

    /// The most that [`ArrowEntity::damage_on`] can be for any roll.
    pub open spec fn damage_bound(self, base: i32) -> int {
        if self.crit() {
            base + base as int / 2 + CRIT_DAMAGE_FLOOR - 1
        } else {
            base as int
        }
    }
}

impl ArrowEntity {
    /// An arrow with no owner that nothing has happened to yet.
    #[must_use]
    pub fn new(entity_type: EntityTypeId, id: i32) -> (r: Self)
        ensures
            r == ArrowEntity::fresh(entity_type, id),
            !r.crit(),
            r.wf(),
    {
        assert(0i8 & 1 == 0) by (bit_vector);
        ArrowEntity {
            id,
            entity_type,
            entity_data: ArrowEntityData::new(),
            runtime: ArrowRuntime::new(),
        }
    }

    /// An arrow that a saved game brings back under the id `id`. What the game saved of the
    /// arrow itself is read by [`ArrowEntity::load_additional`].
    #[must_use]
    pub fn from_saved(entity_type: EntityTypeId, id: i32) -> (r: Self)
        ensures
            r == ArrowEntity::fresh(entity_type, id),
            !r.crit(),
            r.wf(),
    {
        assert(0i8 & 1 == 0) by (bit_vector);
        ArrowEntity {
            id,
            entity_type,
            entity_data: ArrowEntityData::new(),
            runtime: ArrowRuntime::new(),
        }
    }

    /// Whether the arrow is stuck in a block.
    pub fn is_in_ground(&self) -> (r: bool)
        ensures
            r == self.entity_data.in_ground,
    {
        self.entity_data.in_ground
    }

    /// Sticks the arrow in a block, or frees it.
    pub fn set_in_ground(&mut self, value: bool)
        ensures
            *final(self) == old(self).with_in_ground(value),
            old(self).wf() ==> final(self).wf(),
    {
        self.entity_data.in_ground = value;
    }

    /// Whether the arrow is critical.
    pub fn is_crit_arrow(&self) -> (r: bool)
        ensures
            r == self.crit(),
    {
        self.entity_data.id_flags & 1 != 0
    }

    /// Makes the arrow critical or ordinary. Only bit 0 of the flags changes.
    pub fn set_crit_arrow(&mut self, value: bool)
        ensures
            *final(self) == old(self).with_crit(value),
            final(self).crit() == value,
            old(self).wf() ==> final(self).wf(),
    {
        let flags: i8 = self.entity_data.id_flags;
        proof {
            assert((flags | 1) & 1 != 0) by (bit_vector);
            assert((flags & !1i8) & 1 == 0) by (bit_vector);
        }
        self.entity_data.id_flags = if value {
            flags | 1
        } else {
            flags & !1i8
        };
    }

    /// Sets who may take the arrow once it has landed.
    pub fn set_pickup(&mut self, pickup: Pickup)
        ensures
            *final(self) == old(self).with_pickup(pickup),
            old(self).wf() ==> final(self).wf(),
    {
        self.runtime.pickup = pickup;
    }

    /// The entity type of the arrow.
    pub fn entity_type(&self) -> (r: EntityTypeId)
        ensures
            r == self.entity_type,
    {
        self.entity_type
    }

    /// What a spawn packet says of the arrow: the id of its owner, or zero.
    pub fn spawn_data(&self, owner: Option<i32>) -> (r: i32)
        ensures
            r == self.spawned_by(owner),
            r == (match owner {
                Some(id) => id,
                None => 0,
            }),
    {
        match owner {
            Some(id) => id,
            None => 0,
        }
    }

    /// Whether players can strike the arrow in melee: never.
    pub fn attackable(&self) -> (r: bool)
        ensures
            !r,
    {
        false
    }

    /// Whether a blow does damage to the arrow: never.
    pub fn hurt(&self) -> (r: bool)
        ensures
            !r,
    {
        false
    }

    /// Who is to blame for the damage that the arrow does.
    pub fn damage_source(&self, owner: Option<i32>) -> (r: DamageSource)
        ensures
            r == self.blame(owner),
    {
        let causing_entity: i32 = match owner {
            Some(id) => id,
            None => self.id,
        };
        DamageSource { direct_entity: self.id, causing_entity }
    }

    /// Lets the arrow go: it flies again and its age starts over.
    pub fn start_falling(&mut self)
        ensures
            *final(self) == old(self).fallen(),
            old(self).wf() ==> final(self).wf(),
    {
        self.set_in_ground(false);
        self.runtime.life = 0;
    }

    /// Makes the memory of who turned the arrow back one tick older.
    pub fn age_deflection(&mut self)
        ensures
            *final(self) == old(self).forgetting(),
            old(self).wf() ==> final(self).wf(),
    {
        if self.runtime.deflected_this_tick {
            self.runtime.deflected_this_tick = false;
        } else {
            self.runtime.last_deflected_by = None;
        }
    }

    /// Remembers who turned the arrow back in this tick, or that nobody did.
    pub fn set_last_deflected_by(&mut self, by: Option<i32>)
        ensures
            *final(self) == old(self).with_last_deflected_by(by),
            old(self).wf() ==> final(self).wf(),
    {
        self.runtime.last_deflected_by = by;
        self.runtime.deflected_this_tick = by.is_some();
    }

    /// Ages the arrow by one ground tick, and tells whether it has become too old to stay.
    pub fn tick_despawn(&mut self) -> (expired: bool)
        requires
            old(self).runtime.life < i32::MAX,
        ensures
            *final(self) == old(self).aged(),
            expired == (old(self).runtime.life + 1 >= DESPAWN_LIFE),
            old(self).wf() ==> final(self).wf(),
    {
        self.runtime.life += 1;
        self.runtime.life >= DESPAWN_LIFE
    }

    /// Sticks the arrow in the block `state`, which it rests in after backing off from the
    /// surface that it hit.
    pub fn stick_in_ground(&mut self, state: BlockStateId)
        ensures
            *final(self) == old(self).stuck(state),
            final(self).entity_data.in_ground,
            !final(self).crit(),
            old(self).wf() ==> final(self).wf(),
    {
        self.set_in_ground(true);
        self.runtime.shake_time = SHAKE_TIME;
        self.runtime.last_state = Some(state);
        self.set_crit_arrow(false);
        self.entity_data.pierce_level = 0;
    }

    /// Whether the block under the arrow differs from the remembered one.
    pub fn is_block_changed(&self, state: BlockStateId) -> (r: bool)
        ensures
            r == self.block_changed(state),
    {
        match self.runtime.last_state {
            Some(last) => last != state,
            None => true,
        }
    }

    /// Whether the damage of such a hit fits in its type for this roll.
    pub fn damage_fits_roll(&self, base: i32, roll: u32) -> (r: bool)
        requires
            0 <= base,
        ensures
            r == (self.damage_on(base, roll) <= i32::MAX),
    {
        if self.is_crit_arrow() {
            let bonus: u32 = roll % (base / 2 + CRIT_DAMAGE_FLOOR) as u32;
            base <= i32::MAX - bonus as i32
        } else {
            true
        }
    }

    /// The damage of a hit that is worth `base` without luck, when the dice show `roll`: a
    /// critical arrow adds the roll, reduced below half the damage plus two.
    pub fn damage_with_roll(&self, base: i32, roll: u32) -> (r: i32)
        requires
            0 <= base,
            self.damage_on(base, roll) <= i32::MAX,
        ensures
            r == self.damage_on(base, roll),
            base <= r <= self.damage_bound(base),
    {
        if self.is_crit_arrow() {
            let bonus: u32 = roll % (base / 2 + CRIT_DAMAGE_FLOOR) as u32;
            base + bonus as i32
        } else {
            base
        }
    }
}

impl ArrowEntity {
    /// Making an arrow critical or ordinary shows in the critical bit and in no other flag, and
    /// only the last change counts.
    pub proof fn law_crit_flag(self, value: bool, other: bool)
        ensures
            self.with_crit(value).crit() == value,
            self.with_crit(value).entity_data.id_flags | 1 == self.entity_data.id_flags | 1,
            self.with_crit(other).with_crit(value) == self.with_crit(value),
            self.with_crit(self.crit()) == self,
    {
        let flags = self.entity_data.id_flags;
        assert((flags | 1) & 1 != 0) by (bit_vector);
        assert((flags & !1i8) & 1 == 0) by (bit_vector);
        assert((flags | 1) | 1 == flags | 1) by (bit_vector);
        assert((flags & !1i8) | 1 == flags | 1) by (bit_vector);
        assert((flags | 1) & !1i8 == flags & !1i8) by (bit_vector);
        assert((flags & !1i8) & !1i8 == flags & !1i8) by (bit_vector);
        assert(flags & 1 != 0 ==> flags | 1 == flags) by (bit_vector);
        assert(flags & 1 == 0 ==> flags & !1i8 == flags) by (bit_vector);
    }
}

} // verus!
