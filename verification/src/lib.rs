//! Arrows shot from bows and dispensers: how they fly, stick, strike, wobble, age, are taken and
//! are saved.
//!
//! An arrow ([`ArrowEntity`]) holds plain values. What happens to it in the world (a tick, a hit,
//! the touch of a player) is a conversation: the arrow is told what the world answered, changes
//! accordingly, and says what it wants of the world next. Positions and velocities are the
//! world's affair; the arrow decides when they change.

pub mod arrow;
pub mod arrow_laws;
pub mod call_laws;
pub mod landing;
pub mod nbt;
pub mod pickup;
pub mod save;
pub mod strike;
pub mod strike_laws;
pub mod tick;
pub mod tick_laws;
pub mod touch;
pub mod turn_laws;

pub use arrow::{ArrowEntity, BlockStateId, EntityTypeId};
pub use pickup::Pickup;
