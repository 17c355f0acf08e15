//! A player who touches an arrow, as a conversation with the world.
//!
//! A touch begins in [`TouchPhase::Start`] and goes on as a tick does: each call of
//! [`ArrowEntity::player_touch`] takes the phase and what the world answered, and names the next
//! phase and what the world is to do or to tell, until [`TouchAction::Finish`]. The arrow itself
//! does not change.

use crate::arrow::ArrowEntity;
use crate::pickup::Pickup;
use vstd::prelude::*;

verus! {

/// The news that a player takes an item entity.
#[derive(Debug, Clone, Copy, PartialEq, Eq, Structural)]
pub struct TakeItemEntity {
    /// The id of what is taken.
    pub item: i32,
    /// The id of the player.
    pub collector: i32,
    /// How many items are taken.
    pub amount: i32,
}

/// Where in a touch an arrow stands.
#[derive(Debug, Clone, Copy, PartialEq, Eq, Structural)]
pub enum TouchPhase {
    /// Nothing has happened yet.
    Start,
    /// An arrow is being put into the inventory of the player.
    Offering {
        /// The id of the player.
        player: i32,
    },
    /// Whether the player has infinite materials is being asked.
    Asking {
        /// The id of the player.
        player: i32,
    },
    /// The arrow is taken, and whether it is in a world is being asked.
    Taken {
        /// The id of the player.
        player: i32,
    },
    /// Those nearby are being told.
    Announcing,
    /// The arrow is being discarded.
    Discarding,
    /// The touch is over.
    Finished,
}

/// What the world answers.
#[derive(Debug, Clone, Copy, PartialEq, Eq, Structural)]
pub enum TouchEvent {
    /// A player has touched the arrow.
    Touched {
        /// The id of the player.
        player: i32,
        /// Whether the arrow has been removed from its world.
        removed: bool,
    },
    /// What became of the arrow that was put into the inventory.
    Offered {
        /// Whether the inventory took any of it.
        added: bool,
        /// Whether nothing of it is left over.
        emptied: bool,
    },
    /// Whether the player has infinite materials.
    InfiniteMaterials(bool),
    /// Whether the arrow is in a world.
    Level(bool),
    /// What was asked for has been done.
    Done,
}

/// What the world is to do or to tell next.
#[derive(Debug, Clone, Copy, PartialEq, Eq, Structural)]
pub enum TouchAction {
    /// Put one arrow into the inventory of the player, and tell what became of it.
    OfferArrow,
    /// Tell whether the player has infinite materials.
    AskInfiniteMaterials,
    /// Tell whether the arrow is in a world.
    AskLevel,
    /// Send the news to those near the arrow.
    Announce(TakeItemEntity),
    /// Remove the arrow from the world.
    Discard,
    /// Nothing: the touch is over.
    Finish,
}

/// What one call of [`ArrowEntity::player_touch`] decides.
#[derive(Debug, Clone, Copy, PartialEq, Eq, Structural)]
pub struct TouchTurn {
    /// The phase that the answer is to be handed in with.
    pub phase: TouchPhase,
    /// What the world is to do or to tell.
    pub action: TouchAction,
}

impl TouchPhase {
    /// Whether `event` is an answer to what was asked for in this phase.
    pub open spec fn accepts(self, event: TouchEvent) -> bool {
        match self {
            TouchPhase::Start => event is Touched,
            TouchPhase::Offering { .. } => event is Offered,
            TouchPhase::Asking { .. } => event is InfiniteMaterials,
            TouchPhase::Taken { .. } => event is Level,
            TouchPhase::Finished => false,
            _ => event is Done,
        }
    }

    /// The place of a phase in the order that every touch keeps.
    pub open spec fn rank(self) -> nat {
        match self {
            TouchPhase::Start => 0,
            TouchPhase::Offering { .. } => 1,
            TouchPhase::Asking { .. } => 2,
            TouchPhase::Taken { .. } => 3,
            TouchPhase::Announcing => 4,
            TouchPhase::Discarding => 5,
            TouchPhase::Finished => 6,
        }
    }
}

impl TouchTurn {
    /// The end of the touch.
    pub open spec fn over() -> Self {
        TouchTurn { phase: TouchPhase::Finished, action: TouchAction::Finish }
    }

    /// The arrow is taken by `player`, if `picked`.
    pub open spec fn taken_if(picked: bool, player: i32) -> Self {
        if picked {
            TouchTurn { phase: TouchPhase::Taken { player }, action: TouchAction::AskLevel }
        } else {
            TouchTurn::over()
        }
    }

    fn finish() -> (r: Self)
        ensures
            r == TouchTurn::over(),
    {
        TouchTurn { phase: TouchPhase::Finished, action: TouchAction::Finish }
    }

    fn take_if(picked: bool, player: i32) -> (r: Self)
        ensures
            r == TouchTurn::taken_if(picked, player),
    {
        if picked {
            TouchTurn { phase: TouchPhase::Taken { player }, action: TouchAction::AskLevel }
        } else {
            TouchTurn::finish()
        }
    }
}

impl ArrowEntity {
    /// Whether the arrow lies in the ground and has stopped wobbling.
    pub open spec fn is_settled(self) -> bool {
        self.entity_data.in_ground && self.runtime.shake_time <= 0
    }

    /// What follows the answer `event` in `phase`.
    pub open spec fn touch_turn(self, phase: TouchPhase, event: TouchEvent) -> TouchTurn {
        match (phase, event) {
            (TouchPhase::Start, TouchEvent::Touched { player, removed }) => {
                if removed || !self.is_settled() {
                    TouchTurn::over()
                } else {
                    match self.runtime.pickup {
                        Pickup::Disallowed => TouchTurn::over(),
                        Pickup::Allowed => TouchTurn {
                            phase: TouchPhase::Offering { player },
                            action: TouchAction::OfferArrow,
                        },
                        Pickup::CreativeOnly => TouchTurn {
                            phase: TouchPhase::Asking { player },
                            action: TouchAction::AskInfiniteMaterials,
                        },
                    }
                }
            },
            (TouchPhase::Offering { player }, TouchEvent::Offered { added, emptied }) => {
                TouchTurn::taken_if(added && emptied, player)
            },
            (TouchPhase::Asking { player }, TouchEvent::InfiniteMaterials(infinite)) => {
                TouchTurn::taken_if(infinite, player)
            },
            (TouchPhase::Taken { player }, TouchEvent::Level(true)) => TouchTurn {
                phase: TouchPhase::Announcing,
                action: TouchAction::Announce(
                    TakeItemEntity { item: self.id, collector: player, amount: 1 },
                ),
            },
            (TouchPhase::Taken { .. }, _) | (TouchPhase::Announcing, _) => TouchTurn {
                phase: TouchPhase::Discarding,
                action: TouchAction::Discard,
            },
            _ => TouchTurn::over(),
        }
    }

    /// Takes the answer `event` in the phase `phase` of a touch and decides what comes next.
    pub fn player_touch(&self, phase: TouchPhase, event: TouchEvent) -> (turn: TouchTurn)
        requires
            phase.accepts(event),
        ensures
            turn == self.touch_turn(phase, event),
    {
        match (phase, event) {
            (TouchPhase::Start, TouchEvent::Touched { player, removed }) => {
                if removed || !self.is_in_ground() || self.runtime.shake_time > 0 {
                    return TouchTurn::finish();
                }
                match self.runtime.pickup {
                    Pickup::Disallowed => TouchTurn::finish(),
                    Pickup::Allowed => TouchTurn {
                        phase: TouchPhase::Offering { player },
                        action: TouchAction::OfferArrow,
                    },
                    Pickup::CreativeOnly => TouchTurn {
                        phase: TouchPhase::Asking { player },
                        action: TouchAction::AskInfiniteMaterials,
                    },
                }
            },
            (
                TouchPhase::Offering { player },
                TouchEvent::Offered { added, emptied },
            ) => TouchTurn::take_if(added && emptied, player),
            (
                TouchPhase::Asking { player },
                TouchEvent::InfiniteMaterials(infinite),
            ) => TouchTurn::take_if(infinite, player),
            (TouchPhase::Taken { player }, TouchEvent::Level(true)) => TouchTurn {
                phase: TouchPhase::Announcing,
                action: TouchAction::Announce(
                    TakeItemEntity { item: self.id, collector: player, amount: 1 },
                ),
            },
            (TouchPhase::Taken { .. }, _) | (TouchPhase::Announcing, _) => TouchTurn {
                phase: TouchPhase::Discarding,
                action: TouchAction::Discard,
            },
            _ => TouchTurn::finish(),
        }
    }
}

/// All that the world may be asked for in one touch, answered ahead of time.
pub struct Hand {
    /// The id of the player.
    pub player: i32,
    /// Whether the arrow has been removed from its world.
    pub removed: bool,
    /// Whether the inventory takes any of the arrow.
    pub added: bool,
    /// Whether nothing of it is left over.
    pub emptied: bool,
    /// Whether the player has infinite materials.
    pub infinite: bool,
    /// Whether the arrow is in a world.
    pub level: bool,
}

impl Hand {
    /// The answer to what is asked for in `phase`.
    pub open spec fn answer(self, phase: TouchPhase) -> TouchEvent {
        match phase {
            TouchPhase::Start => TouchEvent::Touched { player: self.player, removed: self.removed },
            TouchPhase::Offering { .. } => TouchEvent::Offered {
                added: self.added,
                emptied: self.emptied,
            },
            TouchPhase::Asking { .. } => TouchEvent::InfiniteMaterials(self.infinite),
            TouchPhase::Taken { .. } => TouchEvent::Level(self.level),
            _ => TouchEvent::Done,
        }
    }

    /// Whether the player may take the arrow, and does.
    pub open spec fn takes(self, arrow: ArrowEntity) -> bool {
        &&& !self.removed
        &&& arrow.is_settled()
        &&& match arrow.runtime.pickup {
            Pickup::Disallowed => false,
            Pickup::Allowed => self.added && self.emptied,
            Pickup::CreativeOnly => self.infinite,
        }
    }
}

/// What a touch asks of the world, in order: the outcome of taking turns from `phase` on until
/// the touch is over.
#[verifier::opaque]
pub open spec fn play(arrow: ArrowEntity, phase: TouchPhase, hand: Hand) -> Seq<TouchAction>
    decreases TouchPhase::Finished.rank() - phase.rank(),
{
    if phase == TouchPhase::Finished {
        seq![]
    } else {
        let turn = arrow.touch_turn(phase, hand.answer(phase));
        seq![turn.action] + play(arrow, turn.phase, hand)
    }
}

/// Every turn of a touch leads to a later phase, whatever the world answers.
pub proof fn law_turns_advance(arrow: ArrowEntity, phase: TouchPhase, event: TouchEvent)
    requires
        phase.accepts(event),
    ensures
        arrow.touch_turn(phase, event).phase.rank() > phase.rank(),
{
}

/// An arrow is taken exactly if it is settled, still in its world, and the pickup rule lets the
/// player have it: anyone with room for it, only those with infinite materials, or nobody. Those
/// nearby hear of it before it goes, and nothing is asked of the world for an arrow that nobody
/// can take.
pub proof fn law_who_takes_an_arrow(arrow: ArrowEntity, hand: Hand)
    ensures
        ({
            let news = TouchAction::Announce(
                TakeItemEntity { item: arrow.id, collector: hand.player, amount: 1 },
            );
            let question: Seq<TouchAction> = if hand.removed || !arrow.is_settled() {
                seq![]
            } else {
                match arrow.runtime.pickup {
                    Pickup::Disallowed => seq![],
                    Pickup::Allowed => seq![TouchAction::OfferArrow],
                    Pickup::CreativeOnly => seq![TouchAction::AskInfiniteMaterials],
                }
            };
            play(arrow, TouchPhase::Start, hand) == question + if !hand.takes(arrow) {
                seq![TouchAction::Finish]
            } else if hand.level {
                seq![TouchAction::AskLevel, news, TouchAction::Discard, TouchAction::Finish]
            } else {
                seq![TouchAction::AskLevel, TouchAction::Discard, TouchAction::Finish]
            }
        }),
{
    reveal_with_fuel(play, 7);
}

/// Nobody takes an arrow that flies or still wobbles after landing.
pub proof fn law_unsettled_arrow_stays(arrow: ArrowEntity, hand: Hand)
    requires
        !arrow.entity_data.in_ground || arrow.runtime.shake_time > 0,
    ensures
        play(arrow, TouchPhase::Start, hand) == seq![TouchAction::Finish],
{
    law_who_takes_an_arrow(arrow, hand);
    assert(Seq::<TouchAction>::empty() + seq![TouchAction::Finish] =~= seq![TouchAction::Finish]);
}

/// An arrow that lies in the ground and no longer wobbles goes to the first player who may have it
/// and can take it, whatever its age, its flags or its damage; no other arrow goes to anyone.
pub proof fn law_settled_arrow_is_taken(arrow: ArrowEntity, hand: Hand)
    ensures
        ({
            let asked = play(arrow, TouchPhase::Start, hand);
            let settled = !hand.removed && arrow.entity_data.in_ground && arrow.runtime.shake_time
                <= 0;
            &&& asked[0] is OfferArrow <==> settled && arrow.runtime.pickup is Allowed
            &&& asked[0] is AskInfiniteMaterials <==> settled
                && arrow.runtime.pickup is CreativeOnly
            &&& asked.contains(TouchAction::Discard) <==> settled && ((
            arrow.runtime.pickup is Allowed && hand.added && hand.emptied) || (
            arrow.runtime.pickup is CreativeOnly && hand.infinite))
        }),
{
    law_who_takes_an_arrow(arrow, hand);
    let s = play(arrow, TouchPhase::Start, hand);
    if hand.takes(arrow) {
        assert(s[s.len() - 2] is Discard);
    }
}

} // verus!
