use arrow_entity::arrow::{ArrowEntity, BlockStateId, EntityTypeId};
use arrow_entity::pickup::Pickup;
use arrow_entity::touch::{TakeItemEntity, TouchAction, TouchEvent, TouchPhase};

#[derive(Clone, Copy)]
struct Hand {
    removed: bool,
    added: bool,
    emptied: bool,
    infinite: bool,
    level: bool,
}

const EAGER: Hand =
    Hand { removed: false, added: true, emptied: true, infinite: true, level: true };

const NEWS: TouchAction =
    TouchAction::Announce(TakeItemEntity { item: 41, collector: 7, amount: 1 });

fn run(arrow: &ArrowEntity, hand: Hand) -> Vec<TouchAction> {
    let mut phase = TouchPhase::Start;
    let mut event = TouchEvent::Touched { player: 7, removed: hand.removed };
    let mut actions = Vec::new();
    loop {
        let turn = arrow.player_touch(phase, event);
        actions.push(turn.action);
        phase = turn.phase;
        event = match turn.action {
            TouchAction::Finish => return actions,
            TouchAction::OfferArrow => {
                TouchEvent::Offered { added: hand.added, emptied: hand.emptied }
            }
            TouchAction::AskInfiniteMaterials => TouchEvent::InfiniteMaterials(hand.infinite),
            TouchAction::AskLevel => TouchEvent::Level(hand.level),
            _ => TouchEvent::Done,
        };
    }
}

fn settled(rule: Pickup) -> ArrowEntity {
    let mut a = ArrowEntity::new(EntityTypeId(6), 41);
    a.stick_in_ground(BlockStateId(1));
    a.runtime.shake_time = 0;
    a.set_pickup(rule);
    a
}

#[test]
fn allowed_arrow_is_taken() {
    assert_eq!(
        run(&settled(Pickup::Allowed), EAGER),
        vec![
            TouchAction::OfferArrow,
            TouchAction::AskLevel,
            NEWS,
            TouchAction::Discard,
            TouchAction::Finish,
        ]
    );
}

#[test]
fn taking_outside_a_world_is_not_announced() {
    assert_eq!(
        run(&settled(Pickup::Allowed), Hand { level: false, ..EAGER }),
        vec![
            TouchAction::OfferArrow,
            TouchAction::AskLevel,
            TouchAction::Discard,
            TouchAction::Finish,
        ]
    );
}

#[test]
fn full_inventory_leaves_the_arrow() {
    for (added, emptied) in [(false, false), (true, false), (false, true)] {
        assert_eq!(
            run(&settled(Pickup::Allowed), Hand { added, emptied, ..EAGER }),
            vec![TouchAction::OfferArrow, TouchAction::Finish]
        );
    }
}

#[test]
fn creative_arrow_is_taken_with_infinite_materials_only() {
    let a = settled(Pickup::CreativeOnly);
    assert_eq!(
        run(&a, EAGER),
        vec![
            TouchAction::AskInfiniteMaterials,
            TouchAction::AskLevel,
            NEWS,
            TouchAction::Discard,
            TouchAction::Finish,
        ]
    );
    assert_eq!(
        run(&a, Hand { infinite: false, ..EAGER }),
        vec![TouchAction::AskInfiniteMaterials, TouchAction::Finish]
    );
}

#[test]
fn disallowed_arrow_stays() {
    assert_eq!(run(&settled(Pickup::Disallowed), EAGER), vec![TouchAction::Finish]);
}

#[test]
fn unsettled_or_removed_arrow_stays() {
    let mut flying = settled(Pickup::Allowed);
    flying.set_in_ground(false);
    assert_eq!(run(&flying, EAGER), vec![TouchAction::Finish]);
    let mut wobbling = settled(Pickup::Allowed);
    wobbling.runtime.shake_time = 1;
    assert_eq!(run(&wobbling, EAGER), vec![TouchAction::Finish]);
    wobbling.runtime.shake_time = -1;
    assert_eq!(run(&wobbling, EAGER).len(), 5);
    assert_eq!(
        run(&settled(Pickup::Allowed), Hand { removed: true, ..EAGER }),
        vec![TouchAction::Finish]
    );
}
