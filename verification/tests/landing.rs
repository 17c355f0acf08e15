use arrow_entity::arrow::{ArrowEntity, BlockStateId, EntityTypeId};
use arrow_entity::landing::{LandingAction, LandingEvent, LandingPhase};

fn run(
    arrow: &mut ArrowEntity,
    hit: Option<BlockStateId>,
    resting: BlockStateId,
) -> Vec<LandingAction> {
    let mut phase = LandingPhase::Start;
    let mut event = LandingEvent::Hit(hit);
    let mut actions = Vec::new();
    loop {
        let turn = arrow.on_hit_block(phase, event);
        actions.push(turn.action);
        phase = turn.phase;
        event = match turn.action {
            LandingAction::Finish => return actions,
            LandingAction::AskBlock => LandingEvent::RestingIn(resting),
            _ => LandingEvent::Done,
        };
    }
}

#[test]
fn arrow_sticks_in_the_block_it_rests_in() {
    let mut a = ArrowEntity::new(EntityTypeId(6), 1);
    a.set_crit_arrow(true);
    a.entity_data.pierce_level = 2;
    assert_eq!(
        run(&mut a, Some(BlockStateId(8)), BlockStateId(9)),
        vec![
            LandingAction::React,
            LandingAction::BackOff,
            LandingAction::PlayHitSound,
            LandingAction::AskBlock,
            LandingAction::Finish,
        ]
    );
    assert!(a.is_in_ground());
    assert!(!a.is_crit_arrow());
    assert_eq!(a.entity_data.pierce_level, 0);
    assert_eq!(a.runtime.shake_time, 7);
    assert_eq!(a.runtime.last_state, Some(BlockStateId(9)));
}

#[test]
fn hit_block_is_remembered_while_it_reacts() {
    let mut a = ArrowEntity::new(EntityTypeId(6), 1);
    let turn = a.on_hit_block(LandingPhase::Start, LandingEvent::Hit(Some(BlockStateId(8))));
    assert_eq!(turn.action, LandingAction::React);
    assert_eq!(a.runtime.last_state, Some(BlockStateId(8)));
    assert!(!a.is_in_ground());
}

#[test]
fn arrow_in_no_world_does_not_stick() {
    let mut a = ArrowEntity::new(EntityTypeId(6), 1);
    let before = a;
    assert_eq!(
        run(&mut a, None, BlockStateId(9)),
        vec![LandingAction::React, LandingAction::Finish]
    );
    assert_eq!(a, before);
}
