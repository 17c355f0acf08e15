use arrow_entity::arrow::{ArrowEntity, BlockStateId, EntityTypeId};
use arrow_entity::tick::{TickAction, TickEvent, TickPhase};

/// A world that gives the same answers whenever it is asked.
#[derive(Clone, Copy)]
struct Surroundings {
    level: bool,
    block: BlockStateId,
    air: bool,
    still: bool,
    no_physics: bool,
    free: bool,
    alive: bool,
    wet_before: bool,
    hit: bool,
    moved: Option<BlockStateId>,
    sticks: bool,
    wet_after: bool,
}

const STONE: BlockStateId = BlockStateId(1);
const AIR: BlockStateId = BlockStateId(0);

fn sky() -> Surroundings {
    Surroundings {
        level: true,
        block: AIR,
        air: true,
        still: false,
        no_physics: false,
        free: true,
        alive: true,
        wet_before: false,
        hit: false,
        moved: Some(AIR),
        sticks: false,
        wet_after: false,
    }
}

fn ground() -> Surroundings {
    Surroundings { block: STONE, air: false, still: true, free: false, ..sky() }
}

fn run(arrow: &mut ArrowEntity, world: Surroundings) -> Vec<TickAction> {
    let mut phase = TickPhase::Start;
    let mut event = TickEvent::Level(world.level);
    let mut actions = Vec::new();
    let mut waded = false;
    loop {
        let turn = arrow.tick(phase, event);
        actions.push(turn.action);
        phase = turn.phase;
        event = match turn.action {
            TickAction::Finish => return actions,
            TickAction::Probe => TickEvent::Surroundings {
                block: world.block,
                air: world.air,
                still: world.still,
                no_physics: world.no_physics,
            },
            TickAction::AskFree => TickEvent::Free(world.free),
            TickAction::AskAlive => TickEvent::Alive(world.alive),
            TickAction::AskWater => {
                let wet = if waded { world.wet_after } else { world.wet_before };
                waded = true;
                TickEvent::InWater(wet)
            }
            TickAction::Trace => TickEvent::Traced(world.hit),
            TickAction::MoveToHit | TickAction::MoveByVelocity => TickEvent::Moved(world.moved),
            TickAction::ResolveHit => {
                if world.sticks {
                    arrow.stick_in_ground(STONE);
                }
                TickEvent::Done
            }
            _ => TickEvent::Done,
        };
    }
}

fn arrow() -> ArrowEntity {
    ArrowEntity::new(EntityTypeId(6), 1)
}

#[test]
fn tick_outside_a_world_does_nothing() {
    let mut a = arrow();
    a.runtime.shake_time = 3;
    let before = a;
    assert_eq!(run(&mut a, Surroundings { level: false, ..sky() }), vec![TickAction::Finish]);
    assert_eq!(a, before);
}

#[test]
fn tick_in_free_flight() {
    let mut a = arrow();
    a.runtime.in_ground_time = 5;
    assert_eq!(
        run(&mut a, sky()),
        vec![
            TickAction::RecordPose,
            TickAction::Probe,
            TickAction::AskWater,
            TickAction::Trace,
            TickAction::MoveByVelocity,
            TickAction::AskWater,
            TickAction::ApplyAirDrag,
            TickAction::ApplyGravity,
            TickAction::BaseTick,
            TickAction::Finish,
        ]
    );
    assert_eq!(a.runtime.last_state, Some(AIR));
    assert_eq!(a.runtime.in_ground_time, 0);
}

#[test]
fn tick_in_water_drags_before_the_move_only() {
    let mut a = arrow();
    let actions = run(&mut a, Surroundings { wet_before: true, wet_after: true, ..sky() });
    assert_eq!(
        actions,
        vec![
            TickAction::RecordPose,
            TickAction::Probe,
            TickAction::AskWater,
            TickAction::ApplyWaterDrag,
            TickAction::Trace,
            TickAction::MoveByVelocity,
            TickAction::AskWater,
            TickAction::ApplyGravity,
            TickAction::BaseTick,
            TickAction::Finish,
        ]
    );
}

#[test]
fn hit_is_resolved_before_drag_and_grounding_spares_gravity() {
    let mut a = arrow();
    let world = Surroundings { hit: true, sticks: true, moved: Some(STONE), ..sky() };
    assert_eq!(
        run(&mut a, world),
        vec![
            TickAction::RecordPose,
            TickAction::Probe,
            TickAction::AskWater,
            TickAction::Trace,
            TickAction::MoveToHit,
            TickAction::AskAlive,
            TickAction::ResolveHit,
            TickAction::AskWater,
            TickAction::ApplyAirDrag,
            TickAction::BaseTick,
            TickAction::Finish,
        ]
    );
    assert!(a.is_in_ground());
}

#[test]
fn dead_arrow_hits_nothing() {
    let mut a = arrow();
    let actions = run(&mut a, Surroundings { hit: true, alive: false, ..sky() });
    assert!(!actions.contains(&TickAction::ResolveHit));
    assert!(actions.contains(&TickAction::ApplyGravity));
}

#[test]
fn failed_move_discards() {
    let mut a = arrow();
    a.runtime.last_state = Some(STONE);
    let actions = run(&mut a, Surroundings { moved: None, ..sky() });
    assert_eq!(actions[4..], [TickAction::MoveByVelocity, TickAction::Discard, TickAction::Finish]);
    assert_eq!(a.runtime.last_state, Some(STONE));
}

#[test]
fn still_arrow_in_a_block_gets_stuck() {
    let mut a = arrow();
    a.runtime.last_state = Some(STONE);
    assert_eq!(
        run(&mut a, ground()),
        vec![
            TickAction::RecordPose,
            TickAction::Probe,
            TickAction::AskAlive,
            TickAction::ApplyBlockEffects,
            TickAction::Finish,
        ]
    );
    assert!(a.is_in_ground());
    assert_eq!(a.runtime.life, 1);
    assert_eq!(a.runtime.in_ground_time, 1);
}

#[test]
fn moving_arrow_in_a_block_flies_on() {
    let mut a = arrow();
    let actions = run(&mut a, Surroundings { still: false, ..ground() });
    assert!(actions.contains(&TickAction::MoveByVelocity));
    assert!(!a.is_in_ground());
}

#[test]
fn arrow_without_physics_flies_though_stuck() {
    let mut a = arrow();
    a.stick_in_ground(STONE);
    a.runtime.in_ground_time = 9;
    let actions = run(&mut a, Surroundings { no_physics: true, ..ground() });
    assert!(actions.contains(&TickAction::BaseTick));
    assert!(!actions.contains(&TickAction::ApplyGravity));
    assert!(a.is_in_ground());
    assert_eq!(a.runtime.in_ground_time, 0);
}

#[test]
fn changed_block_with_room_lets_the_arrow_fall() {
    let mut a = arrow();
    a.stick_in_ground(STONE);
    a.runtime.life = 700;
    a.runtime.in_ground_time = 700;
    let actions = run(&mut a, sky());
    assert_eq!(
        actions[..5],
        [
            TickAction::RecordPose,
            TickAction::Probe,
            TickAction::AskFree,
            TickAction::JitterVelocity,
            TickAction::AskWater,
        ]
    );
    assert!(actions.contains(&TickAction::ApplyGravity));
    assert!(!a.is_in_ground());
    assert_eq!(a.runtime.life, 0);
    assert_eq!(a.runtime.in_ground_time, 700);
}

#[test]
fn changed_block_without_room_keeps_the_arrow() {
    let mut a = arrow();
    a.set_in_ground(true);
    let actions = run(&mut a, ground());
    assert_eq!(actions[2..4], [TickAction::AskFree, TickAction::AskAlive]);
    assert!(a.is_in_ground());
    assert_eq!(a.runtime.life, 1);
    assert_eq!(a.runtime.last_state, None);
}

#[test]
fn resting_arrow_is_discarded_by_the_1200th_tick() {
    let mut a = arrow();
    a.stick_in_ground(STONE);
    for tick in 1..=1200 {
        let actions = run(&mut a, ground());
        assert_eq!(actions.contains(&TickAction::Discard), tick == 1200);
        assert_eq!(a.runtime.life, tick);
    }
    let actions = run(&mut a, Surroundings { alive: false, ..ground() });
    assert_eq!(
        actions[2..],
        [TickAction::Discard, TickAction::AskAlive, TickAction::Finish]
    );
}

#[test]
fn wobble_is_over_after_seven_ticks() {
    let mut a = arrow();
    a.stick_in_ground(STONE);
    for left in (0..7).rev() {
        run(&mut a, ground());
        assert_eq!(a.runtime.shake_time, left);
    }
    run(&mut a, ground());
    assert_eq!(a.runtime.shake_time, 0);
}

#[test]
fn negative_wobble_is_left_alone() {
    let mut a = arrow();
    a.runtime.shake_time = -5;
    run(&mut a, sky());
    assert_eq!(a.runtime.shake_time, -5);
}

#[test]
fn rest_is_foretold() {
    let mut a = arrow();
    a.stick_in_ground(STONE);
    let in_stone = TickEvent::Surroundings {
        block: STONE,
        air: false,
        still: true,
        no_physics: false,
    };
    let in_air = TickEvent::Surroundings { block: AIR, air: true, still: true, no_physics: false };
    assert!(a.would_rest(TickPhase::Probing, in_stone));
    assert!(!a.would_rest(TickPhase::Probing, in_air));
    assert!(a.would_rest(TickPhase::Loosening, TickEvent::Free(false)));
    assert!(!a.would_rest(TickPhase::Loosening, TickEvent::Free(true)));
    assert!(!a.would_rest(TickPhase::Start, TickEvent::Level(true)));
}

#[test]
fn deflection_is_remembered_through_the_next_tick_only() {
    let mut a = arrow();
    a.set_last_deflected_by(Some(50));
    run(&mut a, sky());
    assert_eq!(a.runtime.last_deflected_by, Some(50));
    assert!(!a.runtime.deflected_this_tick);
    run(&mut a, sky());
    assert_eq!(a.runtime.last_deflected_by, None);

    a.set_last_deflected_by(Some(50));
    run(&mut a, Surroundings { level: false, ..sky() });
    assert!(a.runtime.deflected_this_tick);
}

#[test]
fn age_grows_in_changing_blocks_without_room() {
    let mut a = arrow();
    a.stick_in_ground(STONE);
    for tick in 1..=1200 {
        let block = BlockStateId(tick as u32 % 3);
        let actions = run(&mut a, Surroundings { block, ..ground() });
        assert_eq!(actions.contains(&TickAction::AskFree), block != STONE);
        assert_eq!(actions.contains(&TickAction::Discard), tick == 1200);
        assert_eq!(a.runtime.life, tick);
        assert_eq!(a.runtime.in_ground_time, tick);
    }
}

#[test]
fn wobble_is_used_up_in_flight_too() {
    let mut a = arrow();
    a.stick_in_ground(STONE);
    for left in (0..7).rev() {
        run(&mut a, if left % 2 == 0 { sky() } else { Surroundings { hit: true, ..sky() } });
        assert!(!a.is_in_ground());
        assert_eq!(a.runtime.shake_time, left);
    }
    run(&mut a, Surroundings { hit: true, sticks: true, moved: Some(STONE), ..sky() });
    assert_eq!(a.runtime.shake_time, 7);
}
