use arrow_entity::arrow::{ArrowEntity, DamageSource, EntityTypeId};
use arrow_entity::pickup::Pickup;
use arrow_entity::strike::{StrikeAction, StrikeEvent, StrikePhase};
use arrow_entity::tick::{TickEvent, TickPhase};

#[derive(Clone, Copy)]
struct Target {
    id: i32,
    level: bool,
    damage: i32,
    owner: Option<i32>,
    hurt: bool,
    enderman: bool,
    stopped: bool,
}

fn zombie() -> Target {
    Target {
        id: 50,
        level: true,
        damage: 6,
        owner: Some(3),
        hurt: true,
        enderman: false,
        stopped: false,
    }
}

fn run(arrow: &mut ArrowEntity, target: Target) -> Vec<StrikeAction> {
    let mut phase = StrikePhase::Start;
    let mut event = StrikeEvent::Struck { target: target.id, level: target.level };
    let mut actions = Vec::new();
    loop {
        let turn = arrow.on_hit_entity(phase, event);
        actions.push(turn.action);
        phase = turn.phase;
        event = match turn.action {
            StrikeAction::Finish => return actions,
            StrikeAction::MeasureImpact => {
                StrikeEvent::Impact { damage: target.damage, owner: target.owner }
            }
            StrikeAction::Hurt { .. } => {
                StrikeEvent::Outcome { hurt: target.hurt, enderman: target.enderman }
            }
            StrikeAction::Deflect => StrikeEvent::Deflected { stopped: target.stopped },
            _ => StrikeEvent::Done,
        };
    }
}

fn arrow() -> ArrowEntity {
    ArrowEntity::new(EntityTypeId(6), 41)
}

fn plain_hurt() -> StrikeAction {
    StrikeAction::Hurt {
        source: DamageSource { direct_entity: 41, causing_entity: 3 },
        amount: 6,
    }
}

#[test]
fn damage_sounds_and_discards() {
    let mut a = arrow();
    a.runtime.last_deflected_by = Some(9);
    assert_eq!(
        run(&mut a, zombie()),
        vec![
            StrikeAction::MeasureImpact,
            plain_hurt(),
            StrikeAction::PlayHitSound,
            StrikeAction::Discard,
            StrikeAction::Finish,
        ]
    );
    assert_eq!(a.runtime.last_deflected_by, None);
}

#[test]
fn arrows_pass_through_endermen() {
    let mut a = arrow();
    assert_eq!(
        run(&mut a, Target { enderman: true, ..zombie() }),
        vec![StrikeAction::MeasureImpact, plain_hurt(), StrikeAction::Finish]
    );
}

#[test]
fn unhurt_target_turns_the_arrow_back_and_is_passed_over_once() {
    let mut a = arrow();
    let shield = Target { hurt: false, ..zombie() };
    assert_eq!(
        run(&mut a, shield),
        vec![
            StrikeAction::MeasureImpact,
            plain_hurt(),
            StrikeAction::Deflect,
            StrikeAction::Finish,
        ]
    );
    assert_eq!(a.runtime.last_deflected_by, Some(50));
    assert_eq!(run(&mut a, shield), vec![StrikeAction::Finish]);
    assert_eq!(a.runtime.last_deflected_by, None);
    assert_eq!(run(&mut a, shield).len(), 4);
}

#[test]
fn other_targets_are_struck_after_a_deflection() {
    let mut a = arrow();
    run(&mut a, Target { hurt: false, ..zombie() });
    assert_eq!(run(&mut a, Target { id: 51, hurt: false, ..zombie() }).len(), 4);
    assert_eq!(a.runtime.last_deflected_by, Some(51));
}

#[test]
fn passing_over_needs_no_world() {
    let mut a = arrow();
    a.runtime.last_deflected_by = Some(50);
    assert_eq!(run(&mut a, Target { level: false, ..zombie() }), vec![StrikeAction::Finish]);
    assert_eq!(a.runtime.last_deflected_by, None);
}

#[test]
fn target_outside_a_world_is_not_struck() {
    let mut a = arrow();
    a.runtime.last_deflected_by = Some(9);
    assert_eq!(run(&mut a, Target { level: false, ..zombie() }), vec![StrikeAction::Finish]);
    assert_eq!(a.runtime.last_deflected_by, Some(9));
}

#[test]
fn stopped_arrow_drops_only_if_anyone_may_take_it() {
    let stop = Target { hurt: false, stopped: true, ..zombie() };
    let mut a = arrow();
    a.set_pickup(Pickup::Allowed);
    assert_eq!(
        run(&mut a, stop)[2..],
        [
            StrikeAction::Deflect,
            StrikeAction::DropArrow,
            StrikeAction::Discard,
            StrikeAction::Finish,
        ]
    );
    for rule in [Pickup::Disallowed, Pickup::CreativeOnly] {
        let mut a = arrow();
        a.set_pickup(rule);
        assert_eq!(
            run(&mut a, stop)[2..],
            [StrikeAction::Deflect, StrikeAction::Discard, StrikeAction::Finish]
        );
    }
}

#[test]
fn arrow_without_owner_is_to_blame_itself() {
    let mut a = arrow();
    let actions = run(&mut a, Target { owner: None, ..zombie() });
    assert_eq!(
        actions[1],
        StrikeAction::Hurt {
            source: DamageSource { direct_entity: 41, causing_entity: 41 },
            amount: 6,
        }
    );
}

#[test]
fn critical_bonus_varies_within_its_bounds() {
    let mut a = arrow();
    a.set_crit_arrow(true);
    let mut seen = [false; 5];
    for _ in 0..2000 {
        let phase = StrikePhase::Measuring { target: 50 };
        let event = StrikeEvent::Impact { damage: 6, owner: None };
        match a.on_hit_entity(phase, event).action {
            StrikeAction::Hurt { amount, .. } => {
                assert!(6 <= amount && amount <= 10);
                seen[(amount - 6) as usize] = true;
            }
            other => panic!("{:?}", other),
        }
    }
    assert_eq!(seen, [true; 5]);
}

#[test]
fn given_roll_fixes_the_damage() {
    let mut a = arrow();
    a.set_crit_arrow(true);
    let phase = StrikePhase::Measuring { target: 50 };
    let event = StrikeEvent::Impact { damage: 9, owner: Some(3) };
    let turn = a.on_hit_entity_with_roll(phase, event, 17);
    assert_eq!(turn.phase, StrikePhase::Hurting { target: 50 });
    assert_eq!(
        turn.action,
        StrikeAction::Hurt {
            source: DamageSource { direct_entity: 41, causing_entity: 3 },
            amount: 14,
        }
    );
    assert!(a.is_crit_arrow());
}

/// The start of a tick, in which the arrow's memory ages.
fn next_tick(arrow: &mut ArrowEntity) {
    arrow.tick(TickPhase::Recording, TickEvent::Done);
}

#[test]
fn deflector_is_passed_over_in_the_next_tick() {
    let mut a = arrow();
    let shield = Target { hurt: false, ..zombie() };
    run(&mut a, shield);
    next_tick(&mut a);
    assert_eq!(run(&mut a, shield), vec![StrikeAction::Finish]);
    assert_eq!(a.runtime.last_deflected_by, None);
}

#[test]
fn deflector_is_struck_again_two_ticks_later() {
    let mut a = arrow();
    run(&mut a, Target { hurt: false, ..zombie() });
    next_tick(&mut a);
    next_tick(&mut a);
    assert_eq!(
        run(&mut a, zombie()),
        vec![
            StrikeAction::MeasureImpact,
            plain_hurt(),
            StrikeAction::PlayHitSound,
            StrikeAction::Discard,
            StrikeAction::Finish,
        ]
    );
}

#[test]
fn second_deflection_is_remembered_anew() {
    let mut a = arrow();
    run(&mut a, Target { hurt: false, ..zombie() });
    next_tick(&mut a);
    run(&mut a, Target { id: 51, hurt: false, ..zombie() });
    next_tick(&mut a);
    assert_eq!(run(&mut a, Target { id: 51, ..zombie() }), vec![StrikeAction::Finish]);
}
