use goose::attack::{
    GooseAttack, GooseAttackAction, GooseAttackEvent, GooseAttackPhase, GRACE_MILLIS,
};
use goose::error::GooseError;

#[test]
fn a_load_test_needs_users_a_hatch_rate_and_task_sets() {
    assert!(matches!(GooseAttack::new(3, 10, 3000, false, &vec![]), Err(GooseError::NoTasks)));
    match GooseAttack::new(0, 10, 3000, false, &vec![1]) {
        Err(GooseError::InvalidOption { option, .. }) => assert_eq!(option, "users"),
        other => panic!("unexpected: {:?}", other),
    }
    match GooseAttack::new(3, 0, 3000, false, &vec![1]) {
        Err(GooseError::InvalidOption { option, .. }) => assert_eq!(option, "hatch_rate"),
        other => panic!("unexpected: {:?}", other),
    }
    match GooseAttack::new(3, 10, 3000, false, &vec![1, 0]) {
        Err(GooseError::InvalidOption { option, .. }) => assert_eq!(option, "weight"),
        other => panic!("unexpected: {:?}", other),
    }
}

#[test]
fn users_are_due_at_the_hatch_rate_from_the_start() {
    let mut attack = GooseAttack::new(30, 10, 3000, false, &vec![1]).unwrap();
    attack.started = 5000;
    assert_eq!(attack.hatch_time(0), 5000);
    assert_eq!(attack.hatch_time(1), 5100);
    assert_eq!(attack.hatch_time(2), 5200);
    assert_eq!(attack.hatch_time(25), 7500);
    let mut attack = GooseAttack::new(30, 3, 3000, false, &vec![1]).unwrap();
    attack.started = 0;
    let due: Vec<u64> = (0..7).map(|i| attack.hatch_time(i)).collect();
    assert_eq!(due, vec![0, 333, 666, 1000, 1333, 1666, 2000]);
    for pair in due.windows(2) {
        let gap = pair[1] - pair[0];
        assert!(gap == 333 || gap == 334);
    }
}

#[test]
fn a_whole_load_test_goes_through_every_phase() {
    // Two task sets of equal weight, three users, ten users a second, three seconds.
    let mut attack = GooseAttack::new(3, 10, 3000, false, &vec![1, 1]).unwrap();
    assert_eq!(attack.phase, GooseAttackPhase::Init);

    assert_eq!(attack.step(GooseAttackEvent::Begin), vec![GooseAttackAction::SpawnLogger]);
    assert_eq!(attack.phase, GooseAttackPhase::Starting);

    let actions = attack.step(GooseAttackEvent::LoggerSpawned { now: 1000 });
    assert_eq!(
        actions,
        vec![
            GooseAttackAction::HatchUser { user: 0, task_set: 0 },
            GooseAttackAction::WaitUntil { time: 1100 },
        ]
    );
    assert_eq!(attack.phase, GooseAttackPhase::Hatching);

    // The clock is reported early: nothing is hatched.
    assert_eq!(
        attack.step(GooseAttackEvent::Clock { now: 1050 }),
        vec![GooseAttackAction::WaitUntil { time: 1100 }]
    );
    // The clock is reported late: the next user is still due at its own time.
    assert_eq!(
        attack.step(GooseAttackEvent::Clock { now: 1170 }),
        vec![
            GooseAttackAction::HatchUser { user: 1, task_set: 1 },
            GooseAttackAction::WaitUntil { time: 1200 },
        ]
    );
    assert_eq!(
        attack.step(GooseAttackEvent::Clock { now: 1200 }),
        vec![
            GooseAttackAction::HatchUser { user: 2, task_set: 0 },
            GooseAttackAction::ResetMetrics,
            GooseAttackAction::WaitUntil { time: 4000 },
        ]
    );
    assert_eq!(attack.phase, GooseAttackPhase::Running);
    assert_eq!(attack.hatched, 3);

    assert_eq!(
        attack.step(GooseAttackEvent::Clock { now: 3999 }),
        vec![GooseAttackAction::WaitUntil { time: 4000 }]
    );
    assert_eq!(
        attack.step(GooseAttackEvent::Clock { now: 4000 }),
        vec![GooseAttackAction::CancelUsers { grace: GRACE_MILLIS }]
    );
    assert_eq!(attack.phase, GooseAttackPhase::Stopping);

    assert!(attack.step(GooseAttackEvent::UserExited).is_empty());
    assert!(attack.step(GooseAttackEvent::UserExited).is_empty());
    assert_eq!(
        attack.step(GooseAttackEvent::UserExited),
        vec![GooseAttackAction::FinishLogger, GooseAttackAction::Report]
    );
    assert_eq!(attack.phase, GooseAttackPhase::Stopped);

    // Once it is over nothing more is asked for.
    assert!(attack.step(GooseAttackEvent::Clock { now: 9000 }).is_empty());
    assert!(attack.step(GooseAttackEvent::Begin).is_empty());
    assert_eq!(attack.phase, GooseAttackPhase::Stopped);
}

#[test]
fn the_ramp_up_metrics_are_kept_where_asked() {
    let mut attack = GooseAttack::new(1, 1, 500, true, &vec![2]).unwrap();
    attack.step(GooseAttackEvent::Begin);
    assert_eq!(
        attack.step(GooseAttackEvent::LoggerSpawned { now: 0 }),
        vec![
            GooseAttackAction::HatchUser { user: 0, task_set: 0 },
            GooseAttackAction::WaitUntil { time: 500 },
        ]
    );
    assert_eq!(attack.phase, GooseAttackPhase::Running);
}

#[test]
fn users_that_outstay_the_grace_period_are_abandoned() {
    let mut attack = GooseAttack::new(2, 100, 1000, false, &vec![1]).unwrap();
    attack.step(GooseAttackEvent::Begin);
    attack.step(GooseAttackEvent::LoggerSpawned { now: 0 });
    attack.step(GooseAttackEvent::Clock { now: 10 });
    assert_eq!(attack.phase, GooseAttackPhase::Running);
    assert_eq!(
        attack.step(GooseAttackEvent::Signal),
        vec![GooseAttackAction::CancelUsers { grace: 30000 }]
    );
    assert!(attack.step(GooseAttackEvent::UserExited).is_empty());
    assert_eq!(
        attack.step(GooseAttackEvent::GraceExpired),
        vec![GooseAttackAction::FinishLogger, GooseAttackAction::Report]
    );
    assert_eq!(attack.phase, GooseAttackPhase::Stopped);
}

#[test]
fn a_fatal_error_while_hatching_stops_the_load_test() {
    let mut attack = GooseAttack::new(5, 1, 1000, false, &vec![1]).unwrap();
    attack.step(GooseAttackEvent::Begin);
    attack.step(GooseAttackEvent::LoggerSpawned { now: 0 });
    assert_eq!(attack.hatched, 1);
    assert!(attack.step(GooseAttackEvent::UserExited).is_empty());
    // The only user has gone already: the load test is over at once.
    assert_eq!(
        attack.step(GooseAttackEvent::FatalError),
        vec![
            GooseAttackAction::CancelUsers { grace: GRACE_MILLIS },
            GooseAttackAction::FinishLogger,
            GooseAttackAction::Report,
        ]
    );
    assert_eq!(attack.phase, GooseAttackPhase::Stopped);
}

#[test]
fn users_take_the_task_sets_in_turn_by_weight() {
    let mut attack = GooseAttack::new(6, 1000, 1000, true, &vec![2, 1]).unwrap();
    attack.step(GooseAttackEvent::Begin);
    let mut assigned = Vec::new();
    let mut actions = attack.step(GooseAttackEvent::LoggerSpawned { now: 0 });
    loop {
        for action in &actions {
            if let GooseAttackAction::HatchUser { user, task_set } = action {
                assert_eq!(*user, assigned.len());
                assigned.push(*task_set);
            }
        }
        if attack.phase != GooseAttackPhase::Hatching {
            break;
        }
        actions = attack.step(GooseAttackEvent::Clock { now: 1000 });
    }
    assert_eq!(assigned, vec![0, 0, 1, 0, 0, 1]);
}

#[test]
fn task_set_weights_have_to_add_up() {
    match GooseAttack::new(3, 10, 3000, false, &vec![usize::MAX, 1]) {
        Err(GooseError::InvalidOption { option, value, detail }) => {
            assert_eq!(option, "weight");
            assert_eq!(value, "");
            assert_eq!(detail, "the weights are too large to add up");
        }
        other => panic!("unexpected: {:?}", other),
    }
    match GooseAttack::new(3, 10, 3000, false, &vec![2, 0]) {
        Err(GooseError::InvalidOption { option, value, detail }) => {
            assert_eq!(option, "weight");
            assert_eq!(value, "0");
            assert_eq!(detail, "a weight must be at least 1");
        }
        other => panic!("unexpected: {:?}", other),
    }
    assert!(GooseAttack::new(3, 10, 3000, false, &vec![1000, 1]).is_ok());
}
