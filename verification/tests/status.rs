use philharmonic_workflow::{InstanceStatus, StepOutcome};

#[test]
fn status_discriminant_round_trip() {
    for (raw, expected) in [
        (0_i64, InstanceStatus::Pending),
        (1_i64, InstanceStatus::Running),
        (2_i64, InstanceStatus::Completed),
        (3_i64, InstanceStatus::Failed),
        (4_i64, InstanceStatus::Cancelled),
    ] {
        let parsed = InstanceStatus::try_from_i64(raw).unwrap();
        assert_eq!(parsed, expected);
        assert_eq!(parsed.as_i64(), raw);
    }

    assert!(InstanceStatus::try_from_i64(99).is_none());
}

#[test]
fn terminal_flags_are_correct() {
    assert!(!InstanceStatus::Pending.is_terminal());
    assert!(!InstanceStatus::Running.is_terminal());
    assert!(InstanceStatus::Completed.is_terminal());
    assert!(InstanceStatus::Failed.is_terminal());
    assert!(InstanceStatus::Cancelled.is_terminal());
}

#[test]
fn transition_matrix_is_exhaustive() {
    let states = [
        InstanceStatus::Pending,
        InstanceStatus::Running,
        InstanceStatus::Completed,
        InstanceStatus::Failed,
        InstanceStatus::Cancelled,
    ];

    for from in states {
        for to in states {
            let allowed = from.can_transition_to(to);
            let expected = matches!(
                (from, to),
                (InstanceStatus::Pending, InstanceStatus::Running)
                    | (InstanceStatus::Pending, InstanceStatus::Completed)
                    | (InstanceStatus::Pending, InstanceStatus::Cancelled)
                    | (InstanceStatus::Pending, InstanceStatus::Failed)
                    | (InstanceStatus::Running, InstanceStatus::Running)
                    | (InstanceStatus::Running, InstanceStatus::Completed)
                    | (InstanceStatus::Running, InstanceStatus::Failed)
                    | (InstanceStatus::Running, InstanceStatus::Cancelled)
            );
            assert_eq!(allowed, expected, "{from:?} -> {to:?}");
        }
    }
}

#[test]
fn numbers_next_to_the_statuses_are_none() {
    assert!(InstanceStatus::try_from_i64(-1).is_none());
    assert!(InstanceStatus::try_from_i64(5).is_none());
    assert!(InstanceStatus::try_from_i64(i64::MIN).is_none());
}

#[test]
fn terminal_statuses_lead_nowhere() {
    let states = [
        InstanceStatus::Pending,
        InstanceStatus::Running,
        InstanceStatus::Completed,
        InstanceStatus::Failed,
        InstanceStatus::Cancelled,
    ];
    for from in states {
        let leads_somewhere = states.iter().any(|to| from.can_transition_to(*to));
        assert_eq!(leads_somewhere, !from.is_terminal());
        assert!(!from.can_transition_to(InstanceStatus::Pending));
    }
}

#[test]
fn status_names_are_their_debug_forms() {
    assert_eq!(InstanceStatus::Pending.name(), "Pending");
    assert_eq!(InstanceStatus::Cancelled.name(), format!("{:?}", InstanceStatus::Cancelled));
}

#[test]
fn outcome_numbers() {
    assert_eq!(StepOutcome::Success.as_i64(), 0);
    assert_eq!(StepOutcome::Failure.as_i64(), 1);
}
