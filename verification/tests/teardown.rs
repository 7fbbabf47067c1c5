use chelsea_lib::teardown::{join_failures, teardown_outcome, TeardownKind};

const VM_ID: &str = "550e8400-e29b-41d4-a716-446655440000";

fn vm_id() -> u128 {
    uuid::Uuid::parse_str(VM_ID).unwrap().as_u128()
}

#[test]
fn teardown_succeeds_when_every_part_succeeds() {
    assert_eq!(
        teardown_outcome(TeardownKind::Killing, vm_id(), vec![None, None, None]),
        Ok(())
    );
    assert_eq!(teardown_outcome(TeardownKind::Sleeping, vm_id(), vec![]), Ok(()));
}

#[test]
fn teardown_reports_all_failures_in_order() {
    let err = teardown_outcome(
        TeardownKind::Killing,
        vm_id(),
        vec![
            Some("process gone".to_string()),
            None,
            Some("volume busy".to_string()),
        ],
    )
    .unwrap_err();
    assert_eq!(
        err,
        "One or more errors while killing VM 550e8400-e29b-41d4-a716-446655440000: process gone; volume busy"
    );
    let err = teardown_outcome(
        TeardownKind::Sleeping,
        vm_id(),
        vec![None, Some("db down".to_string())],
    )
    .unwrap_err();
    assert_eq!(
        err,
        "One or more errors while sleeping VM 550e8400-e29b-41d4-a716-446655440000: db down"
    );
}

#[test]
fn join_failures_skips_successes() {
    assert_eq!(join_failures(&vec![None, None], ", "), None);
    assert_eq!(
        join_failures(
            &vec![Some("a".to_string()), None, Some("b".to_string()), Some("c".to_string())],
            ", "
        ),
        Some("a, b, c".to_string())
    );
}
