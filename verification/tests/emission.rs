//! The fail-fast emission discipline at the protocol boundary.
use vlcrs_module::emit::{emission_continue, run_emission};
use vlcrs_module::ops::Op;

fn some_ops(n: usize) -> Vec<Op> {
    let mut ops = Vec::new();
    for _ in 0..n {
        ops.push(Op::CreateModule);
    }
    ops
}

#[test]
fn failure_on_third_operation_stops_there() {
    let ops = some_ops(6);
    let statuses = vec![0, 0, -1, 0, 0, 0];
    let (emitted, status) = run_emission(&ops, &statuses);
    assert_eq!(emitted, 3);
    assert_eq!(status, -1);
}

#[test]
fn all_zero_statuses_emit_everything() {
    let ops = some_ops(4);
    let statuses = vec![0, 0, 0, 0];
    let (emitted, status) = run_emission(&ops, &statuses);
    assert_eq!(emitted, 4);
    assert_eq!(status, 0);
}

#[test]
fn failure_on_first_operation_emits_only_it() {
    let ops = some_ops(3);
    let statuses = vec![5, 0, 0];
    let (emitted, status) = run_emission(&ops, &statuses);
    assert_eq!(emitted, 1);
    assert_eq!(status, -1);
}

#[test]
fn empty_sequence_succeeds() {
    let (emitted, status) = run_emission(&Vec::new(), &Vec::new());
    assert_eq!(emitted, 0);
    assert_eq!(status, 0);
}

#[test]
fn continue_decision_follows_status() {
    assert!(emission_continue(0));
    assert!(!emission_continue(1));
    assert!(!emission_continue(-1));
}
