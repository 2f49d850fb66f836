use virtio_net_dispatch::dispatch::{
    Action, Notification, QueueHandler, RX_IOEVENT_DATA, TAPFD_DATA, TX_IOEVENT_DATA,
};

/// Runs the one-time registration with every add succeeding and returns the
/// operational machine.
fn operational() -> QueueHandler {
    let mut h = QueueHandler::new();
    assert_eq!(h.init(), Action::AddTap);
    assert_eq!(h.resolve(true), Action::AddRx);
    assert_eq!(h.resolve(true), Action::AddTx);
    assert_eq!(h.resolve(true), Action::AwaitNotification);
    assert!(h.is_operational());
    h
}

/// Feeds `ok` outcomes until the machine rests, collecting every requested
/// action.
fn drain_actions(h: &mut QueueHandler, first: Action, outcomes: &[bool]) -> Vec<Action> {
    let mut actions = vec![first];
    let mut next = first;
    let mut i: usize = 0;
    while next != Action::AwaitNotification && next != Action::Halt {
        let ok = if i < outcomes.len() { outcomes[i] } else { true };
        i += 1;
        next = h.resolve(ok);
        actions.push(next);
    }
    actions
}

#[test]
fn init_registers_three_sources() {
    let mut h = QueueHandler::new();
    assert_eq!(h.init(), Action::AddTap);
    assert_eq!(h.resolve(true), Action::AddRx);
    assert_eq!(h.resolve(true), Action::AddTx);
    assert_eq!(h.resolve(true), Action::AwaitNotification);
    assert!(h.is_operational());
    assert!(!h.is_stopped());
    assert!(!h.is_halted());
}

#[test]
fn registration_failure_halts() {
    let mut h = QueueHandler::new();
    assert_eq!(h.init(), Action::AddTap);
    assert_eq!(h.resolve(false), Action::Halt);
    assert!(h.is_halted());
}

#[test]
fn tap_readable_processes_tap_once() {
    let mut h = operational();
    let first = h.process(Notification { source: TAPFD_DATA, readable: true });
    let actions = drain_actions(&mut h, first, &[true]);
    assert_eq!(actions, vec![Action::ProcessTap, Action::AwaitNotification]);
    assert!(h.is_operational());
}

#[test]
fn rx_kick_drains_then_processes() {
    let mut h = operational();
    let first = h.process(Notification { source: RX_IOEVENT_DATA, readable: true });
    let actions = drain_actions(&mut h, first, &[true, true]);
    assert_eq!(actions, vec![Action::DrainRx, Action::ProcessRx, Action::AwaitNotification]);
    assert!(h.is_operational());
}

#[test]
fn tx_kick_drains_then_processes() {
    let mut h = operational();
    let first = h.process(Notification { source: TX_IOEVENT_DATA, readable: true });
    let actions = drain_actions(&mut h, first, &[true, true]);
    assert_eq!(actions, vec![Action::DrainTx, Action::ProcessTx, Action::AwaitNotification]);
    assert!(h.is_operational());
}

#[test]
fn steady_state_many_rx_kicks() {
    let mut h = operational();
    let mut rx_calls: usize = 0;
    for _ in 0..16 {
        let first = h.process(Notification { source: RX_IOEVENT_DATA, readable: true });
        let actions = drain_actions(&mut h, first, &[true, true]);
        rx_calls += actions.iter().filter(|a| **a == Action::ProcessRx).count();
        assert!(actions.iter().all(|a| {
            !matches!(a, Action::RemoveTap | Action::RemoveRx | Action::RemoveTx)
        }));
        assert!(h.is_operational());
    }
    assert_eq!(rx_calls, 16);
}

#[test]
fn non_readable_condition_tears_down() {
    let mut h = operational();
    let first = h.process(Notification { source: RX_IOEVENT_DATA, readable: false });
    let actions = drain_actions(&mut h, first, &[true, true, true]);
    assert_eq!(
        actions,
        vec![Action::RemoveTap, Action::RemoveRx, Action::RemoveTx, Action::AwaitNotification]
    );
    assert!(actions.iter().all(|a| {
        !matches!(a, Action::ProcessTap | Action::ProcessRx | Action::ProcessTx)
    }));
    assert!(h.is_stopped());
}

#[test]
fn unknown_source_tears_down() {
    let mut h = operational();
    let first = h.process(Notification { source: 7, readable: true });
    let actions = drain_actions(&mut h, first, &[true, true, true]);
    assert_eq!(
        actions,
        vec![Action::RemoveTap, Action::RemoveRx, Action::RemoveTx, Action::AwaitNotification]
    );
    assert!(h.is_stopped());
}

#[test]
fn tap_processor_failure_tears_down() {
    let mut h = operational();
    let first = h.process(Notification { source: TAPFD_DATA, readable: true });
    let actions = drain_actions(&mut h, first, &[false, true, true, true]);
    assert_eq!(
        actions,
        vec![
            Action::ProcessTap,
            Action::RemoveTap,
            Action::RemoveRx,
            Action::RemoveTx,
            Action::AwaitNotification,
        ]
    );
    assert!(h.is_stopped());
}

#[test]
fn rx_drain_failure_skips_rx_processor() {
    let mut h = operational();
    let first = h.process(Notification { source: RX_IOEVENT_DATA, readable: true });
    let actions = drain_actions(&mut h, first, &[false, true, true, true]);
    assert_eq!(
        actions,
        vec![
            Action::DrainRx,
            Action::RemoveTap,
            Action::RemoveRx,
            Action::RemoveTx,
            Action::AwaitNotification,
        ]
    );
    assert!(!actions.contains(&Action::ProcessRx));
    assert!(h.is_stopped());
}

#[test]
fn tx_drain_failure_still_processes_tx() {
    let mut h = operational();
    let first = h.process(Notification { source: TX_IOEVENT_DATA, readable: true });
    let actions = drain_actions(&mut h, first, &[false, true, true, true, true]);
    assert_eq!(
        actions,
        vec![
            Action::DrainTx,
            Action::RemoveTap,
            Action::RemoveRx,
            Action::RemoveTx,
            Action::ProcessTx,
            Action::AwaitNotification,
        ]
    );
    assert!(h.is_stopped());
}

#[test]
fn tx_processor_failure_tears_down() {
    let mut h = operational();
    let first = h.process(Notification { source: TX_IOEVENT_DATA, readable: true });
    let actions = drain_actions(&mut h, first, &[true, false, true, true, true]);
    assert_eq!(
        actions,
        vec![
            Action::DrainTx,
            Action::ProcessTx,
            Action::RemoveTap,
            Action::RemoveRx,
            Action::RemoveTx,
            Action::AwaitNotification,
        ]
    );
    assert!(h.is_stopped());
}

#[test]
fn removal_failure_halts() {
    let mut h = operational();
    let first = h.process(Notification { source: TAPFD_DATA, readable: false });
    assert_eq!(first, Action::RemoveTap);
    assert_eq!(h.resolve(true), Action::RemoveRx);
    assert_eq!(h.resolve(false), Action::Halt);
    assert!(h.is_halted());
}

#[test]
fn stopped_machine_ignores_notifications() {
    let mut h = operational();
    let first = h.process(Notification { source: RX_IOEVENT_DATA, readable: false });
    drain_actions(&mut h, first, &[true, true, true]);
    assert!(h.is_stopped());
    for source in [TAPFD_DATA, RX_IOEVENT_DATA, TX_IOEVENT_DATA, 9] {
        let a = h.process(Notification { source, readable: true });
        assert_eq!(a, Action::AwaitNotification);
        assert!(h.is_stopped());
    }
}
