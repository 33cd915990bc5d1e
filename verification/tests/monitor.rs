use wallbox_manager::mennekes::{authorize_user, set_amps, MennekesAction};
use wallbox_manager::monitor::{
    DeviceMonitor, Poller, PollerCommand, PollerEvent, PollerPhase, TICK, WAIT_AFTER_ERROR,
};

#[derive(Debug, Clone, PartialEq)]
struct Reading {
    update: u64,
    value: i32,
}

#[test]
fn slot_is_empty_until_the_first_poll() {
    let mut m: DeviceMonitor<Reading, MennekesAction> = DeviceMonitor::new();
    assert!(m.is_running());
    assert_eq!(m.peek(), None);
    assert_eq!(m.get_current_params(), None);
    assert_eq!(m.pending_actions(), 0);
}

#[test]
fn taking_empties_the_slot_and_peeking_does_not() {
    let mut m: DeviceMonitor<Reading, u8> = DeviceMonitor::new();
    m.publish(Reading { update: 10, value: 1 });
    assert_eq!(m.peek(), Some(&Reading { update: 10, value: 1 }));
    assert_eq!(m.peek(), Some(&Reading { update: 10, value: 1 }));
    assert_eq!(m.get_current_params(), Some(Reading { update: 10, value: 1 }));
    assert_eq!(m.get_current_params(), None);
    assert_eq!(m.peek(), None);
}

#[test]
fn a_poll_replaces_the_reading_before_it() {
    let mut m: DeviceMonitor<Reading, u8> = DeviceMonitor::new();
    m.publish(Reading { update: 10, value: 1 });
    m.publish(Reading { update: 12, value: 2 });
    assert_eq!(m.get_current_params(), Some(Reading { update: 12, value: 2 }));
    assert_eq!(m.get_current_params(), None);
}

#[test]
fn readers_never_go_back_in_time() {
    let mut m: DeviceMonitor<Reading, u8> = DeviceMonitor::new();
    let mut seen: Vec<u64> = Vec::new();
    for step in 0..40u64 {
        if step % 3 != 2 {
            m.publish(Reading { update: 100 + step / 2, value: 0 });
        }
        if step % 4 == 1 {
            if let Some(r) = m.peek() {
                seen.push(r.update);
            }
        }
        if step % 5 == 0 || step % 7 == 3 {
            if let Some(r) = m.get_current_params() {
                seen.push(r.update);
            }
        }
    }
    assert!(seen.len() > 5);
    assert!(seen.windows(2).all(|w| w[0] <= w[1]));
}

#[test]
fn commands_leave_in_the_order_they_came() {
    let mut m: DeviceMonitor<Reading, MennekesAction> = DeviceMonitor::new();
    m.enqueue(set_amps(6));
    m.enqueue(authorize_user("04A1B2C3".to_string()));
    m.enqueue(set_amps(0));
    assert_eq!(m.pending_actions(), 3);
    assert!(matches!(m.next_action(), Some(MennekesAction::SetAmps(a)) if a.max_hems_current == 6));
    assert!(matches!(m.next_action(), Some(MennekesAction::AuthorizeUser(a)) if a.user_id == "04A1B2C3"));
    m.enqueue(set_amps(16));
    assert!(matches!(m.next_action(), Some(MennekesAction::SetAmps(a)) if a.max_hems_current == 0));
    assert!(matches!(m.next_action(), Some(MennekesAction::SetAmps(a)) if a.max_hems_current == 16));
    assert!(m.next_action().is_none());
    assert_eq!(m.pending_actions(), 0);
}

#[test]
fn commands_and_readings_do_not_touch_each_other() {
    let mut m: DeviceMonitor<Reading, u8> = DeviceMonitor::new();
    m.enqueue(7);
    m.publish(Reading { update: 1, value: 1 });
    assert_eq!(m.pending_actions(), 1);
    assert_eq!(m.get_current_params(), Some(Reading { update: 1, value: 1 }));
    assert_eq!(m.next_action(), Some(7));
    m.publish(Reading { update: 2, value: 2 });
    m.shutdown();
    assert!(!m.is_running());
    assert_eq!(m.peek(), Some(&Reading { update: 2, value: 2 }));
}

#[test]
fn poller_connects_polls_and_waits() {
    let mut p = Poller::new(2000);
    assert_eq!(p.current_phase(), PollerPhase::Created);
    assert_eq!(p.step(PollerEvent::Started, true), PollerCommand::Connect);
    assert_eq!(p.step(PollerEvent::Connected, true), PollerCommand::Poll);
    assert_eq!(p.step(PollerEvent::Polled { now: 10_000 }, true), PollerCommand::Serve);
    assert_eq!(p.current_phase(), PollerPhase::Waiting { until: 12_000 });
    assert_eq!(p.step(PollerEvent::Ticked { now: 11_000 }, true), PollerCommand::Serve);
    assert_eq!(p.step(PollerEvent::Ticked { now: 11_999 }, true), PollerCommand::Serve);
    assert_eq!(p.step(PollerEvent::Ticked { now: 12_000 }, true), PollerCommand::Poll);
    assert_eq!(p.current_phase(), PollerPhase::Polling);
    assert_eq!((TICK, WAIT_AFTER_ERROR), (1000, 8000));
    assert_eq!(PollerCommand::Serve.wait_millis(), 1000);
    assert_eq!(PollerCommand::BackOff.wait_millis(), 8000);
    assert_eq!(PollerCommand::Poll.wait_millis(), 0);
    assert_eq!(PollerCommand::Connect.wait_millis(), 0);
    assert_eq!(PollerCommand::Stop.wait_millis(), 0);
}

#[test]
fn poller_backs_off_after_failures() {
    let mut p = Poller::new(1000);
    p.step(PollerEvent::Started, true);
    assert_eq!(p.step(PollerEvent::ConnectFailed, true), PollerCommand::BackOff);
    assert_eq!(p.current_phase(), PollerPhase::BackingOff);
    assert_eq!(p.step(PollerEvent::BackedOff, true), PollerCommand::Connect);
    assert_eq!(p.step(PollerEvent::Connected, true), PollerCommand::Poll);
    assert_eq!(p.step(PollerEvent::PollFailed, true), PollerCommand::BackOff);
    assert_eq!(p.step(PollerEvent::BackedOff, true), PollerCommand::Connect);
}

#[test]
fn poller_stops_when_told_and_stays_stopped() {
    for events in [
        vec![],
        vec![PollerEvent::Started],
        vec![PollerEvent::Started, PollerEvent::Connected],
        vec![PollerEvent::Started, PollerEvent::Connected, PollerEvent::Polled { now: 5 }],
        vec![PollerEvent::Started, PollerEvent::ConnectFailed],
    ] {
        let mut p = Poller::new(3000);
        for e in events {
            assert_ne!(p.step(e, true), PollerCommand::Stop);
        }
        assert_eq!(p.step(PollerEvent::Ticked { now: 6 }, false), PollerCommand::Stop);
        assert_eq!(p.current_phase(), PollerPhase::Stopped);
        assert_eq!(p.step(PollerEvent::Started, true), PollerCommand::Stop);
        assert_eq!(p.step(PollerEvent::Connected, true), PollerCommand::Stop);
    }
}

#[test]
fn poller_repeats_its_command_on_an_event_that_does_not_answer_it() {
    let mut p = Poller::new(1000);
    assert_eq!(p.step(PollerEvent::Connected, true), PollerCommand::Connect);
    assert_eq!(p.current_phase(), PollerPhase::Created);
    p.step(PollerEvent::Started, true);
    assert_eq!(p.step(PollerEvent::Ticked { now: 1 }, true), PollerCommand::Connect);
    assert_eq!(p.step(PollerEvent::Polled { now: 1 }, true), PollerCommand::Connect);
    p.step(PollerEvent::Connected, true);
    assert_eq!(p.step(PollerEvent::BackedOff, true), PollerCommand::Poll);
    p.step(PollerEvent::Polled { now: 1 }, true);
    assert_eq!(p.step(PollerEvent::PollFailed, true), PollerCommand::Serve);
}

#[test]
fn poller_without_interval_polls_again_at_once() {
    let mut p = Poller::new(0);
    p.step(PollerEvent::Started, true);
    p.step(PollerEvent::Connected, true);
    assert_eq!(p.step(PollerEvent::Polled { now: 77 }, true), PollerCommand::Poll);
    let mut p = Poller::new(u64::MAX);
    p.step(PollerEvent::Started, true);
    p.step(PollerEvent::Connected, true);
    assert_eq!(p.step(PollerEvent::Polled { now: 77 }, true), PollerCommand::Serve);
    assert_eq!(p.current_phase(), PollerPhase::Waiting { until: u64::MAX });
    assert_eq!(p.step(PollerEvent::Polled { now: u64::MAX }, true), PollerCommand::Serve);
}
