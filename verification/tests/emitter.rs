use wsprobe::emitter::{Emitter, EmitterAction, EmitterEvent, EmitterPhase, TICK_INTERVAL_MILLIS};

#[test]
fn tick_interval_is_200_milliseconds() {
    assert_eq!(TICK_INTERVAL_MILLIS, 200);
}

#[test]
fn new_emitter_waits_to_send_zero() {
    let emitter = Emitter::new();
    assert_eq!(emitter.phase(), EmitterPhase::Waiting);
    assert_eq!(emitter.next_id(), 0);
    assert!(!emitter.is_stopped());
    assert!(emitter.can_tick());
}

#[test]
fn first_tick_sends_message_id_zero() {
    let mut emitter = Emitter::new();
    assert_eq!(
        emitter.on_event(EmitterEvent::Tick),
        EmitterAction::Send { id: 0, payload: "Message ID: 0".to_string() }
    );
    assert_eq!(emitter.phase(), EmitterPhase::Sending);
    assert_eq!(emitter.next_id(), 0);
    assert_eq!(emitter.on_event(EmitterEvent::Written), EmitterAction::Sent { id: 0 });
    assert_eq!(emitter.phase(), EmitterPhase::Waiting);
    assert_eq!(emitter.next_id(), 1);
}

#[test]
fn five_ticks_send_ids_zero_to_four() {
    let mut emitter = Emitter::new();
    let mut sent: Vec<String> = Vec::new();
    let mut tick: u64 = 0;
    while tick < 5 {
        match emitter.on_event(EmitterEvent::Tick) {
            EmitterAction::Send { id, payload } => {
                assert_eq!(id, tick);
                sent.push(payload);
            }
            other => panic!("unexpected action {:?}", other),
        }
        assert_eq!(emitter.on_event(EmitterEvent::Written), EmitterAction::Sent { id: tick });
        tick += 1;
    }
    assert_eq!(
        sent,
        vec!["Message ID: 0", "Message ID: 1", "Message ID: 2", "Message ID: 3", "Message ID: 4"]
    );
    assert_eq!(emitter.next_id(), 5);
    assert_eq!(emitter.phase(), EmitterPhase::Waiting);
}

#[test]
fn cancellation_preempts_the_tick() {
    let mut emitter = Emitter::new();
    assert_eq!(emitter.on_event(EmitterEvent::Cancelled), EmitterAction::Finish);
    assert!(emitter.is_stopped());
    assert_eq!(emitter.next_id(), 0);
}

#[test]
fn cancellation_between_two_sends() {
    let mut emitter = Emitter::new();
    emitter.on_event(EmitterEvent::Tick);
    emitter.on_event(EmitterEvent::Written);
    emitter.on_event(EmitterEvent::Tick);
    emitter.on_event(EmitterEvent::Written);
    assert_eq!(emitter.on_event(EmitterEvent::Cancelled), EmitterAction::Finish);
    assert_eq!(emitter.phase(), EmitterPhase::Stopped);
    assert_eq!(emitter.next_id(), 2);
}

#[test]
fn write_failure_ends_the_loop_with_an_error() {
    let mut emitter = Emitter::new();
    emitter.on_event(EmitterEvent::Tick);
    emitter.on_event(EmitterEvent::Written);
    emitter.on_event(EmitterEvent::Tick);
    assert_eq!(emitter.on_event(EmitterEvent::WriteFailed), EmitterAction::Fail);
    assert!(emitter.is_stopped());
    assert_eq!(emitter.next_id(), 1);
}

#[test]
fn a_write_under_way_is_not_cut_short_by_cancellation() {
    let mut emitter = Emitter::new();
    emitter.on_event(EmitterEvent::Tick);
    assert_eq!(emitter.on_event(EmitterEvent::Cancelled), EmitterAction::Nothing);
    assert_eq!(emitter.phase(), EmitterPhase::Sending);
    assert_eq!(emitter.on_event(EmitterEvent::Tick), EmitterAction::Nothing);
    assert_eq!(emitter.on_event(EmitterEvent::Written), EmitterAction::Sent { id: 0 });
    assert_eq!(emitter.on_event(EmitterEvent::Cancelled), EmitterAction::Finish);
}

#[test]
fn write_results_mean_nothing_to_a_waiting_emitter() {
    let mut emitter = Emitter::new();
    assert_eq!(emitter.on_event(EmitterEvent::Written), EmitterAction::Nothing);
    assert_eq!(emitter.on_event(EmitterEvent::WriteFailed), EmitterAction::Nothing);
    assert_eq!(emitter.phase(), EmitterPhase::Waiting);
    assert_eq!(emitter.next_id(), 0);
}

#[test]
fn a_stopped_emitter_stays_stopped() {
    let mut emitter = Emitter::new();
    emitter.on_event(EmitterEvent::Cancelled);
    for event in [EmitterEvent::Tick, EmitterEvent::Cancelled, EmitterEvent::Written, EmitterEvent::WriteFailed] {
        assert_eq!(emitter.on_event(event), EmitterAction::Nothing);
        assert!(emitter.is_stopped());
        assert_eq!(emitter.next_id(), 0);
    }
}
