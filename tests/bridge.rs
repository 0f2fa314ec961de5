use std::sync::Arc;

use pushbridge::bridge::{ready_state, NativePushState};
use pushbridge::gateway::gateway_report;
use pushbridge::handles::HandleRegistry;
use pushbridge::phase::{is_ready, RegistrationPhase};
use pushbridge::receive::{receive_step, InboundEvent, LoopAction, LoopState};

fn run(events: Vec<InboundEvent<String>>, handles: &mut HandleRegistry<String>) -> (LoopState, Vec<LoopAction>) {
    let mut state = LoopState::Running;
    let mut actions = Vec::new();
    for event in events {
        let (next, action) = receive_step(state, event, handles);
        state = next;
        actions.push(action);
    }
    (state, actions)
}

fn msg(text: &str) -> InboundEvent<String> {
    InboundEvent::Message(text.to_string())
}

#[test]
fn ready_only_when_registered() {
    assert!(is_ready(RegistrationPhase::Registered));
    assert!(!is_ready(RegistrationPhase::WantsUserPass));
    assert!(!is_ready(RegistrationPhase::WantsValidator));
    assert!(!is_ready(RegistrationPhase::WantsRegister));
}

#[test]
fn scenario_two_messages_then_stop() {
    let mut handles = HandleRegistry::new();
    let events = vec![InboundEvent::Empty, msg("a"), InboundEvent::Empty, msg("b"), InboundEvent::Stop];
    let (state, actions) = run(events, &mut handles);
    assert_eq!(state, LoopState::Stopped);
    assert_eq!(
        actions,
        vec![LoopAction::Repoll, LoopAction::Deliver(1), LoopAction::Repoll, LoopAction::Deliver(2), LoopAction::Finish]
    );
    assert_eq!(handles.reclaim(1), Some("a".to_string()));
    assert_eq!(handles.reclaim(2), Some("b".to_string()));
    assert_eq!(handles.live_count(), 0);
}

#[test]
fn nothing_delivered_after_stop() {
    let mut handles = HandleRegistry::new();
    let events = vec![msg("x"), InboundEvent::Stop, msg("y"), InboundEvent::Empty, InboundEvent::Fault(None)];
    let (state, actions) = run(events, &mut handles);
    assert_eq!(state, LoopState::Stopped);
    assert_eq!(
        actions,
        vec![LoopAction::Deliver(1), LoopAction::Finish, LoopAction::Finish, LoopAction::Finish, LoopAction::Finish]
    );
    assert_eq!(handles.live_count(), 1);
    assert_eq!(handles.next_token(), 2);
}

#[test]
fn fault_does_not_stop_the_loop() {
    let mut handles = HandleRegistry::new();
    let events = vec![
        msg("before"),
        InboundEvent::Fault(Some("boom".to_string())),
        InboundEvent::Fault(None),
        msg("after"),
        InboundEvent::Stop,
    ];
    let (state, actions) = run(events, &mut handles);
    assert_eq!(state, LoopState::Stopped);
    assert_eq!(
        actions,
        vec![
            LoopAction::Deliver(1),
            LoopAction::LogFault(Some("boom".to_string())),
            LoopAction::LogFault(None),
            LoopAction::Deliver(2),
            LoopAction::Finish,
        ]
    );
    assert_eq!(handles.reclaim(2), Some("after".to_string()));
}

#[test]
fn empty_poll_keeps_running() {
    let mut handles: HandleRegistry<String> = HandleRegistry::new();
    let (state, action) = receive_step(LoopState::Running, InboundEvent::Empty, &mut handles);
    assert_eq!(state, LoopState::Running);
    assert_eq!(action, LoopAction::Repoll);
    assert_eq!(handles.next_token(), 1);
}

#[test]
fn transfer_handle_reclaimed_once() {
    let mut handles = HandleRegistry::new();
    let t = handles.publish(vec![7u8, 8, 9]);
    assert_eq!(t, 1);
    assert_eq!(handles.reclaim(t), Some(vec![7u8, 8, 9]));
    assert_eq!(handles.reclaim(t), None);
}

#[test]
fn unpublished_token_reclaims_nothing() {
    let mut handles: HandleRegistry<String> = HandleRegistry::new();
    assert_eq!(handles.reclaim(0), None);
    assert_eq!(handles.reclaim(1), None);
    let t = handles.publish("kept".to_string());
    assert_eq!(handles.reclaim(t + 1), None);
    assert_eq!(handles.live_count(), 1);
}

#[test]
fn fresh_registry_has_room() {
    let handles: HandleRegistry<u64> = HandleRegistry::new();
    assert!(handles.has_room());
    assert_eq!(handles.next_token(), 1);
    assert_eq!(handles.live_count(), 0);
}

#[test]
fn state_handles_are_distinct() {
    let session = Arc::new("session".to_string());
    let state = NativePushState::new(session.clone());
    let mut handles = HandleRegistry::new();
    let first = state.get_state(&mut handles);
    let second = state.get_state(&mut handles);
    assert_ne!(first, second);
    let a = handles.reclaim(first).unwrap();
    let b = handles.reclaim(second).unwrap();
    assert!(Arc::ptr_eq(&a, &session));
    assert!(Arc::ptr_eq(&b, &session));
    assert_eq!(Arc::strong_count(&session), 4);
    drop(a);
    drop(b);
    assert_eq!(Arc::strong_count(&session), 2);
}

#[test]
fn start_up_reports_readiness() {
    let session = Arc::new(5u32);
    let (ready, state) = ready_state(session.clone(), RegistrationPhase::Registered);
    assert!(ready);
    let mut handles = HandleRegistry::new();
    let t = state.get_state(&mut handles);
    assert!(Arc::ptr_eq(&handles.reclaim(t).unwrap(), &session));
    let (ready, _) = ready_state(session, RegistrationPhase::WantsValidator);
    assert!(!ready);
}

#[test]
fn gateway_success_reported() {
    let r = gateway_report(Ok("gw.example.net".to_string()));
    assert_eq!(r, (Some("gw.example.net".to_string()), None));
}

#[test]
fn gateway_failure_reported() {
    let r = gateway_report(Err("unknown carrier".to_string()));
    assert_eq!(r, (None, Some("unknown carrier".to_string())));
}
