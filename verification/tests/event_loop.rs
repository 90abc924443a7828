use tuffi::event_loop::{drain, turn, LoopEvent, Turn, UiAction};

fn run(script: &str) -> UiAction {
    UiAction::EvaluateScript(script.to_string())
}

#[test]
fn a_close_request_ends_the_loop() {
    assert_eq!(turn(LoopEvent::CloseRequested), Turn::Exit);
}

#[test]
fn cleared_events_drain_the_queues() {
    assert_eq!(turn(LoopEvent::EventsCleared), Turn::Drain);
}

#[test]
fn other_events_leave_the_loop_polling() {
    assert_eq!(turn(LoopEvent::Started), Turn::Idle);
    assert_eq!(turn(LoopEvent::Other), Turn::Idle);
}

#[test]
fn an_empty_drain_does_nothing() {
    assert_eq!(drain(0, &[]), Vec::new());
}

#[test]
fn each_reload_signal_reloads_and_redraws() {
    assert_eq!(
        drain(1, &[]),
        vec![UiAction::Reload("import.meta.hot.invalidate()".to_string()), UiAction::RequestRedraw]
    );
    assert_eq!(
        drain(3, &[]),
        vec![
            UiAction::Reload("import.meta.hot.invalidate()".to_string()),
            UiAction::RequestRedraw,
            UiAction::Reload("import.meta.hot.invalidate()".to_string()),
            UiAction::RequestRedraw,
            UiAction::Reload("import.meta.hot.invalidate()".to_string()),
            UiAction::RequestRedraw,
        ]
    );
}

#[test]
fn each_payload_is_run_and_redrawn_in_order() {
    assert_eq!(
        drain(0, &["first()".to_string(), "second()".to_string()]),
        vec![
            run("first()"),
            UiAction::RequestRedraw,
            run("second()"),
            UiAction::RequestRedraw,
        ]
    );
}

#[test]
fn reloads_come_before_payloads() {
    assert_eq!(
        drain(2, &["a".to_string(), "".to_string(), "a".to_string()]),
        vec![
            UiAction::Reload("import.meta.hot.invalidate()".to_string()),
            UiAction::RequestRedraw,
            UiAction::Reload("import.meta.hot.invalidate()".to_string()),
            UiAction::RequestRedraw,
            run("a"),
            UiAction::RequestRedraw,
            run(""),
            UiAction::RequestRedraw,
            run("a"),
            UiAction::RequestRedraw,
        ]
    );
}
