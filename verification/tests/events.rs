use vk_bootstrap::control::ControlFlag;
use vk_bootstrap::events::{dispatch, run_events, LoopEvent};

fn key(key_text: &str, escape: bool, pressed: bool) -> LoopEvent {
    LoopEvent::Keyboard { key_text: key_text.to_string(), escape, pressed }
}

fn mouse(button_text: &str, state_text: &str) -> LoopEvent {
    LoopEvent::Mouse { button_text: button_text.to_string(), state_text: state_text.to_string() }
}

#[test]
fn close_request_exits_under_either_policy() {
    for policy in [false, true] {
        let (flag, logs) = dispatch(policy, &LoopEvent::CloseRequested);
        assert_eq!(flag, ControlFlag::Exit);
        assert!(logs.is_empty());
    }
}

#[test]
fn escape_press_exits_when_policy_enabled() {
    let (flag, logs) = dispatch(true, &key("Some(Escape)", true, true));
    assert_eq!(flag, ControlFlag::Exit);
    assert_eq!(
        logs,
        vec![
            "input.virtual_keycode=Some(Escape)".to_string(),
            "Escape key pressed!".to_string(),
        ]
    );
}

#[test]
fn escape_press_only_logs_when_policy_disabled() {
    let (flag, logs) = dispatch(false, &key("Some(Escape)", true, true));
    assert_eq!(flag, ControlFlag::Wait);
    assert_eq!(
        logs,
        vec![
            "input.virtual_keycode=Some(Escape)".to_string(),
            "Escape key pressed!".to_string(),
        ]
    );
}

#[test]
fn escape_release_logs_and_keeps_waiting() {
    for policy in [false, true] {
        let (flag, logs) = dispatch(policy, &key("Some(Escape)", true, false));
        assert_eq!(flag, ControlFlag::Wait);
        assert_eq!(
            logs,
            vec![
                "input.virtual_keycode=Some(Escape)".to_string(),
                "Escape key released!".to_string(),
            ]
        );
    }
}

#[test]
fn ordinary_key_press_is_informational() {
    let (flag, logs) = dispatch(true, &key("Some(A)", false, true));
    assert_eq!(flag, ControlFlag::Wait);
    assert_eq!(logs, vec!["input.virtual_keycode=Some(A)".to_string()]);
}

#[test]
fn mouse_input_is_informational() {
    let (flag, logs) = dispatch(true, &mouse("Left", "Pressed"));
    assert_eq!(flag, ControlFlag::Wait);
    assert_eq!(logs, vec!["mouseInput button=Left state=Pressed".to_string()]);
}

#[test]
fn cursor_motion_is_informational() {
    let event = LoopEvent::CursorMoved { position_text: "(120, 48)".to_string() };
    let (flag, logs) = dispatch(true, &event);
    assert_eq!(flag, ControlFlag::Wait);
    assert_eq!(logs, vec!["cursorMoved position=(120, 48)".to_string()]);
}

#[test]
fn other_events_are_logged_generically() {
    let event = LoopEvent::Other { detail_text: "Focused(true)".to_string() };
    let (flag, logs) = dispatch(true, &event);
    assert_eq!(flag, ControlFlag::Wait);
    assert_eq!(logs, vec!["other Focused(true)".to_string()]);
}

#[test]
fn idle_run_keeps_waiting() {
    let outcome = run_events(true, &Vec::new());
    assert_eq!(outcome.flag, ControlFlag::Wait);
    assert_eq!(outcome.processed, 0);
    assert!(outcome.logs.is_empty());
}

#[test]
fn benign_sequence_runs_to_completion() {
    let events = vec![
        mouse("Right", "Released"),
        LoopEvent::CursorMoved { position_text: "(1, 2)".to_string() },
        key("Some(W)", false, true),
        LoopEvent::Other { detail_text: "Moved".to_string() },
    ];
    for policy in [false, true] {
        let outcome = run_events(policy, &events);
        assert_eq!(outcome.flag, ControlFlag::Wait);
        assert_eq!(outcome.processed, 4);
        assert_eq!(
            outcome.logs,
            vec![
                "mouseInput button=Right state=Released".to_string(),
                "cursorMoved position=(1, 2)".to_string(),
                "input.virtual_keycode=Some(W)".to_string(),
                "other Moved".to_string(),
            ]
        );
    }
}

#[test]
fn close_request_stops_the_run() {
    let events = vec![
        mouse("Left", "Pressed"),
        LoopEvent::CloseRequested,
        mouse("Left", "Released"),
    ];
    let outcome = run_events(true, &events);
    assert_eq!(outcome.flag, ControlFlag::Exit);
    assert_eq!(outcome.processed, 2);
    assert_eq!(outcome.logs, vec!["mouseInput button=Left state=Pressed".to_string()]);
}

#[test]
fn escape_press_stops_the_run_when_policy_enabled() {
    let events = vec![key("Some(A)", false, true), key("Some(Escape)", true, true)];
    let outcome = run_events(true, &events);
    assert_eq!(outcome.flag, ControlFlag::Exit);
    assert_eq!(outcome.processed, 2);
    assert_eq!(
        outcome.logs,
        vec![
            "input.virtual_keycode=Some(A)".to_string(),
            "input.virtual_keycode=Some(Escape)".to_string(),
            "Escape key pressed!".to_string(),
        ]
    );
}

#[test]
fn escape_press_does_not_stop_the_run_when_policy_disabled() {
    let events = vec![key("Some(Escape)", true, true), mouse("Middle", "Pressed")];
    let outcome = run_events(false, &events);
    assert_eq!(outcome.flag, ControlFlag::Wait);
    assert_eq!(outcome.processed, 2);
    assert_eq!(
        outcome.logs,
        vec![
            "input.virtual_keycode=Some(Escape)".to_string(),
            "Escape key pressed!".to_string(),
            "mouseInput button=Middle state=Pressed".to_string(),
        ]
    );
}

#[test]
fn control_flag_reports_exit() {
    assert!(ControlFlag::Exit.requests_exit());
    assert!(!ControlFlag::Wait.requests_exit());
    assert!(!ControlFlag::Poll.requests_exit());
}
