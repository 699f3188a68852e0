use mehu_engine::event::{handle_event, handle_key_event, AppEvent, AppResult, SCANCODE_ESCAPE, SCANCODE_Q};

#[test]
fn escape_key_quits() {
    assert_eq!(handle_key_event(SCANCODE_ESCAPE), AppResult::Success);
    assert_eq!(handle_key_event(41), AppResult::Success);
}

#[test]
fn q_key_quits() {
    assert_eq!(handle_key_event(SCANCODE_Q), AppResult::Success);
    assert_eq!(handle_key_event(20), AppResult::Success);
}

#[test]
fn other_keys_continue() {
    assert_eq!(handle_key_event(0), AppResult::Continue);
    assert_eq!(handle_key_event(4), AppResult::Continue);
    assert_eq!(handle_key_event(40), AppResult::Continue);
    assert_eq!(handle_key_event(42), AppResult::Continue);
    assert_eq!(handle_key_event(u32::MAX), AppResult::Continue);
}

#[test]
fn quit_request_succeeds() {
    assert_eq!(handle_event(AppEvent::QuitRequested), AppResult::Success);
}

#[test]
fn key_events_dispatch_by_code() {
    assert_eq!(handle_event(AppEvent::KeyPressed { scancode: SCANCODE_ESCAPE }), AppResult::Success);
    assert_eq!(handle_event(AppEvent::KeyPressed { scancode: SCANCODE_Q }), AppResult::Success);
    assert_eq!(handle_event(AppEvent::KeyPressed { scancode: 7 }), AppResult::Continue);
}

#[test]
fn unknown_events_continue() {
    assert_eq!(handle_event(AppEvent::Other), AppResult::Continue);
}
