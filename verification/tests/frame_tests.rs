use mehu_engine::event::AppResult;
use mehu_engine::frame::{
    frame_next, iterate_outcome, FrameAction, FrameEvent, FrameMachine, FrameState,
};

fn drive(machine: &mut FrameMachine, events: &[FrameEvent]) -> Vec<FrameAction> {
    let mut actions = Vec::new();
    for e in events {
        actions.push(machine.next_action());
        machine.step(*e);
    }
    actions
}

#[test]
fn happy_frame_submits_with_one_pass() {
    let mut m = FrameMachine::new();
    assert_eq!(m.state, FrameState::Idle);
    let actions = drive(
        &mut m,
        &[
            FrameEvent::Completed,
            FrameEvent::TexturePresent,
            FrameEvent::Completed,
            FrameEvent::Completed,
        ],
    );
    assert_eq!(
        actions,
        vec![
            FrameAction::AcquireCommandBuffer,
            FrameAction::AcquireSwapchain,
            FrameAction::RecordPass,
            FrameAction::Submit,
        ]
    );
    assert_eq!(m.state, FrameState::Submitted);
    assert!(m.done());
    let passes = actions.iter().filter(|a| **a == FrameAction::RecordPass).count();
    assert_eq!(passes, 1);
    assert_eq!(iterate_outcome(m.state), AppResult::Continue);
}

#[test]
fn absent_texture_cancels_and_frame_succeeds() {
    let mut m = FrameMachine::new();
    let actions = drive(
        &mut m,
        &[FrameEvent::Completed, FrameEvent::TextureAbsent, FrameEvent::Completed],
    );
    assert_eq!(
        actions,
        vec![
            FrameAction::AcquireCommandBuffer,
            FrameAction::AcquireSwapchain,
            FrameAction::Cancel,
        ]
    );
    assert_eq!(m.state, FrameState::Cancelled);
    assert!(m.done());
    assert!(!actions.contains(&FrameAction::RecordPass));
    assert!(!actions.contains(&FrameAction::Submit));
    assert_eq!(iterate_outcome(m.state), AppResult::Continue);
}

#[test]
fn acquire_failure_fails_the_frame() {
    let mut m = FrameMachine::new();
    m.step(FrameEvent::DeviceFailed);
    assert_eq!(m.state, FrameState::Failed);
    assert!(m.done());
    assert_eq!(m.next_action(), FrameAction::Stop);
    assert_eq!(iterate_outcome(m.state), AppResult::Failure);
}

#[test]
fn swapchain_failure_fails_the_frame() {
    let mut m = FrameMachine::new();
    m.step(FrameEvent::Completed);
    m.step(FrameEvent::DeviceFailed);
    assert_eq!(m.state, FrameState::Failed);
    assert_eq!(iterate_outcome(m.state), AppResult::Failure);
}

#[test]
fn submit_failure_fails_the_frame() {
    let mut m = FrameMachine::new();
    m.step(FrameEvent::Completed);
    m.step(FrameEvent::TexturePresent);
    m.step(FrameEvent::Completed);
    m.step(FrameEvent::DeviceFailed);
    assert_eq!(m.state, FrameState::Failed);
}

#[test]
fn cancel_failure_fails_the_frame() {
    let mut m = FrameMachine::new();
    m.step(FrameEvent::Completed);
    m.step(FrameEvent::TextureAbsent);
    m.step(FrameEvent::DeviceFailed);
    assert_eq!(m.state, FrameState::Failed);
}

#[test]
fn terminal_states_absorb_every_event() {
    for terminal in [FrameState::Submitted, FrameState::Cancelled, FrameState::Failed] {
        for e in [
            FrameEvent::Completed,
            FrameEvent::DeviceFailed,
            FrameEvent::TexturePresent,
            FrameEvent::TextureAbsent,
        ] {
            assert_eq!(frame_next(terminal, e), terminal);
        }
    }
}

#[test]
fn pass_needs_a_present_texture() {
    // No single transition reaches the render pass except from a frame
    // that saw a present swapchain texture.
    let all_states = [
        FrameState::Idle,
        FrameState::Acquired,
        FrameState::SwapchainReady,
        FrameState::SwapchainAbsent,
        FrameState::PassActive,
        FrameState::Submitted,
        FrameState::Cancelled,
        FrameState::Failed,
    ];
    let all_events = [
        FrameEvent::Completed,
        FrameEvent::DeviceFailed,
        FrameEvent::TexturePresent,
        FrameEvent::TextureAbsent,
    ];
    for s in all_states {
        for e in all_events {
            let next = frame_next(s, e);
            if next == FrameState::PassActive {
                assert_eq!(s, FrameState::SwapchainReady);
            }
            if next == FrameState::SwapchainReady && s != FrameState::SwapchainReady {
                assert_eq!(s, FrameState::Acquired);
                assert_eq!(e, FrameEvent::TexturePresent);
            }
        }
    }
}
