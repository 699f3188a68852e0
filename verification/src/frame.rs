//! The per-frame render protocol as a state machine. One frame acquires a
//! command buffer, asks the window for a swapchain texture, and then
//! either records exactly one render pass and submits, or — when the
//! window has no texture to give, a normal condition — cancels the
//! command buffer and ends as a successful no-op. The machine decides;
//! the platform layer performs each action against the device and feeds
//! the outcome back as an event.

use vstd::prelude::*;
use crate::event::AppResult;

verus! {

/// Where a frame stands.
#[derive(Clone, Copy, PartialEq, Eq, Structural, Debug)]
pub enum FrameState {
    /// Nothing acquired yet.
    Idle,
    /// The command buffer is acquired.
    Acquired,
    /// A swapchain texture is in hand.
    SwapchainReady,
    /// The window reported no swapchain texture this frame.
    SwapchainAbsent,
    /// The one render pass of the frame has been recorded.
    PassActive,
    /// Terminal: the command buffer was submitted.
    Submitted,
    /// Terminal: the command buffer was cancelled; a successful no-op
    /// frame.
    Cancelled,
    /// Terminal: a device call failed; the frame is abandoned.
    Failed,
}

/// The outcome of performing one action, reported back by the platform
/// layer.
#[derive(Clone, Copy, PartialEq, Eq, Structural, Debug)]
pub enum FrameEvent {
    /// The action completed.
    Completed,
    /// The device reported an error.
    DeviceFailed,
    /// The swapchain query completed and a texture is present.
    TexturePresent,
    /// The swapchain query completed with no texture; not an error.
    TextureAbsent,
}

/// What the platform layer must do next.
#[derive(Clone, Copy, PartialEq, Eq, Structural, Debug)]
pub enum FrameAction {
    /// Acquire the frame's command buffer from the device.
    AcquireCommandBuffer,
    /// Ask the window for this frame's swapchain texture.
    AcquireSwapchain,
    /// Record the frame's single render pass: begin against the acquired
    /// texture, bind the pipeline, draw once, end the pass.
    RecordPass,
    /// Submit the command buffer.
    Submit,
    /// Cancel the command buffer without drawing.
    Cancel,
    /// The frame is over.
    Stop,
}

/// The three terminal states.
pub open spec fn spec_is_terminal(s: FrameState) -> bool {
    s is Submitted || s is Cancelled || s is Failed
}

/// The action owed in each state.
pub open spec fn spec_frame_action(s: FrameState) -> FrameAction {
    match s {
        FrameState::Idle => FrameAction::AcquireCommandBuffer,
        FrameState::Acquired => FrameAction::AcquireSwapchain,
        FrameState::SwapchainReady => FrameAction::RecordPass,
        FrameState::PassActive => FrameAction::Submit,
        FrameState::SwapchainAbsent => FrameAction::Cancel,
        FrameState::Submitted => FrameAction::Stop,
        FrameState::Cancelled => FrameAction::Stop,
        FrameState::Failed => FrameAction::Stop,
    }
}

/// The transition relation. Terminal states absorb every event; a device
/// failure, or an event the pending action cannot produce, fails the
/// frame.
pub open spec fn spec_frame_next(s: FrameState, e: FrameEvent) -> FrameState {
    if spec_is_terminal(s) {
        s
    } else {
        match s {
            FrameState::Idle => match e {
                FrameEvent::Completed => FrameState::Acquired,
                _ => FrameState::Failed,
            },
            FrameState::Acquired => match e {
                FrameEvent::TexturePresent => FrameState::SwapchainReady,
                FrameEvent::TextureAbsent => FrameState::SwapchainAbsent,
                _ => FrameState::Failed,
            },
            FrameState::SwapchainReady => match e {
                FrameEvent::Completed => FrameState::PassActive,
                _ => FrameState::Failed,
            },
            FrameState::PassActive => match e {
                FrameEvent::Completed => FrameState::Submitted,
                _ => FrameState::Failed,
            },
            FrameState::SwapchainAbsent => match e {
                FrameEvent::Completed => FrameState::Cancelled,
                _ => FrameState::Failed,
            },
            _ => s,
        }
    }
}

/// Can the action owed in state `s` report event `e` at all? Recording a
/// pass always completes; the swapchain query may also report a present
/// or absent texture; every device call may fail.
pub open spec fn spec_event_ok(s: FrameState, e: FrameEvent) -> bool {
    match s {
        FrameState::Idle => e is Completed || e is DeviceFailed,
        FrameState::Acquired => e is TexturePresent || e is TextureAbsent || e is DeviceFailed,
        FrameState::SwapchainReady => e is Completed,
        FrameState::PassActive => e is Completed || e is DeviceFailed,
        FrameState::SwapchainAbsent => e is Completed || e is DeviceFailed,
        _ => true,
    }
}

/// Steps left until a terminal state, on the longest path.
pub open spec fn spec_frame_rank(s: FrameState) -> nat {
    match s {
        FrameState::Idle => 4,
        FrameState::Acquired => 3,
        FrameState::SwapchainReady => 2,
        FrameState::PassActive => 1,
        FrameState::SwapchainAbsent => 1,
        _ => 0,
    }
}

/// The state reached from `s` after the whole event sequence.
pub open spec fn spec_run(s: FrameState, events: Seq<FrameEvent>) -> FrameState
    decreases events.len(),
{
    if events.len() == 0 {
        s
    } else {
        spec_run(spec_frame_next(s, events[0]), events.skip(1))
    }
}

/// The state a frame driven from idle is in after its first `k` events.
pub open spec fn spec_state_at(events: Seq<FrameEvent>, k: int) -> FrameState {
    spec_run(FrameState::Idle, events.take(k))
}

/// Every event of the run is one its pending action can produce, and none
/// is a device failure.
pub open spec fn spec_clean_run(s: FrameState, events: Seq<FrameEvent>) -> bool
    decreases events.len(),
{
    if events.len() == 0 {
        true
    } else {
        &&& spec_event_ok(s, events[0])
        &&& !(events[0] is DeviceFailed)
        &&& spec_clean_run(spec_frame_next(s, events[0]), events.skip(1))
    }
}

/// Running a concatenation runs the parts in order.
pub proof fn lemma_run_append(s: FrameState, a: Seq<FrameEvent>, b: Seq<FrameEvent>)
    ensures
        spec_run(s, a + b) == spec_run(spec_run(s, a), b),
    decreases a.len(),
{
    if a.len() == 0 {
        assert(a + b =~= b);
    } else {
        assert((a + b)[0] == a[0]);
        assert((a + b).skip(1) =~= a.skip(1) + b);
        lemma_run_append(spec_frame_next(s, a[0]), a.skip(1), b);
    }
}

/// Terminal states absorb every further event.
pub proof fn lemma_terminal_absorbing(s: FrameState, events: Seq<FrameEvent>)
    requires
        spec_is_terminal(s),
    ensures
        spec_run(s, events) == s,
    decreases events.len(),
{
    if events.len() != 0 {
        lemma_terminal_absorbing(s, events.skip(1));
    }
}

/// Once a frame run reaches a terminal state it stays in that very state.
pub proof fn lemma_terminal_persists(events: Seq<FrameEvent>, i: int, j: int)
    requires
        0 <= i <= j <= events.len(),
        spec_is_terminal(spec_state_at(events, i)),
    ensures
        spec_state_at(events, j) == spec_state_at(events, i),
{
    assert(events.take(j) =~= events.take(i) + events.subrange(i, j));
    lemma_run_append(FrameState::Idle, events.take(i), events.subrange(i, j));
    lemma_terminal_absorbing(spec_state_at(events, i), events.subrange(i, j));
}

/// A command buffer is never both submitted and cancelled: a run from
/// idle that has reached the submitted outcome is never seen cancelled,
/// at any point of the run, in either order.
pub proof fn lemma_frame_outcomes_exclusive(events: Seq<FrameEvent>, i: int, j: int)
    requires
        0 <= i <= events.len(),
        0 <= j <= events.len(),
        spec_state_at(events, i) is Submitted,
    ensures
        !(spec_state_at(events, j) is Cancelled),
{
    if spec_state_at(events, j) is Cancelled {
        if i <= j {
            lemma_terminal_persists(events, i, j);
        } else {
            lemma_terminal_persists(events, j, i);
        }
    }
}

/// The render pass is entered only on a present swapchain texture, and
/// each terminal outcome has exactly one way in: submission follows the
/// recorded pass, cancellation follows an absent texture.
pub proof fn lemma_pass_requires_texture(s: FrameState, e: FrameEvent)
    ensures
        spec_frame_next(s, e) is PassActive ==> s is SwapchainReady,
        spec_frame_next(s, e) is SwapchainReady ==> s is Acquired && e is TexturePresent,
        spec_frame_next(s, e) is Submitted ==> s is PassActive || s is Submitted,
        spec_frame_next(s, e) is Cancelled ==> s is SwapchainAbsent || s is Cancelled,
{
}

/// A frame run starts idle.
pub proof fn lemma_frame_starts_idle(events: Seq<FrameEvent>)
    ensures
        spec_state_at(events, 0) == FrameState::Idle,
{
    assert(events.take(0) =~= Seq::<FrameEvent>::empty());
}

/// One step of a frame run.
pub proof fn lemma_state_at_step(events: Seq<FrameEvent>, i: int)
    requires
        0 <= i < events.len(),
    ensures
        spec_state_at(events, i + 1) == spec_frame_next(spec_state_at(events, i), events[i]),
{
    reveal_with_fuel(spec_run, 2);
    assert(events.take(i + 1) =~= events.take(i) + seq![events[i]]);
    lemma_run_append(FrameState::Idle, events.take(i), seq![events[i]]);
    assert(seq![events[i]].skip(1) =~= Seq::<FrameEvent>::empty());
    assert(spec_run(spec_state_at(events, i), seq![events[i]]) == spec_frame_next(
        spec_state_at(events, i),
        events[i],
    ));
}

/// At the run level, the render pass is entered only right after the
/// swapchain reported a present texture: a frame seen in the pass was in
/// the ready state one step earlier, and a frame seen ready had just been
/// told the texture is present.
pub proof fn lemma_pass_entered_after_texture(events: Seq<FrameEvent>, j: int)
    requires
        0 <= j <= events.len(),
    ensures
        spec_state_at(events, j) is PassActive ==> j >= 1 && spec_state_at(
            events,
            j - 1,
        ) is SwapchainReady,
        spec_state_at(events, j) is SwapchainReady ==> j >= 1 && spec_state_at(
            events,
            j - 1,
        ) is Acquired && events[j - 1] is TexturePresent,
{
    lemma_frame_starts_idle(events);
    if j >= 1 {
        lemma_state_at_step(events, j - 1);
        lemma_pass_requires_texture(spec_state_at(events, j - 1), events[j - 1]);
    }
}

/// After leaving the ready state a run never returns to it: each frame
/// records at most one render pass.
pub proof fn lemma_at_most_one_pass(events: Seq<FrameEvent>, i: int, j: int)
    requires
        0 <= i < j <= events.len(),
        spec_state_at(events, i) is SwapchainReady,
    ensures
        !(spec_state_at(events, j) is SwapchainReady),
    decreases j - i,
{
    lemma_state_at_step(events, i);
    let s1 = spec_state_at(events, i + 1);
    if s1 is PassActive {
        if i + 1 < j {
            lemma_pass_leads_to_terminal(events, i + 1, j);
        }
    } else {
        assert(s1 is Failed);
        lemma_terminal_persists(events, i + 1, j);
    }
}

/// From the recorded pass the run can only submit or fail: every later
/// point of the run is one of those terminal states.
pub proof fn lemma_pass_leads_to_terminal(events: Seq<FrameEvent>, i: int, j: int)
    requires
        0 <= i < j <= events.len(),
        spec_state_at(events, i) is PassActive,
    ensures
        spec_state_at(events, j) is Submitted || spec_state_at(events, j) is Failed,
{
    lemma_state_at_step(events, i);
    let s1 = spec_state_at(events, i + 1);
    assert(s1 is Submitted || s1 is Failed);
    lemma_terminal_persists(events, i + 1, j);
}

/// A cancelled frame never touched the render pass: wherever a run is
/// seen cancelled, at no point was it in the ready state or in the pass.
pub proof fn lemma_cancelled_frame_has_no_pass(events: Seq<FrameEvent>, i: int, j: int)
    requires
        0 <= i <= events.len(),
        0 <= j <= events.len(),
        spec_state_at(events, j) is Cancelled,
    ensures
        !(spec_state_at(events, i) is PassActive),
        !(spec_state_at(events, i) is SwapchainReady),
{
    if i >= j {
        lemma_terminal_persists(events, j, i);
    } else {
        if spec_state_at(events, i) is PassActive {
            lemma_pass_leads_to_terminal(events, i, j);
        }
        if spec_state_at(events, i) is SwapchainReady {
            lemma_at_most_one_pass(events, i, j);
            lemma_state_at_step(events, i);
            let s1 = spec_state_at(events, i + 1);
            if s1 is PassActive {
                if i + 1 < j {
                    lemma_pass_leads_to_terminal(events, i + 1, j);
                } else {
                    assert(spec_state_at(events, j) == s1);
                }
            } else {
                lemma_terminal_persists(events, i + 1, j);
            }
        }
    }
}

/// A frame whose device calls all succeed ends in a terminal state that
/// is not a failure, once it has been driven for enough steps.
pub proof fn lemma_clean_run_completes(s: FrameState, events: Seq<FrameEvent>)
    requires
        !(s is Failed),
        spec_clean_run(s, events),
        events.len() >= spec_frame_rank(s),
    ensures
        spec_is_terminal(spec_run(s, events)),
        !(spec_run(s, events) is Failed),
    decreases events.len(),
{
    if spec_is_terminal(s) {
        lemma_terminal_absorbing(s, events);
    } else {
        let s2 = spec_frame_next(s, events[0]);
        assert(!(s2 is Failed));
        assert(spec_frame_rank(s2) < spec_frame_rank(s));
        lemma_clean_run_completes(s2, events.skip(1));
    }
}

/// Frame protocol invariant, for a whole frame: driven from idle by
/// events its actions can produce, with no device failure, a run of at
/// least four steps ends in exactly one of the submitted or cancelled
/// outcomes — and by [`lemma_frame_outcomes_exclusive`] it can never have
/// passed through the other.
pub proof fn lemma_frame_protocol(events: Seq<FrameEvent>)
    requires
        spec_clean_run(FrameState::Idle, events),
        events.len() >= 4,
    ensures
        spec_run(FrameState::Idle, events) is Submitted || spec_run(
            FrameState::Idle,
            events,
        ) is Cancelled,
{
    lemma_clean_run_completes(FrameState::Idle, events);
}

/// Compute the action owed in a state.
pub fn frame_action(s: FrameState) -> (r: FrameAction)
    ensures
        r == spec_frame_action(s),
{
    match s {
        FrameState::Idle => FrameAction::AcquireCommandBuffer,
        FrameState::Acquired => FrameAction::AcquireSwapchain,
        FrameState::SwapchainReady => FrameAction::RecordPass,
        FrameState::PassActive => FrameAction::Submit,
        FrameState::SwapchainAbsent => FrameAction::Cancel,
        FrameState::Submitted => FrameAction::Stop,
        FrameState::Cancelled => FrameAction::Stop,
        FrameState::Failed => FrameAction::Stop,
    }
}

/// Compute one transition.
pub fn frame_next(s: FrameState, e: FrameEvent) -> (r: FrameState)
    ensures
        r == spec_frame_next(s, e),
{
    match s {
        FrameState::Idle => match e {
            FrameEvent::Completed => FrameState::Acquired,
            _ => FrameState::Failed,
        },
        FrameState::Acquired => match e {
            FrameEvent::TexturePresent => FrameState::SwapchainReady,
            FrameEvent::TextureAbsent => FrameState::SwapchainAbsent,
            _ => FrameState::Failed,
        },
        FrameState::SwapchainReady => match e {
            FrameEvent::Completed => FrameState::PassActive,
            _ => FrameState::Failed,
        },
        FrameState::PassActive => match e {
            FrameEvent::Completed => FrameState::Submitted,
            _ => FrameState::Failed,
        },
        FrameState::SwapchainAbsent => match e {
            FrameEvent::Completed => FrameState::Cancelled,
            _ => FrameState::Failed,
        },
        FrameState::Submitted => FrameState::Submitted,
        FrameState::Cancelled => FrameState::Cancelled,
        FrameState::Failed => FrameState::Failed,
    }
}

/// The running state of one frame, for the platform layer to drive: ask
/// for the next action, perform it, feed the outcome back.
#[derive(Clone, Copy, PartialEq, Eq, Structural, Debug)]
pub struct FrameMachine {
    pub state: FrameState,
}

impl FrameMachine {
    /// A fresh frame, before anything is acquired.
    pub fn new() -> (r: FrameMachine)
        ensures
            r.state == FrameState::Idle,
    {
        FrameMachine { state: FrameState::Idle }
    }

    /// The action the platform layer must perform next.
    pub fn next_action(&self) -> (r: FrameAction)
        ensures
            r == spec_frame_action(self.state),
    {
        frame_action(self.state)
    }

    /// Feed back the outcome of the action just performed.
    pub fn step(&mut self, e: FrameEvent)
        ensures
            final(self).state == spec_frame_next(old(self).state, e),
    {
        self.state = frame_next(self.state, e);
    }

    /// Is the frame over?
    pub fn done(&self) -> (r: bool)
        ensures
            r == spec_is_terminal(self.state),
    {
        match self.state {
            FrameState::Submitted => true,
            FrameState::Cancelled => true,
            FrameState::Failed => true,
            _ => false,
        }
    }
}

/// What a finished frame means for the application.
pub open spec fn spec_iterate_outcome(s: FrameState) -> AppResult {
    match s {
        FrameState::Submitted => AppResult::Continue,
        FrameState::Cancelled => AppResult::Continue,
        _ => AppResult::Failure,
    }
}

/// Judge a finished frame: a submitted frame and a cancelled no-op frame
/// both keep the application running; a failed frame ends it with the
/// failure outcome.
pub fn iterate_outcome(s: FrameState) -> (r: AppResult)
    ensures
        r == spec_iterate_outcome(s),
{
    match s {
        FrameState::Submitted => AppResult::Continue,
        FrameState::Cancelled => AppResult::Continue,
        _ => AppResult::Failure,
    }
}

} // verus!
