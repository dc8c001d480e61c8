//! The lifecycle of the window host: which state follows an event of the
//! event loop, what the loop is told to do, and which action the event
//! carries for the window or the content surface.

use vstd::prelude::*;
use crate::message::{action_for, decoded, dispatch_line, HostAction, HostActionView};

verus! {

/// The lifecycle of the window host.
#[derive(Debug, Clone, Copy, PartialEq, Eq, Structural)]
pub enum HostState {
    /// Window and content surface are built; the loop has not run yet.
    Created,
    /// The loop is processing events.
    Running,
    /// A close was requested; the loop is leaving.
    Closing,
    /// The process has exited.
    Terminated,
}

/// What the event loop is told after an event.
#[derive(Debug, Clone, Copy, PartialEq, Eq, Structural)]
pub enum LoopControl {
    /// Wait for the next event.
    Wait,
    /// Leave the loop.
    Exit,
}

/// An event of the event loop, as far as the host tells them apart.
#[derive(Debug)]
pub enum HostEvent {
    /// The loop has started.
    Init,
    /// The window was asked to close.
    CloseRequested,
    /// A line from the external process.
    Inbound(String),
    /// Any other event of the window system.
    Other,
}

/// A [`HostEvent`] as a mathematical value.
pub enum HostEventView {
    Init,
    CloseRequested,
    Inbound(Seq<char>),
    Other,
}

impl View for HostEvent {
    type V = HostEventView;

    open spec fn view(&self) -> HostEventView {
        match self {
            HostEvent::Init => HostEventView::Init,
            HostEvent::CloseRequested => HostEventView::CloseRequested,
            HostEvent::Inbound(line) => HostEventView::Inbound(line@),
            HostEvent::Other => HostEventView::Other,
        }
    }
}

/// The outcome of one event.
#[derive(Debug)]
pub struct HostStep {
    pub state: HostState,
    pub control: LoopControl,
    pub action: Option<HostAction>,
}

/// Events are processed in these states only.
pub open spec fn is_live(state: HostState) -> bool {
    state is Created || state is Running
}

/// The state after an event.
pub open spec fn next_state(state: HostState, event: HostEventView) -> HostState {
    if !is_live(state) {
        state
    } else if event is CloseRequested {
        HostState::Closing
    } else {
        HostState::Running
    }
}

/// What the loop is told after an event.
pub open spec fn control_after(state: HostState, event: HostEventView) -> LoopControl {
    if next_state(state, event) is Running {
        LoopControl::Wait
    } else {
        LoopControl::Exit
    }
}

/// The action that an event carries, if any.
pub open spec fn action_of(state: HostState, event: HostEventView, activate_by_title: bool)
    -> Option<HostActionView> {
    match event {
        HostEventView::Inbound(line) if is_live(state) => Some(
            action_for(line, decoded(line), activate_by_title),
        ),
        _ => None,
    }
}

/// The state after a run of events.
pub open spec fn state_after(state: HostState, events: Seq<HostEventView>) -> HostState
    decreases events.len(),
{
    if events.len() == 0 {
        state
    } else {
        next_state(state_after(state, events.drop_last()), events.last())
    }
}

/// Processes one event: the initialization event and other window-system
/// events change nothing, a close request makes the loop leave, and an
/// inbound line is dispatched. Once the host is closing, events are no longer
/// processed.
pub fn on_event(state: HostState, event: &HostEvent, activate_by_title: bool) -> (step: HostStep)
    ensures
        step.state == next_state(state, event@),
        step.control == control_after(state, event@),
        match step.action {
            Some(action) => action_of(state, event@, activate_by_title) == Some(action@),
            None => action_of(state, event@, activate_by_title) is None,
        },
{
    match state {
        HostState::Closing | HostState::Terminated => HostStep {
            state,
            control: LoopControl::Exit,
            action: None,
        },
        _ => match event {
            HostEvent::CloseRequested => HostStep {
                state: HostState::Closing,
                control: LoopControl::Exit,
                action: None,
            },
            HostEvent::Inbound(line) => HostStep {
                state: HostState::Running,
                control: LoopControl::Wait,
                action: Some(dispatch_line(line.as_str(), activate_by_title)),
            },
            _ => HostStep { state: HostState::Running, control: LoopControl::Wait, action: None },
        },
    }
}

/// The process exits: a closing host is terminated, any other state stays.
pub fn shut_down(state: HostState) -> (after: HostState)
    ensures
        after == if state is Closing {
            HostState::Terminated
        } else {
            state
        },
{
    match state {
        HostState::Closing => HostState::Terminated,
        _ => state,
    }
}

/// A host that has left the live states never returns to them, and none of
/// the events that follow carries an action.
pub proof fn lemma_closed_stays_closed(
    state: HostState,
    events: Seq<HostEventView>,
    activate_by_title: bool,
)
    requires
        !is_live(state),
    ensures
        state_after(state, events) == state,
        forall|i: int|
            0 <= i < events.len() ==> action_of(
                #[trigger] state_after(state, events.take(i)),
                events[i],
                activate_by_title,
            ) is None,
    decreases events.len(),
{
    if events.len() > 0 {
        lemma_closed_stays_closed(state, events.drop_last(), activate_by_title);
        assert forall|i: int| 0 <= i < events.len() implies action_of(
            #[trigger] state_after(state, events.take(i)),
            events[i],
            activate_by_title,
        ) is None by {
            lemma_closed_stays_closed(state, events.take(i), activate_by_title);
        }
    }
}

/// A close request ends every live host: whatever came before it, the state
/// after it is `Closing` and the loop is told to leave.
pub proof fn lemma_close_request_closes(state: HostState)
    requires
        is_live(state),
    ensures
        next_state(state, HostEventView::CloseRequested) == HostState::Closing,
        control_after(state, HostEventView::CloseRequested) == LoopControl::Exit,
{
}

} // verus!
