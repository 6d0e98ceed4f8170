//! Event handling: what one poll of the window system decides.
//!
//! The loop drains the pending window events each iteration. A resize
//! event asks for the viewport to be moved to the new framebuffer pixel
//! dimensions, a press of the quit key marks the loop as closing, and
//! every other event is only logged. The decisions are made here on plain
//! event values; performing the requested side effects is the caller's
//! part.

use vstd::prelude::*;

verus! {

/// A key as the loop tells them apart: the quit key, or any other.
#[derive(Clone, Copy, PartialEq, Eq, Structural, Debug)]
pub enum KeyCode {
    /// The designated quit key.
    Escape,
    /// Any key the loop does not react to.
    Other,
}

/// What happened to a key.
#[derive(Clone, Copy, PartialEq, Eq, Structural, Debug)]
pub enum KeyAction {
    /// The key went down.
    Press,
    /// The key came up.
    Release,
    /// The key is held and repeating.
    Repeat,
}

/// A window event, as the loop's decision logic sees it.
#[derive(Clone, Copy, PartialEq, Eq, Structural, Debug)]
pub enum WindowEvent {
    /// The framebuffer was resized to the given pixel width and height.
    FramebufferSize(i32, i32),
    /// A key changed state.
    Key(KeyCode, KeyAction),
    /// Any other event.
    Other,
}

/// The render loop's two states.
#[derive(Clone, Copy, PartialEq, Eq, Structural, Debug)]
pub enum LoopState {
    /// The loop keeps rendering frames.
    Running,
    /// A close was requested; the loop renders no further frame once this
    /// is observed at the top of an iteration.
    Closing,
}

/// The side effect requested for one event.
#[derive(Clone, Copy, PartialEq, Eq, Structural, Debug)]
pub enum EventAction {
    /// Move the rendering viewport to this rectangle: x, y, width, height,
    /// in framebuffer pixels.
    SetViewport(i32, i32, i32, i32),
    /// Mark the window as closing.
    RequestClose,
    /// Write the event to the diagnostic stream.
    Log,
}

/// Whether an event is a press of the quit key.
pub open spec fn is_quit_press(e: WindowEvent) -> bool {
    e == WindowEvent::Key(KeyCode::Escape, KeyAction::Press)
}

/// The one action requested for one event: a resize moves the viewport to
/// the origin with the event's own pixel dimensions, a quit-key press
/// requests the close, anything else is logged.
pub open spec fn action_for(e: WindowEvent) -> EventAction {
    match e {
        WindowEvent::FramebufferSize(w, h) => EventAction::SetViewport(0, 0, w, h),
        WindowEvent::Key(KeyCode::Escape, KeyAction::Press) => EventAction::RequestClose,
        _ => EventAction::Log,
    }
}

/// The actions for a whole poll, one per event, in event order.
pub open spec fn actions_for(events: Seq<WindowEvent>) -> Seq<EventAction>
    decreases events.len(),
{
    if events.len() == 0 {
        Seq::empty()
    } else {
        actions_for(events.drop_last()).push(action_for(events.last()))
    }
}

/// The loop state after a whole poll: closing as soon as any quit press
/// was seen, and never back.
pub open spec fn state_after(st: LoopState, events: Seq<WindowEvent>) -> LoopState
    decreases events.len(),
{
    if events.len() == 0 {
        st
    } else if is_quit_press(events.last()) {
        LoopState::Closing
    } else {
        state_after(st, events.drop_last())
    }
}

/// The action list of a poll has one action per event, each the action of
/// its own event.
pub proof fn lemma_actions_pointwise(events: Seq<WindowEvent>)
    ensures
        actions_for(events).len() == events.len(),
        forall|i: int| 0 <= i < events.len() ==> actions_for(events)[i] == action_for(events[i]),
    decreases events.len(),
{
    if events.len() > 0 {
        lemma_actions_pointwise(events.drop_last());
    }
}

/// Once the loop is closing it stays closing, whatever else is polled.
pub proof fn lemma_closing_is_absorbing(events: Seq<WindowEvent>)
    ensures
        state_after(LoopState::Closing, events) == LoopState::Closing,
    decreases events.len(),
{
    if events.len() > 0 {
        lemma_closing_is_absorbing(events.drop_last());
    }
}

/// A poll that contains a quit-key press leaves the loop closing, from
/// either state.
pub proof fn lemma_quit_press_closes(st: LoopState, events: Seq<WindowEvent>)
    requires
        exists|i: int| 0 <= i < events.len() && is_quit_press(events[i]),
    ensures
        state_after(st, events) == LoopState::Closing,
    decreases events.len(),
{
    if !is_quit_press(events.last()) {
        let i = choose|i: int| 0 <= i < events.len() && is_quit_press(events[i]);
        assert(0 <= i < events.len() - 1);
        assert(events.drop_last()[i] == events[i]);
        lemma_quit_press_closes(st, events.drop_last());
    }
}

/// A poll without a quit-key press leaves the loop state as it was.
pub proof fn lemma_no_quit_keeps_state(st: LoopState, events: Seq<WindowEvent>)
    requires
        forall|i: int| 0 <= i < events.len() ==> !is_quit_press(events[i]),
    ensures
        state_after(st, events) == st,
    decreases events.len(),
{
    if events.len() > 0 {
        assert(forall|i: int| 0 <= i < events.len() - 1
            ==> events.drop_last()[i] == events[i]);
        lemma_no_quit_keeps_state(st, events.drop_last());
    }
}

/// Drain one poll's events: decide every event's action, in order, and
/// the state the loop is in afterwards.
pub fn process_events(state: LoopState, events: &Vec<WindowEvent>) -> (r: (LoopState, Vec<EventAction>))
    ensures
        r.1@ == actions_for(events@),
        r.1@.len() == events@.len(),
        forall|i: int| 0 <= i < events@.len() ==> r.1@[i] == action_for(events@[i]),
        r.0 == state_after(state, events@),
{
    let mut actions: Vec<EventAction> = Vec::new();
    let mut st = state;
    let mut i: usize = 0;
    while i < events.len()
        invariant
            i <= events.len(),
            actions@ == actions_for(events@.subrange(0, i as int)),
            st == state_after(state, events@.subrange(0, i as int)),
        decreases events.len() - i,
    {
        let e = events[i];
        match e {
            WindowEvent::FramebufferSize(w, h) => {
                actions.push(EventAction::SetViewport(0, 0, w, h));
            }
            WindowEvent::Key(KeyCode::Escape, KeyAction::Press) => {
                st = LoopState::Closing;
                actions.push(EventAction::RequestClose);
            }
            _ => {
                actions.push(EventAction::Log);
            }
        }
        proof {
            let pre = events@.subrange(0, i as int);
            let post = events@.subrange(0, i + 1);
            assert(post.drop_last() =~= pre);
            assert(post.last() == events@[i as int]);
        }
        i = i + 1;
    }
    proof {
        assert(events@.subrange(0, events@.len() as int) =~= events@);
        lemma_actions_pointwise(events@);
    }
    (st, actions)
}

} // verus!
