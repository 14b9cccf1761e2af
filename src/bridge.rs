use vstd::prelude::*;

use crate::params::{set_model, ParamModel};

verus! {

/// A key as the windowing backend reports it, as far as the editor cares.
#[derive(Debug, Clone, Copy, PartialEq, Eq, Structural)]
pub enum Key {
    Escape,
    Other,
}

/// An input event polled from the windowing backend, as far as the render
/// loop's decisions go; the backend's own event travels beside it to the UI library.
#[derive(Debug, Clone, Copy, PartialEq, Eq, Structural)]
pub enum RawEvent {
    /// The window was closed, by the user or by the host.
    Closed,
    /// A key went down or up; `key` is `None` where the backend has no code for it.
    KeyboardInput { pressed: bool, key: Option<Key> },
    /// Any other event: pointer, focus, resize and the like.
    Other,
}

/// Whether `e` asks the render loop to stop: a window close, or the Escape key.
pub open spec fn is_close(e: RawEvent) -> bool {
    match e {
        RawEvent::Closed => true,
        RawEvent::KeyboardInput { key, .. } => key == Some(Key::Escape),
        RawEvent::Other => false,
    }
}

/// Tells whether `e` is a close signal; checked before the event is translated.
pub fn is_close_signal(e: &RawEvent) -> (r: bool)
    ensures
        r == is_close(*e),
{
    match e {
        RawEvent::Closed => true,
        RawEvent::KeyboardInput { key, .. } => match key {
            Some(Key::Escape) => true,
            _ => false,
        },
        RawEvent::Other => false,
    }
}

/// What to do with one poll's events.
#[derive(Debug, Clone, Copy, PartialEq, Eq, Structural)]
pub struct EventPlan {
    /// How many events, from the first, go on to translation and the UI library.
    pub deliver: usize,
    /// Whether a close signal was seen.
    pub close: bool,
}

/// Events are handed on in order up to the first close signal, which is not
/// handed on; the events after it are not processed.
pub fn plan_events(events: &Vec<RawEvent>) -> (r: EventPlan)
    ensures
        r.deliver <= events@.len(),
        forall|i: int| 0 <= i < r.deliver ==> !is_close(#[trigger] events@[i]),
        r.close ==> r.deliver < events@.len() && is_close(events@[r.deliver as int]),
        !r.close ==> r.deliver == events@.len(),
{
    let mut i: usize = 0;
    while i < events.len()
        invariant
            i <= events@.len(),
            forall|j: int| 0 <= j < i ==> !is_close(#[trigger] events@[j]),
        decreases events@.len() - i,
    {
        if is_close_signal(&events[i]) {
            return EventPlan { deliver: i, close: true };
        }
        i = i + 1;
    }
    EventPlan { deliver: i, close: false }
}

/// A write that a widget interaction asks for: slot `index` takes `value`.
#[derive(Debug, Clone, Copy, PartialEq, Eq, Structural)]
pub struct ParamChange {
    pub index: usize,
    pub value: i64,
}

/// The model after one change; a change to a slot that does not exist is ignored.
pub open spec fn apply_change(m: Seq<ParamModel>, c: ParamChange) -> Seq<ParamModel> {
    if c.index < m.len() {
        set_model(m, c.index as int, c.value as int)
    } else {
        m
    }
}

/// The model after the changes of one frame, applied in order.
pub open spec fn apply_changes(m: Seq<ParamModel>, cs: Seq<ParamChange>) -> Seq<ParamModel>
    decreases cs.len(),
{
    if cs.len() == 0 {
        m
    } else {
        apply_change(apply_changes(m, cs.drop_last()), cs.last())
    }
}

} // verus!
