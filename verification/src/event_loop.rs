//! The event loop over a recorded run of events: draw, take one event,
//! carry it out, and again, until an event quits or the events run out.

use vstd::prelude::*;
use crate::app::{lemma_actions_keep_wf, loop_after, App, AppView, LoopState};
use crate::keys::{event_action, recognized, Action, InputEvent, Key, KeyKind};
use crate::layout::Region;
use crate::render::{frame_of, ui, Frame};

verus! {

/// The actions that a run of events asks for, in order.
pub open spec fn actions_of(events: Seq<InputEvent>) -> Seq<Action> {
    Seq::new(events.len(), |i: int| event_action(events[i]))
}

/// The dashboard after a run of events, each carried out in order.
pub open spec fn after_events(app: AppView, events: Seq<InputEvent>) -> AppView {
    app.after_all(actions_of(events))
}

/// The number of events before the first one that quits: all of them when
/// none quits.
pub open spec fn events_before_quit(events: Seq<InputEvent>) -> nat
    decreases events.len(),
{
    if events.len() == 0 || event_action(events[0]) == Action::Quit {
        0
    } else {
        1 + events_before_quit(events.drop_first())
    }
}

/// How the loop ends on a run of events: stopped when one of them quits,
/// still running when they have run out.
pub open spec fn state_after(events: Seq<InputEvent>) -> LoopState {
    if events_before_quit(events) < events.len() {
        LoopState::Stopped
    } else {
        LoopState::Running
    }
}

/// What a run of the loop leaves behind.
#[derive(Clone, Debug)]
pub struct Run {
    /// How the loop ended.
    pub state: LoopState,
    /// The frames drawn, in order.
    pub frames: Vec<Frame>,
}

/// `events_before_quit` is the position `k` up to which no event quits and
/// at which the events end or an event quits.
pub proof fn lemma_events_before_quit(events: Seq<InputEvent>, k: int)
    requires
        0 <= k <= events.len(),
        forall|j: int| 0 <= j < k ==> event_action(#[trigger] events[j]) != Action::Quit,
        k == events.len() || event_action(events[k]) == Action::Quit,
    ensures
        events_before_quit(events) == k,
    decreases k,
{
    if k > 0 {
        let rest = events.drop_first();
        lemma_events_before_quit(rest, k - 1);
    }
}

/// A pressed quit key always ends the loop, whatever the dashboard's
/// state: a run of events with a quitting event stops, at the first such
/// event, and no event after it is carried out.
pub proof fn lemma_quit_stops_the_loop(events: Seq<InputEvent>, k: int)
    requires
        0 <= k < events.len(),
        event_action(events[k]) == Action::Quit,
    ensures
        state_after(events) == LoopState::Stopped,
        events_before_quit(events) <= k,
        event_action(events[events_before_quit(events) as int]) == Action::Quit,
        events_before_quit(events.take(k + 1)) == events_before_quit(events),
    decreases k,
{
    if event_action(events[0]) != Action::Quit {
        let rest = events.drop_first();
        lemma_quit_stops_the_loop(rest, k - 1);
        assert(events.take(k + 1).drop_first() =~= rest.take(k));
    }
}

/// A key that the key table does not know changes nothing, whatever the
/// dashboard's state and whatever happened to the key: the dashboard after
/// the event is the dashboard before it, and the loop goes on.
pub proof fn lemma_unrecognized_key_changes_nothing(app: AppView, key: Key, kind: KeyKind)
    requires
        !recognized(key),
    ensures
        app.after(event_action(InputEvent::Key { key, kind })) == app,
        loop_after(event_action(InputEvent::Key { key, kind })) == LoopState::Running,
{
}

/// Events that ask for nothing change nothing: after a run of such events
/// the dashboard is as it was and the loop still runs.
pub proof fn lemma_unrecognized_events_change_nothing(app: AppView, events: Seq<InputEvent>)
    requires
        forall|j: int| 0 <= j < events.len() ==> event_action(#[trigger] events[j]) == Action::Nothing,
    ensures
        after_events(app, events) == app,
        state_after(events) == LoopState::Running,
    decreases events.len(),
{
    if events.len() > 0 {
        lemma_unrecognized_events_change_nothing(app, events.drop_last());
        assert(actions_of(events).drop_last() =~= actions_of(events.drop_last()));
    }
    lemma_events_before_quit(events, events.len() as int);
}

/// Runs the event loop over `events`. The loop draws a frame of the
/// dashboard, then takes the next event and carries it out, and so on; it
/// ends at the first event that quits, which is not followed by a frame,
/// or when the events have run out. The result holds the frames drawn, in
/// order: the frame at position `k` shows the dashboard after the first
/// `k` events.
pub fn run_app(app: &mut App, events: &Vec<InputEvent>, area: Region) -> (run: Run)
    ensures
        run.state == state_after(events@),
        final(app)@ == after_events(old(app)@, events@.take(events_before_quit(events@) as int)),
        old(app)@.wf() ==> final(app)@.wf(),
        run.frames@.len() == events_before_quit(events@) + 1,
        forall|k: int|
            0 <= k <= events_before_quit(events@) ==> (#[trigger] run.frames@[k])@ == frame_of(
                after_events(old(app)@, events@.take(k)),
                area,
            ),
{
    let ghost start = app@;
    let mut frames: Vec<Frame> = Vec::new();
    let mut k: usize = 0;
    let mut state = LoopState::Running;
    frames.push(ui(app, area));
    while state == LoopState::Running && k < events.len()
        invariant
            k <= events@.len(),
            frames@.len() == k + 1,
            app@ == after_events(start, events@.take(k as int)),
            forall|j: int| 0 <= j < k ==> event_action(#[trigger] events@[j]) != Action::Quit,
            state == LoopState::Stopped ==> k < events@.len() && event_action(events@[k as int])
                == Action::Quit,
            forall|j: int|
                0 <= j <= k ==> (#[trigger] frames@[j])@ == frame_of(
                    after_events(start, events@.take(j)),
                    area,
                ),
        decreases events@.len() - k + (if state == LoopState::Running { 1int } else { 0int }),
    {
        state = app.handle_event(events[k]);
        if state == LoopState::Running {
            assert(actions_of(events@.take(k + 1)).drop_last() =~= actions_of(
                events@.take(k as int),
            ));
            k = k + 1;
            frames.push(ui(app, area));
        }
    }
    proof {
        lemma_events_before_quit(events@, k as int);
        if start.wf() {
            lemma_actions_keep_wf(start, actions_of(events@.take(k as int)));
        }
    }
    Run { state, frames }
}

} // verus!
