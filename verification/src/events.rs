//! Event dispatch: what each operating-system event does to the loop's
//! control flag and which diagnostic lines it prints.
//!
//! The operating-system loop itself stays outside the library; it reduces
//! each event to a [`LoopEvent`] of plain values and asks [`dispatch`] for
//! the decision. [`run_events`] plays a whole synthetic sequence of events
//! the same way, which is how the loop's behaviour is exercised without a
//! real window.

use vstd::prelude::*;
use vstd::string::StringExecFns;
use crate::control::ControlFlag;
use crate::views;

verus! {

/// One operating-system event, reduced to the plain values that the loop's
/// decisions and diagnostics read. Informational payloads arrive already
/// rendered as text, because the library only echoes them.
#[derive(Clone, Debug, PartialEq, Eq)]
pub enum LoopEvent {
    /// The user asked to close the window.
    CloseRequested,
    /// A keyboard event: the printable form of its (optional) virtual key
    /// code, whether that key is the designated escape key, and whether it
    /// was pressed (`true`) or released (`false`).
    Keyboard { key_text: String, escape: bool, pressed: bool },
    /// A mouse-button event: printable forms of the button and of its
    /// pressed/released state.
    Mouse { button_text: String, state_text: String },
    /// The cursor moved: printable form of its window-local position.
    CursorMoved { position_text: String },
    /// Any other window event, captured generically.
    Other { detail_text: String },
}

/// A press of the designated escape key.
pub open spec fn is_escape_press(e: LoopEvent) -> bool {
    &&& e matches LoopEvent::Keyboard { escape, pressed, .. }
    &&& escape
    &&& pressed
}

/// Whether dispatching `e` terminates the loop. A close request always
/// does; an escape press does exactly when the explicit `escape_exits`
/// policy is enabled.
pub open spec fn exits(escape_exits: bool, e: LoopEvent) -> bool {
    ||| e is CloseRequested
    ||| escape_exits && is_escape_press(e)
}

/// The control flag after one dispatch: `Exit` for a terminating event,
/// otherwise back to blocking for the next event.
pub open spec fn step_flag(escape_exits: bool, e: LoopEvent) -> ControlFlag {
    if exits(escape_exits, e) {
        ControlFlag::Exit
    } else {
        ControlFlag::Wait
    }
}

/// The diagnostic lines that dispatching `e` prints, in order. Every event
/// but a close request is logged; an escape press or release gets a second
/// line of its own.
pub open spec fn event_logs(e: LoopEvent) -> Seq<Seq<char>> {
    match e {
        LoopEvent::CloseRequested => Seq::empty(),
        LoopEvent::Keyboard { key_text, escape, pressed } => {
            let key_line = "input.virtual_keycode="@ + key_text@;
            if escape && pressed {
                seq![key_line, "Escape key pressed!"@]
            } else if escape && !pressed {
                seq![key_line, "Escape key released!"@]
            } else {
                seq![key_line]
            }
        },
        LoopEvent::Mouse { button_text, state_text } => (seq![
            "mouseInput button="@ + button_text@ + " state="@ + state_text@,
        ]),
        LoopEvent::CursorMoved { position_text } => (seq![
            "cursorMoved position="@ + position_text@,
        ]),
        LoopEvent::Other { detail_text } => (seq!["other "@ + detail_text@]),
    }
}

/// Decide one event: the new control flag and the lines to print for it.
///
/// `escape_exits` is the explicit policy choice for whether an escape-key
/// press terminates the loop; the press and release lines are logged either
/// way.
pub fn dispatch(escape_exits: bool, event: &LoopEvent) -> (r: (ControlFlag, Vec<String>))
    ensures
        r.0 == step_flag(escape_exits, *event),
        views(r.1@) == event_logs(*event),
{
    match event {
        LoopEvent::CloseRequested => {
            let logs: Vec<String> = Vec::new();
            proof {
                assert(views(logs@) =~= event_logs(*event));
            }
            (ControlFlag::Exit, logs)
        },
        LoopEvent::Keyboard { key_text, escape, pressed } => {
            let mut logs: Vec<String> = Vec::new();
            let mut key_line = String::from_str("input.virtual_keycode=");
            key_line.append(key_text.as_str());
            logs.push(key_line);
            let mut flag = ControlFlag::Wait;
            if *escape {
                if *pressed {
                    if escape_exits {
                        flag = ControlFlag::Exit;
                    }
                    logs.push(String::from_str("Escape key pressed!"));
                } else {
                    logs.push(String::from_str("Escape key released!"));
                }
            }
            proof {
                assert(views(logs@) =~= event_logs(*event));
            }
            (flag, logs)
        },
        LoopEvent::Mouse { button_text, state_text } => {
            let mut line = String::from_str("mouseInput button=");
            line.append(button_text.as_str());
            line.append(" state=");
            line.append(state_text.as_str());
            let mut logs: Vec<String> = Vec::new();
            logs.push(line);
            proof {
                assert(views(logs@) =~= event_logs(*event));
            }
            (ControlFlag::Wait, logs)
        },
        LoopEvent::CursorMoved { position_text } => {
            let mut line = String::from_str("cursorMoved position=");
            line.append(position_text.as_str());
            let mut logs: Vec<String> = Vec::new();
            logs.push(line);
            proof {
                assert(views(logs@) =~= event_logs(*event));
            }
            (ControlFlag::Wait, logs)
        },
        LoopEvent::Other { detail_text } => {
            let mut line = String::from_str("other ");
            line.append(detail_text.as_str());
            let mut logs: Vec<String> = Vec::new();
            logs.push(line);
            proof {
                assert(views(logs@) =~= event_logs(*event));
            }
            (ControlFlag::Wait, logs)
        },
    }
}

/// The lines printed while dispatching a sequence of events in order.
pub open spec fn logs_of(events: Seq<LoopEvent>) -> Seq<Seq<char>>
    decreases events.len(),
{
    if events.len() == 0 {
        Seq::empty()
    } else {
        logs_of(events.drop_last()) + event_logs(events.last())
    }
}

/// No event among the first `n` terminates the loop.
pub open spec fn no_exit_before(escape_exits: bool, events: Seq<LoopEvent>, n: int) -> bool {
    forall|i: int| 0 <= i < n ==> !exits(escape_exits, events[i])
}

/// What playing a sequence of events left behind: the final control flag,
/// every line printed, and how many events were dispatched before the loop
/// stopped looking at them.
pub struct RunOutcome {
    pub flag: ControlFlag,
    pub logs: Vec<String>,
    pub processed: usize,
}

/// Dispatch a synthetic sequence of events in order, exactly as the
/// operating-system loop would: each event is decided and logged, and the
/// first terminating event stops the loop on the dispatch that delivered it.
pub fn run_events(escape_exits: bool, events: &Vec<LoopEvent>) -> (r: RunOutcome)
    ensures
        r.processed <= events@.len(),
        no_exit_before(escape_exits, events@, r.processed - 1),
        r.flag is Exit <==> exists|i: int|
            0 <= i < events@.len() && exits(escape_exits, events@[i]),
        r.flag is Exit ==> exits(escape_exits, events@[r.processed - 1]),
        !(r.flag is Exit) ==> r.flag is Wait && r.processed == events@.len(),
        views(r.logs@) == logs_of(events@.take(r.processed as int)),
{
    let mut logs: Vec<String> = Vec::new();
    let mut i: usize = 0;
    while i < events.len()
        invariant
            0 <= i <= events@.len(),
            no_exit_before(escape_exits, events@, i as int),
            views(logs@) == logs_of(events@.take(i as int)),
        decreases events@.len() - i,
    {
        let (flag, mut lines) = dispatch(escape_exits, &events[i]);
        logs.append(&mut lines);
        proof {
            assert(events@.take(i + 1).drop_last() =~= events@.take(i as int));
            assert(events@.take(i + 1).last() == events@[i as int]);
            assert(views(logs@) =~= logs_of(events@.take(i + 1)));
        }
        i = i + 1;
        if flag.requests_exit() {
            return RunOutcome { flag, logs, processed: i };
        }
    }
    proof {
        assert(events@.take(i as int) =~= events@);
    }
    RunOutcome { flag: ControlFlag::Wait, logs, processed: i }
}

/// Law: a sequence of events that contains no close request and no escape
/// press never terminates the loop, whichever escape policy is in force.
/// Together with the contract of [`run_events`] this keeps the control flag
/// at `Wait` through every such sequence.
pub proof fn lemma_benign_events_never_exit(escape_exits: bool, events: Seq<LoopEvent>)
    requires
        forall|i: int|
            0 <= i < events.len() ==> !(#[trigger] events[i] is CloseRequested)
                && !is_escape_press(events[i]),
    ensures
        no_exit_before(escape_exits, events, events.len() as int),
{
    assert forall|i: int| 0 <= i < events.len() implies !exits(escape_exits, events[i]) by {
        assert(!(events[i] is CloseRequested));
    }
}

/// Law: a close request terminates the loop on the dispatch that delivers
/// it, whichever escape policy is in force.
pub proof fn lemma_close_request_exits(escape_exits: bool, event: LoopEvent)
    requires
        event is CloseRequested,
    ensures
        step_flag(escape_exits, event) is Exit,
{
}

/// Law: an escape-key press terminates the loop exactly when the escape
/// policy is enabled; under either policy its dispatch logs the key line
/// followed by the press line.
pub proof fn lemma_escape_press_policy(event: LoopEvent)
    requires
        is_escape_press(event),
    ensures
        step_flag(true, event) is Exit,
        step_flag(false, event) is Wait,
        event_logs(event).len() == 2,
        event_logs(event)[1] == "Escape key pressed!"@,
{
}

} // verus!
