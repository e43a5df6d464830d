//! The message pump: what to do with each result of message retrieval, and
//! a run of the pump and the window procedure over a scripted queue.
use vstd::prelude::*;
use crate::window::{
    is_action_for, spec_next_state, window_proc, WindowAction, WindowState, WM_CLOSE, WM_DESTROY,
};

verus! {

/// How the message loop ended.
#[derive(Debug, Clone, Copy, PartialEq, Eq, Structural)]
pub enum LoopExit {
    /// The quit signal arrived carrying this exit code.
    Quit(usize),
    /// Retrieval failed with this error code; the failure is fatal.
    Failed(u32),
}

/// What the pump does after one retrieval.
#[derive(Debug, Clone, Copy, PartialEq, Eq, Structural)]
pub enum PumpStep {
    /// Translate the message and dispatch it to the window procedure.
    Dispatch,
    /// Leave the loop.
    Finished(LoopExit),
}

/// One result of message retrieval, as a scripted queue delivers it.
#[derive(Debug, Clone, Copy, PartialEq, Eq, Structural)]
pub enum QueueEvent {
    Message { msg: u32, lparam: isize },
    Error { code: u32 },
}

/// The outcome of running the pump over a scripted queue.
#[derive(Debug)]
pub struct ScriptRun {
    /// How the loop ended; `None` when it would still be waiting for input.
    pub exit: Option<LoopExit>,
    /// The window's lifecycle state at that point.
    pub state: WindowState,
    /// The window procedure's action for each dispatched message, in order.
    pub actions: Vec<WindowAction>,
}

/// Decides one turn of the loop from retrieval's result: a positive status
/// delivers a message to dispatch, zero is the quit signal whose code is
/// the message's `wparam`, and a negative status is a failure whose code is
/// the platform's last error.
pub fn pump_step(status: i32, wparam: usize, last_error: u32) -> (r: PumpStep)
    ensures
        status > 0 ==> r == PumpStep::Dispatch,
        status == 0 ==> r == PumpStep::Finished(LoopExit::Quit(wparam)),
        status < 0 ==> r == PumpStep::Finished(LoopExit::Failed(last_error)),
{
    if status > 0 {
        PumpStep::Dispatch
    } else if status == 0 {
        PumpStep::Finished(LoopExit::Quit(wparam))
    } else {
        PumpStep::Finished(LoopExit::Failed(last_error))
    }
}

/// How many events are dispatched before the first retrieval error.
pub open spec fn dispatched_len(s: Seq<QueueEvent>) -> nat
    decreases s.len(),
{
    if s.len() == 0 {
        0
    } else if s[0] is Error {
        0
    } else {
        1 + dispatched_len(s.drop_first())
    }
}

/// Some message of `s` is the destroy notification, which posts quit.
pub open spec fn quit_posted(s: Seq<QueueEvent>) -> bool {
    exists|i: int| 0 <= i < s.len() && #[trigger] s[i] is Message && s[i]->msg == WM_DESTROY
}

/// The lifecycle state after the messages of `s`, starting from a shown window.
pub open spec fn state_after(s: Seq<QueueEvent>) -> WindowState
    decreases s.len(),
{
    if s.len() == 0 {
        WindowState::Shown
    } else {
        match s.last() {
            QueueEvent::Message { msg, lparam } => spec_next_state(state_after(s.drop_last()), msg),
            QueueEvent::Error { code } => state_after(s.drop_last()),
        }
    }
}

/// How the loop ends on the scripted queue `s`: at the first retrieval error
/// with its code; otherwise, once the queue is drained, with code 0 if the
/// destroy notification posted quit, and not at all if it did not.
pub open spec fn script_exit(s: Seq<QueueEvent>) -> Option<LoopExit> {
    let n = dispatched_len(s);
    if n < s.len() {
        Some(LoopExit::Failed(s[n as int]->code))
    } else if quit_posted(s) {
        Some(LoopExit::Quit(0))
    } else {
        None
    }
}

proof fn lemma_dispatched_len(s: Seq<QueueEvent>, i: int)
    requires
        0 <= i <= s.len(),
        forall|j: int| 0 <= j < i ==> s[j] is Message,
        i == s.len() || s[i] is Error,
    ensures
        dispatched_len(s) == i,
    decreases i,
{
    if i > 0 {
        lemma_dispatched_len(s.drop_first(), i - 1);
    }
}

/// Runs the pump over a scripted queue, starting with the window shown:
/// each message is dispatched to the window procedure in order until a
/// retrieval error ends the loop; once the queue is drained, a posted quit
/// ends it with code 0.
pub fn run_script(script: &Vec<QueueEvent>) -> (r: ScriptRun)
    ensures
        r.actions@.len() == dispatched_len(script@),
        forall|j: int|
            0 <= j < r.actions@.len() ==> script@[j] is Message && is_action_for(
                #[trigger] r.actions@[j],
                script@[j]->msg,
                script@[j]->lparam,
            ),
        r.exit == script_exit(script@),
        r.state == state_after(script@.take(r.actions@.len() as int)),
{
    let mut actions: Vec<WindowAction> = Vec::new();
    let mut state = WindowState::Shown;
    let mut quit = false;
    let mut i: usize = 0;
    while i < script.len()
        invariant
            i <= script@.len(),
            actions@.len() == i,
            forall|j: int| 0 <= j < i ==> script@[j] is Message,
            forall|j: int|
                0 <= j < i ==> is_action_for(
                    #[trigger] actions@[j],
                    script@[j]->msg,
                    script@[j]->lparam,
                ),
            quit == quit_posted(script@.take(i as int)),
            state == state_after(script@.take(i as int)),
        decreases script@.len() - i,
    {
        match script[i] {
            QueueEvent::Error { code } => {
                proof {
                    lemma_dispatched_len(script@, i as int);
                }
                return ScriptRun { exit: Some(LoopExit::Failed(code)), state, actions };
            },
            QueueEvent::Message { msg, lparam } => {
                let ghost before = script@.take(i as int);
                let ghost after = script@.take(i + 1);
                assert(after.drop_last() =~= before);
                assert(after.last() == script@[i as int]);
                assert(quit_posted(after) == (quit || msg == WM_DESTROY)) by {
                    assert(after[i as int] == script@[i as int]);
                    assert(forall|k: int| 0 <= k < i ==> before[k] == #[trigger] after[k]);
                }
                let a = window_proc(msg, lparam);
                actions.push(a);
                state = state.next(msg);
                quit = quit || msg == WM_DESTROY;
                i = i + 1;
            },
        }
    }
    proof {
        lemma_dispatched_len(script@, i as int);
        assert(script@.take(i as int) =~= script@);
    }
    let exit = if quit {
        Some(LoopExit::Quit(0))
    } else {
        None
    };
    ScriptRun { exit, state, actions }
}

/// A queue of messages that ends with a close request followed by the
/// destroy notification makes the loop end with exit code 0, with the
/// window destroyed.
pub proof fn lemma_close_then_destroy_quits(s: Seq<QueueEvent>)
    requires
        s.len() >= 2,
        forall|j: int| 0 <= j < s.len() ==> s[j] is Message,
        s[s.len() - 2] is Message && s[s.len() - 2]->msg == WM_CLOSE,
        s[s.len() - 1] is Message && s[s.len() - 1]->msg == WM_DESTROY,
    ensures
        script_exit(s) == Some(LoopExit::Quit(0)),
        state_after(s) == WindowState::Destroyed,
{
    lemma_dispatched_len(s, s.len() as int);
    assert(s[s.len() - 1] is Message);
}

/// A queue of messages followed by a retrieval error makes the loop end
/// with that error's code, unchanged, after dispatching every message.
pub proof fn lemma_queue_error_surfaces(s: Seq<QueueEvent>, code: u32)
    requires
        forall|j: int| 0 <= j < s.len() ==> s[j] is Message,
    ensures
        script_exit(s.push(QueueEvent::Error { code })) == Some(LoopExit::Failed(code)),
        dispatched_len(s.push(QueueEvent::Error { code })) == s.len(),
{
    let t = s.push(QueueEvent::Error { code });
    assert forall|j: int| 0 <= j < s.len() implies t[j] is Message by {
        assert(t[j] == s[j]);
    }
    lemma_dispatched_len(t, s.len() as int);
}

} // verus!
