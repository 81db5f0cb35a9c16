//! The life of a window as a whole: every history of what can happen to one
//! window, and what holds of the calls and requests that it gives rise to.

use crate::message::{Message, WindowEvent};
use crate::window::{on_close, on_created, on_destroyed, on_message, Action, WindowState};
use vstd::prelude::*;

verus! {

/// One thing that happens to a window.
pub enum Step {
    /// The platform delivers a message for the handle `hwnd`.
    Message { hwnd: isize, message: Message },
    /// The platform returns from creating the window, with the handle `hwnd`.
    Created { hwnd: isize },
    /// The controller answers the close query.
    CloseAnswered { confirmed: bool },
    /// The close is asked for without a query.
    CloseRequested,
    /// The platform returns from destroying the window.
    DestroyReturned,
}

/// One call of the controller or one request to the platform.
pub enum Effect {
    /// The controller is told that the window is being initialised.
    Init,
    /// The controller is asked whether the window may close.
    CloseQuery,
    /// The controller is told that the window is closing.
    Closing,
    /// The platform is asked to destroy the window.
    Destroy,
    /// The controller is told that the window has closed.
    Closed,
    /// The controller is handed an event.
    Deliver(WindowEvent),
    /// The background of the window is painted.
    Paint,
    /// The quit signal is posted.
    Quit,
}

/// The effect of performing an action, if it has one.
pub open spec fn action_effects(action: Action) -> Seq<Effect> {
    match action {
        Action::Init => seq![Effect::Init],
        Action::QueryClose => seq![Effect::CloseQuery],
        Action::Quit => seq![Effect::Quit],
        Action::Paint => seq![Effect::Paint],
        Action::Deliver(event) => seq![Effect::Deliver(event)],
        Action::Drop(_) => Seq::empty(),
        Action::Abort(_) => Seq::empty(),
        Action::Default => Seq::empty(),
    }
}

/// The effects of starting a close: a live window tells its controller and
/// has itself destroyed, in this order; any other window does nothing.
pub open spec fn close_effects(state: WindowState) -> Seq<Effect> {
    if state is Live {
        seq![Effect::Closing, Effect::Destroy]
    } else {
        Seq::empty()
    }
}

/// What one step does to a window, and the effects it has.
pub open spec fn step(state: WindowState, s: Step) -> (WindowState, Seq<Effect>) {
    match s {
        Step::Message { hwnd, message } => (
            on_message(state, hwnd, message).0,
            action_effects(on_message(state, hwnd, message).1),
        ),
        Step::Created { hwnd } => (on_created(state, hwnd), Seq::empty()),
        Step::CloseAnswered { confirmed } => if confirmed {
            (on_close(state), close_effects(state))
        } else {
            (state, Seq::empty())
        },
        Step::CloseRequested => (on_close(state), close_effects(state)),
        Step::DestroyReturned => (
            on_destroyed(state),
            if state is Closing {
                seq![Effect::Closed]
            } else {
                Seq::empty()
            },
        ),
    }
}

/// What a history of steps does to a window, and the effects it has, in
/// order.
pub open spec fn run(state: WindowState, steps: Seq<Step>) -> (WindowState, Seq<Effect>)
    decreases steps.len(),
{
    if steps.len() == 0 {
        (state, Seq::empty())
    } else {
        let before = run(state, steps.drop_last());
        let last = step(before.0, steps.last());
        (last.0, before.1 + last.1)
    }
}

/// How often an effect occurs in a trace.
pub open spec fn occurrences(trace: Seq<Effect>, effect: Effect) -> nat
    decreases trace.len(),
{
    if trace.len() == 0 {
        0
    } else {
        occurrences(trace.drop_last(), effect) + if trace.last() == effect {
            1nat
        } else {
            0nat
        }
    }
}

/// Whether an effect is one that only an initialised window can have: every
/// call of the controller but the first, the painting, and the request to
/// destroy the window.
pub open spec fn follows_init(effect: Effect) -> bool {
    !(effect is Init) && !(effect is Quit)
}

proof fn lemma_occurrences_add(a: Seq<Effect>, b: Seq<Effect>, effect: Effect)
    ensures
        occurrences(a + b, effect) == occurrences(a, effect) + occurrences(b, effect),
    decreases b.len(),
{
    if b.len() == 0 {
        assert(a + b == a);
    } else {
        assert((a + b).drop_last() == a + b.drop_last());
        assert((a + b).last() == b.last());
        lemma_occurrences_add(a, b.drop_last(), effect);
    }
}

proof fn lemma_occurrences_short(t: Seq<Effect>, effect: Effect)
    requires
        t.len() <= 2,
    ensures
        t.len() == 0 ==> occurrences(t, effect) == 0,
        t.len() == 1 ==> occurrences(t, effect) == if t[0] == effect {
            1nat
        } else {
            0nat
        },
        t.len() == 2 ==> occurrences(t, effect) == (if t[0] == effect {
            1nat
        } else {
            0nat
        }) + (if t[1] == effect {
            1nat
        } else {
            0nat
        }),
    decreases t.len(),
{
    if t.len() > 0 {
        lemma_occurrences_short(t.drop_last(), effect);
        assert(t.drop_last().len() == t.len() - 1);
        if t.len() == 2 {
            assert(t.drop_last()[0] == t[0]);
        }
    }
}

/// A window never goes back in its life, whatever happens to it.
pub proof fn law_states_never_return(state: WindowState, steps: Seq<Step>)
    ensures
        run(state, steps).0.rank() >= state.rank(),
    decreases steps.len(),
{
    if steps.len() > 0 {
        law_states_never_return(state, steps.drop_last());
    }
}

/// What holds of the trace of a window that began uninitialised.
spec fn init_inv(state: WindowState, trace: Seq<Effect>) -> bool {
    &&& occurrences(trace, Effect::Init) == if state is Uninitialized {
        0nat
    } else {
        1nat
    }
    &&& state is Uninitialized ==> forall|j: int| 0 <= j < trace.len() ==> trace[j] is Quit
    &&& forall|j: int|
        0 <= j < trace.len() && follows_init(#[trigger] trace[j]) ==> exists|i: int|
            0 <= i < j && trace[i] == Effect::Init
}

proof fn lemma_init_inv(steps: Seq<Step>)
    ensures
        init_inv(run(WindowState::Uninitialized, steps).0, run(WindowState::Uninitialized, steps).1),
    decreases steps.len(),
{
    let start = WindowState::Uninitialized;
    if steps.len() == 0 {
    } else {
        lemma_init_inv(steps.drop_last());
        let before = run(start, steps.drop_last());
        let last = step(before.0, steps.last());
        let trace = before.1 + last.1;
        assert(run(start, steps) == (last.0, trace));
        lemma_occurrences_add(before.1, last.1, Effect::Init);
        lemma_occurrences_short(last.1, Effect::Init);
        assert forall|j: int| 0 <= j < trace.len() && follows_init(#[trigger] trace[j]) implies exists|
            i: int,
        | 0 <= i < j && trace[i] == Effect::Init by {
            if j < before.1.len() {
                assert(trace[j] == before.1[j]);
                let i = choose|i: int| 0 <= i < j && before.1[i] == Effect::Init;
                assert(trace[i] == Effect::Init);
            } else {
                // a new effect that follows the initialisation: the window was
                // initialised before this step
                assert(trace[j] == last.1[j - before.1.len()]);
                assert(!(before.0 is Uninitialized));
                lemma_occurs(before.1, Effect::Init);
                let i = choose|i: int| 0 <= i < before.1.len() && before.1[i] == Effect::Init;
                assert(trace[i] == Effect::Init);
            }
        }
        if last.0 is Uninitialized {
            assert forall|j: int| 0 <= j < trace.len() implies trace[j] is Quit by {
                if j < before.1.len() {
                    assert(trace[j] == before.1[j]);
                } else {
                    assert(trace[j] == last.1[j - before.1.len()]);
                }
            }
        }
    }
}

/// An effect that occurs at all occurs somewhere.
proof fn lemma_occurs(trace: Seq<Effect>, effect: Effect)
    requires
        occurrences(trace, effect) > 0,
    ensures
        exists|i: int| 0 <= i < trace.len() && trace[i] == effect,
    decreases trace.len(),
{
    if trace.len() > 0 {
        if trace.last() == effect {
            assert(trace[trace.len() - 1] == effect);
        } else {
            lemma_occurrences_seq_drop(trace, effect);
            lemma_occurs(trace.drop_last(), effect);
            let i = choose|i: int| 0 <= i < trace.drop_last().len() && trace.drop_last()[i] == effect;
            assert(trace[i] == effect);
        }
    }
}

proof fn lemma_occurrences_seq_drop(trace: Seq<Effect>, effect: Effect)
    requires
        trace.len() > 0,
        trace.last() != effect,
    ensures
        occurrences(trace.drop_last(), effect) == occurrences(trace, effect),
{
}

/// A window is initialised once, and first: in every history of a window
/// that began uninitialised, the controller is told of the initialisation at
/// most once, exactly once if the window ever left that state, and before
/// every other call it gets, before any painting, and before the window is
/// destroyed. While the window is uninitialised nothing happens but that the
/// quit signal may be posted.
pub proof fn law_init_once_and_first(steps: Seq<Step>)
    ensures
        ({
            let end = run(WindowState::Uninitialized, steps);
            &&& occurrences(end.1, Effect::Init) <= 1
            &&& !(end.0 is Uninitialized) ==> occurrences(end.1, Effect::Init) == 1
            &&& end.0 is Uninitialized ==> forall|j: int|
                0 <= j < end.1.len() ==> (#[trigger] end.1[j]) is Quit
            &&& forall|j: int|
                0 <= j < end.1.len() && follows_init(#[trigger] end.1[j]) ==> exists|i: int|
                    0 <= i < j && end.1[i] == Effect::Init
        }),
{
    lemma_init_inv(steps);
}

/// What holds of the trace of a window that was not closing when it began.
spec fn close_inv(state: WindowState, trace: Seq<Effect>) -> bool {
    &&& occurrences(trace, Effect::Closing) == if state.rank() >= 3 {
        1nat
    } else {
        0nat
    }
    &&& occurrences(trace, Effect::Destroy) == occurrences(trace, Effect::Closing)
    &&& occurrences(trace, Effect::Closed) == if state.rank() == 4 {
        1nat
    } else {
        0nat
    }
    &&& state.rank() < 4 ==> forall|j: int| 0 <= j < trace.len() ==> trace[j] != Effect::Closed
    &&& forall|i: int|
        0 <= i < trace.len() && #[trigger] trace[i] == Effect::Closing ==> i + 1 < trace.len()
            && trace[i + 1] == Effect::Destroy
    &&& forall|i: int, j: int|
        0 <= i < trace.len() && 0 <= j < trace.len() && #[trigger] trace[i] == Effect::Destroy
            && #[trigger] trace[j] == Effect::Closed ==> i < j
}

proof fn lemma_close_inv(state: WindowState, steps: Seq<Step>)
    requires
        state.rank() <= 2,
    ensures
        close_inv(run(state, steps).0, run(state, steps).1),
    decreases steps.len(),
{
    if steps.len() == 0 {
    } else {
        lemma_close_inv(state, steps.drop_last());
        let before = run(state, steps.drop_last());
        let last = step(before.0, steps.last());
        let trace = before.1 + last.1;
        assert(run(state, steps) == (last.0, trace));
        lemma_occurrences_add(before.1, last.1, Effect::Closing);
        lemma_occurrences_add(before.1, last.1, Effect::Destroy);
        lemma_occurrences_add(before.1, last.1, Effect::Closed);
        lemma_occurrences_short(last.1, Effect::Closing);
        lemma_occurrences_short(last.1, Effect::Destroy);
        lemma_occurrences_short(last.1, Effect::Closed);
        let n = before.1.len() as int;
        assert forall|j: int| 0 <= j < trace.len() implies trace[j] == if j < n {
            before.1[j]
        } else {
            last.1[j - n]
        } by {}
        if last.0.rank() < 4 {
            assert forall|j: int| 0 <= j < trace.len() implies trace[j] != Effect::Closed by {
                if j >= n {
                    assert(trace[j] == last.1[j - n]);
                }
            }
        }
        assert forall|i: int| 0 <= i < trace.len() && #[trigger] trace[i] == Effect::Closing implies i
            + 1 < trace.len() && trace[i + 1] == Effect::Destroy by {
            if i < n {
                assert(before.1[i] == Effect::Closing);
                assert(trace[i + 1] == before.1[i + 1]);
            } else {
                assert(last.1[i - n] == Effect::Closing);
                assert(last.1 == seq![Effect::Closing, Effect::Destroy]);
                assert(i == n);
                assert(trace[i + 1] == last.1[1]);
            }
        }
        assert forall|i: int, j: int|
            0 <= i < trace.len() && 0 <= j < trace.len() && #[trigger] trace[i] == Effect::Destroy
                && #[trigger] trace[j] == Effect::Closed implies i < j by {
            if j < n {
                assert(before.1[j] == Effect::Closed);
                if i >= n {
                    // a destroy request is new only where the window was live
                    assert(last.1[i - n] == Effect::Destroy);
                    assert(before.0.rank() < 4);
                } else {
                    assert(before.1[i] == Effect::Destroy);
                }
            } else {
                assert(last.1[j - n] == Effect::Closed);
                assert(last.1 == seq![Effect::Closed]);
                if i >= n {
                    assert(last.1[i - n] == Effect::Destroy);
                }
            }
        }
    }
}

/// A confirmed close runs its course in three steps: the live window tells
/// its controller that it is closing and asks the platform to destroy it;
/// once the platform has done so, the window tells its controller that it
/// has closed, and is gone.
pub proof fn law_confirmed_close(hwnd: isize)
    ensures
        step(WindowState::Live { hwnd }, Step::CloseAnswered { confirmed: true }) == (
            WindowState::Closing { hwnd },
            seq![Effect::Closing, Effect::Destroy],
        ),
        step(WindowState::Closing { hwnd }, Step::DestroyReturned) == (
            WindowState::Destroyed,
            seq![Effect::Closed],
        ),
{
}

/// A close happens once and in order: in every history of a window that was
/// not closing when it began, the controller is told at most once that the
/// window is closing, exactly once if the window ever got that far; the
/// request to destroy the window follows at once and comes no other time; and
/// the controller is told at most once that the window has closed, exactly
/// once if the window was destroyed, and after the request to destroy it.
pub proof fn law_close_once_and_in_order(state: WindowState, steps: Seq<Step>)
    requires
        state.rank() <= 2,
    ensures
        ({
            let end = run(state, steps);
            &&& occurrences(end.1, Effect::Closing) == if end.0.rank() >= 3 {
                1nat
            } else {
                0nat
            }
            &&& occurrences(end.1, Effect::Destroy) == occurrences(end.1, Effect::Closing)
            &&& occurrences(end.1, Effect::Closed) == if end.0.rank() == 4 {
                1nat
            } else {
                0nat
            }
            &&& forall|i: int|
                0 <= i < end.1.len() && #[trigger] end.1[i] == Effect::Closing ==> i + 1
                    < end.1.len() && end.1[i + 1] == Effect::Destroy
            &&& forall|i: int, j: int|
                0 <= i < end.1.len() && 0 <= j < end.1.len() && #[trigger] end.1[i]
                    == Effect::Destroy && #[trigger] end.1[j] == Effect::Closed ==> i < j
        }),
{
    lemma_close_inv(state, steps);
}

/// A history that begins with one step is the history of the rest, begun
/// where that step leaves the window, with the effects of the step in front.
pub proof fn lemma_run_first(state: WindowState, first: Step, rest: Seq<Step>)
    ensures
        run(state, seq![first] + rest).0 == run(step(state, first).0, rest).0,
        run(state, seq![first] + rest).1 == step(state, first).1 + run(
            step(state, first).0,
            rest,
        ).1,
    decreases rest.len(),
{
    let all = seq![first] + rest;
    if rest.len() == 0 {
        assert(all.drop_last() == Seq::<Step>::empty());
        assert(all.last() == first);
        assert(run(state, all.drop_last()) == (state, Seq::<Effect>::empty()));
        assert(Seq::<Effect>::empty() + step(state, first).1 == step(state, first).1);
        assert(step(state, first).1 + Seq::<Effect>::empty() == step(state, first).1);
    } else {
        assert(all.drop_last() == seq![first] + rest.drop_last());
        assert(all.last() == rest.last());
        lemma_run_first(state, first, rest.drop_last());
        let mid = run(step(state, first).0, rest.drop_last());
        let last = step(mid.0, rest.last());
        assert((step(state, first).1 + mid.1) + last.1 == step(state, first).1 + (mid.1 + last.1));
    }
}

/// A refused close leaves no trace: the window is in the state it was in,
/// nothing is called, and whatever happens afterwards happens as if the close
/// had never been asked for.
pub proof fn law_refused_close_changes_nothing(state: WindowState, rest: Seq<Step>)
    ensures
        step(state, Step::CloseAnswered { confirmed: false }) == (state, Seq::<Effect>::empty()),
        run(state, seq![Step::CloseAnswered { confirmed: false }] + rest) == run(state, rest),
{
    let refusal = Step::CloseAnswered { confirmed: false };
    lemma_run_first(state, refusal, rest);
    assert(Seq::<Effect>::empty() + run(state, rest).1 == run(state, rest).1);
}

/// A live window hands every event that is addressed to it to its
/// controller, and stays live.
pub proof fn law_live_window_delivers(hwnd: isize, event: WindowEvent)
    ensures
        step(
            WindowState::Live { hwnd },
            Step::Message { hwnd, message: Message::Event(event) },
        ) == (WindowState::Live { hwnd }, seq![Effect::Deliver(event)]),
{
}

/// A window that is not live has no message handed to its controller and
/// paints nothing: a message does nothing to it but bind the handle while it
/// has none, and post the quit signal when it confirms a destruction.
pub proof fn law_only_live_windows_deliver(state: WindowState, hwnd: isize, message: Message)
    requires
        state != (WindowState::Live { hwnd }),
    ensures
        ({
            let after = step(state, Step::Message { hwnd, message });
            after.1 == if message is Destroy {
                seq![Effect::Quit]
            } else if message is Create && state is Uninitialized {
                seq![Effect::Init]
            } else {
                Seq::<Effect>::empty()
            }
        }),
{
}

} // verus!
