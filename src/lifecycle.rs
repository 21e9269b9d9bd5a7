use crate::error::RecordingError;
use crate::session::{idle, start_model, stop_model, SessionView};
use vstd::prelude::*;

verus! {

/// One call of the control surface, with what its outside work produced:
/// the result of the setup for a start, of finalizing for a stop. Calls are
/// serialized by the lock around the session, so any interleaving of callers
/// is a sequence of these.
pub enum ControlCall<P, W, S> {
    Start(Result<(P, W, S), RecordingError>),
    Stop(Result<(), String>),
}

/// The session after one call.
pub open spec fn after<P, W, S>(v: SessionView<P, W, S>, c: ControlCall<P, W, S>) -> SessionView<
    P,
    W,
    S,
> {
    match c {
        ControlCall::Start(out) => start_model(v, out).0,
        ControlCall::Stop(fin) => stop_model(v, fin).0,
    }
}

/// Whether the call is a start that succeeds.
pub open spec fn start_won<P, W, S>(v: SessionView<P, W, S>, c: ControlCall<P, W, S>) -> bool {
    c matches ControlCall::Start(out) && start_model(v, out).1 is Ok
}

/// Whether the call is a stop that ends a recording.
pub open spec fn recording_ended<P, W, S>(v: SessionView<P, W, S>, c: ControlCall<P, W, S>) -> bool {
    c is Stop && v.active
}

/// The session after a sequence of calls.
pub open spec fn run<P, W, S>(v: SessionView<P, W, S>, calls: Seq<ControlCall<P, W, S>>) -> SessionView<
    P,
    W,
    S,
>
    decreases calls.len(),
{
    if calls.len() == 0 {
        v
    } else {
        run(after(v, calls[0]), calls.drop_first())
    }
}

/// How many calls of the sequence are starts that succeed.
pub open spec fn starts_won<P, W, S>(v: SessionView<P, W, S>, calls: Seq<ControlCall<P, W, S>>) -> nat
    decreases calls.len(),
{
    if calls.len() == 0 {
        0
    } else {
        (if start_won(v, calls[0]) {
            1nat
        } else {
            0nat
        }) + starts_won(after(v, calls[0]), calls.drop_first())
    }
}

/// How many calls of the sequence are stops that end a recording.
pub open spec fn recordings_ended<P, W, S>(
    v: SessionView<P, W, S>,
    calls: Seq<ControlCall<P, W, S>>,
) -> nat
    decreases calls.len(),
{
    if calls.len() == 0 {
        0
    } else {
        (if recording_ended(v, calls[0]) {
            1nat
        } else {
            0nat
        }) + recordings_ended(after(v, calls[0]), calls.drop_first())
    }
}

/// Whatever calls are made, the session stays well formed and every
/// successful start opens exactly one recording: successful starts, plus one
/// if a recording was open at first, equal the recordings ended, plus one if
/// a recording is open at last. So from an idle session no start wins while
/// the recording of an earlier winner is open.
pub proof fn lemma_one_recording_per_start<P, W, S>(
    v: SessionView<P, W, S>,
    calls: Seq<ControlCall<P, W, S>>,
)
    requires
        v.wf(),
    ensures
        run(v, calls).wf(),
        starts_won(v, calls) + (if v.active {
            1int
        } else {
            0int
        }) == recordings_ended(v, calls) + (if run(v, calls).active {
            1int
        } else {
            0int
        }),
        !v.active ==> recordings_ended(v, calls) <= starts_won(v, calls) <= recordings_ended(v, calls)
            + 1,
    decreases calls.len(),
{
    if calls.len() > 0 {
        lemma_one_recording_per_start(after(v, calls[0]), calls.drop_first());
    }
}

/// A start made while the recording of a successful start is open fails with
/// `AlreadyRecording` and leaves that recording as it was.
pub proof fn lemma_second_start_refused<P, W, S>(
    v: SessionView<P, W, S>,
    first: Result<(P, W, S), RecordingError>,
    second: Result<(P, W, S), RecordingError>,
)
    requires
        v.wf(),
    ensures
        start_model(v, first).1 is Ok ==> start_model(start_model(v, first).0, second) == (
            start_model(v, first).0,
            Err::<(), RecordingError>(RecordingError::AlreadyRecording),
        ),
{
}

/// Until some start has succeeded, the session stays idle, and a stop fails
/// with `NotRecording` and leaves it idle.
pub proof fn lemma_stop_before_any_start<P, W, S>(
    calls: Seq<ControlCall<P, W, S>>,
    fin: Result<(), String>,
)
    requires
        starts_won(idle::<P, W, S>(), calls) == 0,
    ensures
        run(idle::<P, W, S>(), calls) == idle::<P, W, S>(),
        stop_model(run(idle::<P, W, S>(), calls), fin) == (
            idle::<P, W, S>(),
            Err::<P, RecordingError>(RecordingError::NotRecording),
        ),
{
    lemma_one_recording_per_start(idle::<P, W, S>(), calls);
}

/// On an idle session, a stop that takes the lock before a concurrent start
/// fails with `NotRecording` and changes nothing; the start then goes as on
/// any idle session and wins when its setup succeeds.
pub proof fn lemma_stop_then_start_from_idle<P, W, S>(
    fin: Result<(), String>,
    setup: Result<(P, W, S), RecordingError>,
)
    ensures
        stop_model(idle::<P, W, S>(), fin) == (
            idle::<P, W, S>(),
            Err::<P, RecordingError>(RecordingError::NotRecording),
        ),
        start_model(stop_model(idle::<P, W, S>(), fin).0, setup) == start_model(
            idle::<P, W, S>(),
            setup,
        ),
        setup is Ok ==> start_model(idle::<P, W, S>(), setup).1 is Ok && start_model(
            idle::<P, W, S>(),
            setup,
        ).0.active,
{
}

} // verus!
