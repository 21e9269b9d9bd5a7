use crate::error::RecordingError;
use vstd::prelude::*;

verus! {

/// The abstract state of a recording session: whether it records, and the
/// destination, container writer and capture stream of the recording.
pub struct SessionView<P, W, S> {
    pub active: bool,
    pub destination: Option<P>,
    pub writer: Option<W>,
    pub stream: Option<S>,
}

impl<P, W, S> SessionView<P, W, S> {
    /// A session records exactly when it holds a destination, a writer and a
    /// stream.
    pub open spec fn wf(self) -> bool {
        &&& self.destination.is_some() == self.active
        &&& self.writer.is_some() == self.active
        &&& self.stream.is_some() == self.active
    }
}

/// The session that records nothing.
pub open spec fn idle<P, W, S>() -> SessionView<P, W, S> {
    SessionView { active: false, destination: None, writer: None, stream: None }
}

/// The session that records to `parts.0` through writer `parts.1`, fed by
/// stream `parts.2`.
pub open spec fn recording<P, W, S>(parts: (P, W, S)) -> SessionView<P, W, S> {
    SessionView {
        active: true,
        destination: Some(parts.0),
        writer: Some(parts.1),
        stream: Some(parts.2),
    }
}

/// The state after `start` and its result, given what the setup of the
/// recording produced (consulted only when the session was idle).
pub open spec fn start_model<P, W, S>(
    v: SessionView<P, W, S>,
    setup: Result<(P, W, S), RecordingError>,
) -> (SessionView<P, W, S>, Result<(), RecordingError>) {
    if v.active {
        (v, Err(RecordingError::AlreadyRecording))
    } else {
        match setup {
            Ok(parts) => (recording(parts), Ok(())),
            Err(e) => (idle(), Err(e)),
        }
    }
}

/// The state after `stop` and its result, given the outcome of finalizing
/// the writer (consulted only when the session was recording).
pub open spec fn stop_model<P, W, S>(
    v: SessionView<P, W, S>,
    finalized: Result<(), String>,
) -> (SessionView<P, W, S>, Result<P, RecordingError>) {
    if !v.active {
        (v, Err(RecordingError::NotRecording))
    } else {
        let r = match finalized {
            Err(m) => Err(RecordingError::FinalizeFailed(m)),
            Ok(_) => match v.destination {
                Some(p) => Ok(p),
                None => Err(RecordingError::MissingPath),
            },
        };
        (idle(), r)
    }
}

/// The single capture session of a process.
///
/// `P` is the destination path, `W` the handle of the container writer and
/// `S` the handle of the capture stream. Dropping the stream handle stops the
/// delivery of samples.
pub struct Session<P, W, S> {
    active: bool,
    destination: Option<P>,
    writer: Option<W>,
    stream: Option<S>,
}

impl<P, W, S> View for Session<P, W, S> {
    type V = SessionView<P, W, S>;

    closed spec fn view(&self) -> SessionView<P, W, S> {
        SessionView {
            active: self.active,
            destination: self.destination,
            writer: self.writer,
            stream: self.stream,
        }
    }
}

impl<P, W, S> Session<P, W, S> {
    /// A session that records nothing.
    pub fn new() -> (s: Self)
        ensures
            s@ == idle::<P, W, S>(),
    {
        Session { active: false, destination: None, writer: None, stream: None }
    }

    /// Whether a recording is in progress.
    pub fn is_active(&self) -> (r: bool)
        ensures
            r == self@.active,
    {
        self.active
    }

    /// Starts a recording. A session that records already refuses with
    /// `AlreadyRecording` and is left as it was. Otherwise the session is
    /// marked active, `setup` resolves the device and opens the destination,
    /// writer and stream; on success the session records with them, on
    /// failure it is idle again and the error is returned.
    pub fn start<F>(&mut self, setup: F) -> (r: Result<(), RecordingError>) where
        F: FnOnce() -> Result<(P, W, S), RecordingError>,
        requires
            old(self)@.wf(),
            setup.requires(()),
        ensures
            final(self)@.wf(),
            old(self)@.active ==> r == Err::<(), RecordingError>(RecordingError::AlreadyRecording)
                && final(self)@ == old(self)@,
            !old(self)@.active ==> exists|out: Result<(P, W, S), RecordingError>|
                setup.ensures((), out) && (final(self)@, r) == start_model(old(self)@, out),
    {
        if self.active {
            return Err(RecordingError::AlreadyRecording);
        }
        self.active = true;
        let out = setup();
        let ghost outcome = out;
        let r = match out {
            Ok((destination, writer, stream)) => {
                self.destination = Some(destination);
                self.writer = Some(writer);
                self.stream = Some(stream);
                Ok(())
            },
            Err(e) => {
                self.active = false;
                Err(e)
            },
        };
        assert((self@, r) == start_model(old(self)@, outcome));
        r
    }

    /// Stops the recording. A session that records nothing refuses with
    /// `NotRecording` and is left as it was. Otherwise the session becomes
    /// idle, the stream is dropped first, then the writer is handed to
    /// `finalize`; the destination is returned, or `FinalizeFailed` with the
    /// message that `finalize` gave.
    pub fn stop<F>(&mut self, finalize: F) -> (r: Result<P, RecordingError>) where
        F: FnOnce(W) -> Result<(), String>,
        requires
            old(self)@.wf(),
            forall|w: W| finalize.requires((w,)),
        ensures
            final(self)@.wf(),
            !old(self)@.active ==> r == Err::<P, RecordingError>(RecordingError::NotRecording)
                && final(self)@ == old(self)@,
            old(self)@.active ==> exists|out: Result<(), String>|
                finalize.ensures((old(self)@.writer.unwrap(),), out) && (final(self)@, r)
                    == stop_model(old(self)@, out),
    {
        if !self.active {
            return Err(RecordingError::NotRecording);
        }
        self.active = false;
        {
            let _stopped = self.stream.take();
        }
        let writer = self.writer.take();
        let destination = self.destination.take();
        let w = writer.unwrap();
        let finalized = finalize(w);
        let ghost outcome = finalized;
        let r = match finalized {
            Err(m) => Err(RecordingError::FinalizeFailed(m)),
            Ok(()) => match destination {
                Some(p) => Ok(p),
                None => Err(RecordingError::MissingPath),
            },
        };
        assert(self@ == idle::<P, W, S>());
        assert((self@, r) == stop_model(old(self)@, outcome));
        r
    }
}

} // verus!
