//! The capture session state machine and the decisions taken on the capture
//! thread's hot path.
//!
//! A session manager owns exactly one piece of state: either no session, or
//! one running session with the path of the file being written.  `start` and
//! `stop` are the only transitions; both are specified as pure steps over the
//! abstract view, so that the lifecycle laws can be stated and proved once
//! and for all.  The unverified shell wraps a [`SessionMachine`] in a lock,
//! spawns the worker thread, and performs the file and device work around it.

use vstd::prelude::*;

use crate::errors::CaptureError;

verus! {

/// Target sample rate of every recorded file, in Hz.
pub const SAMPLE_RATE: u32 = 16_000;

/// Target channel count of every recorded file.
pub const CHANNELS: u16 = 1;

/// Target sample width of every recorded file, in bits.
pub const BITS_PER_SAMPLE: u16 = 16;

/// Either no session, or one running session writing to `file_path`.
enum SessionState {
    Idle,
    Recording { file_path: String },
}

/// The single-session state machine of the capture engine.
///
/// Its abstract view is `Option<Seq<char>>`: `None` while idle, and
/// `Some(path)` while a session recording to `path` is running.
pub struct SessionMachine {
    state: SessionState,
}

/// One `start` transition over the abstract view: refused while a session
/// runs, otherwise the session with the given output path begins.
pub open spec fn start_step(v: Option<Seq<char>>, path: Seq<char>) -> (Option<Seq<char>>, Result<
    (),
    CaptureError,
>) {
    if v is Some {
        (v, Err(CaptureError::AlreadyRecording))
    } else {
        (Some(path), Ok(()))
    }
}

/// One `stop` transition over the abstract view: refused while idle,
/// otherwise the running session ends and its output path is handed back.
pub open spec fn stop_step(v: Option<Seq<char>>) -> (Option<Seq<char>>, Result<
    Seq<char>,
    CaptureError,
>) {
    match v {
        None => (None, Err(CaptureError::NotRecording)),
        Some(path) => (None, Ok(path)),
    }
}

impl View for SessionMachine {
    type V = Option<Seq<char>>;

    closed spec fn view(&self) -> Option<Seq<char>> {
        match self.state {
            SessionState::Idle => None,
            SessionState::Recording { file_path } => Some(file_path@),
        }
    }
}

impl SessionMachine {
    /// A fresh, idle machine: no session exists yet.
    pub fn new() -> (r: SessionMachine)
        ensures
            r@ is None,
    {
        SessionMachine { state: SessionState::Idle }
    }

    /// Whether a session is currently running.
    pub fn is_recording(&self) -> (r: bool)
        ensures
            r == (self@ is Some),
    {
        match self.state {
            SessionState::Idle => false,
            SessionState::Recording { .. } => true,
        }
    }

    /// Begin a session that records to `path`.
    ///
    /// Fails with [`CaptureError::AlreadyRecording`], and changes nothing,
    /// if a session is already running.
    pub fn start_session(&mut self, path: String) -> (r: Result<(), CaptureError>)
        ensures
            final(self)@ == start_step(old(self)@, path@).0,
            r == start_step(old(self)@, path@).1,
    {
        match &self.state {
            SessionState::Recording { .. } => Err(CaptureError::AlreadyRecording),
            SessionState::Idle => {
                self.state = SessionState::Recording { file_path: path };
                Ok(())
            },
        }
    }

    /// End the running session and hand back the path of its output file.
    ///
    /// Fails with [`CaptureError::NotRecording`], and changes nothing, if no
    /// session is running.
    pub fn stop_session(&mut self) -> (r: Result<String, CaptureError>)
        ensures
            final(self)@ == stop_step(old(self)@).0,
            r is Ok <==> stop_step(old(self)@).1 is Ok,
            r is Ok ==> r->Ok_0@ == stop_step(old(self)@).1->Ok_0,
            r is Err ==> r->Err_0 == stop_step(old(self)@).1->Err_0,
    {
        match &self.state {
            SessionState::Idle => Err(CaptureError::NotRecording),
            SessionState::Recording { file_path } => {
                let path = file_path.clone();
                self.state = SessionState::Idle;
                Ok(path)
            },
        }
    }
}

/// A fresh session manager reports not-recording, and a `stop` before any
/// `start` fails with `NotRecording` and changes nothing.
pub proof fn lemma_fresh_manager_idle(v: Option<Seq<char>>)
    requires
        v is None,
    ensures
        stop_step(v).1 == Err::<Seq<char>, CaptureError>(CaptureError::NotRecording),
        stop_step(v).0 == v,
{
}

/// A second `start` without an intervening `stop` fails with
/// `AlreadyRecording` and leaves the running session untouched: the first
/// `start` succeeds, the second fails, and the state after both is exactly
/// the state after the first.
pub proof fn lemma_second_start_rejected(v: Option<Seq<char>>, p1: Seq<char>, p2: Seq<char>)
    requires
        v is None,
    ensures
        start_step(v, p1).1 is Ok,
        start_step(start_step(v, p1).0, p2).1 == Err::<(), CaptureError>(
            CaptureError::AlreadyRecording,
        ),
        start_step(start_step(v, p1).0, p2).0 == start_step(v, p1).0,
{
}

/// A `stop` after a successful `start` hands back exactly the path that the
/// `start` recorded, and leaves the manager idle.
pub proof fn lemma_stop_returns_start_path(v: Option<Seq<char>>, p: Seq<char>)
    requires
        v is None,
    ensures
        start_step(v, p).1 is Ok,
        stop_step(start_step(v, p).0).1 == Ok::<Seq<char>, CaptureError>(p),
        stop_step(start_step(v, p).0).0 is None,
{
}

/// The manager has no terminal state: after a session is stopped, a new one
/// may begin.
pub proof fn lemma_manager_reusable(v: Option<Seq<char>>, p1: Seq<char>, p2: Seq<char>)
    requires
        v is None,
    ensures
        start_step(stop_step(start_step(v, p1).0).0, p2).1 is Ok,
{
}

/// Stop-poll decision of the capture thread's own loop.  `flag` is what one
/// read of the shared stop flag produced; `None` stands for a flag that
/// could not be read (a poisoned lock).  The loop stops on a set flag and
/// also on an unreadable one — fail-safe, never fail-open.
pub fn runner_should_stop(flag: Option<bool>) -> (r: bool)
    ensures
        r == match flag {
            Some(set) => set,
            None => true,
        },
{
    match flag {
        Some(set) => set,
        None => true,
    }
}

/// Skip decision of the real-time data callback.  `flag` is what one
/// non-blocking read of the shared stop flag produced; `None` stands for a
/// read that could not be made instantly (the lock was busy).  The callback
/// drops the buffer only on a flag known to be set; an unreadable flag means
/// "not yet stopped", because the real-time thread must never wait.
pub fn callback_should_skip(flag: Option<bool>) -> (r: bool)
    ensures
        r == (flag == Some(true)),
{
    match flag {
        Some(set) => set,
        None => false,
    }
}

/// First-error-wins update of the session's single-slot error cell: the
/// first recorded error stays, every later one is dropped.
pub fn store_first_error(cell: &mut Option<String>, err: String)
    ensures
        (*old(cell)) is Some ==> (*final(cell)) is Some && (*final(cell)).unwrap()@ == (*old(
            cell,
        )).unwrap()@,
        (*old(cell)) is None ==> (*final(cell)) is Some && (*final(cell)).unwrap()@ == err@,
{
    if cell.is_none() {
        *cell = Some(err);
    }
}

} // verus!
