//! The public-facing recording session controller.
//!
//! A session is a small state machine — `Idle` to `Recording` on a
//! successful start, back to `Idle` on stop — plus the last known
//! destination file name, which stays queryable after a stop until the next
//! start overwrites it.  The caller holds the session under mutual
//! exclusion, so each operation here is one atomic check-and-transition;
//! the worker launched on a successful start runs outside this crate.

use vstd::prelude::*;
use crate::errors::RecorderError;
use crate::naming::{recording_name, recording_file_name};

verus! {

/// The session's abstract state.
pub struct SessionState {
    pub recording: bool,
    pub output_file: Option<Seq<char>>,
}

/// One start transition: refused outright while a recording is active —
/// the state is untouched and no second worker can be launched — otherwise
/// it activates the session and records the fresh destination name.
pub open spec fn start_step(s: SessionState, name: Seq<char>) -> (SessionState, Result<
    Seq<char>,
    RecorderError,
>) {
    if s.recording {
        (s, Err(RecorderError::AlreadyRecording))
    } else {
        (SessionState { recording: true, output_file: Some(name) }, Ok(name))
    }
}

/// One stop transition: a no-op reporting no active recording while idle,
/// otherwise it deactivates the session and hands back the recorded name,
/// which stays queryable.
pub open spec fn stop_step(s: SessionState) -> (SessionState, Result<
    Option<Seq<char>>,
    RecorderError,
>) {
    if !s.recording {
        (s, Ok(None))
    } else {
        (SessionState { recording: false, output_file: s.output_file }, Ok(s.output_file))
    }
}

/// Start while already recording always yields `AlreadyRecording` and
/// leaves the state — hence the set of running workers — untouched.
pub proof fn lemma_start_while_recording(s: SessionState, name: Seq<char>)
    requires
        s.recording,
    ensures
        start_step(s, name) == (s, Err::<Seq<char>, RecorderError>(RecorderError::AlreadyRecording)),
{
}

/// Stop while idle always reports no active recording and never touches
/// the output path.
pub proof fn lemma_stop_while_idle(s: SessionState)
    requires
        !s.recording,
    ensures
        stop_step(s) == (s, Ok::<Option<Seq<char>>, RecorderError>(None::<Seq<char>>)),
{
}

/// Two start calls racing on an idle session serialize under the session's
/// lock: the first wins, the second is rejected with `AlreadyRecording`,
/// and exactly one recording is active afterwards.
pub proof fn lemma_concurrent_start(s: SessionState, name1: Seq<char>, name2: Seq<char>)
    requires
        !s.recording,
    ensures
        ({
            let (s1, r1) = start_step(s, name1);
            let (s2, r2) = start_step(s1, name2);
            &&& r1 == Ok::<Seq<char>, RecorderError>(name1)
            &&& r2 == Err::<Seq<char>, RecorderError>(RecorderError::AlreadyRecording)
            &&& s2 == s1
            &&& s1.recording
        }),
{
}

/// A full start→stop cycle returns to idle and stop hands back exactly the
/// destination the start created.
pub proof fn lemma_start_stop_cycle(s: SessionState, name: Seq<char>)
    requires
        !s.recording,
    ensures
        ({
            let (s1, r1) = start_step(s, name);
            let (s2, r2) = stop_step(s1);
            &&& r1 == Ok::<Seq<char>, RecorderError>(name)
            &&& r2 == Ok::<Option<Seq<char>>, RecorderError>(Some(name))
            &&& !s2.recording
            &&& s2.output_file == Some(name)
        }),
{
}

/// Relies on std's `SystemTime::now`: the system clock's signed offset
/// from the Unix epoch, in whole seconds, saturated to the `i64` range.
/// The clock may read anything — including before the epoch — so the body
/// is total and nothing is assumed of the value.
#[verifier::external_body]
fn now_timestamp() -> i64 {
    match std::time::SystemTime::now().duration_since(std::time::UNIX_EPOCH) {
        Ok(offset) => i64::try_from(offset.as_secs()).unwrap_or(i64::MAX),
        Err(before) => match i64::try_from(before.duration().as_secs()) {
            Ok(s) => -s,
            Err(_) => i64::MIN,
        },
    }
}

/// The recording session controller: the capture-active flag and the last
/// known destination file name.
pub struct AudioRecorder {
    recording: bool,
    output_file: Option<String>,
}

impl View for AudioRecorder {
    type V = SessionState;

    closed spec fn view(&self) -> SessionState {
        SessionState {
            recording: self.recording,
            output_file: match self.output_file {
                Some(p) => Some(p@),
                None => None,
            },
        }
    }
}

impl AudioRecorder {
    /// A recording is only ever active with a destination on record.
    pub open spec fn wf(self) -> bool {
        self@.recording ==> self@.output_file is Some
    }

    /// A fresh, idle session with no recording on record.
    pub fn new() -> (r: AudioRecorder)
        ensures
            r.wf(),
            !r@.recording,
            r@.output_file is None,
    {
        AudioRecorder { recording: false, output_file: None }
    }

    /// The start transition against an explicit start time: refused with
    /// `AlreadyRecording` while active, otherwise activates the session and
    /// returns the fresh destination name derived from `ts`.
    pub fn start_with_timestamp(&mut self, ts: i64) -> (r: Result<String, RecorderError>)
        requires
            old(self).wf(),
        ensures
            final(self).wf(),
            final(self)@ == start_step(old(self)@, recording_name(ts as int)).0,
            (match r {
                Ok(p) => p@ == recording_name(ts as int) && start_step(
                    old(self)@,
                    recording_name(ts as int),
                ).1 == Ok::<Seq<char>, RecorderError>(p@),
                Err(e) => start_step(old(self)@, recording_name(ts as int)).1 == Err::<
                    Seq<char>,
                    RecorderError,
                >(e) && *final(self) == *old(self),
            }),
            r is Ok <==> !old(self)@.recording,
    {
        if self.recording {
            return Err(RecorderError::AlreadyRecording);
        }
        let name = recording_file_name(ts);
        let returned = recording_file_name(ts);
        self.recording = true;
        self.output_file = Some(name);
        Ok(returned)
    }

    /// Starts a recording at the current clock time.  While one is active
    /// this fails with `AlreadyRecording` and changes nothing; otherwise it
    /// activates the session, records a fresh timestamp-derived destination
    /// name, and returns it for the caller to launch the worker against.
    pub fn start_recording(&mut self) -> (r: Result<String, RecorderError>)
        requires
            old(self).wf(),
        ensures
            final(self).wf(),
            r is Ok <==> !old(self)@.recording,
            old(self)@.recording ==> r == Err::<String, RecorderError>(
                RecorderError::AlreadyRecording,
            ) && *final(self) == *old(self),
            (match r {
                Ok(p) => final(self)@ == (SessionState {
                    recording: true,
                    output_file: Some(p@),
                }) && (exists|ts: int| p@ == recording_name(ts)),
                Err(_) => true,
            }),
    {
        let ts = now_timestamp();
        let r = self.start_with_timestamp(ts);
        proof {
            if r is Ok {
                assert(r->Ok_0@ == recording_name(ts as int));
            }
        }
        r
    }

    /// Stops a recording: a no-op reporting no active recording while idle;
    /// otherwise flips the signal off and hands back the destination name
    /// recorded at start.  The caller waits out the worker's finalize grace
    /// period before using the file.
    pub fn stop_recording(&mut self) -> (r: Result<Option<String>, RecorderError>)
        requires
            old(self).wf(),
        ensures
            final(self).wf(),
            final(self)@ == stop_step(old(self)@).0,
            (match r {
                Ok(opt) => stop_step(old(self)@).1 == Ok::<Option<Seq<char>>, RecorderError>(
                    match opt {
                        Some(p) => Some(p@),
                        None => None,
                    },
                ),
                Err(_) => false,
            }),
            !old(self)@.recording ==> *final(self) == *old(self),
    {
        if !self.recording {
            return Ok(None);
        }
        self.recording = false;
        match &self.output_file {
            Some(p) => Ok(Some(p.clone())),
            None => Ok(None),
        }
    }

    /// The last known destination name, before or after stop; never a side
    /// effect.
    pub fn get_recording_file(&self) -> (r: Option<String>)
        ensures
            (match r {
                Some(p) => self@.output_file == Some(p@),
                None => self@.output_file is None,
            }),
    {
        match &self.output_file {
            Some(p) => Some(p.clone()),
            None => None,
        }
    }
}

} // verus!
