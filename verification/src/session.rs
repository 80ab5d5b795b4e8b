use vstd::prelude::*;
use crate::detection::{accepts, extract, extracted_from, DetectionResult};
use crate::geometry::AcquiredCorners;
use crate::params::DetectionParameters;

verus! {

/// Why an acquisition session ends without corners.
#[derive(Clone, Copy, PartialEq, Eq, Structural, Debug)]
pub enum AcquisitionError {
    /// The capture device could not be opened. Raised by the driver at
    /// session setup; fatal, never retried.
    DeviceUnavailable,
    /// The device rejected the requested capture mode (resolution or
    /// frame rate). Raised by the driver at session setup; fatal.
    UnsupportedMode,
    /// The frame source stopped yielding frames mid-session. The loop
    /// terminates at once, without a result.
    StreamEnded,
}

/// Where a running session stands, named after the work currently
/// requested of the driver. `Accepted` and `Ended` are terminal: a
/// finished session requests nothing and answers no further event.
#[derive(Clone, Copy, PartialEq, Eq, Structural, Debug)]
pub enum Phase {
    /// A frame capture has been requested and not yet answered.
    Capturing,
    /// A raw frame is in hand; the preprocessing chain has been
    /// requested on it.
    Preprocessing,
    /// A preprocessed frame is in hand; a detector invocation has been
    /// requested on it.
    Detecting,
    /// Terminal: a single candidate was accepted and its corners
    /// handed to the caller.
    Accepted,
    /// Terminal: the frame source ended before a marker was accepted.
    Ended,
}

/// What the driver reports back after performing the requested work.
/// Frames themselves never enter the session: they stay with the
/// driver, and the session decides on these reports alone.
#[derive(Clone, PartialEq, Debug)]
pub enum Event {
    /// The capture call yielded a new frame.
    FrameCaptured,
    /// The capture call failed: the stream has ended.
    StreamEnded,
    /// The preprocessing chain ran on the captured frame.
    FramePreprocessed,
    /// The detector ran on the preprocessed frame and produced this
    /// result.
    MarkersDetected(DetectionResult),
}

/// The work a session asks its driver to perform next.
#[derive(Clone, PartialEq, Debug)]
pub enum Action {
    /// Block until the frame source yields the next frame (or reports
    /// that the stream ended).
    CaptureFrame,
    /// Run the fixed preprocessing chain — grayscale conversion,
    /// Gaussian blur, unsharp-mask sharpening — on the captured frame.
    PreprocessFrame,
    /// Invoke the marker detector on the preprocessed frame with
    /// exactly these parameters.
    DetectMarkers(DetectionParameters),
}

/// What one step of the session produced.
#[derive(Clone, PartialEq, Debug)]
pub enum Step {
    /// The session continues: perform this action and report its event.
    Continue(Action),
    /// Terminal: the accepted marker's corners.
    Accepted(AcquiredCorners),
    /// Terminal: a failure to propagate to the caller.
    Failed(AcquisitionError),
}

/// Which events may answer the work requested in a phase. A capture
/// request is answered by a frame or by the end of the stream; the
/// other requests are CPU-bound and always complete. Terminal phases
/// request nothing, so no event answers them.
pub open spec fn answers(phase: Phase, event: Event) -> bool {
    match phase {
        Phase::Capturing => event is FrameCaptured || event is StreamEnded,
        Phase::Preprocessing => event is FramePreprocessed,
        Phase::Detecting => event is MarkersDetected,
        Phase::Accepted => false,
        Phase::Ended => false,
    }
}

/// The transition function of the acquisition state machine:
/// capture feeds preprocessing, preprocessing feeds detection, and a
/// detection outcome either is accepted (exactly one candidate) or
/// loops back to capture; a capture failure ends the session.
pub open spec fn next_phase(phase: Phase, event: Event) -> Phase
    recommends
        answers(phase, event),
{
    match phase {
        Phase::Capturing => if event is StreamEnded {
            Phase::Ended
        } else {
            Phase::Preprocessing
        },
        Phase::Preprocessing => Phase::Detecting,
        Phase::Detecting => match event {
            Event::MarkersDetected(res) => if accepts(res.candidate_count()) {
                Phase::Accepted
            } else {
                Phase::Capturing
            },
            _ => phase,
        },
        Phase::Accepted => phase,
        Phase::Ended => phase,
    }
}

/// The work requested of the driver while a session stands in a
/// non-terminal phase.
pub open spec fn requested_action(phase: Phase, params: DetectionParameters) -> Action
    recommends
        phase is Capturing || phase is Preprocessing || phase is Detecting,
{
    match phase {
        Phase::Preprocessing => Action::PreprocessFrame,
        Phase::Detecting => Action::DetectMarkers(params),
        _ => Action::CaptureFrame,
    }
}

/// One marker-acquisition session.
///
/// The session owns the retry and termination policy of the
/// acquisition loop. Its driver performs the requested outside work
/// (capture, preprocessing, detection) and reports each outcome
/// through [`Session::step`]; the session decides what happens next
/// and never touches a frame itself. The detection parameters are
/// fixed at construction and handed to every detector invocation
/// unchanged.
pub struct Session {
    params: DetectionParameters,
    phase: Phase,
    captures_requested: Ghost<nat>,
    detects_requested: Ghost<nat>,
}

impl Session {
    /// The parameters every detector invocation of this session uses.
    pub closed spec fn params(self) -> DetectionParameters {
        self.params
    }

    /// The phase the session stands in.
    pub closed spec fn phase(self) -> Phase {
        self.phase
    }

    /// How many frame captures this session has requested so far.
    pub closed spec fn captures_requested(self) -> nat {
        self.captures_requested@
    }

    /// How many detector invocations this session has requested so far.
    pub closed spec fn detects_requested(self) -> nat {
        self.detects_requested@
    }

    /// A finished session: it requests nothing and admits no event.
    pub open spec fn is_terminal(self) -> bool {
        self.phase() is Accepted || self.phase() is Ended
    }

    /// Opens a session over fixed detection parameters. Creating the
    /// session issues the first capture request: the driver reads it
    /// through [`Session::pending_action`] and answers it through
    /// [`Session::step`].
    pub fn new(params: DetectionParameters) -> (s: Session)
        ensures
            s.params() == params,
            s.phase() is Capturing,
            s.captures_requested() == 1,
            s.detects_requested() == 0,
    {
        Session {
            params,
            phase: Phase::Capturing,
            captures_requested: Ghost(1),
            detects_requested: Ghost(0),
        }
    }

    /// The work the driver must perform next and answer through
    /// [`Session::step`].
    pub fn pending_action(&self) -> (a: Action)
        requires
            !self.is_terminal(),
        ensures
            a == requested_action(self.phase(), self.params()),
    {
        match self.phase {
            Phase::Preprocessing => Action::PreprocessFrame,
            Phase::Detecting => Action::DetectMarkers(self.params),
            _ => Action::CaptureFrame,
        }
    }

    /// Advances the session by one reported outcome.
    ///
    /// A captured frame is handed on to the preprocessing chain; a
    /// preprocessed frame is handed on to the detector with the
    /// session's parameters unmodified; a detection with exactly one
    /// candidate is accepted, its corners extracted verbatim, and the
    /// session ends; any other candidate count retries with exactly
    /// one additional capture request; a capture failure ends the
    /// session at once with `StreamEnded`, requesting no further
    /// capture and no detector invocation for that iteration.
    pub fn step(&mut self, event: Event) -> (r: Step)
        requires
            !old(self).is_terminal(),
            answers(old(self).phase(), event),
        ensures
            final(self).params() == old(self).params(),
            final(self).phase() == next_phase(old(self).phase(), event),
            event is StreamEnded ==> {
                &&& r == Step::Failed(AcquisitionError::StreamEnded)
                &&& final(self).is_terminal()
                &&& final(self).captures_requested() == old(self).captures_requested()
                &&& final(self).detects_requested() == old(self).detects_requested()
            },
            event is FrameCaptured ==> {
                &&& r == Step::Continue(Action::PreprocessFrame)
                &&& final(self).captures_requested() == old(self).captures_requested()
                &&& final(self).detects_requested() == old(self).detects_requested()
            },
            event is FramePreprocessed ==> {
                &&& r == Step::Continue(Action::DetectMarkers(old(self).params()))
                &&& final(self).captures_requested() == old(self).captures_requested()
                &&& final(self).detects_requested() == old(self).detects_requested() + 1
            },
            event matches Event::MarkersDetected(res) ==> {
                &&& final(self).detects_requested() == old(self).detects_requested()
                &&& accepts(res.candidate_count()) ==> {
                    &&& r matches Step::Accepted(c) && extracted_from(c, res.candidates@[0])
                    &&& final(self).is_terminal()
                    &&& final(self).captures_requested() == old(self).captures_requested()
                }
                &&& !accepts(res.candidate_count()) ==> {
                    &&& r == Step::Continue(Action::CaptureFrame)
                    &&& final(self).captures_requested() == old(self).captures_requested() + 1
                }
            },
    {
        match event {
            Event::StreamEnded => {
                self.phase = Phase::Ended;
                Step::Failed(AcquisitionError::StreamEnded)
            },
            Event::FrameCaptured => {
                self.phase = Phase::Preprocessing;
                Step::Continue(Action::PreprocessFrame)
            },
            Event::FramePreprocessed => {
                self.phase = Phase::Detecting;
                self.detects_requested = Ghost(self.detects_requested@ + 1);
                Step::Continue(Action::DetectMarkers(self.params))
            },
            Event::MarkersDetected(res) => {
                if res.candidates.len() == 1 {
                    self.phase = Phase::Accepted;
                    let corners = extract(&res.candidates[0]);
                    Step::Accepted(corners)
                } else {
                    self.phase = Phase::Capturing;
                    self.captures_requested = Ghost(self.captures_requested@ + 1);
                    Step::Continue(Action::CaptureFrame)
                }
            },
        }
    }
}

/// Entry `i` of a detection script is the first its session accepts:
/// it has exactly one candidate and every earlier entry does not.
pub open spec fn first_accepted(script: Seq<DetectionResult>, i: int) -> bool {
    &&& 0 <= i < script.len()
    &&& accepts(script[i].candidate_count())
    &&& forall|j: int| 0 <= j < i ==> !(#[trigger] accepts(script[j].candidate_count()))
}

/// Copies a list of plain values element for element.
fn copy_of<T: Copy>(v: &Vec<T>) -> (r: Vec<T>)
    ensures
        r@ == v@,
{
    let mut r: Vec<T> = Vec::new();
    let mut i: usize = 0;
    while i < v.len()
        invariant
            0 <= i <= v@.len(),
            r@ == v@.subrange(0, i as int),
        decreases v@.len() - i,
    {
        r.push(v[i]);
        proof {
            assert(v@.subrange(0, i as int).push(v@[i as int]) =~= v@.subrange(0, i + 1 as int));
        }
        i = i + 1;
    }
    proof {
        assert(v@.subrange(0, v@.len() as int) =~= v@);
    }
    r
}

impl Session {
    /// Replays the session against a synthetic frame source and
    /// detector given as a script: the source yields one frame per
    /// script entry, entry `i` is what the detector returns for the
    /// `i`-th frame, and after the last entry the stream ends.
    ///
    /// Returns the corners of the first accepted entry together with
    /// the number of detector invocations issued — one per script
    /// entry up to and including the accepted one — or `None` with
    /// the full count when no entry has exactly one candidate. Every
    /// retry requests exactly one additional frame capture.
    pub fn acquire_scripted(&mut self, script: &Vec<DetectionResult>) -> (r: (
        Option<AcquiredCorners>,
        usize,
    ))
        requires
            old(self).phase() is Capturing,
        ensures
            final(self).params() == old(self).params(),
            final(self).detects_requested() == old(self).detects_requested() + r.1,
            r.0 matches Some(c) ==> {
                &&& first_accepted(script@, r.1 - 1)
                &&& extracted_from(c, script@[r.1 - 1].candidates@[0])
                &&& final(self).phase() is Accepted
                &&& final(self).captures_requested() == old(self).captures_requested() + r.1 - 1
            },
            r.0 is None ==> {
                &&& forall|i: int|
                    0 <= i < script@.len() ==> !(#[trigger] accepts(
                        script@[i].candidate_count(),
                    ))
                &&& r.1 == script@.len()
                &&& final(self).phase() is Ended
                &&& final(self).captures_requested() == old(self).captures_requested() + r.1
            },
    {
        let mut i: usize = 0;
        while i < script.len()
            invariant
                0 <= i <= script@.len(),
                self.phase() is Capturing,
                self.params() == old(self).params(),
                self.captures_requested() == old(self).captures_requested() + i,
                self.detects_requested() == old(self).detects_requested() + i,
                forall|j: int| 0 <= j < i ==> !(#[trigger] accepts(script@[j].candidate_count())),
            decreases script@.len() - i,
        {
            let _requested = self.step(Event::FrameCaptured);
            let _detect = self.step(Event::FramePreprocessed);
            let res = DetectionResult {
                candidates: copy_of(&script[i].candidates),
                rejected: copy_of(&script[i].rejected),
            };
            let outcome = self.step(Event::MarkersDetected(res));
            match outcome {
                Step::Accepted(corners) => {
                    return (Some(corners), i + 1);
                },
                _ => {},
            }
            i = i + 1;
        }
        let _ended = self.step(Event::StreamEnded);
        (None, i)
    }
}

/// For every detector outcome, the session accepts exactly when the
/// candidate count is one, and retries (returns to frame capture)
/// exactly when it is not.
pub proof fn lemma_accept_exactly_on_single(res: DetectionResult)
    ensures
        next_phase(Phase::Detecting, Event::MarkersDetected(res)) is Accepted <==> res.candidate_count() == 1,
        next_phase(Phase::Detecting, Event::MarkersDetected(res)) is Capturing <==> res.candidate_count() != 1,
{
}

/// A stream-ended report halts the machine: the next phase is terminal.
pub proof fn lemma_stream_end_halts(phase: Phase)
    requires
        answers(phase, Event::StreamEnded),
    ensures
        next_phase(phase, Event::StreamEnded) is Ended,
{
}

/// Terminal phases admit no further event: once a session is accepted
/// or ended, no capture, preprocessing or detection is ever requested
/// or answered again.
pub proof fn lemma_terminal_admits_no_event(phase: Phase, event: Event)
    requires
        phase is Accepted || phase is Ended,
    ensures
        !answers(phase, event),
{
}

} // verus!
