//! The playback decisions: which step is due, and what follows each outcome.
//!
//! A driver performs the step that is due (writing to the terminal, sleeping,
//! reading the keyboard, starting audio) and reports what happened; the
//! session answers with the next step.

use crate::rate::{delay_of, first_group, rate_error_text, rate_pattern, resolve_delay};
use vstd::prelude::*;

verus! {

/// A key that the driver observed.
#[derive(Clone, Copy, Debug, PartialEq, Eq, Structural)]
pub struct KeyPress {
    /// The character of the key.
    pub symbol: char,
    /// Whether the control key was held.
    pub control: bool,
    /// Whether any other modifier was held.
    pub others: bool,
}

impl KeyPress {
    /// Whether the key ends playback: a plain `q`, or `c` with control alone.
    pub open spec fn cancels(self) -> bool {
        !self.others && ((self.symbol == 'q' && !self.control) || (self.symbol == 'c' && self.control))
    }

    /// Whether the key ends playback.
    pub fn is_cancel(&self) -> (cancel: bool)
        ensures
            cancel == self.cancels(),
    {
        !self.others && ((self.symbol == 'q' && !self.control) || (self.symbol == 'c' && self.control))
    }
}

/// Where a playback session stands.
#[derive(Clone, Copy, Debug, PartialEq, Eq, Structural)]
pub enum Phase {
    /// The drawing region is being reserved and the anchor captured.
    Priming,
    /// The frame rate is being determined.
    Probing,
    /// The audio stream of a pass is being started.
    Tuning,
    /// The frame is being drawn.
    Drawing { frame: usize },
    /// The frame stands; the delay runs and the keyboard is polled.
    Pausing { frame: usize },
    /// Playback ran to its end.
    Finished,
    /// The user ended playback.
    Cancelled,
    /// A step failed.
    Failed,
}

/// What the driver is to do.
#[derive(Clone, Copy, Debug, PartialEq, Eq, Structural)]
pub enum Action {
    /// Reserve `rows` lines, enter raw input mode, rewind to the top left of
    /// the region and report the cursor position.
    Prime { rows: u32 },
    /// Obtain the stream description and hand it to `describe`.
    Probe,
    /// Start the audio stream anew; the previous one, if any, ends.
    StartAudio,
    /// Render the frame and write it out, flushing after every cell.
    Draw { frame: usize },
    /// Move the cursor to the anchor, sleep for `millis`, then poll the
    /// keyboard briefly.
    Pause { millis: u64, column: u16, row: u16 },
    /// Leave raw input mode; playback is over.
    Finish,
    /// Leave raw input mode and report the failure.
    Abort,
}

/// What the driver reports.
#[derive(Clone, Copy, Debug, PartialEq, Eq, Structural)]
pub enum Event {
    /// The region is reserved; the cursor stands at the anchor given.
    Primed { column: u16, row: u16 },
    /// The delay between frames, in milliseconds.
    Rate { millis: u64 },
    /// The audio stream runs.
    AudioStarted,
    /// The frame was written out.
    Drawn,
    /// A key was read.
    Key(KeyPress),
    /// No key was read. A poll that fails is reported so too: it neither
    /// cancels nor fails playback.
    Quiet,
    /// The step failed.
    Failed,
}

/// A playback session.
#[derive(Clone, Copy, Debug, PartialEq, Eq, Structural)]
pub struct Playback {
    /// The number of frames.
    pub frames: usize,
    /// The number of terminal lines that a frame takes.
    pub rows: u32,
    /// Whether a finished pass is followed by another.
    pub looping: bool,
    /// Whether each pass is accompanied by audio.
    pub audio: bool,
    /// Where the session stands.
    pub phase: Phase,
    /// The column of the anchor.
    pub column: u16,
    /// The row of the anchor.
    pub row: u16,
    /// The delay between frames, in milliseconds.
    pub delay: u64,
}

impl Playback {
    /// Whether the session is a video: it has more than one frame.
    pub open spec fn is_video(self) -> bool {
        self.frames > 1
    }

    /// The session has a frame, the frame at hand exists, and a still image
    /// is in none of the phases that only a video passes through.
    pub open spec fn wf(self) -> bool {
        &&& self.frames >= 1
        &&& match self.phase {
            Phase::Drawing { frame } => frame < self.frames,
            Phase::Pausing { frame } => frame < self.frames && self.is_video(),
            Phase::Probing | Phase::Tuning | Phase::Cancelled => self.is_video(),
            _ => true,
        }
    }

    /// Whether the session is over.
    pub open spec fn is_over(self) -> bool {
        self.phase == Phase::Finished || self.phase == Phase::Cancelled || self.phase == Phase::Failed
    }

    /// The session at the start of playback.
    pub open spec fn initial(frames: usize, rows: u32, looping: bool, audio: bool) -> Playback {
        Playback { frames, rows, looping, audio, phase: Phase::Priming, column: 0, row: 0, delay: 0 }
    }

    /// The phase in which a pass begins: audio first, where there is any.
    pub open spec fn pass_start(self) -> Phase {
        if self.audio {
            Phase::Tuning
        } else {
            Phase::Drawing { frame: 0 }
        }
    }

    /// The phase after frame `frame` has stood for its time uncancelled.
    pub open spec fn after_frame(self, frame: usize) -> Phase {
        if frame + 1 < self.frames {
            Phase::Drawing { frame: (frame + 1) as usize }
        } else if self.looping {
            self.pass_start()
        } else {
            Phase::Finished
        }
    }

    /// The session with another phase.
    pub open spec fn at(self, phase: Phase) -> Playback {
        Playback { phase, ..self }
    }

    /// The session after `event`. An event that the phase does not await
    /// changes nothing, except a failure, which ends any running session.
    pub open spec fn next(self, event: Event) -> Playback {
        match (self.phase, event) {
            (Phase::Finished, _) | (Phase::Cancelled, _) | (Phase::Failed, _) => self,
            (_, Event::Failed) => self.at(Phase::Failed),
            (Phase::Priming, Event::Primed { column, row }) => Playback {
                column,
                row,
                phase: if self.is_video() {
                    Phase::Probing
                } else {
                    Phase::Drawing { frame: 0 }
                },
                ..self
            },
            (Phase::Probing, Event::Rate { millis }) => Playback { delay: millis, phase: self.pass_start(), ..self },
            (Phase::Tuning, Event::AudioStarted) => self.at(Phase::Drawing { frame: 0 }),
            (Phase::Drawing { frame }, Event::Drawn) => if self.is_video() {
                self.at(Phase::Pausing { frame })
            } else {
                self.at(Phase::Finished)
            },
            (Phase::Pausing { frame }, Event::Key(key)) => if key.cancels() {
                self.at(Phase::Cancelled)
            } else {
                self.at(self.after_frame(frame))
            },
            (Phase::Pausing { frame }, Event::Quiet) => self.at(self.after_frame(frame)),
            _ => self,
        }
    }

    /// The step that is due.
    pub open spec fn pending(self) -> Action {
        match self.phase {
            Phase::Priming => Action::Prime { rows: self.rows },
            Phase::Probing => Action::Probe,
            Phase::Tuning => Action::StartAudio,
            Phase::Drawing { frame } => Action::Draw { frame },
            Phase::Pausing { frame } => Action::Pause { millis: self.delay, column: self.column, row: self.row },
            Phase::Finished | Phase::Cancelled => Action::Finish,
            Phase::Failed => Action::Abort,
        }
    }

    /// Begins a session of `frames` frames that take `rows` lines each.
    pub fn begin(frames: usize, rows: u32, looping: bool, audio: bool) -> (session: Playback)
        requires
            frames >= 1,
        ensures
            session == Playback::initial(frames, rows, looping, audio),
            session.wf(),
    {
        Playback { frames, rows, looping, audio, phase: Phase::Priming, column: 0, row: 0, delay: 0 }
    }

    /// The step that is due.
    pub fn due(&self) -> (action: Action)
        ensures
            action == self.pending(),
    {
        match self.phase {
            Phase::Priming => Action::Prime { rows: self.rows },
            Phase::Probing => Action::Probe,
            Phase::Tuning => Action::StartAudio,
            Phase::Drawing { frame } => Action::Draw { frame },
            Phase::Pausing { frame } => Action::Pause { millis: self.delay, column: self.column, row: self.row },
            Phase::Finished => Action::Finish,
            Phase::Cancelled => Action::Finish,
            Phase::Failed => Action::Abort,
        }
    }

    /// Whether the session is over.
    pub fn over(&self) -> (over: bool)
        ensures
            over == self.is_over(),
    {
        match self.phase {
            Phase::Finished => true,
            Phase::Cancelled => true,
            Phase::Failed => true,
            _ => false,
        }
    }

    fn start_of_pass(&self) -> (phase: Phase)
        ensures
            phase == self.pass_start(),
    {
        if self.audio {
            Phase::Tuning
        } else {
            Phase::Drawing { frame: 0 }
        }
    }

    fn following(&self, frame: usize) -> (phase: Phase)
        requires
            frame < self.frames,
        ensures
            phase == self.after_frame(frame),
    {
        if frame + 1 < self.frames {
            Phase::Drawing { frame: frame + 1 }
        } else if self.looping {
            self.start_of_pass()
        } else {
            Phase::Finished
        }
    }

    /// Takes in the stream description that the driver obtained: the delay
    /// between frames is read from it and reported, or the failure where it
    /// gives no frame rate. Answers with the step that is due next and, on
    /// failure, the message.
    pub fn describe(&mut self, metadata: &str) -> (outcome: (Action, Option<String>))
        requires
            old(self).wf(),
        ensures
            final(self).wf(),
            outcome.0 == final(self).pending(),
            match delay_of(first_group(rate_pattern(), metadata@)) {
                Some(millis) => *final(self) == old(self).next(Event::Rate { millis: millis as u64 }) && millis
                    <= u64::MAX && outcome.1 is None,
                None => *final(self) == old(self).next(Event::Failed) && outcome.1 is Some
                    && outcome.1->Some_0@ == rate_error_text(),
            },
    {
        match resolve_delay(metadata) {
            Ok(millis) => (self.advance(Event::Rate { millis }), None),
            Err(message) => (self.advance(Event::Failed), Some(message)),
        }
    }

    /// Takes in what the driver reports and answers with the step that is due next.
    pub fn advance(&mut self, event: Event) -> (action: Action)
        requires
            old(self).wf(),
        ensures
            *final(self) == old(self).next(event),
            final(self).wf(),
            action == final(self).pending(),
    {
        let video = self.frames > 1;
        let phase = match (self.phase, event) {
            (Phase::Finished, _) => Phase::Finished,
            (Phase::Cancelled, _) => Phase::Cancelled,
            (Phase::Failed, _) => Phase::Failed,
            (_, Event::Failed) => Phase::Failed,
            (Phase::Priming, Event::Primed { column, row }) => {
                self.column = column;
                self.row = row;
                if video {
                    Phase::Probing
                } else {
                    Phase::Drawing { frame: 0 }
                }
            },
            (Phase::Probing, Event::Rate { millis }) => {
                self.delay = millis;
                self.start_of_pass()
            },
            (Phase::Tuning, Event::AudioStarted) => Phase::Drawing { frame: 0 },
            (Phase::Drawing { frame }, Event::Drawn) => if video {
                Phase::Pausing { frame }
            } else {
                Phase::Finished
            },
            (Phase::Pausing { frame }, Event::Key(key)) => if key.is_cancel() {
                Phase::Cancelled
            } else {
                self.following(frame)
            },
            (Phase::Pausing { frame }, Event::Quiet) => self.following(frame),
            (current, _) => current,
        };
        self.phase = phase;
        self.due()
    }
}

/// A session of a single frame never asks for the frame rate, for audio or
/// for a pause with its keyboard poll, whatever is reported to it; once
/// primed it draws its frame, and once that is drawn it is finished.
pub proof fn still_image_is_drawn_once(session: Playback, event: Event)
    requires
        session.wf(),
        session.frames == 1,
    ensures
        session.next(event).wf(),
        session.next(event).frames == 1,
        session.pending() != Action::Probe,
        session.pending() != Action::StartAudio,
        !(session.pending() is Pause),
        session.next(event).pending() != Action::Probe,
        session.next(event).pending() != Action::StartAudio,
        !(session.next(event).pending() is Pause),
        session.phase == Phase::Priming && event is Primed ==> session.next(event).pending() == (Action::Draw {
            frame: 0,
        }),
        session.phase is Drawing && event == Event::Drawn ==> session.next(event).pending() == Action::Finish,
{
}

/// A cancelling key during a pause ends playback whether or not the session
/// loops, and a cancelled session stays cancelled: whatever is reported to
/// it afterwards, the step due is to finish, never to draw.
pub proof fn cancellation_is_final(session: Playback, key: KeyPress, later: Event)
    requires
        session.wf(),
        session.phase is Pausing,
        key.cancels(),
    ensures
        session.next(Event::Key(key)).phase == Phase::Cancelled,
        session.next(Event::Key(key)).pending() == Action::Finish,
        session.next(Event::Key(key)).next(later) == session.next(Event::Key(key)),
        session.next(Event::Key(key)).next(later).pending() == Action::Finish,
{
}

/// Every step keeps a session well formed, and a session that is over stays
/// as it is. Exactly the sessions that are over ask the driver to leave raw
/// input mode, and a failure reported to a running session ends it.
pub proof fn sessions_stay_well_formed(session: Playback, event: Event)
    requires
        session.wf(),
    ensures
        session.next(event).wf(),
        session.next(event).frames == session.frames,
        session.is_over() ==> session.next(event) == session,
        session.is_over() <==> session.pending() == Action::Finish || session.pending() == Action::Abort,
        !session.is_over() ==> session.next(Event::Failed).pending() == Action::Abort,
{
}

/// A stream description without a frame rate ends a session that waits for
/// the rate: what is due then is to abort, before any frame is drawn.
pub proof fn missing_rate_aborts(session: Playback)
    requires
        session.wf(),
        session.phase == Phase::Probing,
    ensures
        session.next(Event::Failed).phase == Phase::Failed,
        session.next(Event::Failed).pending() == Action::Abort,
        forall|later: Event| #[trigger] session.next(Event::Failed).next(later).pending() == Action::Abort,
{
}

/// A video with audio begins no pass without starting its audio anew: the
/// first frame is only ever drawn directly after the audio has started.
pub proof fn audio_restarts_with_every_pass(session: Playback, event: Event)
    requires
        session.wf(),
        session.is_video(),
        session.audio,
        session.phase != (Phase::Drawing { frame: 0 }),
        session.next(event).phase == (Phase::Drawing { frame: 0 }),
    ensures
        session.phase == Phase::Tuning,
        event == Event::AudioStarted,
{
}

/// A session without audio never asks for any.
pub proof fn silent_sessions_stay_silent(session: Playback, event: Event)
    requires
        session.wf(),
        !session.audio,
        session.phase != Phase::Tuning,
    ensures
        session.next(event).phase != Phase::Tuning,
        session.next(event).pending() != Action::StartAudio,
{
}

/// Frames are shown in order: what follows an uncancelled pause on a frame
/// is the next frame, or after the last one a new pass or the end.
pub proof fn frames_follow_in_order(session: Playback, frame: usize)
    requires
        session.wf(),
        session.phase == (Phase::Pausing { frame }),
    ensures
        frame + 1 < session.frames ==> session.next(Event::Quiet).pending() == (Action::Draw {
            frame: (frame + 1) as usize,
        }),
        frame + 1 == session.frames && !session.looping ==> session.next(Event::Quiet).pending() == Action::Finish,
        frame + 1 == session.frames && session.looping && session.audio ==> session.next(Event::Quiet).pending()
            == Action::StartAudio,
        frame + 1 == session.frames && session.looping && !session.audio ==> session.next(Event::Quiet).pending()
            == (Action::Draw { frame: 0 }),
{
}

} // verus!
