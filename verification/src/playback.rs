//! The manual wave pipeline as a machine that its host drives.
//!
//! One [`Playback`] plays one file. It never touches the system: it names
//! the next [`Action`] that its host owes, and the host answers with the
//! [`Event`] that tells how the action went. The order is fixed: check the
//! path, open the container, read it, close the container, open the output
//! device, prepare the header over the samples, submit it, poll until the
//! hardware is done, unprepare the header, close the device. Whatever fails,
//! the machine first has the host release what was acquired and only then
//! reports the failure.

use crate::error::PlayerError;
use crate::text::{decimal_digits, push_decimal};
use crate::wave::{load_wave, parse_wave, FormatDescriptor};
use vstd::prelude::*;
use vstd::string::StringExecFns;

verus! {

/// Milliseconds between two looks at the header's completion flag.
pub const POLL_INTERVAL_MS: u32 = 50;

/// What a finished playback reports.
#[derive(Clone, Copy, Debug, PartialEq, Eq, Structural)]
pub struct PlaybackSummary {
    /// Sample frames per second of what was played.
    pub sample_rate: u32,
    /// Number of sample bytes that were played.
    pub data_size: u32,
}

/// How many handles the host reported as acquired and as released.
#[derive(Clone, Copy, Debug, PartialEq, Eq, Structural)]
pub struct Ledger {
    pub containers_opened: u32,
    pub containers_closed: u32,
    pub devices_opened: u32,
    pub devices_closed: u32,
    pub headers_prepared: u32,
    pub headers_unprepared: u32,
}

/// Which answer of the host the machine waits for.
#[derive(Clone, Copy, Debug, PartialEq, Eq, Structural)]
pub enum Phase {
    CheckingPath,
    OpeningContainer,
    ClosingContainer,
    OpeningDevice,
    PreparingHeader,
    SubmittingHeader,
    AwaitingCompletion,
    UnpreparingHeader,
    ClosingDevice,
    Finished,
}

/// What the host is to do next.
#[derive(Clone, Copy, Debug, PartialEq, Eq, Structural)]
pub enum Action {
    /// Tell whether a file exists at the path.
    CheckPath,
    /// Open the file for reading and hand over its content.
    OpenContainer,
    /// Close the file.
    CloseContainer,
    /// Open the default output device for this sample format.
    OpenDevice { format: FormatDescriptor },
    /// Prepare a header over the whole payload.
    PrepareHeader,
    /// Submit the prepared header for playback.
    SubmitHeader,
    /// Tell whether the hardware is done with the header; where it is not,
    /// wait for the interval before telling so.
    PollCompletion { interval_ms: u32 },
    /// Take the header back from the driver.
    UnprepareHeader,
    /// Close the output device.
    CloseDevice,
    /// Nothing is left to do: take the outcome.
    Finish,
}

/// How an action went.
#[derive(Debug, PartialEq, Eq)]
pub enum Event {
    PathChecked { exists: bool },
    ContainerOpened { content: Vec<u8> },
    ContainerOpenFailed,
    ContainerClosed,
    DeviceOpened,
    DeviceOpenFailed,
    HeaderPrepared,
    HeaderPrepareFailed,
    HeaderSubmitted,
    HeaderSubmitFailed,
    CompletionPolled { done: bool },
    HeaderUnprepared,
    DeviceClosed,
}

/// The state of one playback, as contracts see it.
pub struct PlaybackState {
    pub path: String,
    pub phase: Phase,
    pub format: FormatDescriptor,
    pub payload: Seq<u8>,
    pub failure: Option<PlayerError>,
    pub ledger: Ledger,
}

/// One playback of one file.
#[derive(Debug)]
pub struct Playback {
    path: String,
    format: FormatDescriptor,
    payload: Vec<u8>,
    failure: Option<PlayerError>,
    progress: Progress,
}

/// The phase and the ledger, which change together.
#[derive(Clone, Copy, Debug, PartialEq, Eq, Structural)]
struct Progress {
    phase: Phase,
    ledger: Ledger,
}

impl Ledger {
    /// Every handle that was acquired was released, and none more often.
    pub open spec fn balanced(self) -> bool {
        &&& self.containers_opened == self.containers_closed
        &&& self.devices_opened == self.devices_closed
        &&& self.headers_prepared == self.headers_unprepared
    }

    /// No handle was ever acquired.
    pub open spec fn untouched(self) -> bool {
        &&& self.containers_opened == 0
        &&& self.containers_closed == 0
        &&& self.devices_opened == 0
        &&& self.devices_closed == 0
        &&& self.headers_prepared == 0
        &&& self.headers_unprepared == 0
    }
}

impl PlaybackSummary {
    /// The text shown to the user after a playback: the sample rate in
    /// hertz and the payload size in whole kilobytes.
    pub open spec fn message_text(self) -> Seq<char> {
        "播放完成 (采样率: "@ + decimal_digits(self.sample_rate as nat) + "Hz, 大小: "@
            + decimal_digits((self.data_size / 1024) as nat) + "KB)"@
    }

    /// The payload size in whole kilobytes.
    pub fn size_kb(&self) -> (kb: u32)
        ensures
            kb == self.data_size / 1024,
    {
        self.data_size / 1024
    }

    /// Renders the summary for the user.
    pub fn message(&self) -> (text: String)
        ensures
            text@ == self.message_text(),
    {
        let mut text = String::from_str("播放完成 (采样率: ");
        push_decimal(&mut text, self.sample_rate);
        text.append("Hz, 大小: ");
        push_decimal(&mut text, self.size_kb());
        text.append("KB)");
        text
    }
}

impl Phase {
    /// The container is open in this phase.
    pub open spec fn holds_container(self) -> bool {
        self == Phase::ClosingContainer
    }

    /// The output device is open in this phase.
    pub open spec fn holds_device(self) -> bool {
        ||| self == Phase::PreparingHeader
        ||| self == Phase::SubmittingHeader
        ||| self == Phase::AwaitingCompletion
        ||| self == Phase::UnpreparingHeader
        ||| self == Phase::ClosingDevice
    }

    /// The header is with the driver in this phase.
    pub open spec fn holds_header(self) -> bool {
        ||| self == Phase::SubmittingHeader
        ||| self == Phase::AwaitingCompletion
        ||| self == Phase::UnpreparingHeader
    }
}

/// The all-zero descriptor that a playback holds before it has read one.
pub open spec fn no_format() -> FormatDescriptor {
    FormatDescriptor {
        format_tag: 0,
        channels: 0,
        samples_per_sec: 0,
        avg_bytes_per_sec: 0,
        block_align: 0,
        bits_per_sample: 0,
        extra_size: 0,
    }
}

/// The ledger of a playback that has acquired nothing.
pub open spec fn empty_ledger() -> Ledger {
    Ledger {
        containers_opened: 0,
        containers_closed: 0,
        devices_opened: 0,
        devices_closed: 0,
        headers_prepared: 0,
        headers_unprepared: 0,
    }
}

impl PlaybackState {
    /// The state of a playback that has just been asked for.
    pub open spec fn initial(path: String) -> PlaybackState {
        PlaybackState {
            path,
            phase: Phase::CheckingPath,
            format: no_format(),
            payload: Seq::empty(),
            failure: None,
            ledger: empty_ledger(),
        }
    }

    /// The action that the host owes in this state.
    pub open spec fn pending(self) -> Action {
        match self.phase {
            Phase::CheckingPath => Action::CheckPath,
            Phase::OpeningContainer => Action::OpenContainer,
            Phase::ClosingContainer => Action::CloseContainer,
            Phase::OpeningDevice => Action::OpenDevice { format: self.format },
            Phase::PreparingHeader => Action::PrepareHeader,
            Phase::SubmittingHeader => Action::SubmitHeader,
            Phase::AwaitingCompletion => Action::PollCompletion { interval_ms: POLL_INTERVAL_MS },
            Phase::UnpreparingHeader => Action::UnprepareHeader,
            Phase::ClosingDevice => Action::CloseDevice,
            Phase::Finished => Action::Finish,
        }
    }

    /// Whether `event` answers the action that is pending.
    pub open spec fn expects(self, event: Event) -> bool {
        match self.phase {
            Phase::CheckingPath => event is PathChecked,
            Phase::OpeningContainer => event is ContainerOpened || event is ContainerOpenFailed,
            Phase::ClosingContainer => event is ContainerClosed,
            Phase::OpeningDevice => event is DeviceOpened || event is DeviceOpenFailed,
            Phase::PreparingHeader => event is HeaderPrepared || event is HeaderPrepareFailed,
            Phase::SubmittingHeader => event is HeaderSubmitted || event is HeaderSubmitFailed,
            Phase::AwaitingCompletion => event is CompletionPolled,
            Phase::UnpreparingHeader => event is HeaderUnprepared,
            Phase::ClosingDevice => event is DeviceClosed,
            Phase::Finished => false,
        }
    }

    /// The state after the host has reported `event`.
    ///
    /// An event that does not answer the pending action changes nothing.
    pub open spec fn next(self, event: Event) -> PlaybackState {
        match (self.phase, event) {
            (Phase::CheckingPath, Event::PathChecked { exists }) => if exists {
                PlaybackState { phase: Phase::OpeningContainer, ..self }
            } else {
                self.failed(PlayerError::PathNotFound { path: self.path }, Phase::Finished)
            },
            (Phase::OpeningContainer, Event::ContainerOpened { content }) => {
                let opened = Ledger {
                    containers_opened: (self.ledger.containers_opened + 1) as u32,
                    ..self.ledger
                };
                match parse_wave(content@) {
                    Ok((format, payload)) => PlaybackState {
                        phase: Phase::ClosingContainer,
                        format,
                        payload,
                        ledger: opened,
                        ..self
                    },
                    Err(e) => PlaybackState {
                        phase: Phase::ClosingContainer,
                        failure: Some(e),
                        ledger: opened,
                        ..self
                    },
                }
            },
            (Phase::OpeningContainer, Event::ContainerOpenFailed) => self.failed(
                PlayerError::ContainerOpenFailed,
                Phase::Finished,
            ),
            (Phase::ClosingContainer, Event::ContainerClosed) => PlaybackState {
                phase: if self.failure is Some {
                    Phase::Finished
                } else {
                    Phase::OpeningDevice
                },
                ledger: Ledger {
                    containers_closed: (self.ledger.containers_closed + 1) as u32,
                    ..self.ledger
                },
                ..self
            },
            (Phase::OpeningDevice, Event::DeviceOpened) => PlaybackState {
                phase: Phase::PreparingHeader,
                ledger: Ledger {
                    devices_opened: (self.ledger.devices_opened + 1) as u32,
                    ..self.ledger
                },
                ..self
            },
            (Phase::OpeningDevice, Event::DeviceOpenFailed) => self.failed(
                PlayerError::DeviceOpenFailed,
                Phase::Finished,
            ),
            (Phase::PreparingHeader, Event::HeaderPrepared) => PlaybackState {
                phase: Phase::SubmittingHeader,
                ledger: Ledger {
                    headers_prepared: (self.ledger.headers_prepared + 1) as u32,
                    ..self.ledger
                },
                ..self
            },
            (Phase::PreparingHeader, Event::HeaderPrepareFailed) => self.failed(
                PlayerError::HeaderPrepareFailed,
                Phase::ClosingDevice,
            ),
            (Phase::SubmittingHeader, Event::HeaderSubmitted) => PlaybackState {
                phase: Phase::AwaitingCompletion,
                ..self
            },
            (Phase::SubmittingHeader, Event::HeaderSubmitFailed) => self.failed(
                PlayerError::HeaderSubmitFailed,
                Phase::UnpreparingHeader,
            ),
            (Phase::AwaitingCompletion, Event::CompletionPolled { done }) => if done {
                PlaybackState { phase: Phase::UnpreparingHeader, ..self }
            } else {
                self
            },
            (Phase::UnpreparingHeader, Event::HeaderUnprepared) => PlaybackState {
                phase: Phase::ClosingDevice,
                ledger: Ledger {
                    headers_unprepared: (self.ledger.headers_unprepared + 1) as u32,
                    ..self.ledger
                },
                ..self
            },
            (Phase::ClosingDevice, Event::DeviceClosed) => PlaybackState {
                phase: Phase::Finished,
                ledger: Ledger {
                    devices_closed: (self.ledger.devices_closed + 1) as u32,
                    ..self.ledger
                },
                ..self
            },
            _ => self,
        }
    }

    /// This state with a failure recorded, continuing in `phase`.
    pub open spec fn failed(self, failure: PlayerError, phase: Phase) -> PlaybackState {
        PlaybackState { phase, failure: Some(failure), ..self }
    }

    /// What the playback came to, once it is finished.
    pub open spec fn outcome(self) -> Option<Result<PlaybackSummary, PlayerError>> {
        if self.phase != Phase::Finished {
            None
        } else {
            match self.failure {
                Some(e) => Some(Err(e)),
                None => Some(
                    Ok(
                        PlaybackSummary {
                            sample_rate: self.format.samples_per_sec,
                            data_size: self.payload.len() as u32,
                        },
                    ),
                ),
            }
        }
    }
}

impl PlaybackState {
    /// Whether the ledger fits the phase: a handle counts as acquired and not
    /// yet released exactly in the phases that hold it, and no handle was
    /// acquired a second time.
    pub open spec fn ledger_fits(self) -> bool {
        let l = self.ledger;
        let container = (l.containers_opened as int, l.containers_closed as int);
        let device = (l.devices_opened as int, l.devices_closed as int);
        let header = (l.headers_prepared as int, l.headers_unprepared as int);
        &&& self.payload.len() <= u32::MAX
        &&& match self.phase {
            Phase::CheckingPath | Phase::OpeningContainer => l.untouched(),
            Phase::ClosingContainer => container == (1int, 0int) && device == (0int, 0int)
                && header == (0int, 0int),
            Phase::OpeningDevice => container == (1int, 1int) && device == (0int, 0int) && header
                == (0int, 0int),
            Phase::PreparingHeader => container == (1int, 1int) && device == (1int, 0int)
                && header == (0int, 0int),
            Phase::SubmittingHeader | Phase::AwaitingCompletion | Phase::UnpreparingHeader =>
                container == (1int, 1int) && device == (1int, 0int) && header == (1int, 0int),
            Phase::ClosingDevice => container == (1int, 1int) && device == (1int, 0int) && (header
                == (1int, 1int) || header == (0int, 0int)),
            Phase::Finished => l.balanced() && l.containers_opened <= 1 && l.devices_opened <= 1
                && l.headers_prepared <= 1,
        }
    }

    /// Whether the state is one that a playback can be in: the ledger fits
    /// the phase, a playback that goes on has no failure behind it, and a
    /// playback that ended without failure has acquired and released each
    /// handle once.
    pub open spec fn wf(self) -> bool {
        let l = self.ledger;
        &&& self.ledger_fits()
        &&& match self.phase {
            Phase::CheckingPath
            | Phase::OpeningContainer
            | Phase::OpeningDevice
            | Phase::PreparingHeader
            | Phase::SubmittingHeader
            | Phase::AwaitingCompletion => self.failure is None,
            Phase::ClosingContainer | Phase::UnpreparingHeader => true,
            Phase::ClosingDevice => l.headers_prepared == 0 ==> self.failure is Some,
            Phase::Finished => self.failure is None ==> l.containers_opened == 1
                && l.devices_opened == 1 && l.headers_prepared == 1,
        }
    }
}

impl View for Playback {
    type V = PlaybackState;

    closed spec fn view(&self) -> PlaybackState {
        PlaybackState {
            path: self.path,
            phase: self.progress.phase,
            format: self.format,
            payload: self.payload@,
            failure: self.failure,
            ledger: self.progress.ledger,
        }
    }
}

/// Starts the playback of the file at `path`: the machine that the host
/// drives from the path check to the outcome.
pub fn play_wave_file_mmio(path: &str) -> (playback: Playback)
    ensures
        playback@ == PlaybackState::initial(playback@.path),
        playback@.path@ == path@,
{
    Playback {
        path: String::from_str(path),
        format: FormatDescriptor {
            format_tag: 0,
            channels: 0,
            samples_per_sec: 0,
            avg_bytes_per_sec: 0,
            block_align: 0,
            bits_per_sample: 0,
            extra_size: 0,
        },
        payload: Vec::new(),
        failure: None,
        progress: Progress {
            phase: Phase::CheckingPath,
            ledger: Ledger {
                containers_opened: 0,
                containers_closed: 0,
                devices_opened: 0,
                devices_closed: 0,
                headers_prepared: 0,
                headers_unprepared: 0,
            },
        },
    }
}

impl Playback {
    #[verifier::type_invariant]
    spec fn ledger_fits(self) -> bool {
        self@.ledger_fits()
    }

    /// The action that the host owes.
    pub fn pending(&self) -> (action: Action)
        ensures
            action == self@.pending(),
    {
        match self.progress.phase {
            Phase::CheckingPath => Action::CheckPath,
            Phase::OpeningContainer => Action::OpenContainer,
            Phase::ClosingContainer => Action::CloseContainer,
            Phase::OpeningDevice => Action::OpenDevice { format: self.format },
            Phase::PreparingHeader => Action::PrepareHeader,
            Phase::SubmittingHeader => Action::SubmitHeader,
            Phase::AwaitingCompletion => Action::PollCompletion { interval_ms: POLL_INTERVAL_MS },
            Phase::UnpreparingHeader => Action::UnprepareHeader,
            Phase::ClosingDevice => Action::CloseDevice,
            Phase::Finished => Action::Finish,
        }
    }

    /// Takes the host's report on the pending action and names the next one.
    ///
    /// A report that does not answer the pending action is ignored: the
    /// state stays and the pending action is named again.
    pub fn step(&mut self, event: Event) -> (action: Action)
        ensures
            final(self)@ == old(self)@.next(event),
            action == final(self)@.pending(),
    {
        proof {
            use_type_invariant(&*self);
        }
        let phase = self.progress.phase;
        let ledger = self.progress.ledger;
        match (phase, event) {
            (Phase::CheckingPath, Event::PathChecked { exists }) => {
                if exists {
                    self.progress = Progress { phase: Phase::OpeningContainer, ledger };
                } else {
                    self.failure = Some(PlayerError::PathNotFound { path: self.path.clone() });
                    self.progress = Progress { phase: Phase::Finished, ledger };
                }
            },
            (Phase::OpeningContainer, Event::ContainerOpened { content }) => {
                match load_wave(content.as_slice()) {
                    Ok(wave) => {
                        self.format = wave.format;
                        self.payload = wave.payload;
                    },
                    Err(e) => {
                        self.failure = Some(e);
                    },
                }
                self.progress = Progress {
                    phase: Phase::ClosingContainer,
                    ledger: Ledger { containers_opened: ledger.containers_opened + 1, ..ledger },
                };
            },
            (Phase::OpeningContainer, Event::ContainerOpenFailed) => {
                self.failure = Some(PlayerError::ContainerOpenFailed);
                self.progress = Progress { phase: Phase::Finished, ledger };
            },
            (Phase::ClosingContainer, Event::ContainerClosed) => {
                self.progress = Progress {
                    phase: if self.failure.is_some() {
                        Phase::Finished
                    } else {
                        Phase::OpeningDevice
                    },
                    ledger: Ledger { containers_closed: ledger.containers_closed + 1, ..ledger },
                };
            },
            (Phase::OpeningDevice, Event::DeviceOpened) => {
                self.progress = Progress {
                    phase: Phase::PreparingHeader,
                    ledger: Ledger { devices_opened: ledger.devices_opened + 1, ..ledger },
                };
            },
            (Phase::OpeningDevice, Event::DeviceOpenFailed) => {
                self.failure = Some(PlayerError::DeviceOpenFailed);
                self.progress = Progress { phase: Phase::Finished, ledger };
            },
            (Phase::PreparingHeader, Event::HeaderPrepared) => {
                self.progress = Progress {
                    phase: Phase::SubmittingHeader,
                    ledger: Ledger { headers_prepared: ledger.headers_prepared + 1, ..ledger },
                };
            },
            (Phase::PreparingHeader, Event::HeaderPrepareFailed) => {
                self.failure = Some(PlayerError::HeaderPrepareFailed);
                self.progress = Progress { phase: Phase::ClosingDevice, ledger };
            },
            (Phase::SubmittingHeader, Event::HeaderSubmitted) => {
                self.progress = Progress { phase: Phase::AwaitingCompletion, ledger };
            },
            (Phase::SubmittingHeader, Event::HeaderSubmitFailed) => {
                self.failure = Some(PlayerError::HeaderSubmitFailed);
                self.progress = Progress { phase: Phase::UnpreparingHeader, ledger };
            },
            (Phase::AwaitingCompletion, Event::CompletionPolled { done }) => {
                if done {
                    self.progress = Progress { phase: Phase::UnpreparingHeader, ledger };
                }
            },
            (Phase::UnpreparingHeader, Event::HeaderUnprepared) => {
                self.progress = Progress {
                    phase: Phase::ClosingDevice,
                    ledger: Ledger { headers_unprepared: ledger.headers_unprepared + 1, ..ledger },
                };
            },
            (Phase::ClosingDevice, Event::DeviceClosed) => {
                self.progress = Progress {
                    phase: Phase::Finished,
                    ledger: Ledger { devices_closed: ledger.devices_closed + 1, ..ledger },
                };
            },
            _ => {},
        }
        self.pending()
    }

    /// What the playback came to: `None` while it is not finished, then the
    /// summary of what was played, or the failure.
    pub fn finish(self) -> (outcome: Option<Result<PlaybackSummary, PlayerError>>)
        ensures
            outcome == self@.outcome(),
    {
        proof {
            use_type_invariant(&self);
        }
        match self.progress.phase {
            Phase::Finished => match self.failure {
                Some(e) => Some(Err(e)),
                None => Some(
                    Ok(
                        PlaybackSummary {
                            sample_rate: self.format.samples_per_sec,
                            data_size: self.payload.len() as u32,
                        },
                    ),
                ),
            },
            _ => None,
        }
    }

    /// Whether the playback has come to its outcome.
    pub fn is_finished(&self) -> (finished: bool)
        ensures
            finished == (self@.phase == Phase::Finished),
    {
        match self.progress.phase {
            Phase::Finished => true,
            _ => false,
        }
    }

    /// The phase that the playback is in.
    pub fn phase(&self) -> (phase: Phase)
        ensures
            phase == self@.phase,
    {
        self.progress.phase
    }

    /// The path of the file that is played.
    pub fn path(&self) -> (path: &str)
        ensures
            path@ == self@.path@,
    {
        self.path.as_str()
    }

    /// The sample format that was read; all zero before that.
    pub fn format(&self) -> (format: FormatDescriptor)
        ensures
            format == self@.format,
    {
        self.format
    }

    /// The samples that the header is prepared over; empty before they are
    /// read. No report changes them once they are read.
    pub fn payload(&self) -> (payload: &[u8])
        ensures
            payload@ == self@.payload,
    {
        self.payload.as_slice()
    }

    /// The handles acquired and released so far.
    pub fn ledger(&self) -> (ledger: Ledger)
        ensures
            ledger == self@.ledger,
    {
        self.progress.ledger
    }
}

} // verus!
