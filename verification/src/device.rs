//! The session of the media-control device: which operations are let
//! through to the subsystem, and what a successful one changes.
//!
//! The device is `Closed` until a file is opened, then `Open`, and moves
//! between `Playing` and `Paused` until it is closed again. Recording is a
//! flag of its own, on a device of its own.

use vstd::prelude::*;
use vstd::string::StringExecFns;

verus! {

/// Where the device stands.
#[derive(Clone, Copy, Debug, PartialEq, Eq, Structural)]
pub enum DeviceState {
    Closed,
    Open,
    Playing,
    Paused,
}

/// What the user can ask of the device.
#[derive(Clone, Copy, Debug, PartialEq, Eq, Structural)]
pub enum MciOperation {
    Open,
    Play,
    Pause,
    Resume,
    Stop,
    Close,
    Record,
    SaveRecording,
}

/// Why an operation was not sent to the subsystem.
#[derive(Clone, Copy, Debug, PartialEq, Eq, Structural)]
pub enum Rejection {
    /// The operation needs an open device and none is open.
    NoDeviceOpen,
    /// A recording is already running.
    AlreadyRecording,
    /// No recording is running.
    NotRecording,
}

/// One attempted operation: what was asked, and whether the subsystem
/// accepted every command of it.
pub struct Attempt {
    pub operation: MciOperation,
    pub succeeded: bool,
}

/// The media-control device as its user sees it.
#[derive(Debug, PartialEq, Eq)]
pub struct MCIDevice {
    /// The name under which the subsystem knows the playback device.
    pub alias: String,
    /// Where playback stands.
    pub state: DeviceState,
    /// Whether a recording is running.
    pub is_recording: bool,
}

/// The session without its alias: all that decides what is let through.
pub struct Session {
    pub state: DeviceState,
    pub is_recording: bool,
}

impl MciOperation {
    /// Whether the operation acts on the open playback device.
    pub open spec fn needs_open_device(self) -> bool {
        ||| self == MciOperation::Play
        ||| self == MciOperation::Pause
        ||| self == MciOperation::Resume
        ||| self == MciOperation::Stop
        ||| self == MciOperation::Close
    }
}

impl Session {
    /// Whether the operation is let through, or why not.
    pub open spec fn permits(self, operation: MciOperation) -> Result<(), Rejection> {
        if operation.needs_open_device() && self.state == DeviceState::Closed {
            Err(Rejection::NoDeviceOpen)
        } else if operation == MciOperation::Record && self.is_recording {
            Err(Rejection::AlreadyRecording)
        } else if operation == MciOperation::SaveRecording && !self.is_recording {
            Err(Rejection::NotRecording)
        } else {
            Ok(())
        }
    }

    /// The session after an attempt. Only an operation that was let through
    /// and that the subsystem accepted changes anything.
    pub open spec fn after(self, operation: MciOperation, succeeded: bool) -> Session {
        if !succeeded || self.permits(operation) is Err {
            self
        } else {
            match operation {
                MciOperation::Open => Session { state: DeviceState::Open, ..self },
                MciOperation::Play => Session { state: DeviceState::Playing, ..self },
                MciOperation::Pause => Session { state: DeviceState::Paused, ..self },
                MciOperation::Resume => Session { state: DeviceState::Playing, ..self },
                MciOperation::Stop => Session { state: DeviceState::Open, ..self },
                MciOperation::Close => Session { state: DeviceState::Closed, ..self },
                MciOperation::Record => Session { is_recording: true, ..self },
                MciOperation::SaveRecording => Session { is_recording: false, ..self },
            }
        }
    }

    /// The session after a sequence of attempts.
    pub open spec fn after_all(self, attempts: Seq<Attempt>) -> Session
        decreases attempts.len(),
    {
        if attempts.len() == 0 {
            self
        } else {
            self.after_all(attempts.drop_last()).after(
                attempts.last().operation,
                attempts.last().succeeded,
            )
        }
    }
}

impl Rejection {
    /// The text shown to the user for this rejection.
    pub open spec fn message_text(self) -> Seq<char> {
        match self {
            Rejection::NoDeviceOpen => "请先打开文件"@,
            Rejection::AlreadyRecording => "已经在录音中"@,
            Rejection::NotRecording => "没有正在进行的录音"@,
        }
    }

    /// Renders the rejection for the user.
    pub fn message(&self) -> (text: String)
        ensures
            text@ == self.message_text(),
    {
        match self {
            Rejection::NoDeviceOpen => String::from_str("请先打开文件"),
            Rejection::AlreadyRecording => String::from_str("已经在录音中"),
            Rejection::NotRecording => String::from_str("没有正在进行的录音"),
        }
    }
}

/// The alias under which the subsystem knows the recording device.
pub fn recorder_alias() -> (alias: &'static str)
    ensures
        alias@ == "recorder"@,
{
    "recorder"
}

impl MCIDevice {
    /// The session of this device.
    pub open spec fn session(self) -> Session {
        Session { state: self.state, is_recording: self.is_recording }
    }

    /// A device that is closed and not recording, under the alias
    /// `media_device`.
    pub fn new() -> (device: MCIDevice)
        ensures
            device.alias@ == "media_device"@,
            device.state == DeviceState::Closed,
            !device.is_recording,
    {
        MCIDevice {
            alias: String::from_str("media_device"),
            state: DeviceState::Closed,
            is_recording: false,
        }
    }

    /// Whether a playback device is open.
    pub fn is_open(&self) -> (open: bool)
        ensures
            open == (self.state != DeviceState::Closed),
    {
        match self.state {
            DeviceState::Closed => false,
            _ => true,
        }
    }

    /// Decides whether an operation is sent to the subsystem at all.
    ///
    /// Play, pause, resume, stop and close are rejected while no device is
    /// open; a recording is rejected while one is running; saving is
    /// rejected while none is running. Everything else is let through.
    pub fn permit(&self, operation: MciOperation) -> (permitted: Result<(), Rejection>)
        ensures
            permitted == self.session().permits(operation),
    {
        match operation {
            MciOperation::Open => Ok(()),
            MciOperation::Record => if self.is_recording {
                Err(Rejection::AlreadyRecording)
            } else {
                Ok(())
            },
            MciOperation::SaveRecording => if self.is_recording {
                Ok(())
            } else {
                Err(Rejection::NotRecording)
            },
            _ => if self.is_open() {
                Ok(())
            } else {
                Err(Rejection::NoDeviceOpen)
            },
        }
    }

    /// Records how an operation went. The device changes only when the
    /// operation was let through and the subsystem accepted it.
    pub fn complete(&mut self, operation: MciOperation, succeeded: bool)
        ensures
            final(self).session() == old(self).session().after(operation, succeeded),
            final(self).alias == old(self).alias,
    {
        if !succeeded || self.permit(operation).is_err() {
            return ;
        }
        match operation {
            MciOperation::Open => { self.state = DeviceState::Open; },
            MciOperation::Play => { self.state = DeviceState::Playing; },
            MciOperation::Pause => { self.state = DeviceState::Paused; },
            MciOperation::Resume => { self.state = DeviceState::Playing; },
            MciOperation::Stop => { self.state = DeviceState::Open; },
            MciOperation::Close => { self.state = DeviceState::Closed; },
            MciOperation::Record => { self.is_recording = true; },
            MciOperation::SaveRecording => { self.is_recording = false; },
        }
    }
}

/// Whether no attempt of the sequence is a recording that succeeded.
pub open spec fn no_recording_started(attempts: Seq<Attempt>) -> bool {
    forall|k: int|
        0 <= k < attempts.len() ==> !((#[trigger] attempts[k]).operation == MciOperation::Record
            && attempts[k].succeeded)
}

/// Whether no attempt of the sequence is a save that succeeded.
pub open spec fn no_recording_saved(attempts: Seq<Attempt>) -> bool {
    forall|k: int|
        0 <= k < attempts.len() ==> !((#[trigger] attempts[k]).operation
            == MciOperation::SaveRecording && attempts[k].succeeded)
}

/// Whether no attempt of the sequence is an open that succeeded.
pub open spec fn no_file_opened(attempts: Seq<Attempt>) -> bool {
    forall|k: int|
        0 <= k < attempts.len() ==> !((#[trigger] attempts[k]).operation == MciOperation::Open
            && attempts[k].succeeded)
}

/// While the device is closed, play, pause, resume, stop and close are
/// rejected before anything is sent, and the device stays as it is whatever
/// is reported of them.
pub proof fn closed_device_rejects_transport(
    session: Session,
    operation: MciOperation,
    succeeded: bool,
)
    requires
        session.state == DeviceState::Closed,
        operation.needs_open_device(),
    ensures
        session.permits(operation) == Err::<(), Rejection>(Rejection::NoDeviceOpen),
        session.after(operation, succeeded) == session,
{
}

/// A device stays closed until a file is opened with success: after any
/// sequence of attempts without one, play, pause, resume, stop and close are
/// still rejected.
pub proof fn closed_until_opened(session: Session, attempts: Seq<Attempt>, operation: MciOperation)
    requires
        session.state == DeviceState::Closed,
        no_file_opened(attempts),
        operation.needs_open_device(),
    ensures
        session.after_all(attempts).state == DeviceState::Closed,
        session.after_all(attempts).permits(operation) == Err::<(), Rejection>(
            Rejection::NoDeviceOpen,
        ),
    decreases attempts.len(),
{
    if attempts.len() > 0 {
        let earlier = attempts.drop_last();
        assert forall|k: int| 0 <= k < earlier.len() implies !((#[trigger] earlier[k]).operation
            == MciOperation::Open && earlier[k].succeeded) by {
            assert(earlier[k] == attempts[k]);
        }
        closed_until_opened(session, earlier, operation);
        assert(!(attempts[attempts.len() - 1].operation == MciOperation::Open
            && attempts[attempts.len() - 1].succeeded));
    }
}

/// A second recording is rejected: once a recording was started with
/// success, and whatever else is attempted after it, a recording is rejected
/// as long as no save has succeeded.
pub proof fn second_recording_is_rejected(session: Session, attempts: Seq<Attempt>)
    requires
        session.permits(MciOperation::Record) is Ok,
        no_recording_saved(attempts),
    ensures
        session.after(MciOperation::Record, true).after_all(attempts).permits(MciOperation::Record)
            == Err::<(), Rejection>(Rejection::AlreadyRecording),
    decreases attempts.len(),
{
    if attempts.len() > 0 {
        let earlier = attempts.drop_last();
        assert forall|k: int| 0 <= k < earlier.len() implies !((#[trigger] earlier[k]).operation
            == MciOperation::SaveRecording && earlier[k].succeeded) by {
            assert(earlier[k] == attempts[k]);
        }
        second_recording_is_rejected(session, earlier);
        assert(!(attempts[attempts.len() - 1].operation == MciOperation::SaveRecording
            && attempts[attempts.len() - 1].succeeded));
    }
}

/// Saving without a recording is rejected: from a session that is not
/// recording, and whatever else is attempted, a save is rejected as long as
/// no recording was started with success.
pub proof fn save_without_recording_is_rejected(session: Session, attempts: Seq<Attempt>)
    requires
        !session.is_recording,
        no_recording_started(attempts),
    ensures
        session.after_all(attempts).permits(MciOperation::SaveRecording) == Err::<(), Rejection>(
            Rejection::NotRecording,
        ),
    decreases attempts.len(),
{
    if attempts.len() > 0 {
        let earlier = attempts.drop_last();
        assert forall|k: int| 0 <= k < earlier.len() implies !((#[trigger] earlier[k]).operation
            == MciOperation::Record && earlier[k].succeeded) by {
            assert(earlier[k] == attempts[k]);
        }
        save_without_recording_is_rejected(session, earlier);
        assert(!(attempts[attempts.len() - 1].operation == MciOperation::Record
            && attempts[attempts.len() - 1].succeeded));
    }
}

/// After a save that succeeded, a recording is let through again.
pub proof fn saving_frees_the_recorder(session: Session)
    requires
        session.is_recording,
    ensures
        session.after(MciOperation::SaveRecording, true).permits(MciOperation::Record) == Ok::<
            (),
            Rejection,
        >(()),
{
}

} // verus!
