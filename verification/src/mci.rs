//! The media-control device: the command strings of each operation and the
//! reading of what the subsystem answers.
//!
//! An operation is a [`MciScript`]: the commands to send in order, and the
//! status line to show when every one of them was accepted. The host sends a
//! command, wraps the answer in an [`MciReply`], and asks the script for the
//! outcome so far; the first command that the subsystem refuses ends the
//! operation.

use crate::error::PlayerError;
use crate::text::{ends_with, has_suffix, trim_trailing_nuls, without_trailing_nuls};
use vstd::prelude::*;
use vstd::string::StringExecFns;

verus! {

/// The commands of one operation and the status line of its success.
#[derive(Debug, PartialEq, Eq)]
pub struct MciScript {
    /// The command strings, in the order in which they are sent.
    pub commands: Vec<String>,
    /// What to show when every command was accepted.
    pub status: String,
}

/// A script as contracts see it.
pub struct ScriptText {
    pub commands: Seq<Seq<char>>,
    pub status: Seq<char>,
}

impl View for MciScript {
    type V = ScriptText;

    open spec fn view(&self) -> ScriptText {
        ScriptText {
            commands: Seq::new(self.commands@.len(), |i: int| self.commands@[i]@),
            status: self.status@,
        }
    }
}

/// The lowercase form of a text, as `str::to_lowercase` gives it.
pub uninterp spec fn lowercase_of(text: Seq<char>) -> Seq<char>;

/// `str::to_lowercase`: the result is the lowercase form of the argument, a
/// function of the argument's characters alone.
#[verifier::external_body]
fn to_lowercase(text: &str) -> (lower: String)
    ensures
        lower@ == lowercase_of(text@),
{
    text.to_lowercase()
}

/// The device type that plays a file, by the extension of its lowercased
/// path: `.wav` is wave audio, `.mid` and `.midi` the sequencer, `.mp3` the
/// MPEG player, and anything else wave audio again.
pub open spec fn device_type_name(lower_path: Seq<char>) -> Seq<char> {
    if has_suffix(lower_path, ".wav"@) {
        "waveaudio"@
    } else if has_suffix(lower_path, ".mid"@) || has_suffix(lower_path, ".midi"@) {
        "sequencer"@
    } else if has_suffix(lower_path, ".mp3"@) {
        "mpegvideo"@
    } else {
        "waveaudio"@
    }
}

/// Picks the device type for a path that is already in lowercase.
pub fn device_type_for(lower_path: &str) -> (device_type: &'static str)
    ensures
        device_type@ == device_type_name(lower_path@),
{
    if ends_with(lower_path, ".wav") {
        "waveaudio"
    } else if ends_with(lower_path, ".mid") || ends_with(lower_path, ".midi") {
        "sequencer"
    } else if ends_with(lower_path, ".mp3") {
        "mpegvideo"
    } else {
        "waveaudio"
    }
}

/// Picks the device type for a path, whatever the case of its extension.
pub fn get_device_type(path: &str) -> (device_type: &'static str)
    ensures
        device_type@ == device_type_name(lowercase_of(path@)),
{
    let lower = to_lowercase(path);
    device_type_for(lower.as_str())
}

/// A script of one command.
fn single(command: String, status: String) -> (script: MciScript)
    ensures
        script@ == (ScriptText { commands: seq![command@], status: status@ }),
{
    let mut commands: Vec<String> = Vec::new();
    commands.push(command);
    let script = MciScript { commands, status };
    assert(script@.commands =~= seq![command@]);
    script
}

/// `prefix` followed by `rest`.
fn joined(prefix: &str, rest: &str) -> (text: String)
    ensures
        text@ == prefix@ + rest@,
{
    let mut text = String::from_str(prefix);
    text.append(rest);
    text
}

/// What opening `path` under `alias` on a device of type `device_type`
/// sends and shows.
pub open spec fn open_script(path: Seq<char>, device_type: Seq<char>, alias: Seq<char>)
    -> ScriptText {
    ScriptText {
        commands: seq![
            "open \""@ + path + "\" type "@ + device_type + " alias "@ + alias,
        ],
        status: "已打开: "@ + path + " ("@ + device_type + ")"@,
    }
}

/// The script that opens `path` under `alias` on a device of a given type.
pub fn open_script_for(path: &str, device_type: &str, alias: &str) -> (script: MciScript)
    ensures
        script@ == open_script(path@, device_type@, alias@),
{
    let mut command = String::from_str("open \"");
    command.append(path);
    command.append("\" type ");
    command.append(device_type);
    command.append(" alias ");
    command.append(alias);
    let mut status = String::from_str("已打开: ");
    status.append(path);
    status.append(" (");
    status.append(device_type);
    status.append(")");
    single(command, status)
}

/// Opens a media file under an alias, on the device type that its extension
/// asks for. Nothing is sent for a path at which no file exists.
pub fn mci_open_file(path: &str, alias: &str, path_exists: bool) -> (plan: Result<
    MciScript,
    PlayerError,
>)
    ensures
        path_exists ==> plan is Ok && plan->Ok_0@ == open_script(
            path@,
            device_type_name(lowercase_of(path@)),
            alias@,
        ),
        !path_exists ==> plan is Err && plan->Err_0 is PathNotFound && plan->Err_0->path@ == path@,
{
    if !path_exists {
        return Err(PlayerError::PathNotFound { path: String::from_str(path) });
    }
    let device_type = get_device_type(path);
    Ok(open_script_for(path, device_type, alias))
}

/// Starts playing the device.
pub fn mci_play(alias: &str) -> (script: MciScript)
    ensures
        script@ == (ScriptText { commands: seq!["play "@ + alias@], status: "播放中..."@ }),
{
    single(joined("play ", alias), String::from_str("播放中..."))
}

/// Pauses the device.
pub fn mci_pause(alias: &str) -> (script: MciScript)
    ensures
        script@ == (ScriptText { commands: seq!["pause "@ + alias@], status: "已暂停"@ }),
{
    single(joined("pause ", alias), String::from_str("已暂停"))
}

/// Resumes a paused device.
pub fn mci_resume(alias: &str) -> (script: MciScript)
    ensures
        script@ == (ScriptText { commands: seq!["resume "@ + alias@], status: "继续播放..."@ }),
{
    single(joined("resume ", alias), String::from_str("继续播放..."))
}

/// Stops the device.
pub fn mci_stop(alias: &str) -> (script: MciScript)
    ensures
        script@ == (ScriptText { commands: seq!["stop "@ + alias@], status: "已停止"@ }),
{
    single(joined("stop ", alias), String::from_str("已停止"))
}

/// Closes the device.
pub fn mci_close(alias: &str) -> (script: MciScript)
    ensures
        script@ == (ScriptText { commands: seq!["close "@ + alias@], status: "已关闭设备"@ }),
{
    single(joined("close ", alias), String::from_str("已关闭设备"))
}

/// What recording under `alias` sends and shows: a new wave-audio device is
/// opened, then told to record.
pub open spec fn record_script(alias: Seq<char>) -> ScriptText {
    ScriptText {
        commands: seq!["open new type waveaudio alias "@ + alias, "record "@ + alias],
        status: "录音中..."@,
    }
}

/// Starts a recording on a new wave-audio device.
pub fn mci_record(alias: &str) -> (script: MciScript)
    ensures
        script@ == record_script(alias@),
{
    let mut commands: Vec<String> = Vec::new();
    commands.push(joined("open new type waveaudio alias ", alias));
    commands.push(joined("record ", alias));
    let script = MciScript { commands, status: String::from_str("录音中...") };
    assert(script@.commands =~= record_script(alias@).commands);
    script
}

/// What saving the recording of `alias` to `save_path` sends and shows: the
/// recording is stopped, saved under the quoted path, and its device closed.
pub open spec fn save_script(alias: Seq<char>, save_path: Seq<char>) -> ScriptText {
    ScriptText {
        commands: seq![
            "stop "@ + alias,
            "save "@ + alias + " \""@ + save_path + "\""@,
            "close "@ + alias,
        ],
        status: "录音已保存: "@ + save_path,
    }
}

/// Stops the recording, saves it to a file and closes its device.
pub fn mci_save_recording(alias: &str, save_path: &str) -> (script: MciScript)
    ensures
        script@ == save_script(alias@, save_path@),
{
    let mut save = joined("save ", alias);
    save.append(" \"");
    save.append(save_path);
    save.append("\"");
    let mut commands: Vec<String> = Vec::new();
    commands.push(joined("stop ", alias));
    commands.push(save);
    commands.push(joined("close ", alias));
    let script = MciScript { commands, status: joined("录音已保存: ", save_path) };
    assert(script@.commands =~= save_script(alias@, save_path@).commands);
    script
}

/// The text that a UTF-16 buffer decodes to, as `String::from_utf16_lossy`
/// gives it.
pub uninterp spec fn utf16_lossy(units: Seq<u16>) -> Seq<char>;

/// `String::from_utf16_lossy`: the result is the decoding of the units, with
/// the replacement character for what is no valid UTF-16; a function of the
/// units alone.
#[verifier::external_body]
fn decode_utf16_lossy(units: &[u16]) -> (text: String)
    ensures
        text@ == utf16_lossy(units@),
{
    String::from_utf16_lossy(units)
}

/// What the subsystem answered to one command.
#[derive(Debug, PartialEq, Eq)]
pub struct MciReply {
    /// Zero when the command was accepted, else the subsystem's error code.
    pub code: u32,
    /// The returned text of an accepted command, else the error's text.
    pub text: String,
}

impl MciReply {
    /// Reads an answer from the buffer that the subsystem filled: the
    /// buffer is decoded and cut before the NUL characters that end it.
    pub fn from_wide(code: u32, buffer: &[u16]) -> (reply: MciReply)
        ensures
            reply.code == code,
            reply.text@ == without_trailing_nuls(utf16_lossy(buffer@)),
    {
        let decoded = decode_utf16_lossy(buffer);
        MciReply { code, text: trim_trailing_nuls(decoded.as_str()) }
    }

    /// The answer as the result of its command: the returned text, or the
    /// subsystem's error with its code and text.
    pub fn into_result(self) -> (result: Result<String, PlayerError>)
        ensures
            self.code == 0 ==> result == Ok::<String, PlayerError>(self.text),
            self.code != 0 ==> result == Err::<String, PlayerError>(
                PlayerError::SubsystemError { code: self.code, message: self.text },
            ),
    {
        if self.code == 0 {
            Ok(self.text)
        } else {
            Err(PlayerError::SubsystemError { code: self.code, message: self.text })
        }
    }
}

/// Whether the first `count` replies all report an accepted command.
pub open spec fn all_accepted(replies: Seq<MciReply>, count: int) -> bool {
    forall|k: int| 0 <= k < count ==> (#[trigger] replies[k]).code == 0
}

/// Whether reply `at` is the first that reports a refused command.
pub open spec fn first_refusal(replies: Seq<MciReply>, at: int) -> bool {
    0 <= at < replies.len() && replies[at].code != 0 && all_accepted(replies, at)
}

impl MciScript {
    /// How the operation stands after the replies to its first commands.
    ///
    /// Only as many replies count as the script has commands. The first
    /// among them that reports a refusal is the outcome, with its code and
    /// text. With no refusal the outcome is the status line once every
    /// command has its reply; before that there is none, and the command to
    /// send next is the one whose index is the number of replies.
    pub fn outcome(&self, replies: &[MciReply]) -> (outcome: Option<Result<String, PlayerError>>)
        ensures
            match outcome {
                None => all_accepted(replies@, replies@.len() as int) && replies@.len()
                    < self.commands@.len(),
                Some(Ok(status)) => all_accepted(replies@, self.commands@.len() as int)
                    && replies@.len() >= self.commands@.len() && status@ == self.status@,
                Some(Err(e)) => exists|at: int|
                    first_refusal(replies@, at) && at < self.commands@.len() && e == (
                    PlayerError::SubsystemError {
                        code: replies@[at].code,
                        message: replies@[at].text,
                    }),
            },
    {
        let mut i: usize = 0;
        while i < replies.len() && i < self.commands.len()
            invariant
                i <= replies@.len(),
                i <= self.commands@.len(),
                all_accepted(replies@, i as int),
            decreases replies@.len() - i,
        {
            if replies[i].code != 0 {
                assert(first_refusal(replies@, i as int));
                return Some(
                    Err(
                        PlayerError::SubsystemError {
                            code: replies[i].code,
                            message: replies[i].text.clone(),
                        },
                    ),
                );
            }
            i = i + 1;
        }
        if i < self.commands.len() {
            None
        } else {
            Some(Ok(self.status.clone()))
        }
    }
}

} // verus!
