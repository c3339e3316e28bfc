//! The failures of the playback paths.

use crate::text::{decimal_digits, push_decimal};
use vstd::prelude::*;
use vstd::string::StringExecFns;

verus! {

/// The two chunks that the wave pipeline looks up.
#[derive(Clone, Copy, Debug, PartialEq, Eq, Structural)]
pub enum ChunkKind {
    /// The `fmt ` chunk.
    Format,
    /// The `data` chunk.
    Data,
}

/// Why a request ended without playing. Every failure is final for its
/// request: nothing is retried.
#[derive(Debug, PartialEq, Eq)]
pub enum PlayerError {
    /// No file exists at the path.
    PathNotFound { path: String },
    /// The container could not be opened for reading.
    ContainerOpenFailed,
    /// The container does not open with a complete `RIFF` header.
    NotARiffContainer,
    /// The container is RIFF, but its form type is not `WAVE`.
    UnexpectedContainerSubtype,
    /// The container lacks a chunk that playback needs.
    ChunkNotFound { which: ChunkKind },
    /// The `data` chunk declares more bytes than the container holds.
    ShortRead { expected: u32, actual: u32 },
    /// No output device accepted the sample format.
    DeviceOpenFailed,
    /// The driver refused to prepare the playback header.
    HeaderPrepareFailed,
    /// The driver refused the prepared header.
    HeaderSubmitFailed,
    /// The media-control subsystem answered a command with an error.
    SubsystemError { code: u32, message: String },
}

impl Clone for PlayerError {
    fn clone(&self) -> (copy: PlayerError)
        ensures
            copy == *self,
    {
        match self {
            PlayerError::PathNotFound { path } => PlayerError::PathNotFound { path: path.clone() },
            PlayerError::ContainerOpenFailed => PlayerError::ContainerOpenFailed,
            PlayerError::NotARiffContainer => PlayerError::NotARiffContainer,
            PlayerError::UnexpectedContainerSubtype => PlayerError::UnexpectedContainerSubtype,
            PlayerError::ChunkNotFound { which } => PlayerError::ChunkNotFound { which: *which },
            PlayerError::ShortRead { expected, actual } => PlayerError::ShortRead {
                expected: *expected,
                actual: *actual,
            },
            PlayerError::DeviceOpenFailed => PlayerError::DeviceOpenFailed,
            PlayerError::HeaderPrepareFailed => PlayerError::HeaderPrepareFailed,
            PlayerError::HeaderSubmitFailed => PlayerError::HeaderSubmitFailed,
            PlayerError::SubsystemError { code, message } => PlayerError::SubsystemError {
                code: *code,
                message: message.clone(),
            },
        }
    }
}

impl PlayerError {
    /// The text shown to the user for this failure.
    pub open spec fn message_text(self) -> Seq<char> {
        match self {
            PlayerError::PathNotFound { path } => "文件不存在: "@ + path@,
            PlayerError::ContainerOpenFailed => "无法打开文件 (mmioOpen 失败)"@,
            PlayerError::NotARiffContainer => "不是有效的 RIFF 文件"@,
            PlayerError::UnexpectedContainerSubtype => "不是有效的 WAVE 文件"@,
            PlayerError::ChunkNotFound { which: ChunkKind::Format } => "找不到 fmt 块"@,
            PlayerError::ChunkNotFound { which: ChunkKind::Data } => "找不到 data 块"@,
            PlayerError::ShortRead { .. } => "读取音频数据失败"@,
            PlayerError::DeviceOpenFailed => "无法打开音频设备 (waveOutOpen 失败)"@,
            PlayerError::HeaderPrepareFailed => "waveOutPrepareHeader 失败"@,
            PlayerError::HeaderSubmitFailed => "waveOutWrite 失败"@,
            PlayerError::SubsystemError { code, message } => "MCI 错误 "@ + decimal_digits(
                code as nat,
            ) + ": "@ + message@,
        }
    }

    /// Renders the failure for the user.
    pub fn message(&self) -> (text: String)
        ensures
            text@ == self.message_text(),
    {
        match self {
            PlayerError::PathNotFound { path } => {
                let mut text = String::from_str("文件不存在: ");
                text.append(path.as_str());
                text
            },
            PlayerError::ContainerOpenFailed => String::from_str("无法打开文件 (mmioOpen 失败)"),
            PlayerError::NotARiffContainer => String::from_str("不是有效的 RIFF 文件"),
            PlayerError::UnexpectedContainerSubtype => String::from_str("不是有效的 WAVE 文件"),
            PlayerError::ChunkNotFound { which: ChunkKind::Format } => String::from_str(
                "找不到 fmt 块",
            ),
            PlayerError::ChunkNotFound { which: ChunkKind::Data } => String::from_str(
                "找不到 data 块",
            ),
            PlayerError::ShortRead { .. } => String::from_str("读取音频数据失败"),
            PlayerError::DeviceOpenFailed => String::from_str(
                "无法打开音频设备 (waveOutOpen 失败)",
            ),
            PlayerError::HeaderPrepareFailed => String::from_str("waveOutPrepareHeader 失败"),
            PlayerError::HeaderSubmitFailed => String::from_str("waveOutWrite 失败"),
            PlayerError::SubsystemError { code, message } => {
                let mut text = String::from_str("MCI 错误 ");
                push_decimal(&mut text, *code);
                text.append(": ");
                text.append(message.as_str());
                text
            },
        }
    }
}

} // verus!
