//! The sound trigger: fire-and-forget playing of a sound file.
//!
//! A trigger is one call of the system's sound player. This module decides
//! what that call is given; the host makes it.

use crate::error::PlayerError;
use vstd::prelude::*;
use vstd::string::StringExecFns;

verus! {

/// Flag bit: play and return only when the sound has ended. The absence of
/// every bit.
pub const SND_SYNC: u32 = 0x0000;

/// Flag bit: start playing and return at once.
pub const SND_ASYNC: u32 = 0x0001;

/// Flag bit: play again and again until the player is stopped.
pub const SND_LOOP: u32 = 0x0008;

/// Flag bit: the sound is named by a file path.
pub const SND_FILENAME: u32 = 0x0002_0000;

/// How a sound is played.
#[derive(Clone, Copy, Debug, PartialEq, Eq, Structural)]
pub enum PlayMode {
    /// The call returns when the sound has ended.
    Sync,
    /// The call returns at once and the sound plays on.
    Async,
    /// The call returns at once and the sound repeats until stopped.
    Loop,
}

/// What the sound player is called with.
#[derive(Debug, PartialEq, Eq)]
pub struct SoundRequest {
    /// The file to play; `None` stops whatever is playing.
    pub sound: Option<String>,
    /// The flag bits of the call.
    pub flags: u32,
}

impl PlayMode {
    /// The flag bits of a mode: the path is a file name in every mode, and a
    /// looping sound is asynchronous.
    pub open spec fn flag_bits(self) -> u32 {
        match self {
            PlayMode::Sync => 0x0002_0000,
            PlayMode::Async => 0x0002_0001,
            PlayMode::Loop => 0x0002_0009,
        }
    }

    /// Combines the flag bits of the mode.
    pub fn flags(self) -> (flags: u32)
        ensures
            flags == self.flag_bits(),
            flags & SND_FILENAME == SND_FILENAME,
            (flags & SND_ASYNC != 0) == (self != PlayMode::Sync),
            (flags & SND_LOOP != 0) == (self == PlayMode::Loop),
    {
        let flags: u32 = match self {
            PlayMode::Sync => SND_FILENAME | SND_SYNC,
            PlayMode::Async => SND_FILENAME | SND_ASYNC,
            PlayMode::Loop => SND_FILENAME | SND_ASYNC | SND_LOOP,
        };
        assert(0x0002_0000u32 | 0x0000u32 == 0x0002_0000u32) by (bit_vector);
        assert(0x0002_0000u32 | 0x0001u32 == 0x0002_0001u32) by (bit_vector);
        assert(0x0002_0000u32 | 0x0001u32 | 0x0008u32 == 0x0002_0009u32) by (bit_vector);
        assert(0x0002_0000u32 & 0x0002_0000u32 == 0x0002_0000u32 && 0x0002_0001u32
            & 0x0002_0000u32 == 0x0002_0000u32 && 0x0002_0009u32 & 0x0002_0000u32
            == 0x0002_0000u32) by (bit_vector);
        assert(0x0002_0000u32 & 0x0001u32 == 0 && 0x0002_0001u32 & 0x0001u32 != 0
            && 0x0002_0009u32 & 0x0001u32 != 0) by (bit_vector);
        assert(0x0002_0000u32 & 0x0008u32 == 0 && 0x0002_0001u32 & 0x0008u32 == 0
            && 0x0002_0009u32 & 0x0008u32 != 0) by (bit_vector);
        flags
    }
}

/// What a request to play `path` in `mode` comes to.
pub open spec fn play_request(
    request: Result<SoundRequest, PlayerError>,
    path: Seq<char>,
    mode: PlayMode,
    path_exists: bool,
) -> bool {
    if path_exists {
        &&& request is Ok
        &&& request->Ok_0.sound is Some
        &&& request->Ok_0.sound->Some_0@ == path
        &&& request->Ok_0.flags == mode.flag_bits()
    } else {
        &&& request is Err
        &&& request->Err_0 is PathNotFound
        &&& request->Err_0->path@ == path
    }
}

/// The request that plays the file at `path` in `mode`; no request is made
/// for a path at which no file exists.
pub fn play_sound(path: &str, mode: PlayMode, path_exists: bool) -> (request: Result<
    SoundRequest,
    PlayerError,
>)
    ensures
        play_request(request, path@, mode, path_exists),
{
    if !path_exists {
        return Err(PlayerError::PathNotFound { path: String::from_str(path) });
    }
    Ok(SoundRequest { sound: Some(String::from_str(path)), flags: mode.flags() })
}

/// Plays a sound file and waits for its end.
pub fn play_sound_sync(path: &str, path_exists: bool) -> (request: Result<
    SoundRequest,
    PlayerError,
>)
    ensures
        play_request(request, path@, PlayMode::Sync, path_exists),
{
    play_sound(path, PlayMode::Sync, path_exists)
}

/// Plays a sound file without waiting for it.
pub fn play_sound_async(path: &str, path_exists: bool) -> (request: Result<
    SoundRequest,
    PlayerError,
>)
    ensures
        play_request(request, path@, PlayMode::Async, path_exists),
{
    play_sound(path, PlayMode::Async, path_exists)
}

/// Plays a sound file over and over, without waiting for it.
pub fn play_sound_loop(path: &str, path_exists: bool) -> (request: Result<
    SoundRequest,
    PlayerError,
>)
    ensures
        play_request(request, path@, PlayMode::Loop, path_exists),
{
    play_sound(path, PlayMode::Loop, path_exists)
}

/// The request that stops whatever the sound player is playing: no sound
/// and no flag.
pub fn stop_sound() -> (request: SoundRequest)
    ensures
        request.sound is None,
        request.flags == 0,
{
    SoundRequest { sound: None, flags: 0 }
}

} // verus!
