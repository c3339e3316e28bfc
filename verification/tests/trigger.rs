use media_player::error::PlayerError;
use media_player::sound::{
    play_sound, play_sound_async, play_sound_loop, play_sound_sync, stop_sound, PlayMode,
    SoundRequest, SND_ASYNC, SND_FILENAME, SND_LOOP, SND_SYNC,
};
use media_player::text::{decimal_text, ends_with, push_decimal, trim_trailing_nuls};

fn request(path: &str, flags: u32) -> Result<SoundRequest, PlayerError> {
    Ok(SoundRequest { sound: Some(path.to_string()), flags })
}

fn missing(path: &str) -> Result<SoundRequest, PlayerError> {
    Err(PlayerError::PathNotFound { path: path.to_string() })
}

#[test]
fn flags_of_each_mode() {
    assert_eq!(PlayMode::Sync.flags(), 0x0002_0000);
    assert_eq!(PlayMode::Async.flags(), 0x0002_0001);
    assert_eq!(PlayMode::Loop.flags(), 0x0002_0009);
    assert_eq!(PlayMode::Sync.flags(), SND_FILENAME | SND_SYNC);
    assert_eq!(PlayMode::Async.flags(), SND_FILENAME | SND_ASYNC);
    assert_eq!(PlayMode::Loop.flags(), SND_FILENAME | SND_ASYNC | SND_LOOP);
}

#[test]
fn sound_is_played_in_the_mode_asked_for() {
    let path = "C:\\Windows\\Media\\chimes.wav";
    assert_eq!(play_sound_sync(path, true), request(path, 0x0002_0000));
    assert_eq!(play_sound_async(path, true), request(path, 0x0002_0001));
    assert_eq!(play_sound_loop(path, true), request(path, 0x0002_0009));
    assert_eq!(play_sound(path, PlayMode::Loop, true), request(path, 0x0002_0009));
}

#[test]
fn missing_sound_file_is_not_played() {
    let path = "C:\\none.wav";
    assert_eq!(play_sound_sync(path, false), missing(path));
    assert_eq!(play_sound_async(path, false), missing(path));
    assert_eq!(play_sound_loop(path, false), missing(path));
    assert_eq!(play_sound("", PlayMode::Sync, false), missing(""));
}

#[test]
fn stop_names_no_sound_and_no_flag() {
    assert_eq!(stop_sound(), SoundRequest { sound: None, flags: 0 });
}

#[test]
fn decimal_text_of_numbers() {
    assert_eq!(decimal_text(0), "0");
    assert_eq!(decimal_text(7), "7");
    assert_eq!(decimal_text(10), "10");
    assert_eq!(decimal_text(44100), "44100");
    assert_eq!(decimal_text(1_000_000_007), "1000000007");
    assert_eq!(decimal_text(u32::MAX), "4294967295");
    let mut line = String::from("n=");
    push_decimal(&mut line, 905);
    push_decimal(&mut line, 0);
    assert_eq!(line, "n=9050");
}

#[test]
fn suffixes_are_compared_by_character() {
    assert!(ends_with("song.wav", ".wav"));
    assert!(ends_with(".wav", ".wav"));
    assert!(!ends_with("wav", ".wav"));
    assert!(!ends_with("song.wave", ".wav"));
    assert!(ends_with("anything", ""));
    assert!(ends_with("", ""));
    assert!(!ends_with("", "a"));
    assert!(ends_with("音乐.mp3", ".mp3"));
    assert!(ends_with("a.音乐", ".音乐"));
    assert!(!ends_with("a.音乐", ".音"));
}

#[test]
fn trailing_nuls_are_cut() {
    assert_eq!(trim_trailing_nuls("abc\0\0\0"), "abc");
    assert_eq!(trim_trailing_nuls("abc"), "abc");
    assert_eq!(trim_trailing_nuls("\0\0"), "");
    assert_eq!(trim_trailing_nuls(""), "");
    assert_eq!(trim_trailing_nuls("a\0b\0"), "a\0b");
    assert_eq!(trim_trailing_nuls("\0a"), "\0a");
    assert_eq!(trim_trailing_nuls("录音\0"), "录音");
}
