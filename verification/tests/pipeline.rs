use media_player::error::{ChunkKind, PlayerError};
use media_player::playback::{
    play_wave_file_mmio, Action, Event, Ledger, Phase, Playback, PlaybackSummary, POLL_INTERVAL_MS,
};
use media_player::wave::FormatDescriptor;

fn wave_file(rate: u32, channels: u16, samples: &[u8]) -> Vec<u8> {
    let block = channels * 2;
    let mut out = b"RIFF".to_vec();
    out.extend_from_slice(&(36 + samples.len() as u32).to_le_bytes());
    out.extend_from_slice(b"WAVEfmt ");
    out.extend_from_slice(&16u32.to_le_bytes());
    out.extend_from_slice(&1u16.to_le_bytes());
    out.extend_from_slice(&channels.to_le_bytes());
    out.extend_from_slice(&rate.to_le_bytes());
    out.extend_from_slice(&(rate * block as u32).to_le_bytes());
    out.extend_from_slice(&block.to_le_bytes());
    out.extend_from_slice(&16u16.to_le_bytes());
    out.extend_from_slice(b"data");
    out.extend_from_slice(&(samples.len() as u32).to_le_bytes());
    out.extend_from_slice(samples);
    out
}

/// A host that answers every action from a script and counts what it opens
/// and closes.
struct Host {
    exists: bool,
    content: Option<Vec<u8>>,
    device_opens: bool,
    prepares: bool,
    submits: bool,
    busy_polls: u32,
    container_opens: u32,
    container_closes: u32,
    device_open_calls: u32,
    device_closes: u32,
    prepared: u32,
    unprepared: u32,
    polls: u32,
    asked: Vec<Action>,
}

impl Host {
    fn new(content: Option<Vec<u8>>) -> Host {
        Host {
            exists: true,
            content,
            device_opens: true,
            prepares: true,
            submits: true,
            busy_polls: 0,
            container_opens: 0,
            container_closes: 0,
            device_open_calls: 0,
            device_closes: 0,
            prepared: 0,
            unprepared: 0,
            polls: 0,
            asked: Vec::new(),
        }
    }

    fn answer(&mut self, action: Action) -> Event {
        self.asked.push(action);
        match action {
            Action::CheckPath => Event::PathChecked { exists: self.exists },
            Action::OpenContainer => match self.content.clone() {
                Some(content) => {
                    self.container_opens += 1;
                    Event::ContainerOpened { content }
                }
                None => Event::ContainerOpenFailed,
            },
            Action::CloseContainer => {
                self.container_closes += 1;
                Event::ContainerClosed
            }
            Action::OpenDevice { .. } => {
                if self.device_opens {
                    self.device_open_calls += 1;
                    Event::DeviceOpened
                } else {
                    Event::DeviceOpenFailed
                }
            }
            Action::PrepareHeader => {
                if self.prepares {
                    self.prepared += 1;
                    Event::HeaderPrepared
                } else {
                    Event::HeaderPrepareFailed
                }
            }
            Action::SubmitHeader => {
                if self.submits {
                    Event::HeaderSubmitted
                } else {
                    Event::HeaderSubmitFailed
                }
            }
            Action::PollCompletion { .. } => {
                self.polls += 1;
                Event::CompletionPolled { done: self.polls > self.busy_polls }
            }
            Action::UnprepareHeader => {
                self.unprepared += 1;
                Event::HeaderUnprepared
            }
            Action::CloseDevice => {
                self.device_closes += 1;
                Event::DeviceClosed
            }
            Action::Finish => unreachable!("nothing is asked of the host after the end"),
        }
    }

    fn play(&mut self, path: &str) -> (Result<PlaybackSummary, PlayerError>, Ledger) {
        let mut playback = play_wave_file_mmio(path);
        let mut action = playback.pending();
        let mut steps = 0;
        while action != Action::Finish {
            steps += 1;
            assert!(steps < 1000, "the playback does not end");
            let event = self.answer(action);
            action = playback.step(event);
        }
        assert!(playback.is_finished());
        let ledger = playback.ledger();
        assert_eq!(ledger.containers_opened, self.container_opens);
        assert_eq!(ledger.containers_closed, self.container_closes);
        assert_eq!(ledger.devices_opened, self.device_open_calls);
        assert_eq!(ledger.devices_closed, self.device_closes);
        assert_eq!(ledger.headers_prepared, self.prepared);
        assert_eq!(ledger.headers_unprepared, self.unprepared);
        assert_eq!(self.container_opens, self.container_closes);
        assert_eq!(self.device_open_calls, self.device_closes);
        assert_eq!(self.prepared, self.unprepared);
        (playback.finish().expect("a finished playback has an outcome"), ledger)
    }
}

fn once() -> Ledger {
    Ledger {
        containers_opened: 1,
        containers_closed: 1,
        devices_opened: 1,
        devices_closed: 1,
        headers_prepared: 1,
        headers_unprepared: 1,
    }
}

fn never() -> Ledger {
    Ledger {
        containers_opened: 0,
        containers_closed: 0,
        devices_opened: 0,
        devices_closed: 0,
        headers_prepared: 0,
        headers_unprepared: 0,
    }
}

fn container_only() -> Ledger {
    Ledger { containers_opened: 1, containers_closed: 1, ..never() }
}

#[test]
fn a_new_playback_asks_for_the_path_check() {
    let playback = play_wave_file_mmio("C:\\Windows\\Media\\chimes.wav");
    assert_eq!(playback.path(), "C:\\Windows\\Media\\chimes.wav");
    assert_eq!(playback.pending(), Action::CheckPath);
    assert_eq!(playback.phase(), Phase::CheckingPath);
    assert_eq!(playback.ledger(), never());
    assert_eq!(playback.payload(), &[0u8; 0][..]);
    assert!(!playback.is_finished());
    assert_eq!(playback.finish(), None);
}

#[test]
fn successful_playback_runs_every_step_in_order() {
    let samples: Vec<u8> = (0..=255u8).cycle().take(4096).collect();
    let mut host = Host::new(Some(wave_file(44100, 2, &samples)));
    host.busy_polls = 3;
    let (outcome, ledger) = host.play("song.wav");
    assert_eq!(outcome, Ok(PlaybackSummary { sample_rate: 44100, data_size: 4096 }));
    assert_eq!(ledger, once());
    let format = FormatDescriptor {
        format_tag: 1,
        channels: 2,
        samples_per_sec: 44100,
        avg_bytes_per_sec: 176400,
        block_align: 4,
        bits_per_sample: 16,
        extra_size: 0,
    };
    let poll = Action::PollCompletion { interval_ms: 50 };
    assert_eq!(
        host.asked,
        vec![
            Action::CheckPath,
            Action::OpenContainer,
            Action::CloseContainer,
            Action::OpenDevice { format },
            Action::PrepareHeader,
            Action::SubmitHeader,
            poll,
            poll,
            poll,
            poll,
            Action::UnprepareHeader,
            Action::CloseDevice,
        ]
    );
    assert_eq!(POLL_INTERVAL_MS, 50);
}

#[test]
fn summary_reports_rate_and_size_of_a_minimal_file() {
    for (rate, count) in [(8000u32, 0usize), (22050, 1), (44100, 1023), (48000, 1024), (96000, 5000)] {
        let samples = vec![0x55u8; count];
        let mut host = Host::new(Some(wave_file(rate, 1, &samples)));
        let (outcome, _) = host.play("tone.wav");
        let summary = outcome.unwrap();
        assert_eq!(summary.sample_rate, rate);
        assert_eq!(summary.data_size, count as u32);
        assert_eq!(summary.size_kb(), (count / 1024) as u32);
    }
}

#[test]
fn summary_message_names_hertz_and_kilobytes() {
    let summary = PlaybackSummary { sample_rate: 44100, data_size: 176400 };
    assert_eq!(summary.size_kb(), 172);
    assert_eq!(summary.message(), "播放完成 (采样率: 44100Hz, 大小: 172KB)");
    let small = PlaybackSummary { sample_rate: 0, data_size: 1023 };
    assert_eq!(small.message(), "播放完成 (采样率: 0Hz, 大小: 0KB)");
    let large = PlaybackSummary { sample_rate: u32::MAX, data_size: u32::MAX };
    assert_eq!(large.message(), "播放完成 (采样率: 4294967295Hz, 大小: 4194303KB)");
}

#[test]
fn the_samples_stay_with_the_playback_while_the_device_plays() {
    let samples = vec![1u8, 2, 3, 4, 5, 6, 7, 8];
    let mut playback = play_wave_file_mmio("a.wav");
    playback.step(Event::PathChecked { exists: true });
    playback.step(Event::ContainerOpened { content: wave_file(8000, 1, &samples) });
    assert_eq!(playback.payload(), &samples[..]);
    assert_eq!(playback.format().samples_per_sec, 8000);
    for event in [
        Event::ContainerClosed,
        Event::DeviceOpened,
        Event::HeaderPrepared,
        Event::HeaderSubmitted,
        Event::CompletionPolled { done: false },
        Event::CompletionPolled { done: true },
        Event::HeaderUnprepared,
    ] {
        playback.step(event);
        assert_eq!(playback.payload(), &samples[..]);
    }
    assert_eq!(playback.step(Event::DeviceClosed), Action::Finish);
    assert_eq!(playback.payload(), &samples[..]);
}

#[test]
fn missing_path_opens_nothing() {
    let mut host = Host::new(Some(wave_file(44100, 2, &[0; 8])));
    host.exists = false;
    let (outcome, ledger) = host.play("C:\\nowhere\\none.wav");
    assert_eq!(outcome, Err(PlayerError::PathNotFound { path: "C:\\nowhere\\none.wav".to_string() }));
    assert_eq!(ledger, never());
    assert_eq!(host.asked, vec![Action::CheckPath]);
}

#[test]
fn container_that_does_not_open_ends_the_playback() {
    let mut host = Host::new(None);
    let (outcome, ledger) = host.play("locked.wav");
    assert_eq!(outcome, Err(PlayerError::ContainerOpenFailed));
    assert_eq!(ledger, never());
    assert_eq!(host.asked, vec![Action::CheckPath, Action::OpenContainer]);
}

#[test]
fn rejected_containers_are_closed_before_the_failure() {
    let mut truncated = wave_file(44100, 2, &[0; 100]);
    truncated.truncate(44 + 10);
    let mut avi = wave_file(44100, 2, &[0; 4]);
    avi[8..12].copy_from_slice(b"AVI ");
    let mut no_fmt = wave_file(44100, 2, &[0; 4]);
    no_fmt[12..16].copy_from_slice(b"JUNK");
    let mut no_data = wave_file(44100, 2, &[0; 4]);
    no_data[36..40].copy_from_slice(b"LIST");
    let cases = vec![
        (b"MThd\0\0\0\x06\0\x01\0\x02\0\x60".to_vec(), PlayerError::NotARiffContainer),
        (Vec::new(), PlayerError::NotARiffContainer),
        (avi, PlayerError::UnexpectedContainerSubtype),
        (no_fmt, PlayerError::ChunkNotFound { which: ChunkKind::Format }),
        (no_data, PlayerError::ChunkNotFound { which: ChunkKind::Data }),
        (truncated, PlayerError::ShortRead { expected: 100, actual: 10 }),
    ];
    for (content, failure) in cases {
        let mut host = Host::new(Some(content));
        let (outcome, ledger) = host.play("file.wav");
        assert_eq!(outcome, Err(failure));
        assert_eq!(ledger, container_only());
        assert_eq!(
            host.asked,
            vec![Action::CheckPath, Action::OpenContainer, Action::CloseContainer]
        );
    }
}

#[test]
fn device_that_does_not_open_ends_the_playback() {
    let mut host = Host::new(Some(wave_file(44100, 2, &[0; 8])));
    host.device_opens = false;
    let (outcome, ledger) = host.play("busy.wav");
    assert_eq!(outcome, Err(PlayerError::DeviceOpenFailed));
    assert_eq!(ledger, container_only());
    assert_eq!(host.asked.len(), 4);
}

#[test]
fn header_that_is_not_prepared_closes_the_device() {
    let mut host = Host::new(Some(wave_file(44100, 2, &[0; 8])));
    host.prepares = false;
    let (outcome, ledger) = host.play("a.wav");
    assert_eq!(outcome, Err(PlayerError::HeaderPrepareFailed));
    assert_eq!(ledger, Ledger { headers_prepared: 0, headers_unprepared: 0, ..once() });
    assert_eq!(host.asked[4..], [Action::PrepareHeader, Action::CloseDevice]);
}

#[test]
fn header_that_is_not_accepted_is_unprepared_then_the_device_closed() {
    let mut host = Host::new(Some(wave_file(44100, 2, &[0; 8])));
    host.submits = false;
    let (outcome, ledger) = host.play("a.wav");
    assert_eq!(outcome, Err(PlayerError::HeaderSubmitFailed));
    assert_eq!(ledger, once());
    assert_eq!(
        host.asked[4..],
        [Action::PrepareHeader, Action::SubmitHeader, Action::UnprepareHeader, Action::CloseDevice]
    );
    assert_eq!(host.polls, 0);
}

#[test]
fn reports_that_answer_nothing_are_ignored() {
    let all = || {
        vec![
            Event::PathChecked { exists: true },
            Event::PathChecked { exists: false },
            Event::ContainerOpened { content: wave_file(8000, 1, &[1, 2]) },
            Event::ContainerOpenFailed,
            Event::ContainerClosed,
            Event::DeviceOpened,
            Event::DeviceOpenFailed,
            Event::HeaderPrepared,
            Event::HeaderPrepareFailed,
            Event::HeaderSubmitted,
            Event::HeaderSubmitFailed,
            Event::CompletionPolled { done: true },
            Event::CompletionPolled { done: false },
            Event::HeaderUnprepared,
            Event::DeviceClosed,
        ]
    };
    let advance = |playback: &mut Playback, upto: usize| {
        let script = [
            Event::PathChecked { exists: true },
            Event::ContainerOpened { content: wave_file(8000, 1, &[1, 2]) },
            Event::ContainerClosed,
            Event::DeviceOpened,
            Event::HeaderPrepared,
            Event::HeaderSubmitted,
            Event::CompletionPolled { done: true },
            Event::HeaderUnprepared,
            Event::DeviceClosed,
        ];
        for event in script.into_iter().take(upto) {
            playback.step(event);
        }
    };
    let answers: [&[usize]; 10] =
        [&[0, 1], &[2, 3], &[4], &[5, 6], &[7, 8], &[9, 10], &[11, 12], &[13], &[14], &[]];
    for (reached, expected) in answers.iter().enumerate() {
        for (index, event) in all().into_iter().enumerate() {
            let mut playback = play_wave_file_mmio("a.wav");
            advance(&mut playback, reached);
            let phase = playback.phase();
            let ledger = playback.ledger();
            let pending = playback.pending();
            if expected.contains(&index) {
                continue;
            }
            assert_eq!(playback.step(event), pending);
            assert_eq!(playback.phase(), phase);
            assert_eq!(playback.ledger(), ledger);
        }
    }
}

#[test]
fn a_finished_playback_stays_finished() {
    let mut host = Host::new(Some(wave_file(44100, 2, &[0; 8])));
    host.exists = false;
    let mut playback = play_wave_file_mmio("gone.wav");
    assert_eq!(playback.step(Event::PathChecked { exists: false }), Action::Finish);
    assert_eq!(playback.step(Event::ContainerOpened { content: wave_file(1, 1, &[]) }), Action::Finish);
    assert_eq!(playback.step(Event::DeviceOpened), Action::Finish);
    assert_eq!(playback.ledger(), never());
    assert_eq!(
        playback.finish(),
        Some(Err(PlayerError::PathNotFound { path: "gone.wav".to_string() }))
    );
}

#[test]
fn two_playbacks_of_one_file_are_independent() {
    let samples: Vec<u8> = (0..200u8).collect();
    let file = wave_file(32000, 2, &samples);
    let mut host = Host::new(Some(file.clone()));
    let (first, first_ledger) = host.play("twice.wav");
    assert_eq!(host.container_opens, 1);
    let (second, second_ledger) = {
        let mut again = Host::new(Some(file));
        again.play("twice.wav")
    };
    let expected = Ok(PlaybackSummary { sample_rate: 32000, data_size: 200 });
    assert_eq!(first, expected);
    assert_eq!(second, expected);
    assert_eq!(first_ledger, once());
    assert_eq!(second_ledger, once());

    let mut one = play_wave_file_mmio("twice.wav");
    let mut two = play_wave_file_mmio("twice.wav");
    one.step(Event::PathChecked { exists: true });
    one.step(Event::ContainerOpened { content: wave_file(32000, 2, &samples) });
    assert_eq!(two.pending(), Action::CheckPath);
    assert_eq!(two.payload().len(), 0);
    two.step(Event::PathChecked { exists: true });
    two.step(Event::ContainerOpened { content: wave_file(32000, 2, &samples) });
    assert_eq!(one.payload(), two.payload());
    assert_ne!(one.payload().as_ptr(), two.payload().as_ptr());
}

#[test]
fn failure_messages_read_as_the_player_shows_them() {
    let text = |e: PlayerError| e.message();
    assert_eq!(text(PlayerError::PathNotFound { path: "C:\\a b.wav".to_string() }), "文件不存在: C:\\a b.wav");
    assert_eq!(text(PlayerError::ContainerOpenFailed), "无法打开文件 (mmioOpen 失败)");
    assert_eq!(text(PlayerError::NotARiffContainer), "不是有效的 RIFF 文件");
    assert_eq!(text(PlayerError::UnexpectedContainerSubtype), "不是有效的 WAVE 文件");
    assert_eq!(text(PlayerError::ChunkNotFound { which: ChunkKind::Format }), "找不到 fmt 块");
    assert_eq!(text(PlayerError::ChunkNotFound { which: ChunkKind::Data }), "找不到 data 块");
    assert_eq!(text(PlayerError::ShortRead { expected: 9, actual: 3 }), "读取音频数据失败");
    assert_eq!(text(PlayerError::DeviceOpenFailed), "无法打开音频设备 (waveOutOpen 失败)");
    assert_eq!(text(PlayerError::HeaderPrepareFailed), "waveOutPrepareHeader 失败");
    assert_eq!(text(PlayerError::HeaderSubmitFailed), "waveOutWrite 失败");
    assert_eq!(
        text(PlayerError::SubsystemError { code: 275, message: "Cannot find the file.".to_string() }),
        "MCI 错误 275: Cannot find the file."
    );
    assert_eq!(
        text(PlayerError::SubsystemError { code: 0, message: String::new() }),
        "MCI 错误 0: "
    );
}
