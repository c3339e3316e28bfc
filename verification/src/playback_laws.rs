//! What holds of every playback, whatever its host reports.

use crate::error::PlayerError;
use crate::playback::{Action, Event, Phase, PlaybackState, PlaybackSummary};
use crate::wave::{parse_wave, FormatDescriptor};
use vstd::prelude::*;

verus! {

/// The state after the host has reported `events` one after the other.
pub open spec fn run(state: PlaybackState, events: Seq<Event>) -> PlaybackState
    decreases events.len(),
{
    if events.len() == 0 {
        state
    } else {
        run(state, events.drop_last()).next(events.last())
    }
}

/// Samples that were read in full are as many as their chunk declares, so
/// their number fits the 32-bit size of a summary.
pub proof fn parsed_payload_fits(file: Seq<u8>)
    ensures
        parse_wave(file) matches Ok((_, payload)) ==> payload.len() <= u32::MAX,
{
}

/// No report leads a well-formed playback to a state that is not.
pub proof fn next_keeps_well_formed(state: PlaybackState, event: Event)
    requires
        state.wf(),
    ensures
        state.next(event).wf(),
{
    if let Event::ContainerOpened { content } = event {
        parsed_payload_fits(content@);
    }
}

/// Every state that a playback reaches from its start is well-formed, for
/// every sequence of reports, answers to the pending action or not.
pub proof fn every_run_is_well_formed(path: String, events: Seq<Event>)
    ensures
        run(PlaybackState::initial(path), events).wf(),
    decreases events.len(),
{
    if events.len() > 0 {
        every_run_is_well_formed(path, events.drop_last());
        next_keeps_well_formed(
            run(PlaybackState::initial(path), events.drop_last()),
            events.last(),
        );
    }
}

/// Resource accounting. At every point of every playback each kind of handle
/// (container, output device, prepared header) was released at most as often
/// as it was acquired and is held at most once; when the playback is
/// finished, by success or by any failure, each kind was released exactly as
/// often as it was acquired.
pub proof fn handles_are_balanced(path: String, events: Seq<Event>)
    ensures
        ({
            let state = run(PlaybackState::initial(path), events);
            let l = state.ledger;
            &&& l.containers_closed <= l.containers_opened <= l.containers_closed + 1
            &&& l.devices_closed <= l.devices_opened <= l.devices_closed + 1
            &&& l.headers_unprepared <= l.headers_prepared <= l.headers_unprepared + 1
            &&& l.containers_opened <= 1 && l.devices_opened <= 1 && l.headers_prepared <= 1
            &&& state.phase == Phase::Finished ==> l.balanced()
        }),
{
    every_run_is_well_formed(path, events);
}

/// A playback that ends without failure has played: its host opened and
/// closed the container and the device, and prepared and unprepared the
/// header, each exactly once.
pub proof fn finished_without_failure_has_played(path: String, events: Seq<Event>)
    requires
        run(PlaybackState::initial(path), events).outcome() matches Some(Ok(_)),
    ensures
        ({
            let l = run(PlaybackState::initial(path), events).ledger;
            &&& l.containers_opened == 1 && l.containers_closed == 1
            &&& l.devices_opened == 1 && l.devices_closed == 1
            &&& l.headers_prepared == 1 && l.headers_unprepared == 1
        }),
{
    every_run_is_well_formed(path, events);
}

/// A finished playback stays as it is: no later report acquires anything or
/// changes the outcome.
pub proof fn finished_is_final(state: PlaybackState, event: Event)
    requires
        state.phase == Phase::Finished,
    ensures
        state.next(event) == state,
{
}

/// A report that does not answer the pending action changes nothing.
pub proof fn stray_report_is_ignored(state: PlaybackState, event: Event)
    requires
        !state.expects(event),
    ensures
        state.next(event) == state,
{
}

/// A playback whose path does not exist ends at once with `PathNotFound`
/// for that path, and neither then nor later has its host open anything.
pub proof fn missing_path_opens_nothing(path: String, later: Seq<Event>)
    ensures
        ({
            let ended = PlaybackState::initial(path).next(Event::PathChecked { exists: false });
            &&& ended.pending() == Action::Finish
            &&& ended.outcome() == Some(
                Err::<PlaybackSummary, PlayerError>(PlayerError::PathNotFound { path }),
            )
            &&& run(ended, later) == ended
            &&& run(ended, later).ledger.untouched()
        }),
    decreases later.len(),
{
    if later.len() > 0 {
        missing_path_opens_nothing(path, later.drop_last());
    }
}

/// A container that cannot be read as WAVE is closed before its failure is
/// reported: the playback asks for the close, ends with the failure of the
/// reader once the close is reported, and never asks for a device.
pub proof fn rejected_container_is_closed(path: String, content: Vec<u8>, failure: PlayerError)
    requires
        parse_wave(content@) == Err::<(FormatDescriptor, Seq<u8>), PlayerError>(failure),
    ensures
        ({
            let opened = PlaybackState::initial(path).next(
                Event::PathChecked { exists: true },
            ).next(Event::ContainerOpened { content });
            let ended = opened.next(Event::ContainerClosed);
            &&& opened.pending() == Action::CloseContainer
            &&& opened.outcome() is None
            &&& ended.pending() == Action::Finish
            &&& ended.outcome() == Some(Err::<PlaybackSummary, PlayerError>(failure))
            &&& ended.ledger.containers_opened == 1 && ended.ledger.containers_closed == 1
            &&& ended.ledger.devices_opened == 0 && ended.ledger.headers_prepared == 0
        }),
{
}

/// The state of a playback that has read `content` and waits for the
/// hardware to finish.
pub open spec fn submitted(path: String, content: Vec<u8>) -> PlaybackState {
    PlaybackState::initial(path).next(Event::PathChecked { exists: true }).next(
        Event::ContainerOpened { content },
    ).next(Event::ContainerClosed).next(Event::DeviceOpened).next(Event::HeaderPrepared).next(
        Event::HeaderSubmitted,
    )
}

/// Whether every report of the sequence is a poll that found the hardware
/// still busy.
pub open spec fn all_busy(polls: Seq<Event>) -> bool {
    forall|i: int| 0 <= i < polls.len() ==> polls[i] == (Event::CompletionPolled { done: false })
}

/// Polls that find the hardware still busy leave a submitted playback
/// waiting, however many they are.
pub proof fn busy_polls_keep_waiting(state: PlaybackState, polls: Seq<Event>)
    requires
        state.phase == Phase::AwaitingCompletion,
        all_busy(polls),
    ensures
        run(state, polls) == state,
    decreases polls.len(),
{
    if polls.len() > 0 {
        busy_polls_keep_waiting(state, polls.drop_last());
    }
}

/// A playback in which every step succeeds reports exactly what was read:
/// the sample rate of the format and the number of sample bytes. Before
/// that it asks for the device with the format that was read, keeps the
/// samples unchanged through any number of polls, and ends with every
/// handle released.
pub proof fn complete_run_reports_what_was_read(
    path: String,
    content: Vec<u8>,
    format: FormatDescriptor,
    samples: Seq<u8>,
    polls: Seq<Event>,
)
    requires
        parse_wave(content@) == Ok::<(FormatDescriptor, Seq<u8>), PlayerError>((format, samples)),
        all_busy(polls),
    ensures
        ({
            let closed = PlaybackState::initial(path).next(
                Event::PathChecked { exists: true },
            ).next(Event::ContainerOpened { content }).next(Event::ContainerClosed);
            let waiting = run(submitted(path, content), polls);
            let ended = waiting.next(Event::CompletionPolled { done: true }).next(
                Event::HeaderUnprepared,
            ).next(Event::DeviceClosed);
            &&& closed.pending() == Action::OpenDevice { format }
            &&& waiting.payload == samples
            &&& ended.pending() == Action::Finish
            &&& ended.outcome() == Some(
                Ok::<PlaybackSummary, PlayerError>(
                    PlaybackSummary {
                        sample_rate: format.samples_per_sec,
                        data_size: samples.len() as u32,
                    },
                ),
            )
            &&& ended.ledger.balanced()
        }),
{
    parsed_payload_fits(content@);
    busy_polls_keep_waiting(submitted(path, content), polls);
}

/// The samples and the format are set once, when the container is read: no
/// report in any other phase changes them, so what the header was prepared
/// over is what stays with the playback until its end.
pub proof fn samples_stay_as_read(state: PlaybackState, event: Event)
    requires
        state.phase != Phase::OpeningContainer,
    ensures
        state.next(event).payload == state.payload,
        state.next(event).format == state.format,
        state.next(event).path == state.path,
{
}

/// The header goes back to the driver's owner only when the hardware is
/// done with it or never took it: a waiting playback asks for the unprepare
/// on no report but a poll that found the playback complete.
pub proof fn header_returns_after_completion(state: PlaybackState, event: Event)
    requires
        state.phase == Phase::AwaitingCompletion,
        state.next(event).phase != Phase::AwaitingCompletion,
    ensures
        event == (Event::CompletionPolled { done: true }),
        state.next(event).pending() == Action::UnprepareHeader,
{
}

/// The device is closed after the header has come back: whenever a
/// well-formed playback asks for the close, no header is with the driver.
pub proof fn device_closes_after_header_returns(state: PlaybackState)
    requires
        state.wf(),
        state.pending() == Action::CloseDevice,
    ensures
        state.ledger.headers_prepared == state.ledger.headers_unprepared,
        state.ledger.devices_opened == state.ledger.devices_closed + 1,
{
}

/// A device that cannot be opened ends the playback at once: nothing was
/// acquired for it, and the container is long closed.
pub proof fn refused_device_ends_the_playback(state: PlaybackState)
    requires
        state.wf(),
        state.phase == Phase::OpeningDevice,
    ensures
        ({
            let ended = state.next(Event::DeviceOpenFailed);
            &&& ended.pending() == Action::Finish
            &&& ended.outcome() == Some(
                Err::<PlaybackSummary, PlayerError>(PlayerError::DeviceOpenFailed),
            )
            &&& ended.ledger.balanced()
        }),
{
}

/// A header that the driver does not prepare has the device closed before
/// the failure is reported.
pub proof fn unprepared_header_closes_the_device(state: PlaybackState)
    requires
        state.wf(),
        state.phase == Phase::PreparingHeader,
    ensures
        ({
            let failed = state.next(Event::HeaderPrepareFailed);
            let ended = failed.next(Event::DeviceClosed);
            &&& failed.pending() == Action::CloseDevice
            &&& failed.outcome() is None
            &&& ended.pending() == Action::Finish
            &&& ended.outcome() == Some(
                Err::<PlaybackSummary, PlayerError>(PlayerError::HeaderPrepareFailed),
            )
            &&& ended.ledger.balanced()
        }),
{
}

/// A header that the driver does not accept is unprepared, then the device
/// is closed, and only then is the failure reported.
pub proof fn refused_header_is_unprepared_then_closed(state: PlaybackState)
    requires
        state.wf(),
        state.phase == Phase::SubmittingHeader,
    ensures
        ({
            let failed = state.next(Event::HeaderSubmitFailed);
            let returned = failed.next(Event::HeaderUnprepared);
            let ended = returned.next(Event::DeviceClosed);
            &&& failed.pending() == Action::UnprepareHeader
            &&& returned.pending() == Action::CloseDevice
            &&& returned.outcome() is None
            &&& ended.pending() == Action::Finish
            &&& ended.outcome() == Some(
                Err::<PlaybackSummary, PlayerError>(PlayerError::HeaderSubmitFailed),
            )
            &&& ended.ledger.balanced()
        }),
{
}

/// How far a phase is from the start of a playback.
pub open spec fn rank(phase: Phase) -> nat {
    match phase {
        Phase::CheckingPath => 0,
        Phase::OpeningContainer => 1,
        Phase::ClosingContainer => 2,
        Phase::OpeningDevice => 3,
        Phase::PreparingHeader => 4,
        Phase::SubmittingHeader => 5,
        Phase::AwaitingCompletion => 6,
        Phase::UnpreparingHeader => 7,
        Phase::ClosingDevice => 8,
        Phase::Finished => 9,
    }
}

/// A playback never goes back, and every answer to the pending action takes
/// it forward, but for a poll that found the hardware still busy. So a
/// playback ends after nine answers at most, the busy polls aside.
pub proof fn answers_take_the_playback_forward(state: PlaybackState, event: Event)
    ensures
        rank(state.next(event).phase) >= rank(state.phase),
        state.expects(event) && event != (Event::CompletionPolled { done: false }) ==> rank(
            state.next(event).phase,
        ) > rank(state.phase),
{
}

} // verus!
