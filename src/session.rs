use vstd::prelude::*;

use crate::status::{is_failure, is_failure_status};
use crate::voice::Voice;

verus! {

/// What a run does: speak a text with a voice, or transcribe an audio file.
#[derive(Clone, Copy, Debug, PartialEq, Eq, Structural)]
pub enum Command {
    Speak(Voice),
    Listen,
}

/// Where a run stands.
#[derive(Clone, Copy, Debug, PartialEq, Eq, Structural)]
pub enum Stage {
    /// Nothing checked yet.
    Ready,
    /// Checks passed; the source is being read.
    LoadingSource,
    /// The request was sent; its response is awaited.
    AwaitingResponse,
    /// The response had a failure status; its text is being read.
    ReadingErrorText(u16),
    /// The response succeeded; its body is being written to the destination.
    Saving,
    /// The audio just saved is being played.
    Playing,
    /// The run succeeded.
    Done,
    /// The run failed.
    Failed,
}

/// Why a run failed.
#[derive(Clone, Debug, PartialEq, Eq)]
pub enum RunError {
    /// The credential is not set.
    MissingCredential,
    /// The destination path already exists.
    OutputExists,
    /// Whether the destination exists could not be told.
    OutputUncheckable,
    /// Playback was asked of a transcription.
    PlayUnsupported,
    /// The source file could not be read.
    SourceUnreadable(String),
    /// The request or its response failed in transport.
    Transport(String),
    /// The service answered with a failure status and this text.
    Api { status: u16, message: String },
    /// The destination could not be written.
    WriteFailed(String),
    /// The saved audio could not be played.
    PlaybackFailed(String),
    /// An event came that the run's stage does not expect.
    OutOfOrder,
}

/// What the surrounding program observed.
#[derive(Clone, Debug, PartialEq, Eq)]
pub enum Event {
    /// The run starts: whether the credential is set, and whether the
    /// destination exists (`None` where that could not be told).
    Begin { credential_present: bool, output_exists: Option<bool> },
    SourceLoaded,
    SourceUnreadable(String),
    /// A response arrived with this status code.
    Responded(u16),
    TransportFailed(String),
    /// The text of a failed response.
    ErrorText(String),
    Saved,
    SaveFailed(String),
    Played,
    PlaybackFailed(String),
}

/// What the surrounding program is to do next.
#[derive(Clone, Debug, PartialEq, Eq)]
pub enum Action {
    /// Read the source text or open the source audio.
    LoadSource,
    /// Send the one request of the run.
    SendRequest,
    /// Read the text of the failed response.
    ReadErrorText,
    /// Write the response body to the destination.
    SaveBody,
    /// Play the saved audio.
    PlayOutput,
    /// Stop: the run succeeded.
    Finish,
    /// Stop: the run failed.
    Abort(RunError),
}

/// The checks made before anything is read or sent, in order: the
/// credential, the destination, and playback only for speech.
pub open spec fn preflight(
    command: Command,
    play: bool,
    credential_present: bool,
    output_exists: Option<bool>,
) -> Option<RunError> {
    if !credential_present {
        Some(RunError::MissingCredential)
    } else if output_exists == Some(true) {
        Some(RunError::OutputExists)
    } else if output_exists is None {
        Some(RunError::OutputUncheckable)
    } else if play && command is Listen {
        Some(RunError::PlayUnsupported)
    } else {
        None
    }
}

/// One step of a run: the next stage and the action, from the stage and the
/// event that came.
pub open spec fn transition(command: Command, play: bool, stage: Stage, event: Event) -> (
    Stage,
    Action,
) {
    match (stage, event) {
        (Stage::Ready, Event::Begin { credential_present, output_exists }) => {
            match preflight(command, play, credential_present, output_exists) {
                Some(e) => (Stage::Failed, Action::Abort(e)),
                None => (Stage::LoadingSource, Action::LoadSource),
            }
        },
        (Stage::LoadingSource, Event::SourceLoaded) => (
            Stage::AwaitingResponse,
            Action::SendRequest,
        ),
        (Stage::LoadingSource, Event::SourceUnreadable(m)) => (
            Stage::Failed,
            Action::Abort(RunError::SourceUnreadable(m)),
        ),
        (Stage::AwaitingResponse, Event::Responded(code)) => {
            if is_failure(code) {
                (Stage::ReadingErrorText(code), Action::ReadErrorText)
            } else {
                (Stage::Saving, Action::SaveBody)
            }
        },
        (Stage::AwaitingResponse, Event::TransportFailed(m)) => (
            Stage::Failed,
            Action::Abort(RunError::Transport(m)),
        ),
        (Stage::ReadingErrorText(code), Event::ErrorText(m)) => (
            Stage::Failed,
            Action::Abort(RunError::Api { status: code, message: m }),
        ),
        (Stage::ReadingErrorText(_), Event::TransportFailed(m)) => (
            Stage::Failed,
            Action::Abort(RunError::Transport(m)),
        ),
        (Stage::Saving, Event::Saved) => {
            if play && command is Speak {
                (Stage::Playing, Action::PlayOutput)
            } else {
                (Stage::Done, Action::Finish)
            }
        },
        (Stage::Saving, Event::TransportFailed(m)) => (
            Stage::Failed,
            Action::Abort(RunError::Transport(m)),
        ),
        (Stage::Saving, Event::SaveFailed(m)) => (
            Stage::Failed,
            Action::Abort(RunError::WriteFailed(m)),
        ),
        (Stage::Playing, Event::Played) => (Stage::Done, Action::Finish),
        (Stage::Playing, Event::PlaybackFailed(m)) => (
            Stage::Failed,
            Action::Abort(RunError::PlaybackFailed(m)),
        ),
        _ => (Stage::Failed, Action::Abort(RunError::OutOfOrder)),
    }
}

/// The actions that a run takes from `stage` on the events `events`.
pub open spec fn actions_of(command: Command, play: bool, stage: Stage, events: Seq<Event>) -> Seq<
    Action,
>
    decreases events.len(),
{
    if events.len() == 0 {
        Seq::empty()
    } else {
        let (next, a) = transition(command, play, stage, events[0]);
        seq![a] + actions_of(command, play, next, events.drop_first())
    }
}

/// Whether `actions` holds a request to the service.
pub open spec fn sends_request(actions: Seq<Action>) -> bool {
    exists|i: int| 0 <= i < actions.len() && actions[i] is SendRequest
}

/// Whether `actions` writes the destination.
pub open spec fn saves_output(actions: Seq<Action>) -> bool {
    exists|i: int| 0 <= i < actions.len() && actions[i] is SaveBody
}

/// Whether `actions` reports success.
pub open spec fn finishes(actions: Seq<Action>) -> bool {
    exists|i: int| 0 <= i < actions.len() && actions[i] is Finish
}

/// Whether every action of `actions` is a failure report.
pub open spec fn aborts_only(actions: Seq<Action>) -> bool {
    forall|i: int| 0 <= i < actions.len() ==> (#[trigger] actions[i]) is Abort
}

/// A failed run stays failed: whatever comes after, it only reports failure.
pub proof fn failed_run_only_aborts(command: Command, play: bool, events: Seq<Event>)
    ensures
        aborts_only(actions_of(command, play, Stage::Failed, events)),
    decreases events.len(),
{
    if events.len() > 0 {
        let rest = events.drop_first();
        failed_run_only_aborts(command, play, rest);
        let tail = actions_of(command, play, Stage::Failed, rest);
        let acts = actions_of(command, play, Stage::Failed, events);
        assert(acts == seq![Action::Abort(RunError::OutOfOrder)] + tail);
        assert forall|i: int| 0 <= i < acts.len() implies (#[trigger] acts[i]) is Abort by {
            if i > 0 {
                assert(acts[i] == tail[i - 1]);
            }
        }
    }
}

/// A run that only reports failure sends nothing, saves nothing and does not
/// report success.
pub proof fn aborts_only_does_nothing(actions: Seq<Action>)
    requires
        aborts_only(actions),
    ensures
        !sends_request(actions),
        !saves_output(actions),
        !finishes(actions),
{
    assert forall|i: int| 0 <= i < actions.len() implies !(#[trigger] actions[i] is SendRequest) && !(
    actions[i] is SaveBody) && !(actions[i] is Finish) by {
        assert(actions[i] is Abort);
    }
}

/// The actions of a run whose first event moves it to `Failed`.
proof fn first_step_fails(command: Command, play: bool, stage: Stage, first: Event, rest: Seq<Event>)
    requires
        transition(command, play, stage, first).0 == Stage::Failed,
    ensures
        actions_of(command, play, stage, seq![first] + rest) == seq![
            transition(command, play, stage, first).1,
        ] + actions_of(command, play, Stage::Failed, rest),
{
    let events = seq![first] + rest;
    assert(events[0] == first);
    assert(events.drop_first() =~= rest);
}

/// Without the credential a run fails at once with `MissingCredential`: it
/// never sends a request, never writes the destination and never succeeds,
/// whatever events follow.
pub proof fn missing_credential_sends_nothing(
    command: Command,
    play: bool,
    output_exists: Option<bool>,
    rest: Seq<Event>,
)
    ensures
        ({
            let acts = actions_of(
                command,
                play,
                Stage::Ready,
                seq![Event::Begin { credential_present: false, output_exists }] + rest,
            );
            &&& acts[0] == Action::Abort(RunError::MissingCredential)
            &&& !sends_request(acts)
            &&& !saves_output(acts)
            &&& !finishes(acts)
        }),
{
    let first = Event::Begin { credential_present: false, output_exists };
    first_step_fails(command, play, Stage::Ready, first, rest);
    failed_run_only_aborts(command, play, rest);
    let acts = actions_of(command, play, Stage::Ready, seq![first] + rest);
    let tail = actions_of(command, play, Stage::Failed, rest);
    assert forall|i: int| 0 <= i < acts.len() implies (#[trigger] acts[i]) is Abort by {
        if i > 0 {
            assert(acts[i] == tail[i - 1]);
        }
    }
    aborts_only_does_nothing(acts);
}

/// Where the destination already exists a run fails before any request: it
/// never sends one, never writes the destination and never succeeds; with
/// the credential set the failure is `OutputExists`.
pub proof fn existing_output_sends_nothing(
    command: Command,
    play: bool,
    credential_present: bool,
    rest: Seq<Event>,
)
    ensures
        ({
            let acts = actions_of(
                command,
                play,
                Stage::Ready,
                seq![Event::Begin { credential_present, output_exists: Some(true) }] + rest,
            );
            &&& credential_present ==> acts[0] == Action::Abort(RunError::OutputExists)
            &&& !sends_request(acts)
            &&& !saves_output(acts)
            &&& !finishes(acts)
        }),
{
    let first = Event::Begin { credential_present, output_exists: Some(true) };
    first_step_fails(command, play, Stage::Ready, first, rest);
    failed_run_only_aborts(command, play, rest);
    let acts = actions_of(command, play, Stage::Ready, seq![first] + rest);
    let tail = actions_of(command, play, Stage::Failed, rest);
    assert forall|i: int| 0 <= i < acts.len() implies (#[trigger] acts[i]) is Abort by {
        if i > 0 {
            assert(acts[i] == tail[i - 1]);
        }
    }
    aborts_only_does_nothing(acts);
}

/// A response with a client or server error status is never saved and the
/// run never succeeds: its text is read, then the run fails, and where that
/// text arrives the failure carries the status and the text.
pub proof fn failure_status_saves_nothing(
    command: Command,
    play: bool,
    code: u16,
    rest: Seq<Event>,
)
    requires
        is_failure(code),
    ensures
        ({
            let acts = actions_of(
                command,
                play,
                Stage::AwaitingResponse,
                seq![Event::Responded(code)] + rest,
            );
            &&& acts[0] == Action::ReadErrorText
            &&& !saves_output(acts)
            &&& !finishes(acts)
            &&& forall|m: String|
                rest.len() > 0 && rest[0] == Event::ErrorText(m) ==> acts[1] == Action::Abort(
                    RunError::Api { status: code, message: m },
                )
        }),
{
    let events = seq![Event::Responded(code)] + rest;
    assert(events[0] == Event::Responded(code));
    assert(events.drop_first() =~= rest);
    let stage = Stage::ReadingErrorText(code);
    let acts = actions_of(command, play, Stage::AwaitingResponse, events);
    let after = actions_of(command, play, stage, rest);
    assert(acts == seq![Action::ReadErrorText] + after);
    if rest.len() > 0 {
        let more = rest.drop_first();
        assert(rest =~= seq![rest[0]] + more);
        first_step_fails(command, play, stage, rest[0], more);
        failed_run_only_aborts(command, play, more);
        let tail = actions_of(command, play, Stage::Failed, more);
        assert forall|i: int| 0 <= i < after.len() implies (#[trigger] after[i]) is Abort by {
            if i > 0 {
                assert(after[i] == tail[i - 1]);
            }
        }
    }
    assert forall|i: int| 0 <= i < acts.len() implies !(#[trigger] acts[i] is SaveBody) && !(
    acts[i] is Finish) by {
        if i > 0 {
            assert(acts[i] == after[i - 1]);
            assert(after[i - 1] is Abort);
        }
    }
}

/// Stages from which the request is still to be sent.
pub open spec fn before_request(stage: Stage) -> bool {
    stage is Ready || stage is LoadingSource
}

/// Once past the request, a run never sends another.
proof fn no_request_after_sending(command: Command, play: bool, stage: Stage, events: Seq<Event>)
    requires
        !before_request(stage),
    ensures
        !sends_request(actions_of(command, play, stage, events)),
    decreases events.len(),
{
    if events.len() > 0 {
        let (next, a) = transition(command, play, stage, events[0]);
        let rest = events.drop_first();
        no_request_after_sending(command, play, next, rest);
        let tail = actions_of(command, play, next, rest);
        let acts = actions_of(command, play, stage, events);
        assert(acts == seq![a] + tail);
        assert forall|i: int| 0 <= i < acts.len() implies !(#[trigger] acts[i] is SendRequest) by {
            if i > 0 {
                assert(acts[i] == tail[i - 1]);
            }
        }
    }
}

/// A run sends at most one request, whatever events come: there is no retry.
pub proof fn at_most_one_request(command: Command, play: bool, stage: Stage, events: Seq<Event>)
    requires
        before_request(stage),
    ensures
        ({
            let acts = actions_of(command, play, stage, events);
            forall|i: int, j: int|
                0 <= i < acts.len() && 0 <= j < acts.len() && (#[trigger] acts[i]) is SendRequest
                    && (#[trigger] acts[j]) is SendRequest ==> i == j
        }),
    decreases events.len(),
{
    if events.len() > 0 {
        let (next, a) = transition(command, play, stage, events[0]);
        let rest = events.drop_first();
        let tail = actions_of(command, play, next, rest);
        let acts = actions_of(command, play, stage, events);
        assert(acts == seq![a] + tail);
        if before_request(next) {
            at_most_one_request(command, play, next, rest);
            assert(!(a is SendRequest));
        } else {
            no_request_after_sending(command, play, next, rest);
        }
        assert forall|i: int, j: int|
            0 <= i < acts.len() && 0 <= j < acts.len() && (#[trigger] acts[i]) is SendRequest
                && (#[trigger] acts[j]) is SendRequest implies i == j by {
            if i > 0 {
                assert(acts[i] == tail[i - 1]);
            }
            if j > 0 {
                assert(acts[j] == tail[j - 1]);
            }
        }
    }
}

/// The decisions of one run. The surrounding program performs each action
/// and hands back what came of it.
pub struct Session {
    pub command: Command,
    pub play: bool,
    pub stage: Stage,
}

impl Session {
    /// A run of `command`, with playback of the result where `play` is set.
    pub fn new(command: Command, play: bool) -> (r: Session)
        ensures
            r.command == command,
            r.play == play,
            r.stage == Stage::Ready,
    {
        Session { command, play, stage: Stage::Ready }
    }

    /// Takes the next event and says what to do.
    pub fn step(&mut self, event: Event) -> (r: Action)
        ensures
            final(self).command == old(self).command,
            final(self).play == old(self).play,
            (final(self).stage, r) == transition(
                old(self).command,
                old(self).play,
                old(self).stage,
                event,
            ),
    {
        let (next, action) = match (self.stage, event) {
            (Stage::Ready, Event::Begin { credential_present, output_exists }) => {
                if !credential_present {
                    (Stage::Failed, Action::Abort(RunError::MissingCredential))
                } else {
                    match output_exists {
                        Some(true) => (Stage::Failed, Action::Abort(RunError::OutputExists)),
                        None => (Stage::Failed, Action::Abort(RunError::OutputUncheckable)),
                        Some(false) => {
                            if self.play && matches!(self.command, Command::Listen) {
                                (Stage::Failed, Action::Abort(RunError::PlayUnsupported))
                            } else {
                                (Stage::LoadingSource, Action::LoadSource)
                            }
                        },
                    }
                }
            },
            (Stage::LoadingSource, Event::SourceLoaded) => (
                Stage::AwaitingResponse,
                Action::SendRequest,
            ),
            (Stage::LoadingSource, Event::SourceUnreadable(m)) => (
                Stage::Failed,
                Action::Abort(RunError::SourceUnreadable(m)),
            ),
            (Stage::AwaitingResponse, Event::Responded(code)) => {
                if is_failure_status(code) {
                    (Stage::ReadingErrorText(code), Action::ReadErrorText)
                } else {
                    (Stage::Saving, Action::SaveBody)
                }
            },
            (Stage::AwaitingResponse, Event::TransportFailed(m)) => (
                Stage::Failed,
                Action::Abort(RunError::Transport(m)),
            ),
            (Stage::ReadingErrorText(code), Event::ErrorText(m)) => (
                Stage::Failed,
                Action::Abort(RunError::Api { status: code, message: m }),
            ),
            (Stage::ReadingErrorText(_), Event::TransportFailed(m)) => (
                Stage::Failed,
                Action::Abort(RunError::Transport(m)),
            ),
            (Stage::Saving, Event::Saved) => {
                if self.play && matches!(self.command, Command::Speak(_)) {
                    (Stage::Playing, Action::PlayOutput)
                } else {
                    (Stage::Done, Action::Finish)
                }
            },
            (Stage::Saving, Event::TransportFailed(m)) => (
                Stage::Failed,
                Action::Abort(RunError::Transport(m)),
            ),
            (Stage::Saving, Event::SaveFailed(m)) => (
                Stage::Failed,
                Action::Abort(RunError::WriteFailed(m)),
            ),
            (Stage::Playing, Event::Played) => (Stage::Done, Action::Finish),
            (Stage::Playing, Event::PlaybackFailed(m)) => (
                Stage::Failed,
                Action::Abort(RunError::PlaybackFailed(m)),
            ),
            _ => (Stage::Failed, Action::Abort(RunError::OutOfOrder)),
        };
        self.stage = next;
        action
    }
}

} // verus!
