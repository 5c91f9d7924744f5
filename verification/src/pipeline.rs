//! The course of one upload, as a state machine.
//!
//! The caller does the outside work (reads the parts of the request, writes
//! and removes the artifact, runs the analyzer) and reports each result as an
//! [`Event`]. The machine decides: it answers each event with the next
//! [`Stage`] and the [`Action`] that the caller performs next.
//!
//! Parts are looked at in order and the first one with an accepted extension
//! is analysed; later parts are never read. An artifact that was written is
//! always removed before the machine finishes, whatever the analysis gave.

use crate::artifact::{analysis_command, command_text, is_artifact_name, ArtifactName};
use crate::extension::{has_valid_extension, is_valid_extension};
use crate::json::{parse_output, report_json, ReportError, ReportErrorText};
use vstd::prelude::*;
use vstd::utf8::{decode_utf8, encode_utf8, valid_utf8};

verus! {

/// How running the analyzer failed.
#[derive(Clone, Copy, Debug, PartialEq, Eq, Structural)]
pub enum InvocationFailure {
    /// The analyzer could not be started.
    Spawn,
    /// The analyzer ended with a status other than success.
    NonZeroExit,
    /// The analyzer did not end in time.
    Timeout,
}

/// How an upload ended.
#[derive(Debug)]
pub enum Outcome {
    /// The findings, as JSON text.
    Succeeded(String),
    /// Files were uploaded, none with an accepted extension.
    RejectedExtension,
    /// The artifact could not be written.
    StorageFailed,
    /// The analyzer could not be run to a successful end.
    InvocationFailed(InvocationFailure),
    /// The analyzer's report could not be read.
    ParseFailed(ReportError),
    /// The request held no file.
    NoFileProvided,
}

/// What an [`Outcome`] holds, as plain values.
pub ghost enum OutcomeText {
    Succeeded(Seq<char>),
    RejectedExtension,
    StorageFailed,
    InvocationFailed(InvocationFailure),
    ParseFailed(ReportErrorText),
    NoFileProvided,
}

impl View for Outcome {
    type V = OutcomeText;

    open spec fn view(&self) -> OutcomeText {
        match self {
            Outcome::Succeeded(json) => OutcomeText::Succeeded(json@),
            Outcome::RejectedExtension => OutcomeText::RejectedExtension,
            Outcome::StorageFailed => OutcomeText::StorageFailed,
            Outcome::InvocationFailed(failure) => OutcomeText::InvocationFailed(*failure),
            Outcome::ParseFailed(e) => OutcomeText::ParseFailed(e@),
            Outcome::NoFileProvided => OutcomeText::NoFileProvided,
        }
    }
}

/// Where an upload stands.
pub enum Stage {
    /// Waiting for the next file part of the request; `seen_part` tells
    /// whether a part was refused already.
    AwaitingPart { seen_part: bool },
    /// Waiting for the current part to be written under `artifact`.
    Storing { artifact: ArtifactName },
    /// Waiting for the analyzer to end.
    Invoking { artifact: ArtifactName },
    /// Waiting for the artifact to be removed.
    Releasing { artifact: ArtifactName, outcome: Outcome },
    /// Done.
    Finished { outcome: Outcome },
}

/// What a [`Stage`] holds, as plain values.
pub ghost enum StageText {
    AwaitingPart { seen_part: bool },
    Storing { artifact: Seq<char> },
    Invoking { artifact: Seq<char> },
    Releasing { artifact: Seq<char>, outcome: OutcomeText },
    Finished { outcome: OutcomeText },
}

impl View for Stage {
    type V = StageText;

    open spec fn view(&self) -> StageText {
        match self {
            Stage::AwaitingPart { seen_part } => StageText::AwaitingPart { seen_part: *seen_part },
            Stage::Storing { artifact } => StageText::Storing { artifact: artifact@ },
            Stage::Invoking { artifact } => StageText::Invoking { artifact: artifact@ },
            Stage::Releasing { artifact, outcome } => StageText::Releasing {
                artifact: artifact@,
                outcome: outcome@,
            },
            Stage::Finished { outcome } => StageText::Finished { outcome: outcome@ },
        }
    }
}

/// What the caller reports.
#[derive(Debug)]
pub enum Event {
    /// The request's next file part, with the file name it declares.
    Part { file_name: String },
    /// The request has no further file part.
    NoMoreParts,
    /// The part was written in full to a new file.
    Stored,
    /// A file of that name exists already; nothing was written.
    NameTaken,
    /// No file could be created; nothing was written.
    CreateFailed,
    /// The file was created and could not be written in full.
    WriteFailed,
    /// The analyzer ended, with success or not, and printed `stdout`.
    Exited { success: bool, stdout: Vec<u8> },
    /// The analyzer could not be started.
    SpawnFailed,
    /// The analyzer was stopped because it took too long.
    TimedOut,
    /// The artifact was removed, or could not be.
    Released,
}

/// What an [`Event`] holds, as plain values.
pub ghost enum EventText {
    Part { file_name: Seq<char> },
    NoMoreParts,
    Stored,
    NameTaken,
    CreateFailed,
    WriteFailed,
    Exited { success: bool, stdout: Seq<u8> },
    SpawnFailed,
    TimedOut,
    Released,
}

impl View for Event {
    type V = EventText;

    open spec fn view(&self) -> EventText {
        match self {
            Event::Part { file_name } => EventText::Part { file_name: file_name@ },
            Event::NoMoreParts => EventText::NoMoreParts,
            Event::Stored => EventText::Stored,
            Event::NameTaken => EventText::NameTaken,
            Event::CreateFailed => EventText::CreateFailed,
            Event::WriteFailed => EventText::WriteFailed,
            Event::Exited { success, stdout } => EventText::Exited {
                success: *success,
                stdout: stdout@,
            },
            Event::SpawnFailed => EventText::SpawnFailed,
            Event::TimedOut => EventText::TimedOut,
            Event::Released => EventText::Released,
        }
    }
}

/// What the caller does next.
#[derive(Debug)]
pub enum Action {
    /// Read the request's next file part.
    NextPart,
    /// Write the current part to a new file of this name, without ever
    /// replacing a file that exists.
    Store { name: String },
    /// Run the analyzer's interpreter on this command.
    Run { command: String },
    /// Remove the file of this name.
    Remove { name: String },
    /// Answer the request with the outcome that the stage holds.
    Finish,
}

/// What an [`Action`] holds, as plain values.
pub ghost enum ActionText {
    NextPart,
    Store { name: Seq<char> },
    Run { command: Seq<char> },
    Remove { name: Seq<char> },
    Finish,
}

impl View for Action {
    type V = ActionText;

    open spec fn view(&self) -> ActionText {
        match self {
            Action::NextPart => ActionText::NextPart,
            Action::Store { name } => ActionText::Store { name: name@ },
            Action::Run { command } => ActionText::Run { command: command@ },
            Action::Remove { name } => ActionText::Remove { name: name@ },
            Action::Finish => ActionText::Finish,
        }
    }
}

/// A step of the machine: the stage it reached and what to do there.
pub struct Transition {
    pub stage: Stage,
    pub action: Action,
}

/// The text that permissive decoding makes of bytes that are not UTF-8.
pub uninterp spec fn lossy_text(bytes: Seq<u8>) -> Seq<char>;

/// The text that the analyzer printed: its bytes decoded as UTF-8 where they
/// are UTF-8, and decoded permissively where they are not.
pub open spec fn printed_text(bytes: Seq<u8>) -> Seq<char> {
    if valid_utf8(bytes) {
        decode_utf8(bytes)
    } else {
        lossy_text(bytes)
    }
}

/// Decodes the analyzer's output, replacing what is not UTF-8.
///
/// Trusted: stands for `String::from_utf8_lossy`, which never fails and
/// returns bytes that are UTF-8 as the string they encode. For other bytes
/// the contract gives the result a name and claims only that it depends on
/// the bytes alone.
#[verifier::external_body]
fn decode_lossy(bytes: &Vec<u8>) -> (r: String)
    ensures
        valid_utf8(bytes@) ==> r@ == decode_utf8(bytes@),
        !valid_utf8(bytes@) ==> r@ == lossy_text(bytes@),
{
    String::from_utf8_lossy(bytes).into_owned()
}

/// How an analysis ends once the analyzer has: its exit status decides
/// first, whatever it printed, and then its report.
pub open spec fn conclusion(success: bool, report: Seq<char>) -> OutcomeText {
    if !success {
        OutcomeText::InvocationFailed(InvocationFailure::NonZeroExit)
    } else {
        match report_json(report) {
            Ok(json) => OutcomeText::Succeeded(json),
            Err(e) => OutcomeText::ParseFailed(e),
        }
    }
}

/// The machine's rule. `fresh` is the name drawn for this step; only the
/// steps that lead to [`Stage::Storing`] use it. `None` where the stage does
/// not wait for the event.
pub open spec fn next(stage: StageText, event: EventText, fresh: Seq<char>) -> Option<
    (StageText, ActionText),
> {
    match stage {
        StageText::AwaitingPart { seen_part } => match event {
            EventText::Part { file_name } => if has_valid_extension(file_name) {
                Some((StageText::Storing { artifact: fresh }, ActionText::Store { name: fresh }))
            } else {
                Some((StageText::AwaitingPart { seen_part: true }, ActionText::NextPart))
            },
            EventText::NoMoreParts => Some(
                (
                    StageText::Finished {
                        outcome: if seen_part {
                            OutcomeText::RejectedExtension
                        } else {
                            OutcomeText::NoFileProvided
                        },
                    },
                    ActionText::Finish,
                ),
            ),
            _ => None,
        },
        StageText::Storing { artifact } => match event {
            EventText::Stored => Some(
                (
                    StageText::Invoking { artifact },
                    ActionText::Run { command: command_text(artifact) },
                ),
            ),
            EventText::NameTaken => Some(
                (StageText::Storing { artifact: fresh }, ActionText::Store { name: fresh }),
            ),
            EventText::CreateFailed => Some(
                (StageText::Finished { outcome: OutcomeText::StorageFailed }, ActionText::Finish),
            ),
            EventText::WriteFailed => Some(
                (
                    StageText::Releasing { artifact, outcome: OutcomeText::StorageFailed },
                    ActionText::Remove { name: artifact },
                ),
            ),
            _ => None,
        },
        StageText::Invoking { artifact } => match event {
            EventText::Exited { success, stdout } => Some(
                (
                    StageText::Releasing {
                        artifact,
                        outcome: conclusion(success, printed_text(stdout)),
                    },
                    ActionText::Remove { name: artifact },
                ),
            ),
            EventText::SpawnFailed => Some(
                (
                    StageText::Releasing {
                        artifact,
                        outcome: OutcomeText::InvocationFailed(InvocationFailure::Spawn),
                    },
                    ActionText::Remove { name: artifact },
                ),
            ),
            EventText::TimedOut => Some(
                (
                    StageText::Releasing {
                        artifact,
                        outcome: OutcomeText::InvocationFailed(InvocationFailure::Timeout),
                    },
                    ActionText::Remove { name: artifact },
                ),
            ),
            _ => None,
        },
        StageText::Releasing { artifact, outcome } => match event {
            EventText::Released => Some((StageText::Finished { outcome }, ActionText::Finish)),
            _ => None,
        },
        StageText::Finished { outcome } => None,
    }
}

/// The step uses the fresh name.
pub open spec fn draws_name(stage: StageText, event: EventText) -> bool {
    match stage {
        StageText::AwaitingPart { seen_part } => event matches EventText::Part { file_name }
            && has_valid_extension(file_name),
        StageText::Storing { artifact } => event is NameTaken,
        _ => false,
    }
}

/// The action names no file but an artifact, and runs no command but the
/// one that analyses an artifact.
pub open spec fn names_artifact(action: ActionText) -> bool {
    match action {
        ActionText::Store { name } => is_artifact_name(name),
        ActionText::Remove { name } => is_artifact_name(name),
        ActionText::Run { command } => exists|name: Seq<char>| #[trigger]
            is_artifact_name(name) && command == command_text(name),
        _ => true,
    }
}

/// The view of a step's result.
pub open spec fn step_text(r: Option<Transition>) -> Option<(StageText, ActionText)> {
    match r {
        Some(t) => Some((t.stage@, t.action@)),
        None => None,
    }
}

/// Where every upload starts: no part seen, the first one asked for.
pub fn start() -> (r: Transition)
    ensures
        r.stage@ == (StageText::AwaitingPart { seen_part: false }),
        r.action@ == ActionText::NextPart,
{
    Transition { stage: Stage::AwaitingPart { seen_part: false }, action: Action::NextPart }
}

/// Decides how an analysis ends from the analyzer's exit status and the text
/// it printed. A status other than success is a failure even where the text
/// is a well-formed report.
pub fn conclude(success: bool, report: String) -> (r: Outcome)
    ensures
        r@ == conclusion(success, report@),
{
    if !success {
        Outcome::InvocationFailed(InvocationFailure::NonZeroExit)
    } else {
        match parse_output(report) {
            Ok(json) => Outcome::Succeeded(json),
            Err(e) => Outcome::ParseFailed(e),
        }
    }
}

/// The step that stores the current part under `artifact`.
fn store_as(artifact: ArtifactName) -> (r: Transition)
    ensures
        r.stage@ == (StageText::Storing { artifact: artifact@ }),
        r.action@ == (ActionText::Store { name: artifact@ }),
        is_artifact_name(artifact@),
{
    let name = artifact.as_str().to_owned();
    Transition { stage: Stage::Storing { artifact }, action: Action::Store { name } }
}

/// The step that removes `artifact` and keeps `outcome` for the end.
fn release(artifact: ArtifactName, outcome: Outcome) -> (r: Transition)
    ensures
        r.stage@ == (StageText::Releasing { artifact: artifact@, outcome: outcome@ }),
        r.action@ == (ActionText::Remove { name: artifact@ }),
        is_artifact_name(artifact@),
{
    let name = artifact.as_str().to_owned();
    Transition { stage: Stage::Releasing { artifact, outcome }, action: Action::Remove { name } }
}

/// The last step.
fn finish(outcome: Outcome) -> (r: Transition)
    ensures
        r.stage@ == (StageText::Finished { outcome: outcome@ }),
        r.action@ == ActionText::Finish,
{
    Transition { stage: Stage::Finished { outcome }, action: Action::Finish }
}

/// Takes one step with a given fresh name.
///
/// Returns `None` exactly where `stage` does not wait for `event`; a finished
/// upload waits for nothing. Whatever the step, its action touches no file
/// but an artifact.
pub fn step_with(stage: Stage, event: Event, fresh: ArtifactName) -> (r: Option<Transition>)
    ensures
        step_text(r) == next(stage@, event@, fresh@),
        r matches Some(t) ==> names_artifact(t.action@),
{
    match stage {
        Stage::AwaitingPart { seen_part } => match event {
            Event::Part { file_name } => {
                if is_valid_extension(file_name.as_str()) {
                    Some(store_as(fresh))
                } else {
                    Some(
                        Transition {
                            stage: Stage::AwaitingPart { seen_part: true },
                            action: Action::NextPart,
                        },
                    )
                }
            },
            Event::NoMoreParts => {
                if seen_part {
                    Some(finish(Outcome::RejectedExtension))
                } else {
                    Some(finish(Outcome::NoFileProvided))
                }
            },
            _ => None,
        },
        Stage::Storing { artifact } => match event {
            Event::Stored => {
                let command = analysis_command(&artifact);
                Some(
                    Transition {
                        stage: Stage::Invoking { artifact },
                        action: Action::Run { command },
                    },
                )
            },
            Event::NameTaken => Some(store_as(fresh)),
            Event::CreateFailed => Some(finish(Outcome::StorageFailed)),
            Event::WriteFailed => Some(release(artifact, Outcome::StorageFailed)),
            _ => None,
        },
        Stage::Invoking { artifact } => match event {
            Event::Exited { success, stdout } => {
                let report = decode_lossy(&stdout);
                Some(release(artifact, conclude(success, report)))
            },
            Event::SpawnFailed => Some(
                release(artifact, Outcome::InvocationFailed(InvocationFailure::Spawn)),
            ),
            Event::TimedOut => Some(
                release(artifact, Outcome::InvocationFailed(InvocationFailure::Timeout)),
            ),
            _ => None,
        },
        Stage::Releasing { artifact, outcome } => match event {
            Event::Released => Some(finish(outcome)),
            _ => None,
        },
        Stage::Finished { outcome } => None,
    }
}

/// Takes one step, drawing a fresh random name for it. Only the steps that
/// start storing use the name.
///
/// What is returned is what [`step_with`] returns for some artifact name:
/// which one is left to chance.
pub fn step(stage: Stage, event: Event) -> (r: Option<Transition>)
    ensures
        exists|fresh: Seq<char>| #[trigger]
            is_artifact_name(fresh) && step_text(r) == next(stage@, event@, fresh),
        r matches Some(t) ==> names_artifact(t.action@),
{
    let fresh = ArtifactName::generate();
    step_with(stage, event, fresh)
}

/// The caller has written nothing yet: the upload waits for a part, or
/// ended without one that was accepted.
pub open spec fn nothing_stored(stage: StageText) -> bool {
    match stage {
        StageText::AwaitingPart { seen_part } => true,
        StageText::Finished { outcome } => outcome is RejectedExtension
            || outcome is NoFileProvided,
        _ => false,
    }
}

/// The action writes a file, runs the analyzer or removes a file.
pub open spec fn touches_outside(action: ActionText) -> bool {
    action is Store || action is Run || action is Remove
}

/// A part whose extension is refused is passed over: nothing is written and
/// nothing is run for it, and the next part is asked for.
pub proof fn lemma_refused_part_is_passed_over(
    seen_part: bool,
    file_name: Seq<char>,
    fresh: Seq<char>,
)
    requires
        !has_valid_extension(file_name),
    ensures
        next(StageText::AwaitingPart { seen_part }, EventText::Part { file_name }, fresh) == Some(
            (StageText::AwaitingPart { seen_part: true }, ActionText::NextPart),
        ),
{
}

/// As long as no part with an accepted extension arrives, no step writes,
/// runs or removes anything, and nothing is stored after it either.
pub proof fn lemma_nothing_happens_without_accepted_part(
    stage: StageText,
    event: EventText,
    fresh: Seq<char>,
    after: StageText,
    action: ActionText,
)
    requires
        nothing_stored(stage),
        event matches EventText::Part { file_name } ==> !has_valid_extension(file_name),
        next(stage, event, fresh) == Some((after, action)),
    ensures
        nothing_stored(after),
        !touches_outside(action),
{
}

/// Of the parts of a request the first with an accepted extension is stored,
/// under the fresh name.
pub proof fn lemma_accepted_part_is_stored(seen_part: bool, file_name: Seq<char>, fresh: Seq<char>)
    requires
        has_valid_extension(file_name),
    ensures
        next(StageText::AwaitingPart { seen_part }, EventText::Part { file_name }, fresh) == Some(
            (StageText::Storing { artifact: fresh }, ActionText::Store { name: fresh }),
        ),
{
}

/// An exit status other than success ends the upload with
/// [`InvocationFailure::NonZeroExit`], whatever the analyzer printed.
pub proof fn lemma_nonzero_exit_fails(artifact: Seq<char>, stdout: Seq<u8>, fresh: Seq<char>)
    ensures
        next(
            StageText::Invoking { artifact },
            EventText::Exited { success: false, stdout },
            fresh,
        ) == Some(
            (
                StageText::Releasing {
                    artifact,
                    outcome: OutcomeText::InvocationFailed(InvocationFailure::NonZeroExit),
                },
                ActionText::Remove { name: artifact },
            ),
        ),
        next(
            StageText::Releasing {
                artifact,
                outcome: OutcomeText::InvocationFailed(InvocationFailure::NonZeroExit),
            },
            EventText::Released,
            fresh,
        ) == Some(
            (
                StageText::Finished {
                    outcome: OutcomeText::InvocationFailed(InvocationFailure::NonZeroExit),
                },
                ActionText::Finish,
            ),
        ),
{
}

/// After an exit with success the report decides, read as the text whose
/// UTF-8 encoding the analyzer printed.
pub proof fn lemma_printed_report_decides(artifact: Seq<char>, report: Seq<char>, fresh: Seq<char>)
    ensures
        next(
            StageText::Invoking { artifact },
            EventText::Exited { success: true, stdout: encode_utf8(report) },
            fresh,
        ) == Some(
            (
                StageText::Releasing { artifact, outcome: conclusion(true, report) },
                ActionText::Remove { name: artifact },
            ),
        ),
{
    vstd::utf8::encode_utf8_valid_utf8(report);
    vstd::utf8::encode_utf8_decode_utf8(report);
}

/// Once the analyzer was asked for, every step removes the artifact before
/// the upload finishes, however the analysis went.
pub proof fn lemma_artifact_is_released(
    artifact: Seq<char>,
    event: EventText,
    fresh: Seq<char>,
    after: StageText,
    action: ActionText,
)
    requires
        next(StageText::Invoking { artifact }, event, fresh) == Some((after, action)),
    ensures
        after matches StageText::Releasing { artifact: released, outcome } && released == artifact,
        action == (ActionText::Remove { name: artifact }),
{
}

/// An upload finishes only from a stage in which no artifact is left: before
/// anything was written, after a file could not be created, or after the
/// artifact was released.
pub proof fn lemma_finishes_without_artifact(
    stage: StageText,
    event: EventText,
    fresh: Seq<char>,
    after: StageText,
    action: ActionText,
)
    requires
        next(stage, event, fresh) == Some((after, action)),
        after is Finished,
    ensures
        stage is AwaitingPart || stage is Releasing || (stage is Storing && event is CreateFailed),
        stage matches StageText::Releasing { artifact, outcome } ==> after == (
            StageText::Finished { outcome }
        ),
        action is Finish,
{
}

/// A name that is taken is given up: the part is stored under the fresh
/// name, and the analyzer is never run on a file that another upload wrote.
pub proof fn lemma_taken_name_is_given_up(artifact: Seq<char>, fresh: Seq<char>)
    ensures
        next(StageText::Storing { artifact }, EventText::NameTaken, fresh) == Some(
            (StageText::Storing { artifact: fresh }, ActionText::Store { name: fresh }),
        ),
{
}

/// The analyzer is run only on the artifact that the caller reported as
/// stored, by the command made for its name.
pub proof fn lemma_runs_only_what_was_stored(
    stage: StageText,
    event: EventText,
    fresh: Seq<char>,
    after: StageText,
    action: ActionText,
)
    requires
        next(stage, event, fresh) == Some((after, action)),
        action is Run,
    ensures
        event is Stored,
        stage matches StageText::Storing { artifact } && after == (StageText::Invoking {
            artifact,
        }) && action == (ActionText::Run { command: command_text(artifact) }),
{
}

/// Only the steps that start storing use the fresh name: every other step
/// is decided by the stage and the event alone.
pub proof fn lemma_other_steps_ignore_name(
    stage: StageText,
    event: EventText,
    fresh: Seq<char>,
    other: Seq<char>,
)
    requires
        !draws_name(stage, event),
    ensures
        next(stage, event, fresh) == next(stage, event, other),
{
}

} // verus!
