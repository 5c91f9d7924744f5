use script_analyzer::artifact::ArtifactName;
use script_analyzer::json::ReportError;
use script_analyzer::pipeline::{
    conclude, start, step, step_with, Action, Event, InvocationFailure, Outcome, Stage, Transition,
};

const STEM: &str = "abcdefghij0123456789";
const NAME: &str = "abcdefghij0123456789.ps1";
const OTHER_STEM: &str = "ZZZZZZZZZZ9999999999";
const OTHER_NAME: &str = "ZZZZZZZZZZ9999999999.ps1";
const REPORT: &str = "R1\tHigh\t10\tmsg1\nR2\tLow\t20\tmsg2\n";
const REPORT_JSON: &str = "[{\"rule_name\":\"R1\",\"severity\":\"High\",\"line\":\"10\",\"message\":\"msg1\"},{\"rule_name\":\"R2\",\"severity\":\"Low\",\"line\":\"20\",\"message\":\"msg2\"}]";

fn name() -> ArtifactName {
    ArtifactName::from_stem(STEM).unwrap()
}

fn other() -> ArtifactName {
    ArtifactName::from_stem(OTHER_STEM).unwrap()
}

fn part(file_name: &str) -> Event {
    Event::Part { file_name: file_name.to_string() }
}

fn exited(success: bool, stdout: &[u8]) -> Event {
    Event::Exited { success, stdout: stdout.to_vec() }
}

fn go(stage: Stage, event: Event) -> Transition {
    step_with(stage, event, other()).unwrap()
}

fn every_event() -> Vec<Event> {
    vec![
        part("a.txt"),
        part("a.exe"),
        Event::NoMoreParts,
        Event::Stored,
        Event::NameTaken,
        Event::CreateFailed,
        Event::WriteFailed,
        exited(true, b""),
        exited(false, b""),
        Event::SpawnFailed,
        Event::TimedOut,
        Event::Released,
    ]
}

#[test]
fn upload_starts_by_asking_for_a_part() {
    let t = start();
    assert!(matches!(t.stage, Stage::AwaitingPart { seen_part: false }));
    assert!(matches!(t.action, Action::NextPart));
}

#[test]
fn malware_exe_is_rejected_before_anything_is_stored() {
    let t = go(start().stage, part("malware.exe"));
    assert!(matches!(t.stage, Stage::AwaitingPart { seen_part: true }));
    assert!(matches!(t.action, Action::NextPart));
    let t = go(t.stage, Event::NoMoreParts);
    assert!(matches!(t.stage, Stage::Finished { outcome: Outcome::RejectedExtension }));
    assert!(matches!(t.action, Action::Finish));
}

#[test]
fn request_without_file_ends_with_no_file_provided() {
    let t = go(start().stage, Event::NoMoreParts);
    assert!(matches!(t.stage, Stage::Finished { outcome: Outcome::NoFileProvided }));
    assert!(matches!(t.action, Action::Finish));
}

#[test]
fn first_valid_part_wins() {
    let t = go(start().stage, part("a.exe"));
    let t = go(t.stage, part("b.doc"));
    assert!(matches!(t.action, Action::NextPart));
    let t = step_with(t.stage, part("c.PS1"), name()).unwrap();
    match &t.stage {
        Stage::Storing { artifact } => assert_eq!(artifact.as_str(), NAME),
        _ => panic!("the valid part is not being stored"),
    }
    match &t.action {
        Action::Store { name } => assert_eq!(name, NAME),
        _ => panic!("the valid part is not being stored"),
    }
    assert!(step_with(t.stage, part("d.txt"), other()).is_none());
}

#[test]
fn whole_upload_succeeds() {
    let t = step_with(start().stage, part("script.ps1"), name()).unwrap();
    assert!(matches!(&t.action, Action::Store { name } if name == NAME));
    let t = go(t.stage, Event::Stored);
    match &t.stage {
        Stage::Invoking { artifact } => assert_eq!(artifact.as_str(), NAME),
        _ => panic!("the analyzer is not being run"),
    }
    match &t.action {
        Action::Run { command } => assert_eq!(
            command,
            "$a=Invoke-ScriptAnalyzer abcdefghij0123456789.ps1;foreach($b in $a){$b.RuleName+\"`t\"+$b.Severity+\"`t\"+$b.Line+\"`t\"+$b.Message}"
        ),
        _ => panic!("the analyzer is not being run"),
    }
    let t = go(t.stage, exited(true, REPORT.as_bytes()));
    match &t.stage {
        Stage::Releasing { artifact, outcome: Outcome::Succeeded(json) } => {
            assert_eq!(artifact.as_str(), NAME);
            assert_eq!(json, REPORT_JSON);
        }
        _ => panic!("the artifact is not being removed"),
    }
    assert!(matches!(&t.action, Action::Remove { name } if name == NAME));
    let t = go(t.stage, Event::Released);
    assert!(matches!(&t.stage, Stage::Finished { outcome: Outcome::Succeeded(json) } if json == REPORT_JSON));
    assert!(matches!(t.action, Action::Finish));
}

#[test]
fn nonzero_exit_fails_whatever_was_printed() {
    let t = go(Stage::Invoking { artifact: name() }, exited(false, REPORT.as_bytes()));
    assert!(matches!(
        &t.stage,
        Stage::Releasing {
            outcome: Outcome::InvocationFailed(InvocationFailure::NonZeroExit),
            ..
        }
    ));
    assert!(matches!(&t.action, Action::Remove { name } if name == NAME));
    let t = go(t.stage, Event::Released);
    assert!(matches!(
        t.stage,
        Stage::Finished { outcome: Outcome::InvocationFailed(InvocationFailure::NonZeroExit) }
    ));
    assert!(matches!(
        conclude(false, REPORT.to_string()),
        Outcome::InvocationFailed(InvocationFailure::NonZeroExit)
    ));
    assert!(matches!(
        conclude(false, String::new()),
        Outcome::InvocationFailed(InvocationFailure::NonZeroExit)
    ));
}

#[test]
fn conclude_reads_the_report_after_success() {
    assert!(matches!(conclude(true, REPORT.to_string()), Outcome::Succeeded(json) if json == REPORT_JSON));
    assert!(matches!(conclude(true, String::new()), Outcome::Succeeded(json) if json == "[]"));
    match conclude(true, "R1\tHigh\n".to_string()) {
        Outcome::ParseFailed(ReportError::Malformed(e)) => {
            assert_eq!(e.line_index, 0);
            assert_eq!(e.line, "R1\tHigh");
        }
        _ => panic!("a malformed report was read"),
    }
}

#[test]
fn malformed_report_ends_with_parse_failed_after_removal() {
    let t = go(Stage::Invoking { artifact: name() }, exited(true, b"R1\tHigh\t10\tmsg1\noops\n"));
    assert!(matches!(&t.action, Action::Remove { name } if name == NAME));
    let t = go(t.stage, Event::Released);
    match t.stage {
        Stage::Finished { outcome: Outcome::ParseFailed(ReportError::Malformed(e)) } => {
            assert_eq!(e.line_index, 1);
            assert_eq!(e.line, "oops");
        }
        _ => panic!("a malformed report did not end with a parse failure"),
    }
}

#[test]
fn spawn_failure_and_timeout_remove_the_artifact() {
    let t = go(Stage::Invoking { artifact: name() }, Event::SpawnFailed);
    assert!(matches!(
        &t.stage,
        Stage::Releasing { outcome: Outcome::InvocationFailed(InvocationFailure::Spawn), .. }
    ));
    assert!(matches!(&t.action, Action::Remove { name } if name == NAME));
    let t = go(Stage::Invoking { artifact: name() }, Event::TimedOut);
    assert!(matches!(
        &t.stage,
        Stage::Releasing { outcome: Outcome::InvocationFailed(InvocationFailure::Timeout), .. }
    ));
    assert!(matches!(&t.action, Action::Remove { name } if name == NAME));
    let t = go(t.stage, Event::Released);
    assert!(matches!(
        t.stage,
        Stage::Finished { outcome: Outcome::InvocationFailed(InvocationFailure::Timeout) }
    ));
}

#[test]
fn output_is_decoded_permissively() {
    let t = go(Stage::Invoking { artifact: name() }, exited(true, b"R\xff\tS\t1\tm\n"));
    match &t.stage {
        Stage::Releasing { outcome: Outcome::Succeeded(json), .. } => assert_eq!(
            json,
            "[{\"rule_name\":\"R\u{fffd}\",\"severity\":\"S\",\"line\":\"1\",\"message\":\"m\"}]"
        ),
        _ => panic!("output that is not UTF-8 was fatal"),
    }
}

#[test]
fn taken_name_is_never_overwritten() {
    let t = go(Stage::Storing { artifact: name() }, Event::NameTaken);
    match &t.stage {
        Stage::Storing { artifact } => assert_eq!(artifact.as_str(), OTHER_NAME),
        _ => panic!("a taken name ended the upload"),
    }
    assert!(matches!(&t.action, Action::Store { name } if name == OTHER_NAME));
}

#[test]
fn failed_creation_ends_without_removal() {
    let t = go(Stage::Storing { artifact: name() }, Event::CreateFailed);
    assert!(matches!(t.stage, Stage::Finished { outcome: Outcome::StorageFailed }));
    assert!(matches!(t.action, Action::Finish));
}

#[test]
fn failed_write_removes_the_partial_artifact() {
    let t = go(Stage::Storing { artifact: name() }, Event::WriteFailed);
    assert!(matches!(&t.stage, Stage::Releasing { outcome: Outcome::StorageFailed, .. }));
    assert!(matches!(&t.action, Action::Remove { name } if name == NAME));
    let t = go(t.stage, Event::Released);
    assert!(matches!(t.stage, Stage::Finished { outcome: Outcome::StorageFailed }));
}

#[test]
fn finished_upload_waits_for_nothing() {
    for event in every_event() {
        let stage = Stage::Finished { outcome: Outcome::NoFileProvided };
        assert!(step_with(stage, event, other()).is_none());
    }
}

#[test]
fn each_stage_answers_only_its_own_events() {
    let answered = |stage: fn() -> Stage| -> Vec<bool> {
        every_event()
            .into_iter()
            .map(|event| step_with(stage(), event, other()).is_some())
            .collect()
    };
    let t = true;
    let f = false;
    assert_eq!(
        answered(|| Stage::AwaitingPart { seen_part: false }),
        vec![t, t, t, f, f, f, f, f, f, f, f, f]
    );
    assert_eq!(
        answered(|| Stage::Storing { artifact: name() }),
        vec![f, f, f, t, t, t, t, f, f, f, f, f]
    );
    assert_eq!(
        answered(|| Stage::Invoking { artifact: name() }),
        vec![f, f, f, f, f, f, f, t, t, t, t, f]
    );
    assert_eq!(
        answered(|| Stage::Releasing { artifact: name(), outcome: Outcome::StorageFailed }),
        vec![f, f, f, f, f, f, f, f, f, f, f, t]
    );
}

#[test]
fn step_draws_a_well_formed_name() {
    let t = step(start().stage, part("upload.txt")).unwrap();
    let stored = match &t.action {
        Action::Store { name } => name.clone(),
        _ => panic!("the valid part is not being stored"),
    };
    assert_eq!(stored.len(), 24);
    assert!(stored.ends_with(".ps1"));
    assert!(stored[..20].chars().all(|c| c.is_ascii_alphanumeric()));
    match &t.stage {
        Stage::Storing { artifact } => assert_eq!(artifact.as_str(), stored),
        _ => panic!("the valid part is not being stored"),
    }
    let t = step(t.stage, Event::NameTaken).unwrap();
    assert!(matches!(&t.action, Action::Store { name } if name.len() == 24));
}

#[test]
fn step_without_a_name_to_draw_agrees_with_step_with() {
    let t = step(start().stage, part("malware.exe")).unwrap();
    assert!(matches!(t.stage, Stage::AwaitingPart { seen_part: true }));
    assert!(matches!(t.action, Action::NextPart));
    let t = step(Stage::Storing { artifact: name() }, Event::Stored).unwrap();
    assert!(matches!(&t.stage, Stage::Invoking { artifact } if artifact.as_str() == NAME));
    assert!(step(Stage::Finished { outcome: Outcome::StorageFailed }, Event::Released).is_none());
}

#[test]
fn output_that_is_utf8_is_read_as_it_is() {
    let report = "R\u{e9}gle\tAvertissement\t\u{4e00}\tm\u{1f600}\n";
    let t = go(Stage::Invoking { artifact: name() }, exited(true, report.as_bytes()));
    match &t.stage {
        Stage::Releasing { outcome: Outcome::Succeeded(json), .. } => assert_eq!(
            json,
            "[{\"rule_name\":\"R\u{e9}gle\",\"severity\":\"Avertissement\",\"line\":\"\u{4e00}\",\"message\":\"m\u{1f600}\"}]"
        ),
        _ => panic!("the report was not read"),
    }
}

#[test]
fn uploads_do_not_share_a_name() {
    let a = step(start().stage, part("a.txt")).unwrap();
    let b = step(start().stage, part("b.txt")).unwrap();
    match (&a.action, &b.action) {
        (Action::Store { name: first }, Action::Store { name: second }) => {
            assert_ne!(first, second)
        }
        _ => panic!("a valid part is not being stored"),
    }
}
