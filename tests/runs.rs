use log_unpack::decrypt::ToolRun;
use log_unpack::error::ErrorKind;
use log_unpack::locate::tool_candidates;
use log_unpack::pipeline::{Action, Event, Extraction, Stage};
use log_unpack::unpack::UnpackReport;

fn start(source: &str, out: Option<&str>) -> (Extraction, Action) {
    Extraction::new(source.to_string(), out.map(|s| s.to_string()), tool_candidates("/opt/app"))
}

fn feed(run: &mut Extraction, e: Event) -> Action {
    assert!(run.accepts(&e), "event {:?} not expected at {:?}", e, run.stage);
    run.step(e)
}

fn finished_ok(a: &Action) -> String {
    match a {
        Action::Finish { result: Ok(m) } => m.clone(),
        other => panic!("expected success, got {:?}", other),
    }
}

fn finished_err(a: &Action) -> (ErrorKind, String) {
    match a {
        Action::Finish { result: Err(e) } => (e.kind, e.detail.clone()),
        other => panic!("expected failure, got {:?}", other),
    }
}

fn fallback_events(run: &mut Extraction) -> Vec<String> {
    let mut seen = Vec::new();
    let a = feed(run, Event::Exists { found: true });
    seen.push(format!("{:?}", a));
    let a = feed(
        run,
        Event::Unpacked { report: UnpackReport::Ran { error: Some("invalid gzip header".to_string()), entries: 0 } },
    );
    seen.push(format!("{:?}", a));
    let a = feed(run, Event::Probed { present: vec![true, false] });
    seen.push(format!("{:?}", a));
    let a = feed(
        run,
        Event::ToolFinished { run: ToolRun::Exited { success: true, stderr: String::new() }, output_exists: true },
    );
    seen.push(format!("{:?}", a));
    let a = feed(run, Event::Exists { found: true });
    seen.push(format!("{:?}", a));
    let a = feed(run, Event::Unpacked { report: UnpackReport::Ran { error: None, entries: 1 } });
    seen.push(format!("{:?}", a));
    let a = feed(run, Event::Removed { result: Ok(()) });
    seen.push(format!("{:?}", a));
    seen
}

#[test]
fn direct_success_scenario() {
    let (mut run, a) = start("report.tar.gz", None);
    assert!(matches!(&a, Action::CheckExists { path } if path == "report.tar.gz"));
    let a = feed(&mut run, Event::Exists { found: true });
    match &a {
        Action::Unpack { archive, target } => {
            assert_eq!(archive, "report.tar.gz");
            assert_eq!(target, "report_logs");
        }
        other => panic!("unexpected {:?}", other),
    }
    let a = feed(&mut run, Event::Unpacked { report: UnpackReport::Ran { error: None, entries: 1 } });
    let m = finished_ok(&a);
    assert!(m.contains("report_logs"));
    assert_eq!(m, "extracted report.tar.gz\nlogs are in report_logs");
    assert_eq!(run.stage, Stage::Succeeded);
    assert!(run.is_finished());
}

#[test]
fn valid_archive_never_probes_for_tool() {
    let (mut run, _) = start("/d/plain.tar.gz", Some("/out"));
    let a = feed(&mut run, Event::Exists { found: true });
    assert!(!matches!(a, Action::Probe { .. }));
    let a = feed(&mut run, Event::Unpacked { report: UnpackReport::Ran { error: None, entries: 5 } });
    assert_eq!(finished_ok(&a), "extracted /d/plain.tar.gz\nlogs are in /out");
    assert!(!run.accepts(&Event::Probed { present: vec![true, true] }));
}

#[test]
fn missing_source_scenario() {
    let (mut run, a) = start("/no/such/file.dat", None);
    assert!(matches!(&a, Action::CheckExists { path } if path == "/no/such/file.dat"));
    let a = feed(&mut run, Event::Exists { found: false });
    let (kind, detail) = finished_err(&a);
    assert_eq!(kind, ErrorKind::SourceMissing);
    assert_eq!(detail, "/no/such/file.dat");
    assert_eq!(run.stage, Stage::Failed(ErrorKind::SourceMissing));
}

#[test]
fn fallback_success_scenario() {
    let (mut run, _) = start("/d/cipher.dat", None);
    let a = feed(&mut run, Event::Exists { found: true });
    assert!(matches!(&a, Action::Unpack { archive, target } if archive == "/d/cipher.dat" && target == "/d/cipher_logs"));
    let a = feed(&mut run, Event::Unpacked { report: UnpackReport::Ran { error: Some("invalid gzip header".to_string()), entries: 0 } });
    match &a {
        Action::Probe { paths } => assert_eq!(paths, &vec!["/opt/app/bin/logdecrypt".to_string(), "/opt/app/logdecrypt".to_string()]),
        other => panic!("unexpected {:?}", other),
    }
    let a = feed(&mut run, Event::Probed { present: vec![false, true] });
    match &a {
        Action::Decrypt { tool, input, output } => {
            assert_eq!(tool, "/opt/app/logdecrypt");
            assert_eq!(input, "/d/cipher.dat");
            assert_eq!(output, "/d/cipher_decrypted.tar.gz");
        }
        other => panic!("unexpected {:?}", other),
    }
    let a = feed(&mut run, Event::ToolFinished { run: ToolRun::Exited { success: true, stderr: String::new() }, output_exists: true });
    assert!(matches!(&a, Action::CheckExists { path } if path == "/d/cipher_decrypted.tar.gz"));
    let a = feed(&mut run, Event::Exists { found: true });
    assert!(matches!(&a, Action::Unpack { archive, target } if archive == "/d/cipher_decrypted.tar.gz" && target == "/d/cipher_logs"));
    let a = feed(&mut run, Event::Unpacked { report: UnpackReport::Ran { error: None, entries: 1 } });
    assert!(matches!(&a, Action::Remove { path } if path == "/d/cipher_decrypted.tar.gz"));
    let a = feed(&mut run, Event::Removed { result: Ok(()) });
    assert_eq!(finished_ok(&a), "extracted /d/cipher.dat\nlogs are in /d/cipher_logs");
}

#[test]
fn tool_missing_scenario() {
    let (mut run, _) = start("cipher.dat", None);
    feed(&mut run, Event::Exists { found: true });
    feed(&mut run, Event::Unpacked { report: UnpackReport::Ran { error: Some("not gzip".to_string()), entries: 0 } });
    let a = feed(&mut run, Event::Probed { present: vec![false, false] });
    let (kind, detail) = finished_err(&a);
    assert_eq!(kind, ErrorKind::ToolUnavailable);
    assert!(detail.contains("/opt/app/bin/logdecrypt"));
    assert!(detail.contains("/opt/app/logdecrypt"));
}

#[test]
fn empty_input_with_failing_tool_fails_decryption() {
    let (mut run, _) = start("empty.dat", None);
    feed(&mut run, Event::Exists { found: true });
    feed(&mut run, Event::Unpacked { report: UnpackReport::Ran { error: None, entries: 0 } });
    feed(&mut run, Event::Probed { present: vec![true, true] });
    let a = feed(&mut run, Event::ToolFinished { run: ToolRun::Exited { success: false, stderr: "bad header".to_string() }, output_exists: false });
    let (kind, detail) = finished_err(&a);
    assert_eq!(kind, ErrorKind::DecryptionFailed);
    assert_eq!(detail, "the decryption tool failed: bad header");
}

#[test]
fn tool_without_output_fails_decryption() {
    let (mut run, _) = start("x.dat", None);
    feed(&mut run, Event::Exists { found: true });
    feed(&mut run, Event::Unpacked { report: UnpackReport::Ran { error: Some("e".to_string()), entries: 0 } });
    feed(&mut run, Event::Probed { present: vec![true, false] });
    let a = feed(&mut run, Event::ToolFinished { run: ToolRun::Exited { success: true, stderr: String::new() }, output_exists: false });
    let (kind, detail) = finished_err(&a);
    assert_eq!(kind, ErrorKind::DecryptionFailed);
    assert_eq!(detail, "decrypted file not found: x_decrypted.tar.gz");
}

#[test]
fn tool_that_cannot_start_fails_decryption() {
    let (mut run, _) = start("x.dat", None);
    feed(&mut run, Event::Exists { found: true });
    feed(&mut run, Event::Unpacked { report: UnpackReport::Ran { error: Some("e".to_string()), entries: 0 } });
    feed(&mut run, Event::Probed { present: vec![true, false] });
    let a = feed(&mut run, Event::ToolFinished { run: ToolRun::LaunchFailed { reason: "denied".to_string() }, output_exists: false });
    assert_eq!(finished_err(&a).0, ErrorKind::DecryptionFailed);
}

#[test]
fn vanished_artifact_fails_decryption() {
    let (mut run, _) = start("x.dat", None);
    feed(&mut run, Event::Exists { found: true });
    feed(&mut run, Event::Unpacked { report: UnpackReport::Ran { error: Some("e".to_string()), entries: 0 } });
    feed(&mut run, Event::Probed { present: vec![true, false] });
    feed(&mut run, Event::ToolFinished { run: ToolRun::Exited { success: true, stderr: String::new() }, output_exists: true });
    let a = feed(&mut run, Event::Exists { found: false });
    assert_eq!(finished_err(&a), (ErrorKind::DecryptionFailed, "decrypted file not found: x_decrypted.tar.gz".to_string()));
}

#[test]
fn bad_decrypted_archive_fails_extraction() {
    let (mut run, _) = start("x.dat", None);
    feed(&mut run, Event::Exists { found: true });
    feed(&mut run, Event::Unpacked { report: UnpackReport::Ran { error: Some("e".to_string()), entries: 0 } });
    feed(&mut run, Event::Probed { present: vec![true, false] });
    feed(&mut run, Event::ToolFinished { run: ToolRun::Exited { success: true, stderr: String::new() }, output_exists: true });
    feed(&mut run, Event::Exists { found: true });
    let a = feed(&mut run, Event::Unpacked { report: UnpackReport::Ran { error: Some("truncated".to_string()), entries: 0 } });
    assert_eq!(finished_err(&a), (ErrorKind::ExtractionFailed, "truncated".to_string()));
}

#[test]
fn failed_removal_is_reported() {
    let (mut run, _) = start("x.dat", None);
    let _ = fallback_events_until_cleanup(&mut run);
    let a = feed(&mut run, Event::Removed { result: Err("busy".to_string()) });
    assert_eq!(finished_err(&a), (ErrorKind::CleanupFailed, "busy".to_string()));
}

fn fallback_events_until_cleanup(run: &mut Extraction) -> Action {
    feed(run, Event::Exists { found: true });
    feed(run, Event::Unpacked { report: UnpackReport::Ran { error: Some("e".to_string()), entries: 0 } });
    feed(run, Event::Probed { present: vec![true, false] });
    feed(run, Event::ToolFinished { run: ToolRun::Exited { success: true, stderr: String::new() }, output_exists: true });
    feed(run, Event::Exists { found: true });
    feed(run, Event::Unpacked { report: UnpackReport::Ran { error: None, entries: 1 } })
}

#[test]
fn directory_creation_failure_is_reported() {
    let (mut run, _) = start("x.dat", None);
    feed(&mut run, Event::Exists { found: true });
    let a = feed(&mut run, Event::Unpacked { report: UnpackReport::DirFailed { reason: "read-only".to_string() } });
    assert_eq!(finished_err(&a), (ErrorKind::DirectoryCreationFailed, "read-only".to_string()));
}

#[test]
fn fallback_success_removes_artifact_before_finishing() {
    let (mut run, _) = start("/d/cipher.dat", None);
    let a = fallback_events_until_cleanup(&mut run);
    assert!(matches!(&a, Action::Remove { path } if path == "/d/cipher_decrypted.tar.gz"));
    assert_eq!(run.stage, Stage::Cleanup);
    let a = feed(&mut run, Event::Removed { result: Ok(()) });
    assert!(finished_ok(&a).contains("/d/cipher_logs"));
}

#[test]
fn repeated_runs_issue_the_same_actions() {
    let (mut first, a1) = start("/d/cipher.dat", None);
    let (mut second, a2) = start("/d/cipher.dat", None);
    assert_eq!(format!("{:?}", a1), format!("{:?}", a2));
    assert_eq!(fallback_events(&mut first), fallback_events(&mut second));
    assert_eq!(first.stage, second.stage);
}

#[test]
fn out_of_turn_events_are_not_accepted() {
    let (run, _) = start("x.dat", None);
    assert!(run.accepts(&Event::Exists { found: true }));
    assert!(!run.accepts(&Event::Removed { result: Ok(()) }));
    assert!(!run.accepts(&Event::Probed { present: vec![true] }));
}
