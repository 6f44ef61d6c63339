use log_unpack::command::{
    command_outcome, folder_opener, launch_failure, open_failure, parse_command, split_words,
    HostOs,
};
use log_unpack::decrypt::{judge_decryption, DecryptError, ToolRun};
use log_unpack::error::{ErrorKind, RunError};
use log_unpack::unpack::{judge_direct, ExtractOutcome, UnpackReport};

#[test]
fn direct_unpack_with_entries_is_unpacked() {
    let r = judge_direct(&UnpackReport::Ran { error: None, entries: 3 });
    assert_eq!(r, Ok(ExtractOutcome::Unpacked));
}

#[test]
fn direct_unpack_leaving_nothing_is_not_an_archive() {
    let r = judge_direct(&UnpackReport::Ran { error: None, entries: 0 });
    assert_eq!(r, Ok(ExtractOutcome::NotAnArchive));
    let r = judge_direct(&UnpackReport::Ran { error: Some("bad gzip".to_string()), entries: 2 });
    assert_eq!(r, Ok(ExtractOutcome::NotAnArchive));
}

#[test]
fn direct_unpack_dir_failure_is_an_error() {
    let r = judge_direct(&UnpackReport::DirFailed { reason: "denied".to_string() });
    assert_eq!(r, Err("denied".to_string()));
}

#[test]
fn decryption_needs_exit_and_output() {
    let ok = ToolRun::Exited { success: true, stderr: String::new() };
    assert!(judge_decryption(ok, true).is_ok());
    let ok = ToolRun::Exited { success: true, stderr: String::new() };
    assert!(matches!(judge_decryption(ok, false), Err(DecryptError::NoOutput)));
    let bad = ToolRun::Exited { success: false, stderr: "bad key".to_string() };
    match judge_decryption(bad, true) {
        Err(DecryptError::Status { stderr }) => assert_eq!(stderr, "bad key"),
        other => panic!("unexpected {:?}", other),
    }
    let gone = ToolRun::LaunchFailed { reason: "no such file".to_string() };
    match judge_decryption(gone, true) {
        Err(DecryptError::Launch { reason }) => assert_eq!(reason, "no such file"),
        other => panic!("unexpected {:?}", other),
    }
}

#[test]
fn decrypt_errors_explain_themselves() {
    assert_eq!(
        DecryptError::NoOutput.explain("/d/x_decrypted.tar.gz"),
        "decrypted file not found: /d/x_decrypted.tar.gz"
    );
    let e = DecryptError::Status { stderr: "bad key".to_string() };
    assert_eq!(e.explain("o"), "the decryption tool failed: bad key");
    let e = DecryptError::Launch { reason: "denied".to_string() };
    assert_eq!(e.explain("o"), "could not start the decryption tool: denied");
}

#[test]
fn run_error_message_has_label_and_detail() {
    let e = RunError { kind: ErrorKind::SourceMissing, detail: "/no/such/file.dat".to_string() };
    assert_eq!(e.message(), "source file not found: /no/such/file.dat");
    let e = RunError { kind: ErrorKind::CleanupFailed, detail: "busy".to_string() };
    assert_eq!(e.message(), "could not remove the temporary file: busy");
}

#[test]
fn command_split_at_white_space() {
    let c = parse_command("  ls   -la\t/tmp \n").unwrap();
    assert_eq!(c.program, "ls");
    assert_eq!(c.args, vec!["-la".to_string(), "/tmp".to_string()]);
}

#[test]
fn command_split_at_unicode_space() {
    assert_eq!(split_words("a\u{3000}b\u{a0}c"), vec!["a", "b", "c"]);
    assert!(split_words("").is_empty());
}

#[test]
fn empty_command_refused() {
    assert_eq!(parse_command("   ").unwrap_err(), "命令不能为空");
    assert_eq!(parse_command("").unwrap_err(), "命令不能为空");
}

#[test]
fn command_outcomes_are_labelled() {
    assert_eq!(command_outcome(true, "out", "err"), Ok("执行成功:\nout".to_string()));
    assert_eq!(command_outcome(false, "out", "err"), Err("执行失败:\nerr".to_string()));
    assert_eq!(launch_failure("not found"), "命令执行错误: not found");
}

#[test]
fn folder_openers_per_platform() {
    assert_eq!(folder_opener(HostOs::Windows), Some("explorer".to_string()));
    assert_eq!(folder_opener(HostOs::MacOs), Some("open".to_string()));
    assert_eq!(folder_opener(HostOs::Linux), Some("xdg-open".to_string()));
    assert_eq!(folder_opener(HostOs::Other), None);
    assert_eq!(open_failure(HostOs::MacOs, "e"), "打开Mac文件夹失败: e");
}
