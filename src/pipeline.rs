//! The extraction run: a state machine that decides, step by step, what the
//! caller does next.
//!
//! A run first checks that the source exists and tries to unpack it as it
//! stands. When that yields nothing it looks for the decryption tool, runs
//! it, checks that the decrypted archive is there, unpacks it into the same
//! directory and removes it. The caller performs each [`Action`] and hands
//! back what it observed as an [`Event`]; a run ends with
//! [`Action::Finish`].
use vstd::prelude::*;
use crate::decrypt::{
    decrypt_error_text,
    decryption_verdict,
    judge_decryption,
    DecryptError,
    ToolRun,
};
use crate::error::{ErrorKind, RunError};
use crate::locate::{first_present, selection, select_tool, views};
use crate::paths::{artifact_of, decrypted_artifact_path, extract_dir_for, extract_dir_of};
use crate::unpack::{direct_unpacked, judge_direct, ExtractOutcome, UnpackReport};

verus! {

/// Where a run stands.
#[derive(Clone, Copy, PartialEq, Eq, Debug, Structural)]
pub enum Stage {
    /// Waiting to learn whether the source exists.
    CheckSource,
    /// Waiting for the direct unpack of the source.
    Direct,
    /// Waiting to learn which tool locations exist.
    Locate,
    /// Waiting for the decryption tool to finish.
    Decrypt,
    /// Waiting to learn whether the decrypted archive exists.
    ConfirmArtifact,
    /// Waiting for the unpack of the decrypted archive.
    UnpackDecrypted,
    /// Waiting for the removal of the decrypted archive.
    Cleanup,
    /// The logs are extracted.
    Succeeded,
    /// The run failed.
    Failed(ErrorKind),
}

/// What the caller is asked to do next.
#[derive(Debug)]
pub enum Action {
    /// Report whether `path` exists.
    CheckExists { path: String },
    /// Create `target` (with its parents), unpack the gzip-compressed tar
    /// archive `archive` into it, and report what happened.
    Unpack { archive: String, target: String },
    /// Report, for each of `paths`, whether it exists.
    Probe { paths: Vec<String> },
    /// Run `tool` with the two arguments `input` and `output`, then report
    /// how it ended and whether `output` exists.
    Decrypt { tool: String, input: String, output: String },
    /// Delete the file `path` and report the outcome.
    Remove { path: String },
    /// The run is over, with this result.
    Finish { result: Result<String, RunError> },
}

/// What the caller observed while performing an action.
#[derive(Debug)]
pub enum Event {
    /// Answer to [`Action::CheckExists`].
    Exists { found: bool },
    /// Answer to [`Action::Unpack`].
    Unpacked { report: UnpackReport },
    /// Answer to [`Action::Probe`]: one flag per path, in order.
    Probed { present: Vec<bool> },
    /// Answer to [`Action::Decrypt`].
    ToolFinished { run: ToolRun, output_exists: bool },
    /// Answer to [`Action::Remove`].
    Removed { result: Result<(), String> },
}

/// One extraction run.
#[derive(Debug)]
pub struct Extraction {
    /// The archive to extract.
    pub source: String,
    /// Where the logs go.
    pub extract_dir: String,
    /// Where the decrypted archive is written, when one is needed.
    pub artifact: String,
    /// The locations probed for the decryption tool, in order.
    pub candidates: Vec<String>,
    /// The tool chosen, once one is.
    pub tool: String,
    /// Where the run stands.
    pub stage: Stage,
}

/// The message of a successful run: the source and where its logs went.
pub open spec fn summary_text(source: Seq<char>, dir: Seq<char>) -> Seq<char> {
    "extracted "@ + source + "\nlogs are in "@ + dir
}

/// The stage that follows `st` on event `e`. A stage that expects another
/// kind of event, and a finished run, stay as they are.
pub open spec fn next_stage(st: Stage, e: Event) -> Stage {
    match (st, e) {
        (Stage::CheckSource, Event::Exists { found }) => {
            if found {
                Stage::Direct
            } else {
                Stage::Failed(ErrorKind::SourceMissing)
            }
        },
        (Stage::Direct, Event::Unpacked { report }) => {
            if report is DirFailed {
                Stage::Failed(ErrorKind::DirectoryCreationFailed)
            } else if direct_unpacked(report) {
                Stage::Succeeded
            } else {
                Stage::Locate
            }
        },
        (Stage::Locate, Event::Probed { present }) => {
            if first_present(present@) < present@.len() {
                Stage::Decrypt
            } else {
                Stage::Failed(ErrorKind::ToolUnavailable)
            }
        },
        (Stage::Decrypt, Event::ToolFinished { run, output_exists }) => {
            if decryption_verdict(run, output_exists) is Ok {
                Stage::ConfirmArtifact
            } else {
                Stage::Failed(ErrorKind::DecryptionFailed)
            }
        },
        (Stage::ConfirmArtifact, Event::Exists { found }) => {
            if found {
                Stage::UnpackDecrypted
            } else {
                Stage::Failed(ErrorKind::DecryptionFailed)
            }
        },
        (Stage::UnpackDecrypted, Event::Unpacked { report }) => {
            match report {
                UnpackReport::DirFailed { .. } => Stage::Failed(
                    ErrorKind::DirectoryCreationFailed,
                ),
                UnpackReport::Ran { error: Some(_), .. } => Stage::Failed(
                    ErrorKind::ExtractionFailed,
                ),
                UnpackReport::Ran { error: None, .. } => Stage::Cleanup,
            }
        },
        (Stage::Cleanup, Event::Removed { result }) => {
            if result is Ok {
                Stage::Succeeded
            } else {
                Stage::Failed(ErrorKind::CleanupFailed)
            }
        },
        _ => st,
    }
}

/// The flags of a [`Event::Probed`], empty for any other event.
pub open spec fn probed(e: Event) -> Seq<bool> {
    match e {
        Event::Probed { present } => present@,
        _ => Seq::empty(),
    }
}

/// The explanation carried by the failure that event `e` causes in run
/// `pre`.
pub open spec fn failure_detail(pre: Extraction, e: Event) -> Seq<char> {
    match e {
        Event::Exists { .. } => {
            if pre.stage is CheckSource {
                pre.source@
            } else {
                decrypt_error_text(DecryptError::NoOutput, pre.artifact@)
            }
        },
        Event::Unpacked { report } => match report {
            UnpackReport::DirFailed { reason } => reason@,
            UnpackReport::Ran { error: Some(m), .. } => m@,
            UnpackReport::Ran { error: None, .. } => Seq::empty(),
        },
        Event::Probed { .. } => selection(views(pre.candidates@), probed(e))->Err_0,
        Event::ToolFinished { run, output_exists } => match decryption_verdict(run, output_exists) {
            Err(d) => decrypt_error_text(d, pre.artifact@),
            Ok(_) => Seq::empty(),
        },
        Event::Removed { result } => match result {
            Err(m) => m@,
            Ok(_) => Seq::empty(),
        },
    }
}

/// The action that run `pre` asks for after event `e`.
pub open spec fn action_fits(pre: Extraction, e: Event, a: Action) -> bool {
    match next_stage(pre.stage, e) {
        Stage::Direct => a matches Action::Unpack { archive, target } && archive@ == pre.source@
            && target@ == pre.extract_dir@,
        Stage::Locate => a matches Action::Probe { paths } && views(paths@) == views(
            pre.candidates@,
        ),
        Stage::Decrypt => a matches Action::Decrypt { tool, input, output } && selection(
            views(pre.candidates@),
            probed(e),
        ) == Ok::<Seq<char>, Seq<char>>(tool@) && input@ == pre.source@ && output@
            == pre.artifact@,
        Stage::ConfirmArtifact => a matches Action::CheckExists { path } && path@
            == pre.artifact@,
        Stage::UnpackDecrypted => a matches Action::Unpack { archive, target } && archive@
            == pre.artifact@ && target@ == pre.extract_dir@,
        Stage::Cleanup => a matches Action::Remove { path } && path@ == pre.artifact@,
        Stage::Succeeded => a matches Action::Finish { result: Ok(m) } && m@ == summary_text(
            pre.source@,
            pre.extract_dir@,
        ),
        Stage::Failed(k) => a matches Action::Finish { result: Err(err) } && err.kind == k
            && err.detail@ == failure_detail(pre, e),
        Stage::CheckSource => false,
    }
}

/// The message of a successful run of `source` into `dir`.
pub fn summary_message(source: &str, dir: &str) -> (r: String)
    ensures
        r@ == summary_text(source@, dir@),
{
    let mut r = String::from_str("extracted ");
    r.append(source);
    r.append("\nlogs are in ");
    r.append(dir);
    r
}

impl Extraction {
    /// Whether the run waits for an event of the kind of `e`; for a probe,
    /// one flag per candidate location.
    pub open spec fn expects(&self, e: &Event) -> bool {
        match self.stage {
            Stage::CheckSource | Stage::ConfirmArtifact => *e is Exists,
            Stage::Direct | Stage::UnpackDecrypted => *e is Unpacked,
            Stage::Locate => *e matches Event::Probed { present } && present.len()
                == self.candidates.len(),
            Stage::Decrypt => *e is ToolFinished,
            Stage::Cleanup => *e is Removed,
            Stage::Succeeded | Stage::Failed(_) => false,
        }
    }

    /// Starts a run on `source`, extracting into `output_dir` when given
    /// and into `<dir>/<stem>_logs` otherwise, with the tool looked for at
    /// `candidates`. The first action checks that the source exists.
    pub fn new(source: String, output_dir: Option<String>, candidates: Vec<String>) -> (r: (
        Extraction,
        Action,
    ))
        ensures
            r.0.source == source,
            r.0.extract_dir@ == extract_dir_of(source@, output_dir),
            r.0.artifact@ == artifact_of(source@),
            r.0.candidates == candidates,
            r.0.stage == Stage::CheckSource,
            r.1 matches Action::CheckExists { path } && path@ == source@,
    {
        let extract_dir = extract_dir_for(source.as_str(), output_dir);
        let artifact = decrypted_artifact_path(source.as_str());
        let path = source.clone();
        let run = Extraction {
            source,
            extract_dir,
            artifact,
            candidates,
            tool: String::new(),
            stage: Stage::CheckSource,
        };
        (run, Action::CheckExists { path })
    }

    /// Whether the run waits for an event of the kind of `e`.
    pub fn accepts(&self, e: &Event) -> (r: bool)
        ensures
            r == self.expects(e),
    {
        match e {
            Event::Exists { .. } => self.stage == Stage::CheckSource || self.stage
                == Stage::ConfirmArtifact,
            Event::Unpacked { .. } => self.stage == Stage::Direct || self.stage
                == Stage::UnpackDecrypted,
            Event::Probed { present } => self.stage == Stage::Locate && present.len()
                == self.candidates.len(),
            Event::ToolFinished { .. } => self.stage == Stage::Decrypt,
            Event::Removed { .. } => self.stage == Stage::Cleanup,
        }
    }

    /// Whether the run is over.
    pub fn is_finished(&self) -> (r: bool)
        ensures
            r == (self.stage is Succeeded || self.stage is Failed),
    {
        match self.stage {
            Stage::Succeeded | Stage::Failed(_) => true,
            _ => false,
        }
    }

    fn fail(&mut self, kind: ErrorKind, detail: String) -> (a: Action)
        ensures
            final(self).stage == Stage::Failed(kind),
            final(self).source == old(self).source,
            final(self).extract_dir == old(self).extract_dir,
            final(self).artifact == old(self).artifact,
            final(self).candidates == old(self).candidates,
            final(self).tool == old(self).tool,
            a matches Action::Finish { result: Err(err) } && err.kind == kind && err.detail
                == detail,
    {
        self.stage = Stage::Failed(kind);
        Action::Finish { result: Err(RunError { kind, detail }) }
    }

    /// Advances the run on what the caller observed, and says what to do
    /// next.
    pub fn step(&mut self, e: Event) -> (a: Action)
        requires
            old(self).expects(&e),
        ensures
            final(self).stage == next_stage(old(self).stage, e),
            final(self).source == old(self).source,
            final(self).extract_dir == old(self).extract_dir,
            final(self).artifact == old(self).artifact,
            final(self).candidates == old(self).candidates,
            final(self).stage is Decrypt ==> selection(views(old(self).candidates@), probed(e))
                == Ok::<Seq<char>, Seq<char>>(final(self).tool@),
            !(final(self).stage is Decrypt) ==> final(self).tool == old(self).tool,
            action_fits(*old(self), e, a),
    {
        let ghost pre = *self;
        match e {
            Event::Exists { found } => {
                if self.stage == Stage::CheckSource {
                    if found {
                        self.stage = Stage::Direct;
                        Action::Unpack {
                            archive: self.source.clone(),
                            target: self.extract_dir.clone(),
                        }
                    } else {
                        let detail = self.source.clone();
                        self.fail(ErrorKind::SourceMissing, detail)
                    }
                } else if found {
                    self.stage = Stage::UnpackDecrypted;
                    Action::Unpack { archive: self.artifact.clone(), target: self.extract_dir.clone() }
                } else {
                    let detail = DecryptError::NoOutput.explain(self.artifact.as_str());
                    self.fail(ErrorKind::DecryptionFailed, detail)
                }
            },
            Event::Unpacked { report } => {
                if self.stage == Stage::Direct {
                    match judge_direct(&report) {
                        Err(reason) => self.fail(ErrorKind::DirectoryCreationFailed, reason),
                        Ok(ExtractOutcome::Unpacked) => {
                            self.stage = Stage::Succeeded;
                            let m = summary_message(self.source.as_str(), self.extract_dir.as_str());
                            Action::Finish { result: Ok(m) }
                        },
                        Ok(ExtractOutcome::NotAnArchive) => {
                            self.stage = Stage::Locate;
                            Action::Probe { paths: self.candidates.clone() }
                        },
                    }
                } else {
                    match report {
                        UnpackReport::DirFailed { reason } => self.fail(
                            ErrorKind::DirectoryCreationFailed,
                            reason,
                        ),
                        UnpackReport::Ran { error: Some(m), .. } => self.fail(
                            ErrorKind::ExtractionFailed,
                            m,
                        ),
                        UnpackReport::Ran { error: None, .. } => {
                            self.stage = Stage::Cleanup;
                            Action::Remove { path: self.artifact.clone() }
                        },
                    }
                }
            },
            Event::Probed { present } => {
                proof {
                    assert(views(self.candidates@).len() == present@.len());
                }
                match select_tool(&self.candidates, &present) {
                    Ok(tool) => {
                        self.stage = Stage::Decrypt;
                        self.tool = tool.clone();
                        Action::Decrypt {
                            tool,
                            input: self.source.clone(),
                            output: self.artifact.clone(),
                        }
                    },
                    Err(m) => self.fail(ErrorKind::ToolUnavailable, m),
                }
            },
            Event::ToolFinished { run, output_exists } => {
                match judge_decryption(run, output_exists) {
                    Ok(()) => {
                        self.stage = Stage::ConfirmArtifact;
                        Action::CheckExists { path: self.artifact.clone() }
                    },
                    Err(d) => {
                        let detail = d.explain(self.artifact.as_str());
                        self.fail(ErrorKind::DecryptionFailed, detail)
                    },
                }
            },
            Event::Removed { result } => {
                match result {
                    Ok(()) => {
                        self.stage = Stage::Succeeded;
                        let m = summary_message(self.source.as_str(), self.extract_dir.as_str());
                        Action::Finish { result: Ok(m) }
                    },
                    Err(m) => self.fail(ErrorKind::CleanupFailed, m),
                }
            },
        }
    }
}

} // verus!
