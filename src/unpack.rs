//! Judging what an attempt to unpack a gzip-compressed tar archive came to.
use vstd::prelude::*;

verus! {

/// What the caller observed when it unpacked an archive into a directory.
#[derive(Debug)]
pub enum UnpackReport {
    /// The target directory could not be created.
    DirFailed { reason: String },
    /// The directory exists and the unpack ran: `error` holds its failure,
    /// if any (an archive that cannot be opened counts as one), and
    /// `entries` counts what the directory holds afterwards.
    Ran { error: Option<String>, entries: usize },
}

/// The verdict on a first, direct attempt.
#[derive(Clone, Copy, PartialEq, Eq, Debug, Structural)]
pub enum ExtractOutcome {
    /// The archive was unpacked and produced files.
    Unpacked,
    /// The input is not a gzip-compressed tar archive as it stands: the
    /// signal to try decrypting it.
    NotAnArchive,
}

/// A direct attempt succeeds only when the unpack raised no error and left
/// at least one entry behind.
pub open spec fn direct_unpacked(report: UnpackReport) -> bool {
    report matches UnpackReport::Ran { error: None, entries } && entries > 0
}

/// Judges a direct attempt. Only a directory that could not be created is
/// an error; every unpack failure, and an unpack that left nothing behind,
/// means the input is not an archive as it stands.
pub fn judge_direct(report: &UnpackReport) -> (r: Result<ExtractOutcome, String>)
    ensures
        match report {
            UnpackReport::DirFailed { reason } => r == Err::<ExtractOutcome, String>(*reason),
            UnpackReport::Ran { .. } => r == Ok::<ExtractOutcome, String>(
                if direct_unpacked(*report) {
                    ExtractOutcome::Unpacked
                } else {
                    ExtractOutcome::NotAnArchive
                },
            ),
        },
{
    match report {
        UnpackReport::DirFailed { reason } => Err(reason.clone()),
        UnpackReport::Ran { error, entries } => {
            if error.is_none() && *entries > 0 {
                Ok(ExtractOutcome::Unpacked)
            } else {
                Ok(ExtractOutcome::NotAnArchive)
            }
        },
    }
}

} // verus!
