//! The ways an extraction run can fail.
use vstd::prelude::*;

verus! {

/// Which step of a run failed.
#[derive(Clone, Copy, PartialEq, Eq, Debug, Structural)]
pub enum ErrorKind {
    /// The source file does not exist.
    SourceMissing,
    /// The decryption tool is at none of the probed locations.
    ToolUnavailable,
    /// The tool could not be started, exited with an error, or left no
    /// decrypted file behind.
    DecryptionFailed,
    /// The decrypted archive could not be unpacked.
    ExtractionFailed,
    /// The temporary decrypted archive could not be removed.
    CleanupFailed,
    /// The extraction directory could not be created.
    DirectoryCreationFailed,
}

/// A failed run: what failed, and the text that explains it.
#[derive(Debug)]
pub struct RunError {
    pub kind: ErrorKind,
    pub detail: String,
}

/// The words that open the message of each kind of failure.
pub open spec fn kind_label(kind: ErrorKind) -> Seq<char> {
    match kind {
        ErrorKind::SourceMissing => "source file not found"@,
        ErrorKind::ToolUnavailable => "decryption tool unavailable"@,
        ErrorKind::DecryptionFailed => "decryption failed"@,
        ErrorKind::ExtractionFailed => "extraction failed"@,
        ErrorKind::CleanupFailed => "could not remove the temporary file"@,
        ErrorKind::DirectoryCreationFailed => "could not create the extraction directory"@,
    }
}

/// The full message of a failure: its label, then its detail.
pub open spec fn error_text(kind: ErrorKind, detail: Seq<char>) -> Seq<char> {
    kind_label(kind) + ": "@ + detail
}

impl RunError {
    /// The message shown to the caller.
    pub fn message(&self) -> (r: String)
        ensures
            r@ == error_text(self.kind, self.detail@),
    {
        let mut r = match self.kind {
            ErrorKind::SourceMissing => String::from_str("source file not found"),
            ErrorKind::ToolUnavailable => String::from_str("decryption tool unavailable"),
            ErrorKind::DecryptionFailed => String::from_str("decryption failed"),
            ErrorKind::ExtractionFailed => String::from_str("extraction failed"),
            ErrorKind::CleanupFailed => String::from_str("could not remove the temporary file"),
            ErrorKind::DirectoryCreationFailed => String::from_str(
                "could not create the extraction directory",
            ),
        };
        r.append(": ");
        r.append(self.detail.as_str());
        r
    }
}

} // verus!
