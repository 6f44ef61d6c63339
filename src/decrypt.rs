//! Judging what a run of the decryption tool came to.
use vstd::prelude::*;

verus! {

/// What the caller observed when it ran the decryption tool.
#[derive(Debug)]
pub enum ToolRun {
    /// The process could not be started.
    LaunchFailed { reason: String },
    /// The process ran to its end.
    Exited { success: bool, stderr: String },
}

/// Why a decryption failed.
#[derive(Debug)]
pub enum DecryptError {
    /// The tool could not be started.
    Launch { reason: String },
    /// The tool exited with a failure status; its standard error.
    Status { stderr: String },
    /// The tool succeeded but the decrypted file is not there.
    NoOutput,
}

/// The verdict on a run of the tool, given whether the output file exists
/// afterwards: success needs both a successful exit and the file.
pub open spec fn decryption_verdict(run: ToolRun, output_exists: bool) -> Result<(), DecryptError> {
    match run {
        ToolRun::LaunchFailed { reason } => Err(DecryptError::Launch { reason }),
        ToolRun::Exited { success, stderr } => {
            if !success {
                Err(DecryptError::Status { stderr })
            } else if !output_exists {
                Err(DecryptError::NoOutput)
            } else {
                Ok(())
            }
        },
    }
}

/// The explanation of a decryption failure; `output` is the file the tool
/// was asked to write.
pub open spec fn decrypt_error_text(e: DecryptError, output: Seq<char>) -> Seq<char> {
    match e {
        DecryptError::Launch { reason } => "could not start the decryption tool: "@ + reason@,
        DecryptError::Status { stderr } => "the decryption tool failed: "@ + stderr@,
        DecryptError::NoOutput => "decrypted file not found: "@ + output,
    }
}

/// Judges a run of the decryption tool.
pub fn judge_decryption(run: ToolRun, output_exists: bool) -> (r: Result<(), DecryptError>)
    ensures
        r == decryption_verdict(run, output_exists),
{
    match run {
        ToolRun::LaunchFailed { reason } => Err(DecryptError::Launch { reason }),
        ToolRun::Exited { success, stderr } => {
            if !success {
                Err(DecryptError::Status { stderr })
            } else if !output_exists {
                Err(DecryptError::NoOutput)
            } else {
                Ok(())
            }
        },
    }
}

impl DecryptError {
    /// The explanation of this failure; `output` is the file the tool was
    /// asked to write.
    pub fn explain(&self, output: &str) -> (r: String)
        ensures
            r@ == decrypt_error_text(*self, output@),
    {
        match self {
            DecryptError::Launch { reason } => {
                let mut r = String::from_str("could not start the decryption tool: ");
                r.append(reason.as_str());
                r
            },
            DecryptError::Status { stderr } => {
                let mut r = String::from_str("the decryption tool failed: ");
                r.append(stderr.as_str());
                r
            },
            DecryptError::NoOutput => {
                let mut r = String::from_str("decrypted file not found: ");
                r.append(output);
                r
            },
        }
    }
}

} // verus!
