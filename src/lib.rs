//! Decision logic for turning a log archive, plain or encrypted, into a
//! directory of log files.
//!
//! The library holds every decision of the extraction pipeline: the paths it
//! derives, where it looks for the decryption tool, how it judges what the
//! tool and the unpacker report, and the order of the steps. The filesystem
//! and process work is done by the caller, who performs each requested
//! action and hands back what it observed.
pub mod paths;
pub mod locate;
pub mod error;
pub mod unpack;
pub mod decrypt;
pub mod pipeline;
pub mod runs;
pub mod command;
