//! Error taxonomy shared by the engines.

use vstd::prelude::*;

verus! {

/// Classifies everything that can abort a sync or install run.
#[derive(Clone, Copy, Debug, PartialEq, Eq, Structural)]
pub enum ErrorKind {
    /// Connection or timeout failure while talking to the remote server.
    Transport,
    /// Non-success HTTP response, or a response missing an expected header.
    ProtocolStatus,
    /// Missing directories, missing expected subfolders, or permission failures.
    FilesystemAccess,
    /// A manifest entry that does not have exactly four colon-delimited fields.
    MalformedManifestEntry,
}

impl ErrorKind {
    /// Human-readable description, for status reporting.
    pub fn describe(&self) -> (r: &'static str)
        ensures
            self is Transport ==> r@ == "transport error"@,
            self is ProtocolStatus ==> r@ == "protocol error"@,
            self is FilesystemAccess ==> r@ == "filesystem error"@,
            self is MalformedManifestEntry ==> r@ == "malformed manifest entry"@,
    {
        match self {
            ErrorKind::Transport => "transport error",
            ErrorKind::ProtocolStatus => "protocol error",
            ErrorKind::FilesystemAccess => "filesystem error",
            ErrorKind::MalformedManifestEntry => "malformed manifest entry",
        }
    }
}

} // verus!
