//! Audit records: one per admission decision, appended to a file by the sink.

use vstd::prelude::*;

use std::path::PathBuf;

verus! {

/// The destination of the audit records.
#[derive(Debug)]
pub struct AuditLogger {
    path: PathBuf,
}

/// One audit record. `timestamp` is left empty by the pipeline and filled in by
/// the sink when the record is written.
#[derive(Debug, Clone)]
pub struct AuditEvent {
    pub request_id: String,
    pub method: String,
    pub allowed: bool,
    pub reason: String,
    pub origin: Option<String>,
    pub upstream_status: Option<u16>,
    pub timestamp: String,
}

impl AuditLogger {
    /// The file the records go to.
    pub closed spec fn target(&self) -> PathBuf {
        self.path
    }

    /// A sink that appends to the file at `path`.
    pub fn new(path: PathBuf) -> (r: AuditLogger)
        ensures
            r.target() == path,
    {
        AuditLogger { path }
    }

    /// The file the records go to.
    pub fn path(&self) -> (r: &PathBuf)
        ensures
            *r == self.target(),
    {
        &self.path
    }
}

} // verus!
