//! What the fax service answers.
use vstd::prelude::*;
use crate::general::report::Report;

verus! {

/// The answer to a submitted job (status 200 or 201): its job id.
#[derive(Debug, Clone)]
pub struct FaxJobResponse {
    pub job_id: String,
}

#[derive(Debug, Clone)]
pub struct BulkGet {
    pub reports: Vec<Report>,
}

/// Whether the report of a job was deleted, and if not, why.
#[derive(Debug, Clone)]
pub struct DeletedReport {
    pub job_id: String,
    pub deleted: bool,
    pub readon: Option<String>,
}

#[derive(Debug, Clone)]
pub struct BulkDelete {
    pub reports: Vec<DeletedReport>,
}

} // verus!
