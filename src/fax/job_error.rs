//! The kinds of failure that the fax service signals by status code.
use vstd::prelude::*;
use vstd::string::StringExecFns;

verus! {

#[derive(Debug, Clone, Copy, PartialEq, Eq, Structural)]
pub enum JobError {
    BadRequest,
    NotFound,
    Conflict,
    InternalServerError,
    UnkownError,
    NotImplemented,
}

/// The kind a status code stands for: 400 a bad request, 404 no report,
/// 409 a duplicate job, 500 a failure on the server's side; any other code
/// is unknown.
pub open spec fn error_for_status(code: u16) -> JobError {
    if code == 400 {
        JobError::BadRequest
    } else if code == 404 {
        JobError::NotFound
    } else if code == 409 {
        JobError::Conflict
    } else if code == 500 {
        JobError::InternalServerError
    } else {
        JobError::UnkownError
    }
}

/// The description of each kind.
pub open spec fn error_text(e: JobError) -> Seq<char> {
    match e {
        JobError::BadRequest => "Client authorization is missing"@,
        JobError::NotFound => "No job report available for the given jobId; no recipient report available for the given jobId"@,
        JobError::Conflict => "Duplicate job"@,
        JobError::InternalServerError => "Cannot accept job, cannot query jobReport, cannot list jobs, cannot query recipient report, cannot apply transliteration in the send job"@,
        JobError::UnkownError => "Server signals that there was an unklnown problem, most likely with the backend adaptor"@,
        JobError::NotImplemented => "This Method is not available for this specified endpoint"@,
    }
}

impl JobError {
    /// The kind of failure that an HTTP status code stands for.
    pub fn match_status_code(code: u16) -> (r: JobError)
        ensures
            r == error_for_status(code),
    {
        if code == 400 {
            JobError::BadRequest
        } else if code == 404 {
            JobError::NotFound
        } else if code == 409 {
            JobError::Conflict
        } else if code == 500 {
            JobError::InternalServerError
        } else {
            JobError::UnkownError
        }
    }

    /// A sentence that describes the failure.
    pub fn message(&self) -> (r: String)
        ensures
            r@ == error_text(*self),
    {
        match self {
            JobError::BadRequest => String::from_str("Client authorization is missing"),
            JobError::NotFound => String::from_str("No job report available for the given jobId; no recipient report available for the given jobId"),
            JobError::Conflict => String::from_str("Duplicate job"),
            JobError::InternalServerError => String::from_str("Cannot accept job, cannot query jobReport, cannot list jobs, cannot query recipient report, cannot apply transliteration in the send job"),
            JobError::UnkownError => String::from_str("Server signals that there was an unklnown problem, most likely with the backend adaptor"),
            JobError::NotImplemented => String::from_str("This Method is not available for this specified endpoint"),
        }
    }
}

} // verus!
