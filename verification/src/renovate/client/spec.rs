//! The documents of the Renovate API.
use vstd::prelude::*;

verus! {

/// How a job ended.
#[derive(Debug, PartialEq, Eq)]
pub enum JobResult {
    Done,
    Other(String),
}

impl JobResult {
    /// The result for its text: `done` is a finished job, anything else is
    /// kept as it is.
    pub fn from_text(text: &str) -> (r: JobResult)
        ensures
            (r is Done) == (text@ == "done"@),
            r matches JobResult::Other(s) ==> s@ == text@,
    {
        if crate::text::str_eq(text, "done") {
            JobResult::Done
        } else {
            JobResult::Other(text.to_owned())
        }
    }
}

/// A job that Renovate ran on a repository.
#[derive(Debug)]
pub struct Job {
    /// When the job ended, as an RFC 3339 timestamp.
    pub ended: String,
    pub job_id: u64,
    pub result: JobResult,
}

/// The jobs of a repository, oldest first.
#[derive(Debug)]
pub struct JobsResponse {
    pub jobs: Vec<Job>,
}

} // verus!
