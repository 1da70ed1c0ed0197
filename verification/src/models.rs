//! The records that the service keeps: uploaded documents and the jobs
//! that turn uploads into documents.

use vstd::prelude::*;

verus! {

/// A converted document.
#[derive(Clone, Debug)]
pub struct Document {
    pub id: i32,
    pub tei: String,
}

/// A document that is about to be stored; the database gives it its id.
#[derive(Clone, Copy, Debug)]
pub struct NewDocument<'a> {
    pub tei: &'a str,
}

/// A conversion job for one uploaded file, known by the file's digest.
/// `document_id` is set once the job has produced its document.
#[derive(Clone, Debug)]
pub struct Job {
    pub id: i32,
    pub sha: String,
    pub document_id: Option<i32>,
}

/// A job that is about to be stored; the database gives it its id.
#[derive(Clone, Copy, Debug)]
pub struct NewJob<'a> {
    pub sha: &'a str,
}

} // verus!
