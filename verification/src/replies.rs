//! What the service answers to each request, given what the database
//! holds: the decisions of its request handlers.

use crate::decimal::{decimal, format_id, parse_i32, parse_id};
use crate::models::{Document, Job};
use vstd::prelude::*;

verus! {

/// The HTTP statuses that the service answers with.
#[derive(Clone, Copy, Debug, PartialEq, Eq, Structural)]
pub enum Status {
    Success,
    Accepted,
    SeeOther,
    BadRequest,
    NotFound,
    Conflict,
}

pub open spec fn status_code(s: Status) -> u16 {
    match s {
        Status::Success => 200,
        Status::Accepted => 202,
        Status::SeeOther => 303,
        Status::BadRequest => 400,
        Status::NotFound => 404,
        Status::Conflict => 409,
    }
}

impl Status {
    /// The status's numeric code.
    pub fn code(&self) -> (res: u16)
        ensures
            res == status_code(*self),
    {
        match self {
            Status::Success => 200,
            Status::Accepted => 202,
            Status::SeeOther => 303,
            Status::BadRequest => 400,
            Status::NotFound => 404,
            Status::Conflict => 409,
        }
    }
}

/// The records that a reply carries, sent as JSON under a `data` key.
#[derive(Clone, Debug)]
pub enum Data {
    Job(Job),
    Jobs(Vec<Job>),
    Document(Document),
    Documents(Vec<Document>),
}

/// A reply: its status, its `Location` header if any, and its data if any.
#[derive(Clone, Debug)]
pub struct Reply {
    pub status: Status,
    pub location: Option<String>,
    pub data: Option<Data>,
}

/// A reply with a bare status.
pub open spec fn is_bare(r: Reply, status: Status) -> bool {
    r.status == status && r.location is None && r.data is None
}

/// A reply that points elsewhere.
pub open spec fn is_redirect(r: Reply, status: Status, location: Seq<char>) -> bool {
    &&& r.status == status
    &&& r.location matches Some(l) && l@ == location
    &&& r.data is None
}

pub open spec fn job_location(id: i32) -> Seq<char> {
    "/jobs/"@ + decimal(id as int)
}

pub open spec fn document_location(id: i32) -> Seq<char> {
    "/documents/"@ + decimal(id as int)
}

fn bare(status: Status) -> (res: Reply)
    ensures
        is_bare(res, status),
{
    Reply { status, location: None, data: None }
}

/// The link to a job: `/jobs/<id>`.
pub fn job_link(id: i32) -> (res: String)
    ensures
        res@ == job_location(id),
{
    let mut s = String::from_str("/jobs/");
    let digits = format_id(id);
    s.append(digits.as_str());
    s
}

/// The link to a document: `/documents/<id>`.
pub fn document_link(id: i32) -> (res: String)
    ensures
        res@ == document_location(id),
{
    let mut s = String::from_str("/documents/");
    let digits = format_id(id);
    s.append(digits.as_str());
    s
}

/// The id named by the `:id` segment of a route; text that is not an
/// `i32` names nothing, and is answered `404 Not Found`.
pub fn route_id(param: &str) -> (res: Result<i32, Reply>)
    ensures
        match parse_i32(param@) {
            Some(id) => res == Ok::<i32, Reply>(id),
            None => res matches Err(r) && is_bare(r, Status::NotFound),
        },
{
    match parse_id(param) {
        Some(id) => Ok(id),
        None => Err(bare(Status::NotFound)),
    }
}

/// The answer to `GET /jobs`: every job.
pub fn jobs_reply(jobs: Vec<Job>) -> (res: Reply)
    ensures
        res.status == Status::Success,
        res.location is None,
        res.data == Some(Data::Jobs(jobs)),
{
    Reply { status: Status::Success, location: None, data: Some(Data::Jobs(jobs)) }
}

/// The answer to `GET /documents`: every document.
pub fn documents_reply(documents: Vec<Document>) -> (res: Reply)
    ensures
        res.status == Status::Success,
        res.location is None,
        res.data == Some(Data::Documents(documents)),
{
    Reply { status: Status::Success, location: None, data: Some(Data::Documents(documents)) }
}

/// The answer to `GET /jobs/<id>`, given the job found under that id: a job
/// that has produced its document sends the client there (`303 See
/// Other`); a job still under way is shown; no job is `404 Not Found`.
pub fn job_reply(found: Option<Job>) -> (res: Reply)
    ensures
        match found {
            Some(job) => match job.document_id {
                Some(d) => is_redirect(res, Status::SeeOther, document_location(d)),
                None => res.status == Status::Success && res.location is None && res.data == Some(
                    Data::Job(job),
                ),
            },
            None => is_bare(res, Status::NotFound),
        },
{
    match found {
        Some(job) => match job.document_id {
            Some(d) => Reply { status: Status::SeeOther, location: Some(document_link(d)), data: None },
            None => Reply { status: Status::Success, location: None, data: Some(Data::Job(job)) },
        },
        None => bare(Status::NotFound),
    }
}

/// The answer to `GET /documents/<id>`, given the document found under
/// that id: the document, or `404 Not Found`.
pub fn document_reply(found: Option<Document>) -> (res: Reply)
    ensures
        match found {
            Some(doc) => res.status == Status::Success && res.location is None && res.data == Some(
                Data::Document(doc),
            ),
            None => is_bare(res, Status::NotFound),
        },
{
    match found {
        Some(doc) => Reply { status: Status::Success, location: None, data: Some(Data::Document(doc)) },
        None => bare(Status::NotFound),
    }
}

/// A link that the service writes leads back to the record it names: the
/// segment after `/jobs/` or `/documents/` reads as that record's id.
pub proof fn lemma_links_route_back(id: i32)
    ensures
        job_location(id) == "/jobs/"@ + decimal(id as int),
        document_location(id) == "/documents/"@ + decimal(id as int),
        parse_i32(decimal(id as int)) == Some(id),
{
    crate::decimal::lemma_parse_format_roundtrip(id);
}

} // verus!
