//! The handling of `POST /documents`: digest the uploaded file, refuse it
//! if a job already has that digest, else store it, record a job for it,
//! and tell the processor.

use crate::digest::{hex_lower, sha3_256, Sha3Hex};
use crate::models::Job;
use crate::processing::Message;
use crate::replies::{is_bare, is_redirect, job_link, job_location, Reply, Status};
use vstd::prelude::*;

verus! {

/// How far an upload has come.
pub enum UploadStage {
    /// Looking for a job with the upload's digest.
    LookingUp,
    /// Storing the file.
    Saving,
    /// Recording a job for the file.
    Inserting,
    /// Answered.
    Done,
}

/// What an upload asks for.
pub enum UploadAction {
    /// Answer the client; the upload is over.
    Respond(Reply),
    /// Find a job whose `sha` is this digest, and hand the answer to
    /// `on_lookup`.
    FindJobBySha(String),
    /// Store the uploaded bytes at the storage path of this digest, then
    /// call `on_saved`.
    SaveFile(Sha3Hex),
    /// Store a new job with this `sha`, and hand it to `on_inserted`.
    InsertJob(String),
    /// Send this message to the processor, then answer the client with this
    /// reply; the upload is over.
    NotifyAndRespond(Message, Reply),
}

/// One upload in progress.
pub struct Upload {
    digest: Sha3Hex,
    stage: UploadStage,
}

/// The key under which content is filed: its hex SHA3-256 digest.
pub open spec fn content_key(data: Seq<u8>) -> Seq<char> {
    hex_lower(sha3_256(data))
}

impl Upload {
    pub closed spec fn spec_stage(&self) -> UploadStage {
        self.stage
    }

    /// The digest of the uploaded file.
    pub closed spec fn spec_digest(&self) -> Seq<char> {
        self.digest@
    }

    /// Starts an upload given the `file` field of the request, if it has
    /// one: without a file the request is answered `400 Bad Request`; with
    /// one, the file's digest is looked up.
    pub fn begin(file: Option<&[u8]>) -> (res: Result<(Upload, UploadAction), Reply>)
        ensures
            match file {
                None => res matches Err(r) && is_bare(r, Status::BadRequest),
                Some(data) => res matches Ok((u, a)) && {
                    &&& u.spec_stage() is LookingUp
                    &&& u.spec_digest() == content_key(data@)
                    &&& a matches UploadAction::FindJobBySha(key) && key@ == content_key(data@)
                },
            },
    {
        match file {
            None => Err(Reply { status: Status::BadRequest, location: None, data: None }),
            Some(data) => {
                let digest = Sha3Hex::of_bytes(data);
                let key = digest.to_string();
                Ok((Upload { digest, stage: UploadStage::LookingUp }, UploadAction::FindJobBySha(key)))
            },
        }
    }

    /// The stage that the upload has reached.
    pub fn stage(&self) -> (res: &UploadStage)
        ensures
            *res == self.spec_stage(),
    {
        &self.stage
    }

    /// Takes the job found under the digest, if any: a known file is
    /// refused with `409 Conflict` pointing at its job; a new one is stored.
    pub fn on_lookup(&mut self, existing: Option<Job>) -> (action: UploadAction)
        requires
            old(self).spec_stage() is LookingUp,
        ensures
            final(self).spec_digest() == old(self).spec_digest(),
            match existing {
                Some(job) => {
                    &&& final(self).spec_stage() is Done
                    &&& action matches UploadAction::Respond(r) && is_redirect(r, Status::Conflict, job_location(job.id))
                },
                None => {
                    &&& final(self).spec_stage() is Saving
                    &&& action matches UploadAction::SaveFile(d) && d@ == old(self).spec_digest()
                },
            },
    {
        match existing {
            Some(job) => {
                self.stage = UploadStage::Done;
                UploadAction::Respond(Reply { status: Status::Conflict, location: Some(job_link(job.id)), data: None })
            },
            None => {
                let d = self.digest.copy();
                self.stage = UploadStage::Saving;
                UploadAction::SaveFile(d)
            },
        }
    }

    /// Once the file is stored, a job is recorded for it under its digest.
    pub fn on_saved(&mut self) -> (action: UploadAction)
        requires
            old(self).spec_stage() is Saving,
        ensures
            final(self).spec_digest() == old(self).spec_digest(),
            final(self).spec_stage() is Inserting,
            action matches UploadAction::InsertJob(sha) && sha@ == old(self).spec_digest(),
    {
        let sha = self.digest.to_string();
        self.stage = UploadStage::Inserting;
        UploadAction::InsertJob(sha)
    }

    /// Once the job is recorded, the processor is told of it and the client
    /// is answered `202 Accepted` pointing at it.
    pub fn on_inserted(&mut self, job: &Job) -> (action: UploadAction)
        requires
            old(self).spec_stage() is Inserting,
        ensures
            final(self).spec_digest() == old(self).spec_digest(),
            final(self).spec_stage() is Done,
            action matches UploadAction::NotifyAndRespond(m, r) && m.spec_event() is New
                && m.spec_job_id() == job.id && is_redirect(r, Status::Accepted, job_location(job.id)),
    {
        self.stage = UploadStage::Done;
        UploadAction::NotifyAndRespond(
            Message::new_job(job.id),
            Reply { status: Status::Accepted, location: Some(job_link(job.id)), data: None },
        )
    }
}

} // verus!
