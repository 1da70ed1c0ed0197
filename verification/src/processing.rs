//! The background processor: the messages that drive it, the scheduler
//! that keeps at most `MAX_WORKERS` jobs running at once, and the steps of
//! a single job run.

use crate::decimal::{decimal, format_id};
use crate::models::{Document, Job};
use diesel::result::Error as DieselError;
use vstd::prelude::*;

verus! {

/// diesel's query error, carried opaquely in a failed job's report.
#[verifier::external_type_specification]
#[verifier::external_body]
pub struct ExDieselError(diesel::result::Error);

/// How many jobs may run at the same time.
pub const MAX_WORKERS: i32 = 4;

/// Why a job failed.
#[derive(Debug)]
pub enum JobError {
    /// The database refused an operation.
    Diesel(DieselError),
    /// The conversion service failed.
    Grobid,
}

/// What happened to a job.
#[derive(Debug)]
pub enum Event {
    /// The job was queued.
    New,
    /// The job ended, well or not.
    Finish(Result<(), JobError>),
}

/// A message to the processor about one job.
#[derive(Debug)]
pub struct Message {
    event: Event,
    job_id: i32,
}

impl Message {
    pub closed spec fn spec_event(&self) -> Event {
        self.event
    }

    pub closed spec fn spec_job_id(&self) -> i32 {
        self.job_id
    }

    /// Announces a newly queued job.
    pub fn new_job(id: i32) -> (res: Message)
        ensures
            res.spec_event() is New,
            res.spec_job_id() == id,
    {
        Message { event: Event::New, job_id: id }
    }

    /// Announces that a job ended with `result`.
    pub fn finish_job(id: i32, result: Result<(), JobError>) -> (res: Message)
        ensures
            res.spec_event() == Event::Finish(result),
            res.spec_job_id() == id,
    {
        Message { event: Event::Finish(result), job_id: id }
    }

    /// The job that the message is about.
    pub fn job_id(&self) -> (res: i32)
        ensures
            res == self.spec_job_id(),
    {
        self.job_id
    }

    /// What happened to the job.
    pub fn event(&self) -> (res: &Event)
        ensures
            *res == self.spec_event(),
    {
        &self.event
    }
}

/// The messages that the processor sends itself when it starts: one
/// announcement for each job found waiting.
pub fn startup_messages(waiting: &Vec<i32>) -> (res: Vec<Message>)
    ensures
        res@.len() == waiting@.len(),
        forall|i: int|
            0 <= i < res@.len() ==> (#[trigger] res@[i]).spec_event() is New
                && res@[i].spec_job_id() == waiting@[i],
{
    let mut res: Vec<Message> = Vec::new();
    let mut i: usize = 0;
    while i < waiting.len()
        invariant
            i <= waiting@.len(),
            res@.len() == i,
            forall|j: int|
                0 <= j < i ==> (#[trigger] res@[j]).spec_event() is New
                    && res@[j].spec_job_id() == waiting@[j],
        decreases waiting@.len() - i,
    {
        res.push(Message::new_job(waiting[i]));
        i = i + 1;
    }
    res
}

/// What the scheduler sees: a job announced, a job ended, or the answer to
/// its question for the next waiting job.
pub enum SchedulerInput {
    New(i32),
    Finish,
    Next(Option<i32>),
}

/// What the scheduler asks for.
#[derive(Debug)]
pub enum SchedulerAction {
    /// Nothing to do.
    Idle,
    /// Look up the oldest job that has no document and is not running, and
    /// hand the answer to `on_next_job`.
    FetchNextJob,
    /// Start the job with this id.
    StartJob(i32),
}

/// The scheduler's state: how many jobs run, and whether it waits for the
/// answer to `FetchNextJob`.
pub struct SchedulerState {
    pub active: int,
    pub awaiting_next: bool,
}

pub open spec fn scheduler_initial() -> SchedulerState {
    SchedulerState { active: 0, awaiting_next: false }
}

/// One step of the scheduler. A new job starts when fewer than
/// `MAX_WORKERS` jobs run and is otherwise left waiting; an ended job frees
/// its place and the scheduler asks for the next waiting job, which it then
/// starts.
pub open spec fn scheduler_step(s: SchedulerState, input: SchedulerInput) -> (SchedulerState, SchedulerAction) {
    match input {
        SchedulerInput::New(id) => {
            if s.active < MAX_WORKERS {
                (SchedulerState { active: s.active + 1, awaiting_next: false }, SchedulerAction::StartJob(id))
            } else {
                (s, SchedulerAction::Idle)
            }
        },
        SchedulerInput::Finish => {
            (SchedulerState { active: s.active - 1, awaiting_next: true }, SchedulerAction::FetchNextJob)
        },
        SchedulerInput::Next(next) => {
            match next {
                Some(id) => (SchedulerState { active: s.active + 1, awaiting_next: false }, SchedulerAction::StartJob(id)),
                None => (SchedulerState { active: s.active, awaiting_next: false }, SchedulerAction::Idle),
            }
        },
    }
}

/// An input may come in a state when it answers a question exactly when one
/// is pending.
pub open spec fn input_fits(s: SchedulerState, input: SchedulerInput) -> bool {
    (input is Next) == s.awaiting_next
}

/// The input that a message gives the scheduler.
pub open spec fn message_input(m: Message) -> SchedulerInput {
    match m.spec_event() {
        Event::New => SchedulerInput::New(m.spec_job_id()),
        Event::Finish(_) => SchedulerInput::Finish,
    }
}

/// The scheduler's invariant: never more than `MAX_WORKERS` jobs, and a
/// free place whenever it waits for the next job.
pub open spec fn scheduler_inv(s: SchedulerState) -> bool {
    &&& s.active <= MAX_WORKERS
    &&& s.awaiting_next ==> s.active < MAX_WORKERS
}

/// Decides which jobs run, keeping at most `MAX_WORKERS` of them running.
pub struct Scheduler {
    active_workers: i32,
    awaiting_next: bool,
}

impl View for Scheduler {
    type V = SchedulerState;

    closed spec fn view(&self) -> SchedulerState {
        SchedulerState { active: self.active_workers as int, awaiting_next: self.awaiting_next }
    }
}

impl Scheduler {
    #[verifier::type_invariant]
    closed spec fn well_formed(self) -> bool {
        scheduler_inv(self@)
    }

    /// A scheduler with no job running.
    pub fn new() -> (res: Scheduler)
        ensures
            res@ == scheduler_initial(),
    {
        Scheduler { active_workers: 0, awaiting_next: false }
    }

    /// How many jobs run.
    pub fn active_workers(&self) -> (res: i32)
        ensures
            res == self@.active,
            res <= MAX_WORKERS,
    {
        proof {
            use_type_invariant(self);
        }
        self.active_workers
    }

    /// Whether the scheduler waits for the answer to `FetchNextJob`.
    pub fn is_awaiting_next(&self) -> (res: bool)
        ensures
            res == self@.awaiting_next,
            res ==> self@.active < MAX_WORKERS,
    {
        proof {
            use_type_invariant(self);
        }
        self.awaiting_next
    }

    /// Takes a message: a new job starts if there is room; an ended job
    /// frees its place, and the next waiting job is asked for.
    pub fn on_message(&mut self, msg: &Message) -> (action: SchedulerAction)
        requires
            !old(self)@.awaiting_next,
            msg.spec_event() is Finish ==> old(self)@.active > i32::MIN,
        ensures
            (final(self)@, action) == scheduler_step(old(self)@, message_input(*msg)),
            scheduler_inv(final(self)@),
            msg.spec_event() is Finish ==> {
                &&& action == SchedulerAction::FetchNextJob
                &&& final(self)@.active == old(self)@.active - 1
                &&& final(self)@.awaiting_next
            },
            msg.spec_event() is New && old(self)@.active < MAX_WORKERS ==> {
                &&& action == SchedulerAction::StartJob(msg.spec_job_id())
                &&& final(self)@.active == old(self)@.active + 1
                &&& !final(self)@.awaiting_next
            },
            msg.spec_event() is New && old(self)@.active >= MAX_WORKERS ==> {
                &&& action == SchedulerAction::Idle
                &&& final(self)@ == old(self)@
            },
    {
        proof {
            use_type_invariant(&*self);
        }
        match msg.event() {
            Event::New => {
                if self.active_workers < MAX_WORKERS {
                    self.active_workers = self.active_workers + 1;
                    SchedulerAction::StartJob(msg.job_id())
                } else {
                    SchedulerAction::Idle
                }
            },
            Event::Finish(_) => {
                self.active_workers = self.active_workers - 1;
                self.awaiting_next = true;
                SchedulerAction::FetchNextJob
            },
        }
    }

    /// Takes the answer to `FetchNextJob`: the job found, if any, starts.
    pub fn on_next_job(&mut self, next: Option<i32>) -> (action: SchedulerAction)
        requires
            old(self)@.awaiting_next,
        ensures
            (final(self)@, action) == scheduler_step(old(self)@, SchedulerInput::Next(next)),
            scheduler_inv(final(self)@),
            !final(self)@.awaiting_next,
            match next {
                Some(id) => action == SchedulerAction::StartJob(id) && final(self)@.active == old(self)@.active + 1,
                None => action == SchedulerAction::Idle && final(self)@.active == old(self)@.active,
            },
    {
        proof {
            use_type_invariant(&*self);
        }
        self.awaiting_next = false;
        match next {
            Some(id) => {
                self.active_workers = self.active_workers + 1;
                SchedulerAction::StartJob(id)
            },
            None => SchedulerAction::Idle,
        }
    }
}

/// The scheduler's state after a run of inputs from the start.
pub open spec fn scheduler_run(inputs: Seq<SchedulerInput>) -> SchedulerState
    decreases inputs.len(),
{
    if inputs.len() == 0 {
        scheduler_initial()
    } else {
        scheduler_step(scheduler_run(inputs.drop_last()), inputs.last()).0
    }
}

/// Whether each input of a run fits the state that it comes in.
pub open spec fn scheduler_run_fits(inputs: Seq<SchedulerInput>) -> bool
    decreases inputs.len(),
{
    if inputs.len() == 0 {
        true
    } else {
        scheduler_run_fits(inputs.drop_last()) && input_fits(
            scheduler_run(inputs.drop_last()),
            inputs.last(),
        )
    }
}

/// How many jobs a run started.
pub open spec fn scheduler_starts(inputs: Seq<SchedulerInput>) -> int
    decreases inputs.len(),
{
    if inputs.len() == 0 {
        0
    } else {
        scheduler_starts(inputs.drop_last()) + if scheduler_step(
            scheduler_run(inputs.drop_last()),
            inputs.last(),
        ).1 is StartJob {
            1int
        } else {
            0int
        }
    }
}

/// How many job ends a run reported.
pub open spec fn scheduler_finishes(inputs: Seq<SchedulerInput>) -> int
    decreases inputs.len(),
{
    if inputs.len() == 0 {
        0
    } else {
        scheduler_finishes(inputs.drop_last()) + if inputs.last() is Finish {
            1int
        } else {
            0int
        }
    }
}

/// Whatever messages arrive, the processor never runs more than
/// `MAX_WORKERS` jobs at once, and the count it keeps is the number of jobs
/// it started less the number of job ends it was told of.
pub proof fn lemma_scheduler_capacity(inputs: Seq<SchedulerInput>)
    requires
        scheduler_run_fits(inputs),
    ensures
        scheduler_inv(scheduler_run(inputs)),
        scheduler_run(inputs).active == scheduler_starts(inputs) - scheduler_finishes(inputs),
    decreases inputs.len(),
{
    if inputs.len() > 0 {
        lemma_scheduler_capacity(inputs.drop_last());
    }
}

/// Whenever a job ends, whatever the number of running jobs, the scheduler
/// frees its place and asks for the next waiting job.
pub proof fn lemma_finish_frees_and_fetches(s: SchedulerState)
    ensures
        scheduler_step(s, SchedulerInput::Finish).1 == SchedulerAction::FetchNextJob,
        scheduler_step(s, SchedulerInput::Finish).0.active == s.active - 1,
        scheduler_step(s, SchedulerInput::Finish).0.awaiting_next,
{
}

/// Any newly queued job, whatever its id, starts at once when fewer than
/// `MAX_WORKERS` jobs run, taking one more place.
pub proof fn lemma_new_job_starts_when_room(s: SchedulerState, id: i32)
    requires
        s.active < MAX_WORKERS,
    ensures
        scheduler_step(s, SchedulerInput::New(id)).1 == SchedulerAction::StartJob(id),
        scheduler_step(s, SchedulerInput::New(id)).0.active == s.active + 1,
        !scheduler_step(s, SchedulerInput::New(id)).0.awaiting_next,
{
}

/// A newly queued job is left waiting, and nothing changes, when
/// `MAX_WORKERS` jobs already run.
pub proof fn lemma_new_job_waits_when_full(s: SchedulerState, id: i32)
    requires
        s.active >= MAX_WORKERS,
    ensures
        scheduler_step(s, SchedulerInput::New(id)).1 == SchedulerAction::Idle,
        scheduler_step(s, SchedulerInput::New(id)).0 == s,
{
}

/// The answer to the question for the next waiting job settles it: a job
/// found starts and takes a place, no job found leaves the count as it is.
pub proof fn lemma_next_answer_settles(s: SchedulerState, next: Option<i32>)
    ensures
        !scheduler_step(s, SchedulerInput::Next(next)).0.awaiting_next,
        match next {
            Some(id) => scheduler_step(s, SchedulerInput::Next(next)).1 == SchedulerAction::StartJob(id)
                && scheduler_step(s, SchedulerInput::Next(next)).0.active == s.active + 1,
            None => scheduler_step(s, SchedulerInput::Next(next)).1 == SchedulerAction::Idle
                && scheduler_step(s, SchedulerInput::Next(next)).0.active == s.active,
        },
{
}

/// A job that the scheduler asked for after a job ended is always started:
/// the ended job's place is free for it.
pub proof fn lemma_fetched_job_starts(s: SchedulerState, id: i32)
    requires
        scheduler_inv(s),
        s.awaiting_next,
    ensures
        scheduler_step(s, SchedulerInput::Next(Some(id))).1 == SchedulerAction::StartJob(id),
        scheduler_inv(scheduler_step(s, SchedulerInput::Next(Some(id))).0),
{
}

/// The text that a job stores as its document's TEI.
pub open spec fn placeholder_tei(job_id: i32, sha: Seq<char>) -> Seq<char> {
    "Came from job "@ + decimal(job_id as int) + ", hash "@ + sha
}

/// The TEI stored for a job is the text `Came from job `, the job's id in
/// decimal, the text `, hash `, then the job's whole hash: its length is
/// 21 plus the lengths of the id's digits and of the hash, and it ends with
/// the hash.
pub proof fn lemma_placeholder_tei_layout(job_id: i32, sha: Seq<char>)
    ensures
        placeholder_tei(job_id, sha).len() == 21int + decimal(job_id as int).len() + sha.len(),
        placeholder_tei(job_id, sha).subrange(0, 14) == "Came from job "@,
        placeholder_tei(job_id, sha).subrange(14, 14int + decimal(job_id as int).len()) == decimal(
            job_id as int,
        ),
        placeholder_tei(job_id, sha).subrange(
            14int + decimal(job_id as int).len(),
            21int + decimal(job_id as int).len(),
        ) == ", hash "@,
        placeholder_tei(job_id, sha).subrange(
            21int + decimal(job_id as int).len(),
            21int + decimal(job_id as int).len() + sha.len(),
        ) == sha,
{
    reveal_strlit("Came from job ");
    reveal_strlit(", hash ");
    let d = decimal(job_id as int);
    let t = placeholder_tei(job_id, sha);
    assert(t.subrange(0, 14) =~= "Came from job "@);
    assert(t.subrange(14, 14int + d.len()) =~= d);
    assert(t.subrange(14int + d.len(), 21int + d.len()) =~= ", hash "@);
    assert(t.subrange(21int + d.len(), 21int + d.len() + sha.len()) =~= sha);
}

/// The stage that a job run has reached.
pub enum JobStage {
    /// Marking the job as running.
    Claiming,
    /// Producing and storing its document.
    Converting,
    /// Recording the document on the job.
    Linking,
    /// Reported to the scheduler.
    Done,
}

/// What a job run asks for.
#[derive(Debug)]
pub enum JobAction {
    /// Mark the job with this id as running and load it.
    ClaimJob(i32),
    /// Store a new document with this TEI.
    StoreDocument(String),
    /// Mark the job as no longer running, with this document.
    LinkDocument { job_id: i32, document_id: i32 },
    /// Send this message to the scheduler; the run is over.
    Report(Message),
}

/// What a job action reports to the scheduler: nothing, or whether the job
/// succeeded.
pub open spec fn reported(action: JobAction) -> Option<bool> {
    match action {
        JobAction::Report(m) => Some(m.spec_event() matches Event::Finish(Ok(_))),
        _ => None,
    }
}

/// One step of a job run, given whether the awaited operation succeeded:
/// the stage it moves to and what it reports. A failure ends the run with a
/// failed report; recording the document ends it with the outcome of that
/// recording.
pub open spec fn job_step(stage: JobStage, ok: bool) -> (JobStage, Option<bool>) {
    match stage {
        JobStage::Claiming => if ok {
            (JobStage::Converting, None)
        } else {
            (JobStage::Done, Some(false))
        },
        JobStage::Converting => if ok {
            (JobStage::Linking, None)
        } else {
            (JobStage::Done, Some(false))
        },
        JobStage::Linking => (JobStage::Done, Some(ok)),
        JobStage::Done => (JobStage::Done, None),
    }
}

/// The stage that a job run reaches after a sequence of outcomes.
pub open spec fn job_run(outcomes: Seq<bool>) -> JobStage
    decreases outcomes.len(),
{
    if outcomes.len() == 0 {
        JobStage::Claiming
    } else {
        job_step(job_run(outcomes.drop_last()), outcomes.last()).0
    }
}

/// Whether every outcome comes while the run is still under way.
pub open spec fn job_run_fits(outcomes: Seq<bool>) -> bool
    decreases outcomes.len(),
{
    if outcomes.len() == 0 {
        true
    } else {
        job_run_fits(outcomes.drop_last()) && !(job_run(outcomes.drop_last()) is Done)
    }
}

/// The reports of a job run, in order.
pub open spec fn job_reports(outcomes: Seq<bool>) -> Seq<bool>
    decreases outcomes.len(),
{
    if outcomes.len() == 0 {
        Seq::empty()
    } else {
        let prev = job_reports(outcomes.drop_last());
        match job_step(job_run(outcomes.drop_last()), outcomes.last()).1 {
            Some(ok) => prev.push(ok),
            None => prev,
        }
    }
}

/// Every job run reports to the scheduler exactly once, when it is over,
/// and it is over after at most three steps; it reports success exactly
/// when claiming, storing and recording all succeeded.
pub proof fn lemma_job_reports_once(outcomes: Seq<bool>)
    requires
        job_run_fits(outcomes),
    ensures
        outcomes.len() <= 3,
        job_reports(outcomes).len() == if job_run(outcomes) is Done { 1int } else { 0int },
        job_run(outcomes) is Done ==> (job_reports(outcomes)[0] <==> outcomes == seq![true, true, true]),
{
    lemma_job_run_shape(outcomes);
    if outcomes.len() == 3 && outcomes[2] {
        assert(outcomes =~= seq![true, true, true]);
    }
}

proof fn lemma_job_run_shape(o: Seq<bool>)
    requires
        job_run_fits(o),
    ensures
        o.len() <= 3,
        o.len() >= 2 ==> o[0],
        o.len() == 3 ==> o[1],
        job_run(o) is Done <==> (o.len() == 3 || (o.len() >= 1 && !o[o.len() - 1])),
        !(job_run(o) is Done) ==> job_run(o) == (if o.len() == 0 {
            JobStage::Claiming
        } else if o.len() == 1 {
            JobStage::Converting
        } else {
            JobStage::Linking
        }),
        job_reports(o).len() == if job_run(o) is Done { 1int } else { 0int },
        job_run(o) is Done ==> job_reports(o)[0] == (o.len() == 3 && o[2]),
    decreases o.len(),
{
    if o.len() > 0 {
        let prev = o.drop_last();
        lemma_job_run_shape(prev);
        assert(forall|k: int| 0 <= k < prev.len() ==> prev[k] == o[k]);
    }
}

/// The run of one job: claim it, store its document, record the document
/// on the job, and report the outcome once.
pub struct JobRun {
    job_id: i32,
    stage: JobStage,
}

impl JobRun {
    pub closed spec fn spec_job_id(&self) -> i32 {
        self.job_id
    }

    pub closed spec fn spec_stage(&self) -> JobStage {
        self.stage
    }

    /// Begins the run of the job `id` by claiming it.
    pub fn start(id: i32) -> (res: (JobRun, JobAction))
        ensures
            res.0.spec_job_id() == id,
            res.0.spec_stage() is Claiming,
            res.1 == JobAction::ClaimJob(id),
    {
        (JobRun { job_id: id, stage: JobStage::Claiming }, JobAction::ClaimJob(id))
    }

    /// The stage that the run has reached.
    pub fn stage(&self) -> (res: &JobStage)
        ensures
            *res == self.spec_stage(),
    {
        &self.stage
    }

    /// Takes the outcome of claiming the job: on success its document is
    /// produced, on failure the run reports the error.
    pub fn on_claimed(&mut self, claimed: Result<Job, JobError>) -> (action: JobAction)
        requires
            old(self).spec_stage() is Claiming,
        ensures
            final(self).spec_job_id() == old(self).spec_job_id(),
            (final(self).spec_stage(), reported(action)) == job_step(old(self).spec_stage(), claimed is Ok),
            match claimed {
                Ok(job) => {
                    &&& final(self).spec_stage() is Converting
                    &&& action matches JobAction::StoreDocument(tei) && tei@ == placeholder_tei(job.id, job.sha@)
                        && tei@.len() == 21int + decimal(job.id as int).len() + job.sha@.len()
                        && tei@.subrange(0, 14) == "Came from job "@
                        && tei@.subrange(14, 14int + decimal(job.id as int).len()) == decimal(job.id as int)
                        && tei@.subrange(tei@.len() - job.sha@.len() - 7, tei@.len() - job.sha@.len()) == ", hash "@
                        && tei@.subrange(tei@.len() - job.sha@.len(), tei@.len() as int) == job.sha@
                },
                Err(e) => {
                    &&& final(self).spec_stage() is Done
                    &&& action matches JobAction::Report(m) && m.spec_job_id() == old(self).spec_job_id()
                        && m.spec_event() == Event::Finish(Err(e))
                },
            },
    {
        match claimed {
            Ok(job) => {
                self.stage = JobStage::Converting;
                let mut tei = String::from_str("Came from job ");
                let id_text = format_id(job.id);
                tei.append(id_text.as_str());
                tei.append(", hash ");
                tei.append(job.sha.as_str());
                proof {
                    assert(tei@ =~= placeholder_tei(job.id, job.sha@));
                    lemma_placeholder_tei_layout(job.id, job.sha@);
                }
                JobAction::StoreDocument(tei)
            },
            Err(e) => {
                self.stage = JobStage::Done;
                JobAction::Report(Message::finish_job(self.job_id, Err(e)))
            },
        }
    }

    /// Takes the outcome of storing the document: on success it is recorded
    /// on the job, on failure the run reports the error.
    pub fn on_stored(&mut self, stored: Result<Document, JobError>) -> (action: JobAction)
        requires
            old(self).spec_stage() is Converting,
        ensures
            final(self).spec_job_id() == old(self).spec_job_id(),
            (final(self).spec_stage(), reported(action)) == job_step(old(self).spec_stage(), stored is Ok),
            match stored {
                Ok(doc) => {
                    &&& final(self).spec_stage() is Linking
                    &&& action == JobAction::LinkDocument {
                        job_id: old(self).spec_job_id(),
                        document_id: doc.id,
                    }
                },
                Err(e) => {
                    &&& final(self).spec_stage() is Done
                    &&& action matches JobAction::Report(m) && m.spec_job_id() == old(self).spec_job_id()
                        && m.spec_event() == Event::Finish(Err(e))
                },
            },
    {
        match stored {
            Ok(doc) => {
                self.stage = JobStage::Linking;
                JobAction::LinkDocument { job_id: self.job_id, document_id: doc.id }
            },
            Err(e) => {
                self.stage = JobStage::Done;
                JobAction::Report(Message::finish_job(self.job_id, Err(e)))
            },
        }
    }

    /// Takes the outcome of recording the document: the run reports it.
    pub fn on_linked(&mut self, linked: Result<(), JobError>) -> (action: JobAction)
        requires
            old(self).spec_stage() is Linking,
        ensures
            final(self).spec_job_id() == old(self).spec_job_id(),
            (final(self).spec_stage(), reported(action)) == job_step(old(self).spec_stage(), linked is Ok),
            final(self).spec_stage() is Done,
            action matches JobAction::Report(m) && m.spec_job_id() == old(self).spec_job_id()
                && m.spec_event() == Event::Finish(linked),
    {
        self.stage = JobStage::Done;
        JobAction::Report(Message::finish_job(self.job_id, linked))
    }
}

} // verus!
