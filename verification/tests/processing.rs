use diesel::result::Error as DieselError;
use infuse::models::{Document, Job};
use infuse::processing::{
    startup_messages, Event, JobAction, JobError, JobRun, JobStage, Message, Scheduler,
    SchedulerAction, MAX_WORKERS,
};

fn started(a: &SchedulerAction) -> Option<i32> {
    match a {
        SchedulerAction::StartJob(id) => Some(*id),
        _ => None,
    }
}

#[test]
fn message_new_job_carries_its_id() {
    let m = Message::new_job(17);
    assert_eq!(m.job_id(), 17);
    assert!(matches!(m.event(), Event::New));
}

#[test]
fn message_finish_job_carries_its_result() {
    let m = Message::finish_job(3, Err(JobError::Grobid));
    assert_eq!(m.job_id(), 3);
    assert!(matches!(m.event(), Event::Finish(Err(JobError::Grobid))));
    let ok = Message::finish_job(4, Ok(()));
    assert!(matches!(ok.event(), Event::Finish(Ok(()))));
}

#[test]
fn new_jobs_start_up_to_capacity() {
    let mut s = Scheduler::new();
    assert_eq!(s.active_workers(), 0);
    for id in 1..=MAX_WORKERS {
        let a = s.on_message(&Message::new_job(id));
        assert_eq!(started(&a), Some(id));
    }
    assert_eq!(s.active_workers(), MAX_WORKERS);
    let a = s.on_message(&Message::new_job(99));
    assert!(matches!(a, SchedulerAction::Idle));
    assert_eq!(s.active_workers(), MAX_WORKERS);
}

#[test]
fn a_finished_job_makes_room_for_the_next() {
    let mut s = Scheduler::new();
    for id in 1..=MAX_WORKERS {
        s.on_message(&Message::new_job(id));
    }
    let a = s.on_message(&Message::finish_job(2, Ok(())));
    assert!(matches!(a, SchedulerAction::FetchNextJob));
    assert!(s.is_awaiting_next());
    assert_eq!(s.active_workers(), MAX_WORKERS - 1);
    let b = s.on_next_job(Some(10));
    assert_eq!(started(&b), Some(10));
    assert!(!s.is_awaiting_next());
    assert_eq!(s.active_workers(), MAX_WORKERS);
}

#[test]
fn no_waiting_job_leaves_the_place_free() {
    let mut s = Scheduler::new();
    s.on_message(&Message::new_job(1));
    s.on_message(&Message::finish_job(1, Err(JobError::Diesel(DieselError::NotFound))));
    let a = s.on_next_job(None);
    assert!(matches!(a, SchedulerAction::Idle));
    assert_eq!(s.active_workers(), 0);
}

#[test]
fn active_count_is_starts_less_finishes() {
    let mut s = Scheduler::new();
    let mut starts = 0;
    let mut finishes = 0;
    for round in 0..20 {
        let a = s.on_message(&Message::new_job(round));
        if started(&a).is_some() {
            starts += 1;
        }
        if round % 3 == 0 {
            let f = s.on_message(&Message::finish_job(round, Ok(())));
            assert!(matches!(f, SchedulerAction::FetchNextJob));
            finishes += 1;
            let n = s.on_next_job(if round % 2 == 0 { Some(100 + round) } else { None });
            if started(&n).is_some() {
                starts += 1;
            }
        }
        assert!(s.active_workers() <= MAX_WORKERS);
        assert_eq!(s.active_workers(), starts - finishes);
    }
}

#[test]
fn startup_announces_each_waiting_job() {
    let msgs = startup_messages(&vec![4, 8, 15]);
    assert_eq!(msgs.len(), 3);
    let ids: Vec<i32> = msgs.iter().map(|m| m.job_id()).collect();
    assert_eq!(ids, vec![4, 8, 15]);
    assert!(msgs.iter().all(|m| matches!(m.event(), Event::New)));
    assert!(startup_messages(&vec![]).is_empty());
}

fn job(id: i32, sha: &str) -> Job {
    Job { id, sha: sha.to_string(), document_id: None }
}

#[test]
fn a_job_run_that_succeeds_reports_success_once() {
    let (mut run, first) = JobRun::start(5);
    assert!(matches!(first, JobAction::ClaimJob(5)));
    assert!(matches!(run.stage(), JobStage::Claiming));
    let a = run.on_claimed(Ok(job(5, "abc")));
    match a {
        JobAction::StoreDocument(tei) => assert_eq!(tei, "Came from job 5, hash abc"),
        other => panic!("unexpected {:?}", other),
    }
    let b = run.on_stored(Ok(Document { id: 11, tei: String::new() }));
    assert!(matches!(b, JobAction::LinkDocument { job_id: 5, document_id: 11 }));
    let c = run.on_linked(Ok(()));
    match c {
        JobAction::Report(m) => {
            assert_eq!(m.job_id(), 5);
            assert!(matches!(m.event(), Event::Finish(Ok(()))));
        }
        other => panic!("unexpected {:?}", other),
    }
    assert!(matches!(run.stage(), JobStage::Done));
}

#[test]
fn a_job_that_cannot_be_claimed_reports_the_error() {
    let (mut run, _) = JobRun::start(8);
    let a = run.on_claimed(Err(JobError::Diesel(DieselError::NotFound)));
    match a {
        JobAction::Report(m) => {
            assert_eq!(m.job_id(), 8);
            assert!(matches!(m.event(), Event::Finish(Err(JobError::Diesel(DieselError::NotFound)))));
        }
        other => panic!("unexpected {:?}", other),
    }
    assert!(matches!(run.stage(), JobStage::Done));
}

#[test]
fn a_job_whose_document_fails_reports_the_error() {
    let (mut run, _) = JobRun::start(9);
    run.on_claimed(Ok(job(9, "ff")));
    let a = run.on_stored(Err(JobError::Grobid));
    assert!(matches!(a, JobAction::Report(ref m) if m.job_id() == 9
        && matches!(m.event(), Event::Finish(Err(JobError::Grobid)))));
    assert!(matches!(run.stage(), JobStage::Done));
}

#[test]
fn a_job_whose_link_fails_reports_the_error() {
    let (mut run, _) = JobRun::start(1);
    run.on_claimed(Ok(job(1, "00")));
    run.on_stored(Ok(Document { id: 2, tei: "t".to_string() }));
    let a = run.on_linked(Err(JobError::Diesel(DieselError::RollbackTransaction)));
    assert!(matches!(a, JobAction::Report(ref m) if matches!(m.event(), Event::Finish(Err(_)))));
}

#[test]
fn placeholder_tei_names_negative_ids_too() {
    let (mut run, _) = JobRun::start(-4);
    match run.on_claimed(Ok(job(-4, ""))) {
        JobAction::StoreDocument(tei) => assert_eq!(tei, "Came from job -4, hash "),
        other => panic!("unexpected {:?}", other),
    }
}
