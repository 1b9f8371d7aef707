//! Runs the queue and its worker against a small in-memory store with a
//! clock that only moves when the worker waits.

use rjq::errors::ErrorKind;
use rjq::job::{Job, JobFailure, Status};
use rjq::queue::{Command, Queue};
use rjq::worker::{Abort, WorkAction, WorkEvent, WorkConfig};
use std::collections::HashMap;

/// A store: jobs with the time they expire at, lists, and a clock in
/// milliseconds.
struct Store {
    jobs: HashMap<String, (Job, u64)>,
    lists: HashMap<String, Vec<String>>,
    now: u64,
}

impl Store {
    fn new() -> Store {
        Store { jobs: HashMap::new(), lists: HashMap::new(), now: 0 }
    }

    fn apply(&mut self, command: Command) {
        match command {
            Command::Del { key } => {
                self.jobs.remove(&key);
                self.lists.remove(&key);
            }
            Command::SetEx { key, job, seconds } => self.set_ex(key, job, seconds),
            Command::RPush { key, value } => self.lists.entry(key).or_default().push(value),
        }
    }

    fn set_ex(&mut self, key: String, job: Job, seconds: usize) {
        let until = self.now.saturating_add((seconds as u64).saturating_mul(1000));
        self.jobs.insert(key, (job, until));
    }

    fn get(&mut self, key: &str) -> Option<Job> {
        match self.jobs.get(key) {
            Some((job, until)) if *until > self.now => Some(job.clone()),
            _ => None,
        }
    }

    fn blpop(&mut self, key: &str, timeout: usize) -> Vec<String> {
        match self.lists.get_mut(key) {
            Some(list) if !list.is_empty() => vec![key.to_string(), list.remove(0)],
            _ => {
                self.now += 1000 * timeout as u64;
                vec![]
            }
        }
    }

    fn sleep(&mut self, millis: u128) {
        self.now += millis as u64;
    }
}

/// Sixteen random bytes, drawn as the application draws them.
fn random_bytes() -> [u8; 16] {
    uuid::Uuid::new_v4().into_bytes()
}

fn enqueue(store: &mut Store, queue: &Queue, id: Option<String>, expire: usize) -> String {
    let (id, commands) = queue.enqueue(id, vec![], expire, random_bytes());
    for command in commands {
        store.apply(command);
    }
    id
}

fn status(store: &mut Store, queue: &Queue, id: &str) -> Result<Status, String> {
    match store.get(&queue.job_key(id)) {
        Some(job) => Ok(queue.status(job)),
        None => Err(format!("no job {}", id)),
    }
}

fn result(store: &mut Store, queue: &Queue, id: &str) -> Result<Option<String>, ErrorKind> {
    let job = store.get(&queue.job_key(id)).unwrap();
    queue.result(job)
}

/// A job's function: how long it runs and how it ends.
type JobFn = fn(String, Vec<String>) -> (u64, Result<Option<String>, JobFailure>);

/// Runs a worker until it finishes; returns why it gave up, if it did,
/// and the milliseconds it slept.
fn work(
    store: &mut Store,
    queue: &Queue,
    fun: JobFn,
    wait: Option<usize>,
    timeout: Option<usize>,
    freq: Option<usize>,
    expire: Option<usize>,
    fall: Option<bool>,
    infinite: Option<bool>,
) -> (Option<Abort>, Vec<u64>) {
    let mut worker = queue.work(wait, timeout, freq, expire, fall, infinite);
    let mut running: Option<(u64, Result<Option<String>, JobFailure>)> = None;
    let mut sleeps = Vec::new();
    loop {
        let event = match worker.action() {
            WorkAction::Pop { key, timeout } => WorkEvent::Popped(store.blpop(&key, timeout)),
            WorkAction::Fetch { key } => WorkEvent::Fetched(store.get(&key)),
            WorkAction::Start { key, job, seconds, id } => {
                let (took, outcome) = fun(id.clone(), job.args.clone());
                store.set_ex(key, job.clone(), seconds);
                running = Some((store.now + took, outcome));
                WorkEvent::Started
            }
            WorkAction::Poll => match &running {
                Some((done_at, outcome)) if *done_at <= store.now => {
                    let sent = outcome.clone();
                    running = None;
                    WorkEvent::Polled(Some(sent))
                }
                _ => WorkEvent::Polled(None),
            },
            WorkAction::Sleep { millis } => {
                store.sleep(millis);
                sleeps.push(millis as u64);
                WorkEvent::Slept
            }
            WorkAction::Store { key, job, seconds } => {
                store.set_ex(key, job.clone(), seconds);
                WorkEvent::Stored
            }
            WorkAction::Panic { reason } => return (Some(reason), sleeps),
            WorkAction::Finish => return (None, sleeps),
        };
        worker.step(event);
    }
}

fn fn_ok_1000(_: String, _: Vec<String>) -> (u64, Result<Option<String>, JobFailure>) {
    (1_000, Ok(Some("ok".to_string())))
}

fn fn_ok_200(_: String, _: Vec<String>) -> (u64, Result<Option<String>, JobFailure>) {
    (200, Ok(Some("ok".to_string())))
}

fn fn_err_200(_: String, _: Vec<String>) -> (u64, Result<Option<String>, JobFailure>) {
    (200, Err(JobFailure { message: "err".to_string(), backtrace: "Error: err\n".to_string() }))
}

fn fn_ok_10000(_: String, _: Vec<String>) -> (u64, Result<Option<String>, JobFailure>) {
    (10_000, Ok(Some("ok".to_string())))
}

fn fn_echo_id(id: String, _: Vec<String>) -> (u64, Result<Option<String>, JobFailure>) {
    (0, Ok(Some(id)))
}

fn drop_jobs(store: &mut Store, queue: &Queue) {
    store.apply(queue.drop());
}

#[test]
fn test_job_queued() {
    let mut store = Store::new();
    let queue = Queue::new("redis://localhost/", "test-queued");
    drop_jobs(&mut store, &queue);

    let uuid = enqueue(&mut store, &queue, None, 5);

    let status = status(&mut store, &queue, &uuid).unwrap();
    assert!(status == Status::QUEUED);
}

#[test]
#[should_panic]
fn test_job_expired() {
    let mut store = Store::new();
    let queue = Queue::new("redis://localhost/", "test-expired");
    drop_jobs(&mut store, &queue);

    let uuid = enqueue(&mut store, &queue, None, 1);
    store.sleep(2000);

    status(&mut store, &queue, &uuid).unwrap();
}

#[test]
fn test_job_finished() {
    let mut store = Store::new();
    let queue = Queue::new("redis://localhost/", "test-finished");
    drop_jobs(&mut store, &queue);

    let uuid = enqueue(&mut store, &queue, None, 10);
    let (aborted, _) = work(
        &mut store, &queue, fn_ok_1000, Some(1), Some(5), Some(1), Some(5), Some(false), Some(false),
    );
    assert!(aborted.is_none());

    let status = status(&mut store, &queue, &uuid).unwrap();
    assert!(status == Status::FINISHED(Some("ok".to_string())));
}

#[test]
fn test_job_result() {
    let mut store = Store::new();
    let queue = Queue::new("redis://localhost/", "test-result");
    drop_jobs(&mut store, &queue);

    let uuid = enqueue(&mut store, &queue, None, 10);
    work(&mut store, &queue, fn_ok_200, Some(1), Some(5), Some(1), Some(5), Some(false), Some(false));

    let res = result(&mut store, &queue, &uuid).unwrap();
    assert!(res == Some("ok".to_string()));
}

#[test]
fn test_job_failed() {
    let mut store = Store::new();
    let queue = Queue::new("redis://localhost/", "test-failed");
    drop_jobs(&mut store, &queue);

    let uuid = enqueue(&mut store, &queue, None, 10);
    work(&mut store, &queue, fn_err_200, Some(1), Some(5), Some(1), Some(5), Some(false), Some(false));

    let status = status(&mut store, &queue, &uuid).unwrap();
    assert_eq!(
        status,
        Status::FAILED { message: "err".to_string(), backtrace: "Error: err\n".to_string() }
    );
}

#[test]
fn test_job_lost() {
    let mut store = Store::new();
    let queue = Queue::new("redis://localhost/", "test-lost");
    drop_jobs(&mut store, &queue);

    let uuid = enqueue(&mut store, &queue, None, 10);
    let (aborted, sleeps) = work(
        &mut store, &queue, fn_ok_10000, Some(1), Some(5), Some(1), Some(5), Some(false), Some(false),
    );
    assert!(aborted.is_none());
    assert_eq!(sleeps, vec![1000, 1000, 1000, 1000, 1000]);
    assert_eq!(store.now, 5000);

    let status = status(&mut store, &queue, &uuid).unwrap();
    assert!(status == Status::LOST);
}

#[test]
fn lost_job_stops_a_falling_worker() {
    let mut store = Store::new();
    let queue = Queue::new("redis://localhost/", "fall");
    let uuid = enqueue(&mut store, &queue, None, 10);
    let (aborted, _) = work(
        &mut store, &queue, fn_ok_10000, Some(1), Some(2), Some(2), Some(5), None, Some(false),
    );
    assert_eq!(aborted, Some(Abort::Lost));
    assert!(status(&mut store, &queue, &uuid).unwrap() == Status::LOST);
}

#[test]
fn checks_are_spaced_by_frequency() {
    let mut store = Store::new();
    let queue = Queue::new("redis://localhost/", "freq");
    enqueue(&mut store, &queue, Some("a".to_string()), 10);
    let (_, sleeps) = work(
        &mut store, &queue, fn_ok_10000, Some(1), Some(1), Some(4), Some(5), Some(false), Some(false),
    );
    assert_eq!(sleeps, vec![250, 250, 250, 250]);
}

fn fn_ok_1(_: String, _: Vec<String>) -> (u64, Result<Option<String>, JobFailure>) {
    (1, Ok(Some("ok".to_string())))
}

fn fn_ok_500(_: String, _: Vec<String>) -> (u64, Result<Option<String>, JobFailure>) {
    (500, Ok(Some("ok".to_string())))
}

fn fn_ok_999(_: String, _: Vec<String>) -> (u64, Result<Option<String>, JobFailure>) {
    (999, Ok(Some("ok".to_string())))
}

fn fn_ok_1500(_: String, _: Vec<String>) -> (u64, Result<Option<String>, JobFailure>) {
    (1_500, Ok(Some("ok".to_string())))
}

fn fn_ok_2500(_: String, _: Vec<String>) -> (u64, Result<Option<String>, JobFailure>) {
    (2_500, Ok(Some("ok".to_string())))
}

#[test]
fn zero_timeout_checks_only_at_the_start() {
    let mut store = Store::new();
    let queue = Queue::new("redis://localhost/", "zero");
    enqueue(&mut store, &queue, Some("a".to_string()), 10);
    enqueue(&mut store, &queue, Some("b".to_string()), 10);
    let (aborted, sleeps) = work(
        &mut store, &queue, fn_echo_id, Some(1), Some(0), Some(1), Some(5), Some(false), Some(false),
    );
    assert!(aborted.is_none());
    assert!(sleeps.is_empty());
    assert!(status(&mut store, &queue, "a").unwrap() == Status::FINISHED(Some("a".to_string())));
    let (_, sleeps) = work(
        &mut store, &queue, fn_ok_1, Some(1), Some(0), Some(1), Some(5), Some(false), Some(false),
    );
    assert_eq!(sleeps, vec![0]);
    assert!(status(&mut store, &queue, "b").unwrap() == Status::LOST);
}

#[test]
fn answer_before_the_timeout_is_recorded() {
    let mut store = Store::new();
    let queue = Queue::new("redis://localhost/", "late");
    enqueue(&mut store, &queue, Some("a".to_string()), 10);
    let (aborted, sleeps) = work(
        &mut store, &queue, fn_ok_500, Some(1), Some(1), Some(1), Some(5), None, Some(false),
    );
    assert!(aborted.is_none());
    assert_eq!(sleeps, vec![1000]);
    assert!(status(&mut store, &queue, "a").unwrap() == Status::FINISHED(Some("ok".to_string())));
}

#[test]
fn pauses_cover_the_timeout_for_any_frequency() {
    let mut store = Store::new();
    let queue = Queue::new("redis://localhost/", "thirds");
    enqueue(&mut store, &queue, Some("a".to_string()), 10);
    let (_, sleeps) = work(
        &mut store, &queue, fn_ok_10000, Some(1), Some(1), Some(3), Some(5), Some(false), Some(false),
    );
    assert_eq!(sleeps, vec![333, 333, 334]);

    let queue = Queue::new("redis://localhost/", "fast");
    enqueue(&mut store, &queue, Some("b".to_string()), 10);
    let start = store.now;
    let (aborted, sleeps) = work(
        &mut store, &queue, fn_ok_999, Some(1), Some(1), Some(2000), Some(5), None, Some(false),
    );
    assert!(aborted.is_none());
    assert_eq!(sleeps.iter().sum::<u64>(), 999);
    assert_eq!(store.now - start, 999);
    assert!(status(&mut store, &queue, "b").unwrap() == Status::FINISHED(Some("ok".to_string())));
}

#[test]
fn no_checks_per_second_checks_at_the_timeout() {
    let mut store = Store::new();
    let queue = Queue::new("redis://localhost/", "slow");
    enqueue(&mut store, &queue, Some("a".to_string()), 10);
    enqueue(&mut store, &queue, Some("b".to_string()), 10);
    let (aborted, sleeps) = work(
        &mut store, &queue, fn_ok_1500, Some(1), Some(2), Some(0), Some(5), Some(false), Some(false),
    );
    assert!(aborted.is_none());
    assert_eq!(sleeps, vec![2000]);
    assert!(status(&mut store, &queue, "a").unwrap() == Status::FINISHED(Some("ok".to_string())));
    let (_, sleeps) = work(
        &mut store, &queue, fn_ok_2500, Some(1), Some(2), Some(0), Some(5), Some(false), Some(false),
    );
    assert_eq!(sleeps, vec![2000]);
    assert!(status(&mut store, &queue, "b").unwrap() == Status::LOST);
}

#[test]
fn infinite_worker_takes_every_job_then_falls_on_overflow() {
    let mut store = Store::new();
    let queue = Queue::new("redis://localhost/", "many");
    enqueue(&mut store, &queue, Some("a".to_string()), 10);
    enqueue(&mut store, &queue, Some("b".to_string()), 10);
    let mut worker = queue.work(Some(1), Some(5), Some(1), Some(5), Some(false), None);
    let mut done = Vec::new();
    let mut pops = 0;
    loop {
        let event = match worker.action() {
            WorkAction::Pop { key, timeout } => {
                pops += 1;
                if pops > 3 {
                    break;
                }
                WorkEvent::Popped(store.blpop(&key, timeout))
            }
            WorkAction::Fetch { key } => WorkEvent::Fetched(store.get(&key)),
            WorkAction::Start { key, job, seconds, id } => {
                assert!(job.status == Status::RUNNING(None));
                assert_eq!(seconds, 10);
                assert_eq!(key, format!("many:{}", id));
                store.set_ex(key, job.clone(), seconds);
                WorkEvent::Started
            }
            WorkAction::Poll => WorkEvent::Polled(Some(Ok(None))),
            WorkAction::Sleep { .. } => WorkEvent::Slept,
            WorkAction::Store { key, job, seconds } => {
                assert_eq!(seconds, 5);
                done.push(key.clone());
                store.set_ex(key, job.clone(), seconds);
                WorkEvent::Stored
            }
            WorkAction::Panic { .. } => unreachable!(),
            WorkAction::Finish => unreachable!(),
        };
        worker.step(event);
    }
    assert_eq!(done, vec!["many:a".to_string(), "many:b".to_string()]);
    assert!(status(&mut store, &queue, "b").unwrap() == Status::FINISHED(None));
}

#[test]
fn overflowing_durations_give_up_before_the_job_starts() {
    let mut store = Store::new();
    let queue = Queue::new("redis://localhost/", "big");
    enqueue(&mut store, &queue, Some("a".to_string()), 10);
    let (aborted, _) = work(
        &mut store, &queue, fn_echo_id, Some(1), Some(usize::MAX), Some(1), Some(1), Some(false), Some(false),
    );
    assert_eq!(aborted, Some(Abort::Overflow));
    assert!(status(&mut store, &queue, "a").unwrap() == Status::QUEUED);
}

#[test]
fn overflowing_checks_give_up_after_the_job_starts() {
    let mut store = Store::new();
    let queue = Queue::new("redis://localhost/", "many-checks");
    enqueue(&mut store, &queue, Some("a".to_string()), 10);
    let (aborted, _) = work(
        &mut store, &queue, fn_echo_id, Some(1), Some(usize::MAX / 2), Some(4), Some(1), Some(false), Some(false),
    );
    assert_eq!(aborted, Some(Abort::Overflow));
    assert!(status(&mut store, &queue, "a").unwrap() == Status::RUNNING(None));
}

#[test]
fn empty_pop_ends_a_single_run() {
    let mut store = Store::new();
    let queue = Queue::new("redis://localhost/", "empty");
    let (aborted, sleeps) = work(
        &mut store, &queue, fn_echo_id, Some(3), None, None, None, None, Some(false),
    );
    assert!(aborted.is_none());
    assert!(sleeps.is_empty());
    assert_eq!(store.now, 3000);
}

#[test]
fn expired_job_is_skipped_by_a_single_run() {
    let mut store = Store::new();
    let queue = Queue::new("redis://localhost/", "gone");
    enqueue(&mut store, &queue, Some("a".to_string()), 1);
    store.sleep(5000);
    let (aborted, _) = work(
        &mut store, &queue, fn_echo_id, Some(1), None, None, None, None, Some(false),
    );
    assert!(aborted.is_none());
    assert!(status(&mut store, &queue, "a").is_err());
}

#[test]
fn worker_passes_the_job_identifier() {
    let mut store = Store::new();
    let queue = Queue::new("redis://localhost/", "echo");
    enqueue(&mut store, &queue, Some("job-7".to_string()), 10);
    work(&mut store, &queue, fn_echo_id, Some(1), None, None, None, Some(false), Some(false));
    assert_eq!(result(&mut store, &queue, "job-7"), Ok(Some("job-7".to_string())));
}

#[test]
fn keys_of_a_queue() {
    let queue = Queue::new("redis://localhost/", "rjq");
    assert_eq!(queue.url(), "redis://localhost/");
    assert_eq!(queue.name(), "rjq");
    assert_eq!(queue.ids_key(), "rjq:ids");
    assert_eq!(queue.job_key("abc"), "rjq:abc");
    assert_eq!(queue.jobs_pattern(), "rjq:*");
    match queue.drop() {
        Command::Del { key } => assert_eq!(key, "rjq:ids"),
        _ => panic!("drop deletes"),
    }
}

#[test]
fn enqueue_with_an_identifier() {
    let queue = Queue::new("redis://localhost/", "rjq");
    let args = vec!["x".to_string(), "y".to_string()];
    let (id, commands) = queue.enqueue(Some("given".to_string()), args.clone(), 30, [7; 16]);
    assert_eq!(id, "given");
    assert_eq!(commands.len(), 2);
    match &commands[0] {
        Command::SetEx { key, job, seconds } => {
            assert_eq!(key, "rjq:given");
            assert_eq!(job.id, "given");
            assert!(job.status == Status::QUEUED);
            assert_eq!(job.args, args);
            assert_eq!(*seconds, 30);
        }
        _ => panic!("first the job is stored"),
    }
    match &commands[1] {
        Command::RPush { key, value } => {
            assert_eq!(key, "rjq:ids");
            assert_eq!(value, "given");
        }
        _ => panic!("then its identifier is pushed"),
    }
}

#[test]
fn enqueue_without_an_identifier_draws_a_uuid() {
    let queue = Queue::new("redis://localhost/", "rjq");
    let (id, commands) = queue.enqueue(None, vec![], 30, random_bytes());
    let (other, _) = queue.enqueue(None, vec![], 30, random_bytes());
    assert_ne!(id, other);
    let chars: Vec<char> = id.chars().collect();
    assert_eq!(chars.len(), 36);
    for (i, c) in chars.iter().enumerate() {
        if i == 8 || i == 13 || i == 18 || i == 23 {
            assert_eq!(*c, '-');
        } else {
            assert!(c.is_ascii_hexdigit() && !c.is_ascii_uppercase());
        }
    }
    assert_eq!(chars[14], '4');
    assert!("89ab".contains(chars[19]));
    match &commands[0] {
        Command::SetEx { key, job, .. } => {
            assert_eq!(*key, format!("rjq:{}", id));
            assert_eq!(job.id, id);
        }
        _ => panic!("first the job is stored"),
    }
}

#[test]
fn new_job_keeps_or_draws_its_identifier() {
    let job = Job::new(Some("mine".to_string()), vec!["a".to_string()], [0; 16]);
    assert_eq!(job.id, "mine");
    assert!(job.status == Status::QUEUED);
    assert_eq!(job.args, vec!["a".to_string()]);
    let drawn = Job::new(None, vec![], [0; 16]);
    assert_eq!(drawn.id, "00000000-0000-4000-8000-000000000000");
    let drawn = Job::new(None, vec![], [0xff; 16]);
    assert_eq!(drawn.id, "ffffffff-ffff-4fff-bfff-ffffffffffff");
    let bytes: [u8; 16] = [0, 1, 2, 3, 4, 5, 6, 7, 8, 9, 10, 11, 12, 13, 14, 15];
    let drawn = Job::new(None, vec![], bytes);
    assert_eq!(drawn.id, "00010203-0405-4607-8809-0a0b0c0d0e0f");
    let queue = Queue::new("redis://localhost/", "rjq");
    let (id, _) = queue.enqueue(None, vec![], 1, [0xa5; 16]);
    assert_eq!(id, "a5a5a5a5-a5a5-45a5-a5a5-a5a5a5a5a5a5");
}

fn job_with(status: Status) -> Job {
    Job { id: "j".to_string(), status, args: vec![] }
}

#[test]
fn result_of_every_status() {
    let queue = Queue::new("redis://localhost/", "rjq");
    assert_eq!(queue.result(job_with(Status::FINISHED(Some("out".to_string())))), Ok(Some("out".to_string())));
    assert_eq!(queue.result(job_with(Status::FINISHED(None))), Ok(None));
    assert_eq!(queue.result(job_with(Status::QUEUED)), Err(ErrorKind::JobQueued));
    assert_eq!(queue.result(job_with(Status::LOST)), Err(ErrorKind::JobLost));
    assert_eq!(queue.result(job_with(Status::RUNNING(None))), Err(ErrorKind::JobRunning));
    assert_eq!(
        queue.result(job_with(Status::FAILED { message: "m".to_string(), backtrace: "b".to_string() })),
        Err(ErrorKind::JobFailed { message: "m".to_string(), backtrace: "b".to_string() })
    );
    assert!(queue.status(job_with(Status::LOST)) == Status::LOST);
}

#[test]
fn outcome_to_status() {
    assert_eq!(Status::from_outcome(Ok(Some("x".to_string()))), Status::FINISHED(Some("x".to_string())));
    assert_eq!(Status::from_outcome(Ok(None)), Status::FINISHED(None));
    assert_eq!(
        Status::from_outcome(Err(JobFailure { message: "m".to_string(), backtrace: "b".to_string() })),
        Status::FAILED { message: "m".to_string(), backtrace: "b".to_string() }
    );
}

#[test]
fn configuration_defaults() {
    let config = WorkConfig::new(None, None, None, None, None, None);
    assert_eq!(
        (config.wait, config.timeout, config.freq, config.expire, config.fall, config.infinite),
        (10, 30, 1, 30, true, true)
    );
    let config = WorkConfig::new(Some(1), Some(2), Some(3), Some(4), Some(false), Some(false));
    assert_eq!(
        (config.wait, config.timeout, config.freq, config.expire, config.fall, config.infinite),
        (1, 2, 3, 4, false, false)
    );
    let worker = Queue::new("u", "q").work(None, Some(7), None, None, None, None);
    match worker.action() {
        WorkAction::Pop { key, timeout } => {
            assert_eq!(key, "q:ids");
            assert_eq!(timeout, 10);
        }
        _ => panic!("a new worker pops"),
    }
}

#[test]
fn stored_jobs_keeps_the_jobs_in_order() {
    let queue = Queue::new("redis://localhost/", "rjq");
    let jobs = queue.stored_jobs(vec![
        Some(job_with(Status::QUEUED)),
        None,
        Some(Job { id: "k".to_string(), status: Status::LOST, args: vec![] }),
        None,
    ]);
    assert_eq!(jobs.len(), 2);
    assert_eq!(jobs[0].id, "j");
    assert_eq!(jobs[1].id, "k");
    assert!(queue.stored_jobs(vec![None, None]).is_empty());
}

#[test]
fn unexpected_events_leave_the_worker_where_it_is() {
    let queue = Queue::new("redis://localhost/", "q");
    let mut worker = queue.work(Some(2), None, None, None, None, Some(false));
    worker.step(WorkEvent::Slept);
    worker.step(WorkEvent::Stored);
    match worker.action() {
        WorkAction::Pop { key, timeout } => {
            assert_eq!(key, "q:ids");
            assert_eq!(timeout, 2);
        }
        _ => panic!("still popping"),
    }
    worker.step(WorkEvent::Popped(vec!["q:ids".to_string(), "a".to_string()]));
    match worker.action() {
        WorkAction::Fetch { key } => assert_eq!(key, "q:a"),
        _ => panic!("fetching"),
    }
}
