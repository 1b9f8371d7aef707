//! The worker: the decisions of the loop that takes jobs off a queue, runs
//! them and records how they ended.
//!
//! The worker is a state machine. `Worker::action` says what to do next
//! (pop an identifier, fetch a job, start it, poll for its outcome, sleep,
//! store it, or stop); the caller does it and reports what happened with
//! `Worker::step`.
use vstd::prelude::*;
use crate::job::{outcome_status, Job, JobFailure, Status};
use crate::keys::{ids_key_spec, job_key_spec};
use crate::queue::Queue;

verus! {

/// How a worker works.
#[derive(Clone, Copy, Debug)]
pub struct WorkConfig {
    /// Seconds to wait for one pop of an identifier.
    pub wait: usize,
    /// Seconds a job may run: a job that has not ended by the check made
    /// this long after its start is marked lost.
    pub timeout: usize,
    /// Checks of a running job per second, besides the check at its start;
    /// with none, the job is checked at its start and after `timeout`
    /// seconds only.
    pub freq: usize,
    /// Seconds a finished job's record is kept.
    pub expire: usize,
    /// Whether a lost job stops the process.
    pub fall: bool,
    /// Whether to go on with the next job after one is done.
    pub infinite: bool,
}

/// `value`, or `default` when there is none.
pub open spec fn or_default<T>(value: Option<T>, default: T) -> T {
    match value {
        Some(v) => v,
        None => default,
    }
}

/// The configuration with the given settings, each defaulting when absent:
/// wait 10, timeout 30, freq 1, expire 30, fall true, infinite true.
pub open spec fn config_of(
    wait: Option<usize>,
    timeout: Option<usize>,
    freq: Option<usize>,
    expire: Option<usize>,
    fall: Option<bool>,
    infinite: Option<bool>,
) -> WorkConfig {
    WorkConfig {
        wait: or_default(wait, 10),
        timeout: or_default(timeout, 30),
        freq: or_default(freq, 1),
        expire: or_default(expire, 30),
        fall: or_default(fall, true),
        infinite: or_default(infinite, true),
    }
}

impl WorkConfig {
    /// The configuration with the given settings, each defaulting when
    /// absent: wait 10, timeout 30, freq 1, expire 30, fall true,
    /// infinite true.
    pub fn new(
        wait: Option<usize>,
        timeout: Option<usize>,
        freq: Option<usize>,
        expire: Option<usize>,
        fall: Option<bool>,
        infinite: Option<bool>,
    ) -> (config: WorkConfig)
        ensures
            config == config_of(wait, timeout, freq, expire, fall, infinite),
            (wait is None ==> config.wait == 10),
            (wait matches Some(w) ==> config.wait == w),
            (timeout is None ==> config.timeout == 30),
            (timeout matches Some(t) ==> config.timeout == t),
            (freq is None ==> config.freq == 1),
            (freq matches Some(f) ==> config.freq == f),
            (expire is None ==> config.expire == 30),
            (expire matches Some(e) ==> config.expire == e),
            (fall is None ==> config.fall),
            (fall matches Some(b) ==> config.fall == b),
            (infinite is None ==> config.infinite),
            (infinite matches Some(b) ==> config.infinite == b),
    {
        WorkConfig {
            wait: wait.unwrap_or(10),
            timeout: timeout.unwrap_or(30),
            freq: freq.unwrap_or(1),
            expire: expire.unwrap_or(30),
            fall: fall.unwrap_or(true),
            infinite: infinite.unwrap_or(true),
        }
    }
}

/// Why a worker gives up the process.
#[derive(Clone, Copy, Debug, PartialEq, Eq)]
pub enum Abort {
    /// A job was lost and the worker is set to fall.
    Lost,
    /// `timeout + expire`, or `timeout * freq`, does not fit in a `usize`.
    Overflow,
}

/// Where a worker stands.
pub enum Phase {
    /// Waiting for the identifier of the next job.
    Popping,
    /// Reading the job `id`.
    Fetching { id: String },
    /// Marking the job `id` as running and starting its function.
    Starting { id: String, job: Job },
    /// Checking whether the job's function is done, after `done` pauses.
    Polling { id: String, job: Job, done: usize },
    /// Taking the pause that follows the check made after `done` pauses.
    Sleeping { id: String, job: Job, done: usize },
    /// Recording how the job ended.
    Storing { id: String, job: Job },
    /// Giving up the process.
    Aborted { reason: Abort },
    /// Done: the work returns.
    Stopped,
}

/// What happened after the worker's last action.
pub enum WorkEvent {
    /// The pop returned these values: the list's key and an identifier, or
    /// nothing when the wait ran out.
    Popped(Vec<String>),
    /// The job read: none when the read failed.
    Fetched(Option<Job>),
    /// The job was marked running and its function started.
    Started,
    /// The check found how the job's function ended, or nothing when it
    /// has not ended yet.
    Polled(Option<Result<Option<String>, JobFailure>>),
    /// The pause is over.
    Slept,
    /// The job's record was written.
    Stored,
}

/// What the worker asks for next.
pub enum WorkAction<'a> {
    /// Pop the first identifier of the list at `key`, waiting at most
    /// `timeout` seconds.
    Pop { key: String, timeout: usize },
    /// Read the job stored at `key`.
    Fetch { key: String },
    /// Store `job` at `key` for `seconds` seconds, then run the job's
    /// function on `id` and the job's arguments.
    Start { key: String, job: &'a Job, seconds: usize, id: &'a String },
    /// See whether the job's function has sent its status.
    Poll,
    /// Pause for `millis` milliseconds.
    Sleep { millis: u128 },
    /// Store `job` at `key` for `seconds` seconds.
    Store { key: String, job: &'a Job, seconds: usize },
    /// Give up the process.
    Panic { reason: Abort },
    /// Return: the work is done.
    Finish,
}

/// `timeout * freq`: the checks per second over the timeout.
pub open spec fn checks(config: WorkConfig) -> int {
    config.timeout * config.freq
}

/// The number of pauses between the start of a job and its last check:
/// `timeout * freq`, or a single one when that is zero. A check is made
/// before the first pause and after each pause.
pub open spec fn pauses(config: WorkConfig) -> int {
    if checks(config) == 0 {
        1
    } else {
        checks(config)
    }
}

/// The milliseconds from the start of a job to the check made after `k`
/// pauses: `k * 1000 / freq`, rounded down, or `k * timeout * 1000` when
/// there is a single pause. After the last pause it is exactly
/// `timeout * 1000`.
pub open spec fn elapsed(config: WorkConfig, k: int) -> int {
    if checks(config) == 0 {
        k * config.timeout * 1000
    } else {
        k * 1000 / (config.freq as int)
    }
}

/// The length in milliseconds of the pause taken after `k` pauses.
pub open spec fn pause(config: WorkConfig, k: int) -> int {
    elapsed(config, k + 1) - elapsed(config, k)
}

/// Whether the worker can count its checks in a machine word: `timeout *
/// freq` fits in a `usize`.
pub open spec fn timing_fits(config: WorkConfig) -> bool {
    checks(config) <= usize::MAX
}

/// Every pause fits in a `u128` of milliseconds, and none is longer than a
/// second when there is at least one check per second.
pub proof fn lemma_pause_fits(config: WorkConfig, k: int)
    requires
        timing_fits(config),
        0 <= k < pauses(config),
    ensures
        0 <= pause(config, k) <= u128::MAX,
        checks(config) > 0 ==> config.freq >= 1 && pause(config, k) <= 1000,
        checks(config) == 0 ==> k == 0 && pause(config, k) == config.timeout * 1000,
{
    if checks(config) == 0 {
        assert(1 * config.timeout * 1000 == config.timeout * 1000);
    } else {
        lemma_freq_positive(config);
        let f = config.freq as int;
        let a = k * 1000;
        assert((k + 1) * 1000 == a + 1000);
        vstd::arithmetic::div_mod::lemma_div_is_ordered(a, a + 1000, f);
        vstd::arithmetic::mul::lemma_mul_inequality(1, f, 1000);
        vstd::arithmetic::div_mod::lemma_div_is_ordered(a + 1000, a + 1000 * f, f);
        vstd::arithmetic::div_mod::lemma_hoist_over_denominator(a, 1000, f as nat);
    }
}

/// At least one check per second when `timeout * freq` is not zero.
pub proof fn lemma_freq_positive(config: WorkConfig)
    requires
        checks(config) != 0,
    ensures
        config.freq >= 1,
{
    if config.freq == 0 {
        assert(config.timeout * config.freq == 0) by (nonlinear_arith)
            requires
                config.freq == 0,
        ;
    }
}

/// The phase after the pop, the read or the record, when no job goes on:
/// the next pop, or the end when the worker does not go on.
pub open spec fn after_job(config: WorkConfig) -> Phase {
    if config.infinite {
        Phase::Popping
    } else {
        Phase::Stopped
    }
}

/// `job` with status `status`.
pub open spec fn with_status(job: Job, status: Status) -> Job {
    Job { status: status, ..job }
}

/// Where the worker goes from `phase` when `event` happens. An event that
/// does not answer the phase's action leaves the phase as it is.
pub open spec fn next_phase(config: WorkConfig, phase: Phase, event: WorkEvent) -> Phase {
    match phase {
        Phase::Popping => match event {
            WorkEvent::Popped(values) => if values@.len() < 2 {
                after_job(config)
            } else {
                Phase::Fetching { id: values@[1] }
            },
            _ => phase,
        },
        Phase::Fetching { id } => match event {
            WorkEvent::Fetched(None) => after_job(config),
            WorkEvent::Fetched(Some(job)) => if config.timeout + config.expire > usize::MAX {
                Phase::Aborted { reason: Abort::Overflow }
            } else {
                Phase::Starting { id, job: with_status(job, Status::RUNNING(None)) }
            },
            _ => phase,
        },
        Phase::Starting { id, job } => match event {
            WorkEvent::Started => if timing_fits(config) {
                Phase::Polling { id, job, done: 0 }
            } else {
                Phase::Aborted { reason: Abort::Overflow }
            },
            _ => phase,
        },
        Phase::Polling { id, job, done } => match event {
            WorkEvent::Polled(Some(outcome)) => Phase::Storing {
                id,
                job: with_status(job, outcome_status(outcome)),
            },
            WorkEvent::Polled(None) => if done >= pauses(config) {
                Phase::Storing { id, job: with_status(job, Status::LOST) }
            } else {
                Phase::Sleeping { id, job, done }
            },
            _ => phase,
        },
        Phase::Sleeping { id, job, done } => match event {
            WorkEvent::Slept => Phase::Polling { id, job, done: (done + 1) as usize },
            _ => phase,
        },
        Phase::Storing { id, job } => match event {
            WorkEvent::Stored => if config.fall && job.status is LOST {
                Phase::Aborted { reason: Abort::Lost }
            } else {
                after_job(config)
            },
            _ => phase,
        },
        Phase::Aborted { .. } => phase,
        Phase::Stopped => phase,
    }
}

/// The statuses a job is recorded with when the worker is done with it.
pub open spec fn is_record_status(status: Status) -> bool {
    status is FINISHED || status is FAILED || status is LOST
}

/// What holds of a phase the worker can be in.
pub open spec fn phase_wf(config: WorkConfig, phase: Phase) -> bool {
    match phase {
        Phase::Starting { job, .. } => config.timeout + config.expire <= usize::MAX
            && job.status == Status::RUNNING(None),
        Phase::Polling { job, done, .. } => timing_fits(config) && done <= pauses(config)
            && job.status == Status::RUNNING(None),
        Phase::Sleeping { job, done, .. } => timing_fits(config) && done < pauses(config)
            && job.status == Status::RUNNING(None),
        Phase::Storing { job, .. } => is_record_status(job.status),
        _ => true,
    }
}

/// Every step keeps the worker in a phase it can reach: a job being started
/// is running with no output, a job being checked or paused on is running,
/// and a job being recorded is finished, failed or lost.
pub proof fn lemma_step_keeps_wf(config: WorkConfig, phase: Phase, event: WorkEvent)
    requires
        phase_wf(config, phase),
    ensures
        phase_wf(config, next_phase(config, phase, event)),
{
}

/// The action a worker of queue `name` asks for in `phase`.
pub open spec fn action_spec(
    name: Seq<char>,
    config: WorkConfig,
    phase: Phase,
    action: WorkAction,
) -> bool {
    match phase {
        Phase::Popping => action matches WorkAction::Pop { key, timeout } && key@ == ids_key_spec(
            name,
        ) && timeout == config.wait,
        Phase::Fetching { id } => action matches WorkAction::Fetch { key } && key@ == job_key_spec(
            name,
            id@,
        ),
        Phase::Starting { id, job } => action matches WorkAction::Start {
            key,
            job: started,
            seconds,
            id: given,
        } && key@ == job_key_spec(name, id@) && *started == job && seconds == config.timeout
            + config.expire && *given == id,
        Phase::Polling { .. } => action is Poll,
        Phase::Sleeping { done, .. } => action matches WorkAction::Sleep { millis } && millis
            == pause(config, done as int),
        Phase::Storing { id, job } => action matches WorkAction::Store { key, job: stored, seconds }
            && key@ == job_key_spec(name, id@) && *stored == job && seconds == config.expire,
        Phase::Aborted { reason } => action matches WorkAction::Panic { reason: given } && given
            == reason,
        Phase::Stopped => action is Finish,
    }
}

/// A worker of a queue.
pub struct Worker {
    queue: Queue,
    config: WorkConfig,
    phase: Phase,
}

impl Worker {
    /// The name of the worker's queue.
    pub closed spec fn name(&self) -> Seq<char> {
        self.queue@.name
    }

    /// The worker's configuration.
    pub closed spec fn config(&self) -> WorkConfig {
        self.config
    }

    /// Where the worker stands.
    pub closed spec fn phase(&self) -> Phase {
        self.phase
    }

    /// Whether the worker is in a phase it can reach.
    pub open spec fn wf(&self) -> bool {
        phase_wf(self.config(), self.phase())
    }

    /// A worker of `queue` with `config`, about to pop its first job.
    pub fn new(queue: &Queue, config: WorkConfig) -> (worker: Worker)
        ensures
            worker.name() == queue@.name,
            worker.config() == config,
            worker.phase() == Phase::Popping,
            worker.wf(),
    {
        Worker { queue: Queue::new(queue.url(), queue.name()), config, phase: Phase::Popping }
    }

    /// What the worker asks for next.
    pub fn action(&self) -> (action: WorkAction<'_>)
        requires
            self.wf(),
        ensures
            action_spec(self.name(), self.config(), self.phase(), action),
            (self.phase() is Popping ==> (action matches WorkAction::Pop { key, timeout } && key@
                == ids_key_spec(self.name()) && timeout == self.config().wait)),
            (self.phase() matches Phase::Starting { id, job } ==> (action matches WorkAction::Start {
                key,
                job: started,
                seconds,
                id: given,
            } && key@ == job_key_spec(self.name(), id@) && started.status == Status::RUNNING(None)
                && started.id == job.id && started.args == job.args && seconds
                == self.config().timeout + self.config().expire && *given == id)),
            (self.phase() matches Phase::Storing { id, job } ==> (action matches WorkAction::Store {
                key,
                job: stored,
                seconds,
            } && key@ == job_key_spec(self.name(), id@) && *stored == job && seconds
                == self.config().expire)),
    {
        match &self.phase {
            Phase::Popping => WorkAction::Pop { key: self.queue.ids_key(), timeout: self.config.wait },
            Phase::Fetching { id } => WorkAction::Fetch { key: self.queue.job_key(id.as_str()) },
            Phase::Starting { id, job } => WorkAction::Start {
                key: self.queue.job_key(id.as_str()),
                job,
                seconds: self.config.timeout + self.config.expire,
                id,
            },
            Phase::Polling { .. } => WorkAction::Poll,
            Phase::Sleeping { done, .. } => {
                let c = self.config;
                proof {
                    lemma_pause_fits(c, *done as int);
                }
                let n = c.timeout * c.freq;
                let millis: u128 = if n == 0 {
                    (c.timeout as u128) * 1000
                } else {
                    let f = c.freq as u128;
                    let d = *done as u128;
                    (d + 1) * 1000 / f - d * 1000 / f
                };
                WorkAction::Sleep { millis }
            },
            Phase::Storing { id, job } => WorkAction::Store {
                key: self.queue.job_key(id.as_str()),
                job,
                seconds: self.config.expire,
            },
            Phase::Aborted { reason } => WorkAction::Panic { reason: *reason },
            Phase::Stopped => WorkAction::Finish,
        }
    }

    /// Move on after `event`, the answer to the last action.
    pub fn step(&mut self, event: WorkEvent)
        requires
            old(self).wf(),
        ensures
            final(self).wf(),
            final(self).name() == old(self).name(),
            final(self).config() == old(self).config(),
            final(self).phase() == next_phase(old(self).config(), old(self).phase(), event),
    {
        let mut phase = Phase::Stopped;
        std::mem::swap(&mut phase, &mut self.phase);
        self.phase = advance(self.config, phase, event);
    }
}

/// Where the worker goes from `phase` when `event` happens.
fn advance(config: WorkConfig, phase: Phase, event: WorkEvent) -> (next: Phase)
    requires
        phase_wf(config, phase),
    ensures
        next == next_phase(config, phase, event),
        phase_wf(config, next),
{
    match phase {
        Phase::Popping => match event {
            WorkEvent::Popped(mut values) => {
                if values.len() < 2 {
                    after_job_exec(config)
                } else {
                    Phase::Fetching { id: values.swap_remove(1) }
                }
            },
            _ => Phase::Popping,
        },
        Phase::Fetching { id } => match event {
            WorkEvent::Fetched(None) => after_job_exec(config),
            WorkEvent::Fetched(Some(job)) => match config.timeout.checked_add(config.expire) {
                None => Phase::Aborted { reason: Abort::Overflow },
                Some(_) => Phase::Starting {
                    id,
                    job: Job { status: Status::RUNNING(None), ..job },
                },
            },
            _ => Phase::Fetching { id },
        },
        Phase::Starting { id, job } => match event {
            WorkEvent::Started => match config.timeout.checked_mul(config.freq) {
                None => Phase::Aborted { reason: Abort::Overflow },
                Some(_) => Phase::Polling { id, job, done: 0 },
            },
            _ => Phase::Starting { id, job },
        },
        Phase::Polling { id, job, done } => match event {
            WorkEvent::Polled(Some(outcome)) => Phase::Storing {
                id,
                job: Job { status: Status::from_outcome(outcome), ..job },
            },
            WorkEvent::Polled(None) => {
                let n = config.timeout * config.freq;
                let total: usize = if n == 0 {
                    1
                } else {
                    n
                };
                if done >= total {
                    Phase::Storing { id, job: Job { status: Status::LOST, ..job } }
                } else {
                    Phase::Sleeping { id, job, done }
                }
            },
            _ => Phase::Polling { id, job, done },
        },
        Phase::Sleeping { id, job, done } => match event {
            WorkEvent::Slept => Phase::Polling { id, job, done: done + 1 },
            _ => Phase::Sleeping { id, job, done },
        },
        Phase::Storing { id, job } => match event {
            WorkEvent::Stored => {
                let lost = match &job.status {
                    Status::LOST => true,
                    _ => false,
                };
                if config.fall && lost {
                    Phase::Aborted { reason: Abort::Lost }
                } else {
                    after_job_exec(config)
                }
            },
            _ => Phase::Storing { id, job },
        },
        Phase::Aborted { reason } => Phase::Aborted { reason },
        Phase::Stopped => Phase::Stopped,
    }
}

/// The phase after a job, or after a pop or read that gave none.
fn after_job_exec(config: WorkConfig) -> (phase: Phase)
    ensures
        phase == after_job(config),
{
    if config.infinite {
        Phase::Popping
    } else {
        Phase::Stopped
    }
}

impl Queue {
    /// Work on the queue: a worker with the given settings, each defaulting
    /// when absent (wait 10, timeout 30, freq 1, expire 30, fall true,
    /// infinite true), about to pop its first job.
    pub fn work(
        &self,
        wait: Option<usize>,
        timeout: Option<usize>,
        freq: Option<usize>,
        expire: Option<usize>,
        fall: Option<bool>,
        infinite: Option<bool>,
    ) -> (worker: Worker)
        ensures
            worker.name() == self@.name,
            worker.config() == config_of(wait, timeout, freq, expire, fall, infinite),
            (wait is None ==> worker.config().wait == 10),
            (wait matches Some(w) ==> worker.config().wait == w),
            (timeout is None ==> worker.config().timeout == 30),
            (timeout matches Some(t) ==> worker.config().timeout == t),
            (freq is None ==> worker.config().freq == 1),
            (freq matches Some(f) ==> worker.config().freq == f),
            (expire is None ==> worker.config().expire == 30),
            (expire matches Some(e) ==> worker.config().expire == e),
            (fall is None ==> worker.config().fall),
            (fall matches Some(b) ==> worker.config().fall == b),
            (infinite is None ==> worker.config().infinite),
            (infinite matches Some(b) ==> worker.config().infinite == b),
            worker.phase() == Phase::Popping,
            worker.wf(),
    {
        Worker::new(self, WorkConfig::new(wait, timeout, freq, expire, fall, infinite))
    }
}

} // verus!
