//! What holds of the worker across its steps.
use vstd::prelude::*;
use crate::errors::ErrorKind;
use crate::job::{outcome_status, Job, JobFailure, Status};
use crate::keys::job_key_spec;
use crate::keys::ids_key_spec;
use crate::queue::result_spec;
use crate::worker::{
    action_spec,
    checks,
    config_of,
    elapsed,
    lemma_freq_positive,
    lemma_step_keeps_wf,
    next_phase,
    pauses,
    phase_wf,
    timing_fits,
    with_status,
    Abort,
    Phase,
    WorkAction,
    WorkConfig,
    WorkEvent,
};

verus! {

/// The phase a worker reaches from `phase` through `events`, one step each.
pub open spec fn run(config: WorkConfig, phase: Phase, events: Seq<WorkEvent>) -> Phase
    decreases events.len(),
{
    if events.len() == 0 {
        phase
    } else {
        run(config, next_phase(config, phase, events[0]), events.drop_first())
    }
}

/// `n` checks that find nothing, each followed by its pause.
pub open spec fn idle_checks(n: nat) -> Seq<WorkEvent>
    decreases n,
{
    if n == 0 {
        Seq::empty()
    } else {
        seq![WorkEvent::Polled(None), WorkEvent::Slept] + idle_checks((n - 1) as nat)
    }
}

/// The events of taking a job: the pop that returned `values`, the read
/// that returned `job`, and the start of its function.
pub open spec fn taking(values: Vec<String>, job: Job) -> Seq<WorkEvent> {
    seq![WorkEvent::Popped(values), WorkEvent::Fetched(Some(job)), WorkEvent::Started]
}

/// How far a worker has got with its current job: waiting for one, reading
/// it, starting it, checking on it, recording it, done.
pub open spec fn stage(phase: Phase) -> int {
    match phase {
        Phase::Popping => 0,
        Phase::Fetching { .. } => 1,
        Phase::Starting { .. } => 2,
        Phase::Polling { .. } => 3,
        Phase::Sleeping { .. } => 3,
        Phase::Storing { .. } => 4,
        Phase::Aborted { .. } => 5,
        Phase::Stopped => 5,
    }
}

/// Whether the worker, in `phase`, is handling the job `id`, read as `job`:
/// same identifier, same arguments.
pub open spec fn holds_job(phase: Phase, id: String, job: Job) -> bool {
    match phase {
        Phase::Starting { id: i, job: j } => i == id && j.id == job.id && j.args == job.args,
        Phase::Polling { id: i, job: j, .. } => i == id && j.id == job.id && j.args == job.args,
        Phase::Sleeping { id: i, job: j, .. } => i == id && j.id == job.id && j.args == job.args,
        Phase::Storing { id: i, job: j } => i == id && j.id == job.id && j.args == job.args,
        _ => false,
    }
}

/// The result of a stored job, whatever its identifier and arguments: its
/// output when it finished, the failure when it failed, and otherwise that it
/// is still queued, was lost, or is still running.
pub proof fn lemma_result_by_status(job: Job)
    ensures
        job.status == Status::QUEUED ==> result_spec(job) == Err::<Option<String>, ErrorKind>(
            ErrorKind::JobQueued,
        ),
        job.status == Status::LOST ==> result_spec(job) == Err::<Option<String>, ErrorKind>(
            ErrorKind::JobLost,
        ),
        job.status is RUNNING ==> result_spec(job) == Err::<Option<String>, ErrorKind>(
            ErrorKind::JobRunning,
        ),
        (job.status matches Status::FINISHED(output) ==> result_spec(job) == Ok::<
            Option<String>,
            ErrorKind,
        >(output)),
        (job.status matches Status::FAILED { message, backtrace } ==> result_spec(job) == Err::<
            Option<String>,
            ErrorKind,
        >(ErrorKind::JobFailed { message, backtrace })),
{
}

/// Each setting of a worker is its own argument when given, and its own
/// default otherwise, whatever the other settings are: wait 10, timeout 30,
/// freq 1, expire 30, fall true, infinite true.
pub proof fn lemma_config_settings(
    wait: Option<usize>,
    timeout: Option<usize>,
    freq: Option<usize>,
    expire: Option<usize>,
    fall: Option<bool>,
    infinite: Option<bool>,
)
    ensures
        ({
            let config = config_of(wait, timeout, freq, expire, fall, infinite);
            &&& config.wait == match wait {
                Some(w) => w,
                None => 10,
            }
            &&& config.timeout == match timeout {
                Some(t) => t,
                None => 30,
            }
            &&& config.freq == match freq {
                Some(f) => f,
                None => 1,
            }
            &&& config.expire == match expire {
                Some(e) => e,
                None => 30,
            }
            &&& config.fall == match fall {
                Some(b) => b,
                None => true,
            }
            &&& config.infinite == match infinite {
                Some(b) => b,
                None => true,
            }
        }),
{
}

/// What a worker of queue `name` asks for, phase by phase: it pops from the
/// queue's list, waiting `wait` seconds; it reads a job at its key; it marks
/// the job running with no output, keeping its identifier and arguments, for
/// `timeout + expire` seconds, and runs it on its identifier; it checks; it
/// pauses for the time to the next check; it records the job for `expire`
/// seconds; it gives up; or it returns.
pub proof fn lemma_action_by_phase(
    name: Seq<char>,
    config: WorkConfig,
    phase: Phase,
    action: WorkAction,
)
    requires
        phase_wf(config, phase),
        action_spec(name, config, phase, action),
    ensures
        (phase is Popping ==> (action matches WorkAction::Pop { key, timeout } && key@
            == ids_key_spec(name) && timeout == config.wait)),
        (phase matches Phase::Fetching { id } ==> (action matches WorkAction::Fetch { key } && key@
            == job_key_spec(name, id@))),
        (phase matches Phase::Starting { id, job } ==> (action matches WorkAction::Start {
            key,
            job: started,
            seconds,
            id: given,
        } && key@ == job_key_spec(name, id@) && started.status == Status::RUNNING(None)
            && started.id == job.id && started.args == job.args && seconds == config.timeout
            + config.expire && seconds >= config.timeout && *given == id)),
        (phase is Polling ==> action is Poll),
        (phase matches Phase::Sleeping { done, .. } ==> (action matches WorkAction::Sleep { millis }
            && millis == elapsed(config, done + 1) - elapsed(config, done as int))),
        (phase matches Phase::Storing { id, job } ==> (action matches WorkAction::Store {
            key,
            job: stored,
            seconds,
        } && key@ == job_key_spec(name, id@) && *stored == job && seconds == config.expire)),
        (phase matches Phase::Aborted { reason } ==> (action matches WorkAction::Panic { reason: r }
            && r == reason)),
        (phase is Stopped ==> action is Finish),
{
}

/// An identifier popped off the list of queue `name` is read at the key the
/// job of that identifier is stored under when it is enqueued.
pub proof fn lemma_popped_job_is_read_where_enqueued(
    name: Seq<char>,
    config: WorkConfig,
    values: Vec<String>,
    action: WorkAction,
)
    requires
        values@.len() >= 2,
        action_spec(name, config, next_phase(config, Phase::Popping, WorkEvent::Popped(values)), action),
    ensures
        action matches WorkAction::Fetch { key } && key@ == job_key_spec(name, values@[1]@),
{
}

/// Running through `a` and then `b` is running through `a + b`.
pub proof fn lemma_run_append(config: WorkConfig, phase: Phase, a: Seq<WorkEvent>, b: Seq<WorkEvent>)
    ensures
        run(config, phase, a + b) == run(config, run(config, phase, a), b),
    decreases a.len(),
{
    if a.len() == 0 {
        assert(a + b =~= b);
    } else {
        assert((a + b).drop_first() =~= a.drop_first() + b);
        lemma_run_append(config, next_phase(config, phase, a[0]), a.drop_first(), b);
    }
}

/// Running through a single event is one step.
proof fn lemma_run_one(config: WorkConfig, phase: Phase, event: WorkEvent)
    ensures
        run(config, phase, seq![event]) == next_phase(config, phase, event),
{
    let next = next_phase(config, phase, event);
    assert(seq![event][0] == event);
    assert(seq![event].drop_first() =~= Seq::<WorkEvent>::empty());
    assert(run(config, next, Seq::<WorkEvent>::empty()) == next);
    assert(run(config, phase, seq![event]) == run(config, next, seq![event].drop_first()));
}

/// One check that finds nothing and its pause, before the last check.
proof fn lemma_one_idle_check(
    config: WorkConfig,
    id: String,
    job: Job,
    done: usize,
    rest: Seq<WorkEvent>,
)
    requires
        done < pauses(config),
    ensures
        run(config, (Phase::Polling { id, job, done }), seq![WorkEvent::Polled(None), WorkEvent::Slept] + rest)
            == run(config, (Phase::Polling { id, job, done: (done + 1) as usize }), rest),
{
    let events = seq![WorkEvent::Polled(None), WorkEvent::Slept] + rest;
    let later = seq![WorkEvent::Slept] + rest;
    let polling = Phase::Polling { id, job, done };
    let sleeping = Phase::Sleeping { id, job, done };
    assert(events[0] == WorkEvent::Polled(None));
    assert(events.drop_first() =~= later);
    assert(later[0] == WorkEvent::Slept);
    assert(later.drop_first() =~= rest);
    assert(next_phase(config, polling, WorkEvent::Polled(None)) == sleeping);
    assert(run(config, polling, events) == run(config, sleeping, later));
}

/// Checks that find nothing, each followed by its pause, move the worker on
/// by as many pauses.
proof fn lemma_idle_checks(config: WorkConfig, id: String, job: Job, done: usize, k: nat)
    requires
        timing_fits(config),
        done + k <= pauses(config),
    ensures
        run(config, (Phase::Polling { id, job, done }), idle_checks(k)) == (Phase::Polling {
            id,
            job,
            done: (done + k) as usize,
        }),
    decreases k,
{
    if k == 0 {
        assert(idle_checks(0) =~= Seq::<WorkEvent>::empty());
    } else {
        lemma_one_idle_check(config, id, job, done, idle_checks((k - 1) as nat));
        lemma_idle_checks(config, id, job, (done + 1) as usize, (k - 1) as nat);
    }
}

/// Taking a job: the pop of `values`, whose second value is the job's
/// identifier, and the read of the job lead the worker to mark the job
/// running, keeping its identifier and arguments.
pub proof fn lemma_fetched_job_is_started(config: WorkConfig, values: Vec<String>, job: Job)
    requires
        values@.len() >= 2,
        config.timeout + config.expire <= usize::MAX,
    ensures
        run(config, Phase::Popping, seq![WorkEvent::Popped(values), WorkEvent::Fetched(Some(job))])
            == (Phase::Starting { id: values@[1], job: with_status(job, Status::RUNNING(None)) }),
{
    let events = seq![WorkEvent::Popped(values), WorkEvent::Fetched(Some(job))];
    let later = seq![WorkEvent::Fetched(Some(job))];
    let fetching = Phase::Fetching { id: values@[1] };
    assert(events[0] == WorkEvent::Popped(values));
    assert(events.drop_first() =~= later);
    assert(next_phase(config, Phase::Popping, WorkEvent::Popped(values)) == fetching);
    lemma_run_one(config, fetching, WorkEvent::Fetched(Some(job)));
}

/// Taking a job leaves the worker checking on it, no pause taken yet.
proof fn lemma_taking(config: WorkConfig, values: Vec<String>, job: Job)
    requires
        values@.len() >= 2,
        config.timeout + config.expire <= usize::MAX,
        timing_fits(config),
    ensures
        run(config, Phase::Popping, taking(values, job)) == (Phase::Polling {
            id: values@[1],
            job: with_status(job, Status::RUNNING(None)),
            done: 0,
        }),
{
    let first = seq![WorkEvent::Popped(values), WorkEvent::Fetched(Some(job))];
    assert(taking(values, job) =~= first + seq![WorkEvent::Started]);
    lemma_run_append(config, Phase::Popping, first, seq![WorkEvent::Started]);
    lemma_fetched_job_is_started(config, values, job);
    lemma_run_one(
        config,
        Phase::Starting { id: values@[1], job: with_status(job, Status::RUNNING(None)) },
        WorkEvent::Started,
    );
}

/// A job taken off the queue whose function has not ended at any check,
/// the last of them made `timeout` seconds after the start, is recorded as
/// lost, with its identifier and arguments kept.
pub proof fn lemma_unanswered_job_is_lost(config: WorkConfig, values: Vec<String>, job: Job)
    requires
        values@.len() >= 2,
        config.timeout + config.expire <= usize::MAX,
        timing_fits(config),
    ensures
        run(
            config,
            Phase::Popping,
            taking(values, job) + idle_checks(pauses(config) as nat) + seq![WorkEvent::Polled(None)],
        ) == (Phase::Storing { id: values@[1], job: with_status(job, Status::LOST) }),
{
    let id = values@[1];
    let running = with_status(job, Status::RUNNING(None));
    let n = pauses(config) as nat;
    lemma_taking(config, values, job);
    lemma_run_append(config, Phase::Popping, taking(values, job), idle_checks(n));
    lemma_run_append(
        config,
        Phase::Popping,
        taking(values, job) + idle_checks(n),
        seq![WorkEvent::Polled(None)],
    );
    lemma_idle_checks(config, id, running, 0, n);
    lemma_run_one(config, Phase::Polling { id, job: running, done: n as usize }, WorkEvent::Polled(None));
    assert(with_status(running, Status::LOST) == with_status(job, Status::LOST));
}

/// A job taken off the queue whose function has ended by the check made
/// after `k` pauses, the last check included, is recorded with how the
/// function ended, with its identifier and arguments kept.
pub proof fn lemma_answered_job_is_recorded(
    config: WorkConfig,
    values: Vec<String>,
    job: Job,
    k: nat,
    outcome: Result<Option<String>, JobFailure>,
)
    requires
        values@.len() >= 2,
        config.timeout + config.expire <= usize::MAX,
        timing_fits(config),
        k <= pauses(config),
    ensures
        run(
            config,
            Phase::Popping,
            taking(values, job) + idle_checks(k) + seq![WorkEvent::Polled(Some(outcome))],
        ) == (Phase::Storing { id: values@[1], job: with_status(job, outcome_status(outcome)) }),
{
    let id = values@[1];
    let running = with_status(job, Status::RUNNING(None));
    lemma_taking(config, values, job);
    lemma_run_append(config, Phase::Popping, taking(values, job), idle_checks(k));
    lemma_run_append(
        config,
        Phase::Popping,
        taking(values, job) + idle_checks(k),
        seq![WorkEvent::Polled(Some(outcome))],
    );
    lemma_idle_checks(config, id, running, 0, k);
    lemma_run_one(
        config,
        Phase::Polling { id, job: running, done: k as usize },
        WorkEvent::Polled(Some(outcome)),
    );
    assert(with_status(running, outcome_status(outcome)) == with_status(job, outcome_status(outcome)));
}

/// What a worker records for a job whose function ended with `outcome` is
/// what the job's result gives back: the output when it finished, the
/// failure when it failed.
pub proof fn lemma_recorded_outcome_is_result(
    config: WorkConfig,
    values: Vec<String>,
    job: Job,
    k: nat,
    outcome: Result<Option<String>, JobFailure>,
)
    requires
        values@.len() >= 2,
        config.timeout + config.expire <= usize::MAX,
        timing_fits(config),
        k <= pauses(config),
    ensures
        ({
            let events = taking(values, job) + idle_checks(k) + seq![
                WorkEvent::Polled(Some(outcome)),
            ];
            &&& run(config, Phase::Popping, events) matches Phase::Storing { id, job: recorded }
            &&& recorded.id == job.id
            &&& recorded.args == job.args
            &&& result_spec(recorded) == match outcome {
                Ok(output) => Ok(output),
                Err(failure) => Err(
                    ErrorKind::JobFailed { message: failure.message, backtrace: failure.backtrace },
                ),
            }
        }),
{
    lemma_answered_job_is_recorded(config, values, job, k, outcome);
}

/// Checks later in a job come no earlier.
pub proof fn lemma_elapsed_grows(config: WorkConfig, j: int, k: int)
    requires
        0 <= j <= k,
    ensures
        elapsed(config, j) <= elapsed(config, k),
{
    let t = config.timeout as int;
    if checks(config) == 0 {
        assert(j * t * 1000 <= k * t * 1000) by (nonlinear_arith)
            requires
                0 <= j <= k,
                0 <= t,
        ;
    } else {
        lemma_freq_positive(config);
        vstd::arithmetic::div_mod::lemma_div_is_ordered(j * 1000, k * 1000, config.freq as int);
    }
}

/// The checks on a job start with its start and end exactly `timeout`
/// seconds after it, whatever `freq` is, and come in order.
pub proof fn lemma_pauses_cover_timeout(config: WorkConfig)
    requires
        timing_fits(config),
    ensures
        elapsed(config, 0) == 0,
        elapsed(config, pauses(config)) == config.timeout * 1000,
        forall|j: int, k: int|
            0 <= j <= k ==> #[trigger] elapsed(config, j) <= #[trigger] elapsed(config, k),
{
    let t = config.timeout as int;
    if checks(config) == 0 {
        assert(1 * t * 1000 == t * 1000);
    } else {
        lemma_freq_positive(config);
        let f = config.freq as int;
        assert(t * f * 1000 == f * (t * 1000)) by (nonlinear_arith);
        vstd::arithmetic::div_mod::lemma_div_multiples_vanish(t * 1000, f);
    }
    assert forall|j: int, k: int| 0 <= j <= k implies #[trigger] elapsed(config, j) <= #[trigger] elapsed(
        config,
        k,
    ) by {
        lemma_elapsed_grows(config, j, k);
    }
}

/// The first check at or after `d` milliseconds, looking no further than
/// the check after `i` pauses.
proof fn first_check_from(config: WorkConfig, d: int, i: nat) -> (k: nat)
    requires
        elapsed(config, i as int) >= d,
    ensures
        k <= i,
        elapsed(config, k as int) >= d,
        forall|j: int| 0 <= j < k ==> elapsed(config, j) < d,
    decreases i,
{
    if i == 0 {
        0
    } else if elapsed(config, i - 1) < d {
        assert forall|j: int| 0 <= j < i implies elapsed(config, j) < d by {
            lemma_elapsed_grows(config, j, i - 1);
        }
        i
    } else {
        first_check_from(config, d, (i - 1) as nat)
    }
}

/// A job's function that ends `d` milliseconds after it is started, with
/// `d` at most `timeout` seconds, is found in time: every check before the
/// one after `k` pauses is made before `d` and finds nothing, the check
/// after `k` pauses is made at or after `d`, and `k` is no more than the
/// pauses there are. The job is then recorded with how its function ended.
pub proof fn lemma_answer_in_time_is_recorded(
    config: WorkConfig,
    values: Vec<String>,
    job: Job,
    d: int,
    outcome: Result<Option<String>, JobFailure>,
) -> (k: nat)
    requires
        values@.len() >= 2,
        config.timeout + config.expire <= usize::MAX,
        timing_fits(config),
        0 <= d <= config.timeout * 1000,
    ensures
        k <= pauses(config),
        forall|j: int| 0 <= j < k ==> elapsed(config, j) < d,
        elapsed(config, k as int) >= d,
        run(
            config,
            Phase::Popping,
            taking(values, job) + idle_checks(k) + seq![WorkEvent::Polled(Some(outcome))],
        ) == (Phase::Storing { id: values@[1], job: with_status(job, outcome_status(outcome)) }),
{
    lemma_pauses_cover_timeout(config);
    let k = first_check_from(config, d, pauses(config) as nat);
    lemma_answered_job_is_recorded(config, values, job, k, outcome);
    k
}

/// While the worker handles a job and has written no record of how it
/// ended, it keeps the job's identifier and arguments, unless it gives up
/// because a duration does not fit; and it stays in a phase it can reach, so
/// the job is written as running with no output when it starts and as
/// finished, failed or lost when it is recorded.
pub proof fn lemma_job_kept_until_recorded(
    config: WorkConfig,
    phase: Phase,
    id: String,
    job: Job,
    events: Seq<WorkEvent>,
)
    requires
        phase_wf(config, phase),
        holds_job(phase, id, job) || phase == (Phase::Aborted { reason: Abort::Overflow }),
        forall|i: int| 0 <= i < events.len() ==> !(#[trigger] events[i] is Stored),
    ensures
        phase_wf(config, run(config, phase, events)),
        holds_job(run(config, phase, events), id, job) || run(config, phase, events) == (
        Phase::Aborted { reason: Abort::Overflow }),
    decreases events.len(),
{
    if events.len() > 0 {
        let next = next_phase(config, phase, events[0]);
        lemma_step_keeps_wf(config, phase, events[0]);
        assert(!(events[0] is Stored));
        assert forall|i: int| 0 <= i < events.drop_first().len() implies !(
        #[trigger] events.drop_first()[i] is Stored) by {
            assert(events.drop_first()[i] == events[i + 1]);
        }
        lemma_job_kept_until_recorded(config, next, id, job, events.drop_first());
    }
}

/// Whatever happens to a worker, a job it is starting is written as running
/// with no output, and a job it is recording is finished, failed or lost.
pub proof fn lemma_records_are_final(config: WorkConfig, events: Seq<WorkEvent>)
    ensures
        (run(config, Phase::Popping, events) matches Phase::Starting { job, .. } ==> job.status
            == Status::RUNNING(None)),
        (run(config, Phase::Popping, events) matches Phase::Storing { job, .. } ==> (job.status
            is FINISHED || job.status is FAILED || job.status is LOST)),
{
    lemma_wf_along(config, Phase::Popping, events);
}

/// A worker in a phase it can reach stays in phases it can reach.
proof fn lemma_wf_along(config: WorkConfig, phase: Phase, events: Seq<WorkEvent>)
    requires
        phase_wf(config, phase),
    ensures
        phase_wf(config, run(config, phase, events)),
    decreases events.len(),
{
    if events.len() > 0 {
        lemma_step_keeps_wf(config, phase, events[0]);
        lemma_wf_along(config, next_phase(config, phase, events[0]), events.drop_first());
    }
}

/// A worker set to go on never stops: it only ends by giving up.
pub proof fn lemma_going_on_never_stops(config: WorkConfig, phase: Phase, events: Seq<WorkEvent>)
    requires
        config.infinite,
        !(phase is Stopped),
    ensures
        !(run(config, phase, events) is Stopped),
    decreases events.len(),
{
    if events.len() > 0 {
        lemma_going_on_never_stops(config, next_phase(config, phase, events[0]), events.drop_first());
    }
}

/// A worker not set to go on only moves forward: after its first pop it
/// never pops again, and once it has started a job it never reads or starts
/// another.
pub proof fn lemma_single_run_moves_forward(config: WorkConfig, phase: Phase, events: Seq<WorkEvent>)
    requires
        !config.infinite,
    ensures
        stage(run(config, phase, events)) >= stage(phase),
        stage(phase) >= 1 ==> !(run(config, phase, events) is Popping),
        stage(phase) >= 3 ==> !(run(config, phase, events) is Fetching) && !(run(
            config,
            phase,
            events,
        ) is Starting),
    decreases events.len(),
{
    if events.len() > 0 {
        lemma_single_run_moves_forward(config, next_phase(config, phase, events[0]), events.drop_first());
    }
}

/// After a job's record is written, a worker set to fall gives up the
/// process when the job was lost; otherwise it takes the next job, or stops
/// when it is not set to go on.
pub proof fn lemma_after_record(config: WorkConfig, id: String, job: Job)
    ensures
        next_phase(config, (Phase::Storing { id, job }), WorkEvent::Stored) == (if config.fall
            && job.status == Status::LOST {
            Phase::Aborted { reason: Abort::Lost }
        } else if config.infinite {
            Phase::Popping
        } else {
            Phase::Stopped
        }),
{
}

/// A pop that finds no job, or a read that finds none, ends a worker that
/// does not go on, and makes one that goes on pop again.
pub proof fn lemma_nothing_to_do(config: WorkConfig, values: Vec<String>, id: String)
    requires
        values@.len() < 2,
    ensures
        next_phase(config, Phase::Popping, WorkEvent::Popped(values)) == next_phase(
            config,
            (Phase::Fetching { id }),
            WorkEvent::Fetched(None),
        ),
        next_phase(config, Phase::Popping, WorkEvent::Popped(values)) == (if config.infinite {
            Phase::Popping
        } else {
            Phase::Stopped
        }),
{
}

} // verus!
