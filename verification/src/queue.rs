//! The queue: its name, its keys and what its requests send to the store.
use vstd::prelude::*;
use vstd::string::*;
use crate::errors::ErrorKind;
use crate::job::{is_uuid_v4, uuid_v4_text, Job, Status};
use crate::keys::{ids_key_spec, job_key_spec, join_key, pattern_spec};

verus! {

/// A queue, known by the URL of its store and by its name.
pub struct Queue {
    url: String,
    name: String,
}

/// What a queue is: the URL of its store and its name.
pub struct QueueView {
    pub url: Seq<char>,
    pub name: Seq<char>,
}

impl View for Queue {
    type V = QueueView;

    closed spec fn view(&self) -> QueueView {
        QueueView { url: self.url@, name: self.name@ }
    }
}

/// A command for the store.
pub enum Command {
    /// Delete `key`.
    Del { key: String },
    /// Store `job` under `key`, to expire after `seconds` seconds.
    SetEx { key: String, job: Job, seconds: usize },
    /// Append `value` to the list at `key`.
    RPush { key: String, value: String },
}

/// The result a stored job gives: its output when it finished, otherwise
/// the reason it has none.
pub open spec fn result_spec(job: Job) -> Result<Option<String>, ErrorKind> {
    match job.status {
        Status::FINISHED(output) => Ok(output),
        Status::QUEUED => Err(ErrorKind::JobQueued),
        Status::FAILED { message, backtrace } => Err(ErrorKind::JobFailed { message, backtrace }),
        Status::LOST => Err(ErrorKind::JobLost),
        Status::RUNNING(_) => Err(ErrorKind::JobRunning),
    }
}

/// The jobs found in `replies` are no more than the replies, each was one
/// of the replies, and every reply that held a job gives it.
pub proof fn lemma_somes_bounds(replies: Seq<Option<Job>>)
    ensures
        somes(replies).len() <= replies.len(),
        forall|i: int|
            0 <= i < replies.len() && (#[trigger] replies[i] is Some) ==> somes(replies).contains(
                replies[i]->0,
            ),
        forall|j: int|
            0 <= j < somes(replies).len() ==> replies.contains(Some(#[trigger] somes(replies)[j])),
    decreases replies.len(),
{
    if replies.len() > 0 {
        let rest = replies.drop_first();
        lemma_somes_bounds(rest);
        let found = somes(replies);
        assert forall|i: int|
            0 <= i < replies.len() && (#[trigger] replies[i] is Some) implies found.contains(
                replies[i]->0,
            ) by {
            if i == 0 {
                assert(found[0] == replies[0]->0);
            } else {
                assert(replies[i] == rest[i - 1]);
                let k = choose|k: int| 0 <= k < somes(rest).len() && somes(rest)[k] == rest[i - 1]->0;
                match replies[0] {
                    Some(job) => assert(found[k + 1] == somes(rest)[k]),
                    None => assert(found[k] == somes(rest)[k]),
                }
            }
        }
        assert forall|j: int| 0 <= j < found.len() implies replies.contains(Some(#[trigger] found[j])) by {
            match replies[0] {
                Some(job) => {
                    if j == 0 {
                        assert(replies[0] == Some(found[0]));
                    } else {
                        assert(found[j] == somes(rest)[j - 1]);
                        let k = choose|k: int| 0 <= k < rest.len() && rest[k] == Some(somes(rest)[j - 1]);
                        assert(replies[k + 1] == rest[k]);
                    }
                },
                None => {
                    let k = choose|k: int| 0 <= k < rest.len() && rest[k] == Some(somes(rest)[j]);
                    assert(replies[k + 1] == rest[k]);
                },
            }
        }
    }
}

/// The jobs found in two runs of replies, one after the other, are those of
/// the first run followed by those of the second.
pub proof fn lemma_somes_append(first: Seq<Option<Job>>, second: Seq<Option<Job>>)
    ensures
        somes(first + second) == somes(first) + somes(second),
    decreases first.len(),
{
    if first.len() == 0 {
        assert(first + second =~= second);
        assert(somes(first) + somes(second) =~= somes(second));
    } else {
        assert((first + second)[0] == first[0]);
        assert((first + second).drop_first() =~= first.drop_first() + second);
        lemma_somes_append(first.drop_first(), second);
        match first[0] {
            Some(job) => {
                assert(seq![job] + (somes(first.drop_first()) + somes(second)) =~= (seq![job]
                    + somes(first.drop_first())) + somes(second));
            },
            None => {},
        }
    }
}

/// A single reply gives its job when it holds one, and nothing otherwise.
pub proof fn lemma_somes_single(reply: Option<Job>)
    ensures
        somes(seq![reply]) == match reply {
            Some(job) => seq![job],
            None => Seq::<Job>::empty(),
        },
{
    let rest = seq![reply].drop_first();
    assert(rest =~= Seq::<Option<Job>>::empty());
    assert(seq![reply][0] == reply);
    assert(somes(rest) =~= Seq::<Job>::empty());
    match reply {
        Some(job) => assert(seq![job] + Seq::<Job>::empty() =~= seq![job]),
        None => {},
    }
}

/// No replies give no jobs.
pub proof fn lemma_somes_empty()
    ensures
        somes(Seq::<Option<Job>>::empty()) == Seq::<Job>::empty(),
{
}

/// The jobs among `replies`, in order.
pub open spec fn somes(replies: Seq<Option<Job>>) -> Seq<Job>
    decreases replies.len(),
{
    if replies.len() == 0 {
        Seq::empty()
    } else {
        let rest = somes(replies.drop_first());
        match replies[0] {
            Some(job) => seq![job] + rest,
            None => rest,
        }
    }
}

impl Queue {
    /// A queue named `name` in the store at `url`.
    pub fn new(url: &str, name: &str) -> (queue: Queue)
        ensures
            queue@.url == url@,
            queue@.name == name@,
    {
        Queue { url: String::from_str(url), name: String::from_str(name) }
    }

    /// The URL of the store the queue lives in.
    pub fn url(&self) -> (url: &str)
        ensures
            url@ == self@.url,
    {
        self.url.as_str()
    }

    /// The name of the queue.
    pub fn name(&self) -> (name: &str)
        ensures
            name@ == self@.name,
    {
        self.name.as_str()
    }

    /// The key of the list of identifiers of enqueued jobs: `{name}:ids`.
    pub fn ids_key(&self) -> (key: String)
        ensures
            key@ == ids_key_spec(self@.name),
    {
        let key = join_key(&self.name, "ids");
        proof {
            reveal_strlit("ids");
            assert(key@ =~= ids_key_spec(self@.name));
        }
        key
    }

    /// The key the job `id` is stored under: `{name}:{id}`.
    pub fn job_key(&self, id: &str) -> (key: String)
        ensures
            key@ == job_key_spec(self@.name, id@),
    {
        join_key(&self.name, id)
    }

    /// The pattern that matches every key of the queue: `{name}:*`.
    pub fn jobs_pattern(&self) -> (pattern: String)
        ensures
            pattern@ == pattern_spec(self@.name),
    {
        let pattern = join_key(&self.name, "*");
        proof {
            reveal_strlit("*");
            assert(pattern@ =~= pattern_spec(self@.name));
        }
        pattern
    }

    /// Deleting the enqueued jobs: the command that deletes the list of
    /// identifiers of the queue.
    pub fn drop(&self) -> (command: Command)
        ensures
            command matches Command::Del { key } && key@ == ids_key_spec(self@.name),
    {
        Command::Del { key: self.ids_key() }
    }

    /// Enqueueing `job`: store it under its key for `expire` seconds, then
    /// append its identifier to the list of the queue. Returns the job's
    /// identifier with the two commands, in the order they are sent.
    pub fn enqueue_job(&self, job: Job, expire: usize) -> (res: (String, Vec<Command>))
        ensures
            res.0@ == job.id@,
            res.1@.len() == 2,
            res.1@[0] matches Command::SetEx { key, job: stored, seconds } && key@ == job_key_spec(
                self@.name,
                job.id@,
            ) && stored == job && seconds == expire,
            res.1@[1] matches Command::RPush { key, value } && key@ == ids_key_spec(self@.name)
                && value@ == job.id@,
    {
        let id = job.id.clone();
        let key = self.job_key(job.id.as_str());
        let value = job.id.clone();
        let mut commands: Vec<Command> = Vec::new();
        commands.push(Command::SetEx { key, job, seconds: expire });
        commands.push(Command::RPush { key: self.ids_key(), value });
        (id, commands)
    }

    /// Enqueue a new job with arguments `args`, identified by `id` or, when
    /// there is none, by the version 4 UUID made from the random bytes
    /// `random`. The job is stored queued for
    /// `expire` seconds; if no worker starts it in that time it is gone.
    /// Returns the job's identifier with the commands to send, in order.
    pub fn enqueue(
        &self,
        id: Option<String>,
        args: Vec<String>,
        expire: usize,
        random: [u8; 16],
    ) -> (res: (String, Vec<Command>))
        ensures
            match id {
                Some(given) => res.0@ == given@,
                None => res.0@ == uuid_v4_text(random@) && is_uuid_v4(res.0@),
            },
            res.1@.len() == 2,
            res.1@[0] matches Command::SetEx { key, job: stored, seconds } && key@ == job_key_spec(
                self@.name,
                res.0@,
            ) && stored.id@ == res.0@ && stored.status == Status::QUEUED && stored.args == args
                && seconds == expire,
            res.1@[1] matches Command::RPush { key, value } && key@ == ids_key_spec(self@.name)
                && value@ == res.0@,
    {
        let job = Job::new(id, args, random);
        self.enqueue_job(job, expire)
    }

    /// The status of a job, read from what the store holds for it.
    pub fn status(&self, job: Job) -> (status: Status)
        ensures
            status == job.status,
    {
        job.status
    }

    /// The result of a job, read from what the store holds for it: its
    /// output when it finished, otherwise why it has none.
    pub fn result(&self, job: Job) -> (res: Result<Option<String>, ErrorKind>)
        ensures
            res == result_spec(job),
            (job.status == Status::QUEUED ==> res == Err::<Option<String>, ErrorKind>(
                ErrorKind::JobQueued,
            )),
            (job.status == Status::LOST ==> res == Err::<Option<String>, ErrorKind>(
                ErrorKind::JobLost,
            )),
            (job.status is RUNNING ==> res == Err::<Option<String>, ErrorKind>(
                ErrorKind::JobRunning,
            )),
            (job.status matches Status::FINISHED(output) ==> res == Ok::<Option<String>, ErrorKind>(
                output,
            )),
            (job.status matches Status::FAILED { message, backtrace } ==> res == Err::<
                Option<String>,
                ErrorKind,
            >(ErrorKind::JobFailed { message, backtrace })),
    {
        match job.status {
            Status::FINISHED(output) => Ok(output),
            Status::QUEUED => Err(ErrorKind::JobQueued),
            Status::FAILED { message, backtrace } => Err(ErrorKind::JobFailed { message, backtrace }),
            Status::LOST => Err(ErrorKind::JobLost),
            Status::RUNNING(_) => Err(ErrorKind::JobRunning),
        }
    }

    /// The jobs of the queue, from the replies read for its keys: every
    /// reply that held a job, in order; the others are left out.
    pub fn stored_jobs(&self, replies: Vec<Option<Job>>) -> (jobs: Vec<Job>)
        ensures
            jobs@ == somes(replies@),
            jobs@.len() <= replies@.len(),
            forall|i: int|
                0 <= i < replies@.len() && (#[trigger] replies@[i] is Some) ==> jobs@.contains(
                    replies@[i]->0,
                ),
            forall|j: int| 0 <= j < jobs@.len() ==> replies@.contains(Some(#[trigger] jobs@[j])),
    {
        let mut rest = replies;
        let mut jobs: Vec<Job> = Vec::new();
        while rest.len() > 0
            invariant
                jobs@ + somes(rest@) == somes(replies@),
            decreases rest.len(),
        {
            let ghost before = rest@;
            let ghost done = jobs@;
            let first = rest.remove(0);
            assert(rest@ =~= before.drop_first());
            match first {
                Some(job) => {
                    jobs.push(job);
                    assert(jobs@ + somes(rest@) =~= done + (seq![job] + somes(rest@)));
                },
                None => {},
            }
        }
        proof {
            lemma_somes_bounds(replies@);
        }
        jobs
    }
}

} // verus!
