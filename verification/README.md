# rjq

A job queue kept in Redis: producers enqueue jobs, workers take them off the
queue, run them and record how they ended.

- `src/` is the library, verified with Verus. It decides everything the queue
  does and hands the caller the commands and actions to carry out:
  - `keys`: the keys a queue uses (`{name}:ids`, `{name}:{id}`, `{name}:*`);
  - `job`: jobs, their status, and the UUID text made from random bytes;
  - `queue`: the queue and its requests (enqueue, drop, status, result,
    listing);
  - `worker`: the worker as a state machine, from popping a job to recording
    its end;
  - `laws`: what holds of the worker across its steps (a job that does not
    answer in time is lost, an answer is recorded and given back as the
    result, and so on);
  - `errors`: why a job has no result.
- `app/` connects the library to Redis: connections, JSON records, random
  bytes for new identifiers, the
  thread that runs a job's function, and the loop that drives the worker.
- `tests/` drive the library against an in-memory store with a simulated
  clock.
