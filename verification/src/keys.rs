//! The keys a queue uses in the store.
use vstd::prelude::*;
use vstd::string::*;

verus! {

/// The key of the list of job identifiers of the queue `name`: `{name}:ids`.
pub open spec fn ids_key_spec(name: Seq<char>) -> Seq<char> {
    name + seq![':', 'i', 'd', 's']
}

/// The key under which the job `id` of the queue `name` is stored: `{name}:{id}`.
pub open spec fn job_key_spec(name: Seq<char>, id: Seq<char>) -> Seq<char> {
    name + seq![':'] + id
}

/// The pattern that matches every key of the queue `name`: `{name}:*`.
pub open spec fn pattern_spec(name: Seq<char>) -> Seq<char> {
    name + seq![':', '*']
}

/// `{name}:{suffix}`.
pub fn join_key(name: &String, suffix: &str) -> (key: String)
    ensures
        key@ == name@ + seq![':'] + suffix@,
{
    let mut key = name.clone();
    key.append(":");
    key.append(suffix);
    proof {
        reveal_strlit(":");
    }
    key
}

} // verus!
