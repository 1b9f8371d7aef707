//! Jobs and their status.
use vstd::prelude::*;

verus! {

/// Job status
#[derive(Debug, PartialEq, Eq, Clone)]
pub enum Status {
    /// Job is queued
    QUEUED,
    /// Job is running
    RUNNING(Option<String>),
    /// Job was lost - timeout exceeded
    LOST,
    /// Job finished successfully
    FINISHED(Option<String>),
    /// Job failed
    FAILED {
        /// Error message
        message: String,
        /// Error backtrace
        backtrace: String,
    },
}

/// A job as the store holds it: its identifier, its status and its arguments.
#[derive(Debug, Clone)]
pub struct Job {
    pub id: String,
    pub status: Status,
    pub args: Vec<String>,
}

/// How a job's function ended when it failed: the error's message and the
/// chain of its causes as text.
#[derive(Debug, Clone)]
pub struct JobFailure {
    pub message: String,
    pub backtrace: String,
}

/// Whether `c` is a lower-case hexadecimal digit.
pub open spec fn is_lower_hex(c: char) -> bool {
    ('0' <= c && c <= '9') || ('a' <= c && c <= 'f')
}

/// Whether `s` is a random (version 4) UUID written in lower-case
/// hyphenated form, such as `67e55044-10b1-426f-9247-bb680e5fe0c8`.
pub open spec fn is_uuid_v4(s: Seq<char>) -> bool {
    &&& s.len() == 36
    &&& forall|i: int|
        0 <= i < 36 ==> if i == 8 || i == 13 || i == 18 || i == 23 {
            s[i] == '-'
        } else {
            is_lower_hex(#[trigger] s[i])
        }
    &&& s[14] == '4'
    &&& (s[19] == '8' || s[19] == '9' || s[19] == 'a' || s[19] == 'b')
}

/// The lower-case hexadecimal digit of `n`, for `n < 16`.
pub open spec fn hex_digit(n: u8) -> char {
    seq!['0', '1', '2', '3', '4', '5', '6', '7', '8', '9', 'a', 'b', 'c', 'd', 'e', 'f'][n as int]
}

/// Byte `i` of the version 4 UUID made from the random bytes `random`: the
/// bytes as they are, but for the version (4) in the high half of byte 6
/// and the variant (binary 10) in the two high bits of byte 8.
pub open spec fn uuid_v4_byte(random: Seq<u8>, i: int) -> u8 {
    if i == 6 {
        (random[6] & 0x0f) | 0x40
    } else if i == 8 {
        (random[8] & 0x3f) | 0x80
    } else {
        random[i]
    }
}

/// The hexadecimal digits of bytes `from` to `to` (excluded) of the version
/// 4 UUID made from `random`, high half first.
pub open spec fn uuid_v4_digits(random: Seq<u8>, from: int, to: int) -> Seq<char>
    decreases to - from,
{
    if from >= to {
        Seq::empty()
    } else {
        seq![
            hex_digit(uuid_v4_byte(random, from) >> 4),
            hex_digit(uuid_v4_byte(random, from) & 0x0f),
        ] + uuid_v4_digits(random, from + 1, to)
    }
}

/// The version 4 UUID made from the random bytes `random`, in lower-case
/// hyphenated form: bytes 0-3, 4-5, 6-7, 8-9 and 10-15 in hexadecimal,
/// separated by hyphens.
pub open spec fn uuid_v4_text(random: Seq<u8>) -> Seq<char> {
    uuid_v4_digits(random, 0, 4) + seq!['-'] + uuid_v4_digits(random, 4, 6) + seq!['-']
        + uuid_v4_digits(random, 6, 8) + seq!['-'] + uuid_v4_digits(random, 8, 10) + seq!['-']
        + uuid_v4_digits(random, 10, 16)
}

/// The text of the version 4 UUID made from the random bytes `random`:
/// `uuid::Builder::from_random_bytes`, which sets the version bits of byte 6
/// and the variant bits of byte 8 and keeps the other bits, then
/// `into_uuid` and `to_string`, which writes the 16 bytes as lower-case
/// hexadecimal in the hyphenated 8-4-4-4-12 layout. Neither call can fail.
#[verifier::external_body]
fn uuid_v4_from(random: [u8; 16]) -> (id: String)
    ensures
        id@ == uuid_v4_text(random@),
{
    uuid::Builder::from_random_bytes(random).into_uuid().to_string()
}

/// Every digit is a lower-case hexadecimal digit.
proof fn lemma_hex_digit(n: u8)
    requires
        n < 16,
    ensures
        is_lower_hex(hex_digit(n)),
{
}

/// The digits of bytes `from` to `to`: two per byte, all lower-case
/// hexadecimal, the first being the high half of byte `from`.
proof fn lemma_uuid_v4_digits(random: Seq<u8>, from: int, to: int)
    requires
        from <= to,
    ensures
        uuid_v4_digits(random, from, to).len() == 2 * (to - from),
        forall|i: int|
            0 <= i < 2 * (to - from) ==> is_lower_hex(#[trigger] uuid_v4_digits(random, from, to)[i]),
        from < to ==> uuid_v4_digits(random, from, to)[0] == hex_digit(uuid_v4_byte(random, from) >> 4),
    decreases to - from,
{
    if from < to {
        let b = uuid_v4_byte(random, from);
        assert(b >> 4 < 16) by (bit_vector);
        assert(b & 0x0f < 16) by (bit_vector);
        lemma_hex_digit(b >> 4);
        lemma_hex_digit(b & 0x0f);
        lemma_uuid_v4_digits(random, from + 1, to);
    }
}

/// The text made from any 16 random bytes is a version 4 UUID in lower-case
/// hyphenated form.
pub proof fn lemma_uuid_v4_text_form(random: Seq<u8>)
    requires
        random.len() == 16,
    ensures
        is_uuid_v4(uuid_v4_text(random)),
{
    let a = uuid_v4_digits(random, 0, 4);
    let b = uuid_v4_digits(random, 4, 6);
    let c = uuid_v4_digits(random, 6, 8);
    let d = uuid_v4_digits(random, 8, 10);
    let e = uuid_v4_digits(random, 10, 16);
    lemma_uuid_v4_digits(random, 0, 4);
    lemma_uuid_v4_digits(random, 4, 6);
    lemma_uuid_v4_digits(random, 6, 8);
    lemma_uuid_v4_digits(random, 8, 10);
    lemma_uuid_v4_digits(random, 10, 16);
    let dash = seq!['-'];
    let s = uuid_v4_text(random);
    assert(s =~= a + dash + b + dash + c + dash + d + dash + e);
    let v = random[6];
    let w = random[8];
    assert(((v & 0x0f) | 0x40) >> 4 == 4) by (bit_vector);
    assert(((w & 0x3f) | 0x80) >> 4 >= 8 && ((w & 0x3f) | 0x80) >> 4 <= 11) by (bit_vector);
    assert(s[14] == c[0]);
    assert(s[19] == d[0]);
    assert forall|i: int| 0 <= i < 36 implies if i == 8 || i == 13 || i == 18 || i == 23 {
        s[i] == '-'
    } else {
        is_lower_hex(#[trigger] s[i])
    } by {
        if i < 8 {
            assert(s[i] == a[i]);
        } else if i == 8 {
        } else if i < 13 {
            assert(s[i] == b[i - 9]);
        } else if i == 13 {
        } else if i < 18 {
            assert(s[i] == c[i - 14]);
        } else if i == 18 {
        } else if i < 23 {
            assert(s[i] == d[i - 19]);
        } else if i == 23 {
        } else {
            assert(s[i] == e[i - 24]);
        }
    }
}

impl Job {
    /// A queued job with the given arguments, identified by `id`, or, when
    /// there is none, by the version 4 UUID made from the random bytes
    /// `random`.
    pub fn new(id: Option<String>, args: Vec<String>, random: [u8; 16]) -> (job: Job)
        ensures
            job.status == Status::QUEUED,
            job.args == args,
            match id {
                Some(given) => job.id == given,
                None => job.id@ == uuid_v4_text(random@) && is_uuid_v4(job.id@),
            },
    {
        let id = match id {
            Some(given) => given,
            None => {
                proof {
                    lemma_uuid_v4_text_form(random@);
                }
                uuid_v4_from(random)
            },
        };
        Job { id, status: Status::QUEUED, args }
    }
}

/// The status a job's function leaves behind: finished with its output, or
/// failed with the error's message and cause chain.
pub open spec fn outcome_status(outcome: Result<Option<String>, JobFailure>) -> Status {
    match outcome {
        Ok(output) => Status::FINISHED(output),
        Err(failure) => Status::FAILED { message: failure.message, backtrace: failure.backtrace },
    }
}

impl Status {
    /// The status of a job whose function returned `outcome`.
    pub fn from_outcome(outcome: Result<Option<String>, JobFailure>) -> (status: Status)
        ensures
            status == outcome_status(outcome),
            (outcome matches Ok(output) ==> status == Status::FINISHED(output)),
            (outcome matches Err(failure) ==> status == (Status::FAILED {
                message: failure.message,
                backtrace: failure.backtrace,
            })),
    {
        match outcome {
            Ok(output) => Status::FINISHED(output),
            Err(failure) => Status::FAILED { message: failure.message, backtrace: failure.backtrace },
        }
    }
}

} // verus!
