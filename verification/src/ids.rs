//! Identifiers for jobs and queues.
//!
//! Both are ULIDs: 128-bit, time-ordered, with a canonical 26-character
//! Crockford base32 text form whose lexicographic order agrees with the
//! numeric order of the underlying integer.

use vstd::prelude::*;

verus! {

/// The canonical text form of a ULID value.
pub uninterp spec fn ulid_text(v: u128) -> Seq<char>;

/// The ULID value that a piece of text denotes, if it is well-formed.
pub uninterp spec fn ulid_of_text(s: Seq<char>) -> Option<u128>;

/// Relies on ulid::Ulid::generate: a fresh identifier drawn from the
/// clock and a random source.
#[verifier::external_body]
fn fresh_ulid() -> u128 {
    ulid::Ulid::generate().0
}

/// Relies on ulid::Ulid::to_string: encodes the value as its canonical
/// 26-character Crockford base32 text.
#[verifier::external_body]
fn ulid_to_text(v: u128) -> (r: String)
    ensures
        r@ == ulid_text(v),
        r@.len() == 26,
{
    ulid::Ulid(v).to_string()
}

/// Relies on ulid::Ulid::from_string: parses the canonical text form,
/// rejecting text of the wrong length or with characters outside the
/// Crockford base32 alphabet.
#[verifier::external_body]
fn ulid_from_text(s: &str) -> (r: Option<u128>)
    ensures
        r == ulid_of_text(s@),
{
    match ulid::Ulid::from_string(s) {
        Ok(u) => Some(u.0),
        Err(_) => None,
    }
}

/// Error returned when identifier text cannot be parsed.
#[derive(Clone, Copy, PartialEq, Eq, Structural, Debug)]
pub struct ParseIdError;

/// Unique identifier for a job.
#[derive(Clone, Copy, PartialEq, Eq, Structural, Hash, Debug)]
pub struct JobId(pub u128);

impl JobId {
    /// Create a new unique job ID.
    pub fn new() -> (r: JobId) {
        JobId(fresh_ulid())
    }

    /// Parse a job ID from its canonical text form.
    pub fn parse(s: &str) -> (r: Result<JobId, ParseIdError>)
        ensures
            match r {
                Ok(id) => ulid_of_text(s@) == Some(id.0),
                Err(_) => ulid_of_text(s@) is None,
            },
    {
        match ulid_from_text(s) {
            Some(v) => Ok(JobId(v)),
            None => Err(ParseIdError),
        }
    }

    /// The canonical text form of this ID.
    pub fn text(&self) -> (r: String)
        ensures
            r@ == ulid_text(self.0),
            r@.len() == 26,
    {
        ulid_to_text(self.0)
    }
}

/// Unique identifier for a queue.
#[derive(Clone, Copy, PartialEq, Eq, Structural, Hash, Debug)]
pub struct QueueId(pub u128);

impl QueueId {
    /// Create a new unique queue ID.
    pub fn new() -> (r: QueueId) {
        QueueId(fresh_ulid())
    }

    /// Parse a queue ID from its canonical text form.
    pub fn parse(s: &str) -> (r: Result<QueueId, ParseIdError>)
        ensures
            match r {
                Ok(id) => ulid_of_text(s@) == Some(id.0),
                Err(_) => ulid_of_text(s@) is None,
            },
    {
        match ulid_from_text(s) {
            Some(v) => Ok(QueueId(v)),
            None => Err(ParseIdError),
        }
    }

    /// The canonical text form of this ID.
    pub fn text(&self) -> (r: String)
        ensures
            r@ == ulid_text(self.0),
            r@.len() == 26,
    {
        ulid_to_text(self.0)
    }
}

} // verus!
