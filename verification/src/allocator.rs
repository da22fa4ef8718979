//! Allocation of identifiers for transactions and postings.
//!
//! Candidates come from a snowflake generator, which derives them from the
//! wall clock. The allocator hands a candidate out only if it is greater than
//! every identifier it issued before, so the identifiers of one allocator are
//! strictly increasing whatever the clock does.

use vstd::prelude::*;
use crate::error::LedgerError;

verus! {

/// The generator of the `snowflake` crate, `snowflake::SnowflakeIdGenerator`,
/// as an opaque value: nothing is known of what it holds.
#[verifier::external_type_specification]
#[verifier::external_body]
pub struct ExSnowflakeIdGenerator(snowflake::SnowflakeIdGenerator);

/// The machine that the identifiers name.
pub const MACHINE_ID: i32 = 1;

/// The node that the identifiers name.
pub const NODE_ID: i32 = 1;

/// Builds a generator with `snowflake::SnowflakeIdGenerator::new`, which
/// records the two identifiers and the current time. Nothing is claimed of
/// it. The outside function asks for identifiers below 32, each has five bits
/// of a candidate, and panics if the system clock reads a time before the
/// UNIX epoch.
#[verifier::external_body]
fn new_generator(machine_id: i32, node_id: i32) -> snowflake::SnowflakeIdGenerator
    requires
        0 <= machine_id < 32,
        0 <= node_id < 32,
{
    snowflake::SnowflakeIdGenerator::new(machine_id, node_id)
}

/// Draws the next candidate with
/// `snowflake::SnowflakeIdGenerator::real_time_generate`.
///
/// The candidate is built from the system time in milliseconds, so nothing is
/// claimed of its value. The outside function panics if the system clock reads
/// a time before the UNIX epoch, and after 4096 candidates of one millisecond
/// it waits until the clock shows the next.
#[verifier::external_body]
fn next_candidate(generator: &mut snowflake::SnowflakeIdGenerator) -> i64 {
    generator.real_time_generate()
}

/// The single source of transaction and posting identifiers of a process.
pub struct IdAllocator {
    generator: snowflake::SnowflakeIdGenerator,
    last: Option<i64>,
}

/// Whether `candidate` may be issued after `last`.
pub open spec fn is_fresh(last: Option<i64>, candidate: i64) -> bool {
    match last {
        Some(l) => l < candidate,
        None => true,
    }
}

/// Decides on a candidate: it is issued if it lies above the last issued
/// identifier, and refused otherwise.
pub fn accept_candidate(last: Option<i64>, candidate: i64) -> (r: Result<i64, LedgerError>)
    ensures
        is_fresh(last, candidate) ==> r == Ok::<i64, LedgerError>(candidate),
        !is_fresh(last, candidate) ==> r == Err::<i64, LedgerError>(LedgerError::InternalError),
{
    match last {
        Some(l) => {
            if l < candidate {
                Ok(candidate)
            } else {
                Err(LedgerError::InternalError)
            }
        },
        None => Ok(candidate),
    }
}

/// The identifier issued last once `id` counts as issued too.
pub open spec fn advanced(last: Option<i64>, id: i64) -> Option<i64> {
    if is_fresh(last, id) {
        Some(id)
    } else {
        last
    }
}

/// Whether the identifier issued last has not been lowered from `earlier` to
/// `later`.
pub open spec fn not_before(earlier: Option<i64>, later: Option<i64>) -> bool {
    match earlier {
        Some(e) => later is Some && e <= later->0,
        None => true,
    }
}

/// Whether the identifier issued last, as it stood after each use of an
/// allocator in turn, was never lowered. Every function that takes an
/// allocator ensures this of the two states that it joins.
pub open spec fn never_lowered(lasts: Seq<Option<i64>>) -> bool {
    forall|k: int|
        #![trigger lasts[k]]
        0 <= k < lasts.len() - 1 ==> not_before(lasts[k], lasts[k + 1])
}

/// What was never lowered step by step was not lowered over any number of
/// steps.
pub proof fn lemma_never_lowered(lasts: Seq<Option<i64>>, i: int, j: int)
    requires
        never_lowered(lasts),
        0 <= i <= j < lasts.len(),
    ensures
        not_before(lasts[i], lasts[j]),
    decreases j - i,
{
    if i < j {
        lemma_never_lowered(lasts, i, j - 1);
        assert(not_before(lasts[j - 1], lasts[j]));
    }
}

/// An allocator never issues an identifier twice, however many times it is
/// used in between: an identifier that step `j` issues is greater than one
/// that an earlier step `i` issued.
pub proof fn lemma_ids_never_repeat(lasts: Seq<Option<i64>>, i: int, j: int)
    requires
        never_lowered(lasts),
        0 <= i < j < lasts.len(),
        lasts[i] is Some,
        lasts[j] is Some,
        is_fresh(lasts[j - 1], lasts[j]->0),
    ensures
        lasts[i]->0 < lasts[j]->0,
{
    lemma_never_lowered(lasts, i, j - 1);
}

impl IdAllocator {
    /// The identifier issued last, if any was.
    pub closed spec fn last_issued(&self) -> Option<i64> {
        self.last
    }

    /// An allocator that has issued nothing.
    pub fn new() -> (r: Self)
        ensures
            r.last_issued() == None::<i64>,
    {
        IdAllocator { generator: new_generator(MACHINE_ID, NODE_ID), last: None }
    }

    /// Issues the next identifier, or fails without issuing anything. The
    /// first identifier is always issued; a later one is issued if the clock
    /// has not been set back behind the last.
    pub fn allocate(&mut self) -> (r: Result<i64, LedgerError>)
        ensures
            match r {
                Ok(id) => is_fresh(old(self).last_issued(), id) && final(self).last_issued()
                    == Some(id),
                Err(e) => e == LedgerError::InternalError && final(self).last_issued() == old(
                    self,
                ).last_issued(),
            },
            old(self).last_issued() is None ==> r is Ok,
            not_before(old(self).last_issued(), final(self).last_issued()),
    {
        let candidate = next_candidate(&mut self.generator);
        let r = accept_candidate(self.last, candidate);
        if r.is_ok() {
            self.last = Some(candidate);
        }
        r
    }

    /// Counts `id` as issued, so that no identifier up to it is issued later.
    pub fn mark_issued(&mut self, id: i64)
        ensures
            final(self).last_issued() == advanced(old(self).last_issued(), id),
            not_before(old(self).last_issued(), final(self).last_issued()),
    {
        let fresh = match self.last {
            Some(l) => l < id,
            None => true,
        };
        if fresh {
            self.last = Some(id);
        }
    }
}

} // verus!
