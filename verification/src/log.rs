//! Bounded logs: event feeds and notes that keep only their newest entries.

use vstd::prelude::*;
use std::collections::VecDeque;

verus! {

/// The log after appending `item` and dropping the oldest entry when the
/// log would exceed `limit` entries.
pub open spec fn bounded_push<T>(log: Seq<T>, item: T, limit: nat) -> Seq<T> {
    let grown = log.push(item);
    if grown.len() > limit {
        grown.subrange(1, grown.len() as int)
    } else {
        grown
    }
}

/// Appends `item`; when the log then holds more than `limit` entries, the
/// oldest one is dropped.
pub fn push_bounded<T>(log: &mut Vec<T>, item: T, limit: usize)
    ensures
        final(log)@ == bounded_push(old(log)@, item, limit as nat),
{
    log.push(item);
    if log.len() > limit {
        log.remove(0);
        assert(log@ =~= bounded_push(old(log)@, item, limit as nat));
    }
}

/// Appends `item` at the back of a queue; when the queue then holds more
/// than `limit` entries, the front one is dropped.
pub fn push_back_bounded<T>(log: &mut VecDeque<T>, item: T, limit: usize)
    ensures
        final(log)@ == bounded_push(old(log)@, item, limit as nat),
{
    log.push_back(item);
    if log.len() > limit {
        let _ = log.pop_front();
        assert(log@ =~= bounded_push(old(log)@, item, limit as nat));
    }
}

/// A log that starts within its limit stays within it, and its newest entry
/// is the one just appended.
pub proof fn law_bounded_push<T>(log: Seq<T>, item: T, limit: nat)
    requires
        log.len() <= limit,
        limit > 0,
    ensures
        bounded_push(log, item, limit).len() <= limit,
        bounded_push(log, item, limit).last() == item,
{
}

} // verus!
