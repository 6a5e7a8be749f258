//! The execution-log history, kept as a list capped at a fixed length.

use vstd::prelude::*;

verus! {

/// The most entries the history ever holds.
pub const MAX_LOG_ENTRIES: usize = 500;

/// The history `s` after trimming it to its newest `n` entries.
pub open spec fn newest<T>(s: Seq<T>, n: nat) -> Seq<T> {
    if s.len() > n {
        s.subrange(s.len() - n, s.len() as int)
    } else {
        s
    }
}

/// Appends `entry` at the end of `logs`, then drops the oldest entries so
/// that at most `MAX_LOG_ENTRIES` remain.
pub fn push_capped<T>(logs: &mut Vec<T>, entry: T)
    ensures
        final(logs)@ == newest(old(logs)@.push(entry), MAX_LOG_ENTRIES as nat),
        final(logs)@.len() <= MAX_LOG_ENTRIES,
{
    logs.push(entry);
    if logs.len() > MAX_LOG_ENTRIES {
        let trim_count = logs.len() - MAX_LOG_ENTRIES;
        let kept = logs.split_off(trim_count);
        *logs = kept;
    }
}

/// Trimming keeps at most `n` entries, keeps them in their order, and
/// keeps the newest: the last of the trimmed history is the last one added.
pub proof fn lemma_newest_keeps_latest<T>(s: Seq<T>, entry: T, n: nat)
    requires
        n > 0,
    ensures
        newest(s.push(entry), n).len() <= n,
        newest(s.push(entry), n).len() == if s.len() + 1 > n {
            n
        } else {
            s.len() + 1
        },
        newest(s.push(entry), n).last() == entry,
        forall|i: int|
            0 <= i < newest(s.push(entry), n).len() ==> #[trigger] newest(s.push(entry), n)[i]
                == s.push(entry)[s.len() + 1 - newest(s.push(entry), n).len() + i],
{
}

/// The history read back from storage: the stored list when there is one,
/// and an empty history when there is none or it could not be read.
pub fn loaded_or_empty<T>(stored: Result<Option<Vec<T>>, String>) -> (r: Vec<T>)
    ensures
        stored matches Ok(Some(v)) ==> r == v,
        !(stored matches Ok(Some(_))) ==> r@.len() == 0,
{
    match stored {
        Ok(Some(logs)) => logs,
        _ => Vec::new(),
    }
}

} // verus!
