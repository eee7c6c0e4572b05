//! The application log of the viewer: the most recent entries, oldest first.

use std::collections::VecDeque;
use vstd::prelude::*;

verus! {

/// The number of entries the application log keeps.
pub const MAX_LOG_ENTRIES: usize = 50;

/// The log after adding `entry` to `entries`: the oldest entry is dropped first when the log is
/// full.
pub open spec fn log_after_push<T>(entries: Seq<T>, entry: T) -> Seq<T> {
    if entries.len() >= MAX_LOG_ENTRIES {
        entries.drop_first().push(entry)
    } else {
        entries.push(entry)
    }
}

/// An application log that keeps the most recent [`MAX_LOG_ENTRIES`] entries.
pub struct AppLog<T> {
    entries: VecDeque<T>,
}

impl<T> View for AppLog<T> {
    type V = Seq<T>;

    /// The entries, oldest first.
    closed spec fn view(&self) -> Seq<T> {
        self.entries@
    }
}

impl<T> AppLog<T> {
    /// The log holds at most [`MAX_LOG_ENTRIES`] entries.
    pub closed spec fn well_formed(&self) -> bool {
        self.entries@.len() <= MAX_LOG_ENTRIES
    }

    /// Creates an empty log.
    pub fn new() -> (r: AppLog<T>)
        ensures
            r.well_formed(),
            r@ == Seq::<T>::empty(),
    {
        AppLog { entries: VecDeque::new() }
    }

    /// Adds an entry, dropping the oldest entry first when the log is full.
    pub fn log(&mut self, entry: T)
        requires
            old(self).well_formed(),
        ensures
            final(self).well_formed(),
            final(self)@ == log_after_push(old(self)@, entry),
    {
        if self.entries.len() >= MAX_LOG_ENTRIES {
            self.entries.pop_front();
        }
        self.entries.push_back(entry);
    }

    /// The number of entries.
    pub fn len(&self) -> (r: usize)
        ensures
            r == self@.len(),
    {
        self.entries.len()
    }

    /// The entry at `index`, counted from the oldest.
    pub fn get(&self, index: usize) -> (r: Option<&T>)
        ensures
            index < self@.len() ==> r == Some(&self@[index as int]),
            index >= self@.len() ==> r is None,
    {
        if index < self.entries.len() {
            Some(&self.entries[index])
        } else {
            None
        }
    }
}

/// The log after adding each of `pushed` in turn to `entries`.
pub open spec fn log_after_all<T>(entries: Seq<T>, pushed: Seq<T>) -> Seq<T>
    decreases pushed.len(),
{
    if pushed.len() == 0 {
        entries
    } else {
        log_after_push(log_after_all(entries, pushed.drop_last()), pushed.last())
    }
}

/// The log keeps exactly the most recent entries: adding any entries, one after the other, to
/// an empty log leaves the last [`MAX_LOG_ENTRIES`] of them (all of them, while there are fewer),
/// in the order they were added.
pub proof fn lemma_log_keeps_most_recent<T>(pushed: Seq<T>)
    ensures
        ({
            let n = pushed.len() as int;
            let start = if n > MAX_LOG_ENTRIES {
                n - MAX_LOG_ENTRIES
            } else {
                0
            };
            log_after_all(Seq::<T>::empty(), pushed) == pushed.subrange(start, n)
        }),
    decreases pushed.len(),
{
    if pushed.len() > 0 {
        let prefix = pushed.drop_last();
        lemma_log_keeps_most_recent(prefix);
        let n = pushed.len() as int;
        let start = if n > MAX_LOG_ENTRIES {
            n - MAX_LOG_ENTRIES
        } else {
            0
        };
        assert(log_after_all(Seq::<T>::empty(), pushed) =~= pushed.subrange(start, n));
    } else {
        assert(log_after_all(Seq::<T>::empty(), pushed) =~= pushed.subrange(0, 0));
    }
}

} // verus!
