//! Debouncing: rate-limits per-key operations, such as the persisted
//! last-seen updates, and batches pending writes.
//!
//! Time is passed in by the caller as milliseconds, so every decision is a
//! function of the stored state and the given instant.

use vstd::prelude::*;

verus! {

/// The recorded time under `key`, scanning in order.
pub open spec fn spec_find_time(entries: Seq<(i64, u64)>, key: i64) -> Option<u64>
    decreases entries.len(),
{
    if entries.len() == 0 {
        None
    } else if entries[0].0 == key {
        Some(entries[0].1)
    } else {
        spec_find_time(entries.skip(1), key)
    }
}

/// The entries left after dropping `key`.
pub open spec fn spec_drop_time(entries: Seq<(i64, u64)>, key: i64) -> Seq<(i64, u64)>
    decreases entries.len(),
{
    if entries.len() == 0 {
        Seq::empty()
    } else {
        let rest = spec_drop_time(entries.skip(1), key);
        if entries[0].0 == key {
            rest
        } else {
            seq![entries[0]].add(rest)
        }
    }
}

/// Enough time has passed since the recorded execution, if any, for the
/// operation to run again at `now_ms`.
pub open spec fn spec_due(entries: Seq<(i64, u64)>, key: i64, now_ms: u64, interval_ms: u64) -> bool {
    match spec_find_time(entries, key) {
        None => true,
        Some(last) => now_ms >= last && now_ms - last >= interval_ms,
    }
}

/// Tracks, per key, when an operation last ran, and admits it again only
/// after a fixed interval.
pub struct Debouncer {
    pub last_execution: Vec<(i64, u64)>,
    pub debounce_duration_ms: u64,
}

impl Debouncer {
    /// A debouncer with the given interval.
    pub fn new(debounce_duration_ms: u64) -> (r: Debouncer)
        ensures
            r.last_execution@ == Seq::<(i64, u64)>::empty(),
            r.debounce_duration_ms == debounce_duration_ms,
    {
        Debouncer { last_execution: Vec::new(), debounce_duration_ms }
    }

    /// Whether the operation should run for `key` at `now_ms`; when it
    /// should, the execution time is recorded.
    pub fn should_execute(&mut self, key: i64, now_ms: u64) -> (r: bool)
        ensures
            r == spec_due(
                old(self).last_execution@,
                key,
                now_ms,
                old(self).debounce_duration_ms,
            ),
            r ==> final(self).last_execution@ == spec_drop_time(
                old(self).last_execution@,
                key,
            ).push((key, now_ms)),
            !r ==> final(self).last_execution@ == old(self).last_execution@,
            final(self).debounce_duration_ms == old(self).debounce_duration_ms,
    {
        if self.check_only(key, now_ms) {
            self.mark_executed(key, now_ms);
            true
        } else {
            false
        }
    }

    /// Whether the operation should run for `key` at `now_ms`, without
    /// recording anything.
    #[verifier::loop_isolation(false)]
    pub fn check_only(&self, key: i64, now_ms: u64) -> (r: bool)
        ensures
            r == spec_due(self.last_execution@, key, now_ms, self.debounce_duration_ms),
    {
        let n = self.last_execution.len();
        let mut i: usize = 0;
        proof {
            assert(self.last_execution@.skip(0) =~= self.last_execution@);
        }
        while i < n
            invariant
                i <= n,
                spec_find_time(self.last_execution@, key) == spec_find_time(
                    self.last_execution@.skip(i as int),
                    key,
                ),
            decreases n - i,
        {
            proof {
                assert(self.last_execution@.skip(i as int)[0] == self.last_execution@[i as int]);
                assert(self.last_execution@.skip(i as int).skip(1) =~= self.last_execution@.skip(
                    i + 1,
                ));
            }
            let entry = &self.last_execution[i];
            if entry.0 == key {
                let last = entry.1;
                return now_ms >= last && now_ms - last >= self.debounce_duration_ms;
            }
            i = i + 1;
        }
        proof {
            assert(self.last_execution@.skip(n as int) =~= Seq::<(i64, u64)>::empty());
        }
        true
    }

    /// Record that the operation ran for `key` at `now_ms`.
    #[verifier::loop_isolation(false)]
    pub fn mark_executed(&mut self, key: i64, now_ms: u64)
        ensures
            final(self).last_execution@ == spec_drop_time(old(self).last_execution@, key).push(
                (key, now_ms),
            ),
            final(self).debounce_duration_ms == old(self).debounce_duration_ms,
    {
        let ghost all = self.last_execution@;
        let mut old_entries: Vec<(i64, u64)> = Vec::new();
        core::mem::swap(&mut old_entries, &mut self.last_execution);
        let mut kept: Vec<(i64, u64)> = Vec::new();
        proof {
            assert(all.skip(0) =~= all);
        }
        let ghost mut seen: int = 0;
        while old_entries.len() > 0
            invariant
                0 <= seen <= all.len(),
                old_entries@ =~= all.skip(seen),
                kept@.add(spec_drop_time(all.skip(seen), key)) =~= spec_drop_time(all, key),
            decreases old_entries.len(),
        {
            let entry = old_entries.remove(0);
            proof {
                assert(entry == all[seen]);
                assert(all.skip(seen)[0] == all[seen]);
                assert(all.skip(seen).skip(1) =~= all.skip(seen + 1));
            }
            if entry.0 != key {
                kept.push(entry);
            }
            proof {
                seen = seen + 1;
                assert(old_entries@ =~= all.skip(seen));
                assert(kept@.add(spec_drop_time(all.skip(seen), key)) =~= spec_drop_time(
                    all,
                    key,
                ));
            }
        }
        proof {
            assert(all.skip(all.len() as int) =~= Seq::<(i64, u64)>::empty());
            assert(kept@ =~= spec_drop_time(all, key));
        }
        kept.push((key, now_ms));
        self.last_execution = kept;
    }

    /// Forget `key`, so the next check runs immediately.
    #[verifier::loop_isolation(false)]
    pub fn reset(&mut self, key: i64)
        ensures
            final(self).last_execution@ == spec_drop_time(old(self).last_execution@, key),
            final(self).debounce_duration_ms == old(self).debounce_duration_ms,
    {
        let ghost all = self.last_execution@;
        let mut old_entries: Vec<(i64, u64)> = Vec::new();
        core::mem::swap(&mut old_entries, &mut self.last_execution);
        let mut kept: Vec<(i64, u64)> = Vec::new();
        proof {
            assert(all.skip(0) =~= all);
        }
        let ghost mut seen: int = 0;
        while old_entries.len() > 0
            invariant
                0 <= seen <= all.len(),
                old_entries@ =~= all.skip(seen),
                kept@.add(spec_drop_time(all.skip(seen), key)) =~= spec_drop_time(all, key),
            decreases old_entries.len(),
        {
            let entry = old_entries.remove(0);
            proof {
                assert(entry == all[seen]);
                assert(all.skip(seen)[0] == all[seen]);
                assert(all.skip(seen).skip(1) =~= all.skip(seen + 1));
            }
            if entry.0 != key {
                kept.push(entry);
            }
            proof {
                seen = seen + 1;
                assert(old_entries@ =~= all.skip(seen));
                assert(kept@.add(spec_drop_time(all.skip(seen), key)) =~= spec_drop_time(
                    all,
                    key,
                ));
            }
        }
        proof {
            assert(all.skip(all.len() as int) =~= Seq::<(i64, u64)>::empty());
            assert(kept@ =~= spec_drop_time(all, key));
        }
        self.last_execution = kept;
    }

    /// Forget every key.
    pub fn clear(&mut self)
        ensures
            final(self).last_execution@ == Seq::<(i64, u64)>::empty(),
            final(self).debounce_duration_ms == old(self).debounce_duration_ms,
    {
        self.last_execution.clear();
    }

    /// How many keys are tracked.
    pub fn len(&self) -> (r: usize)
        ensures
            r == self.last_execution@.len(),
    {
        self.last_execution.len()
    }

    /// Whether no key is tracked.
    pub fn is_empty(&self) -> (r: bool)
        ensures
            r == (self.last_execution@.len() == 0),
    {
        self.last_execution.is_empty()
    }
}

/// The recorded value under `key`, scanning in order.
pub open spec fn spec_find_pending<V>(entries: Seq<(i64, V)>, key: i64) -> Option<V>
    decreases entries.len(),
{
    if entries.len() == 0 {
        None
    } else if entries[0].0 == key {
        Some(entries[0].1)
    } else {
        spec_find_pending(entries.skip(1), key)
    }
}

/// The entries left after dropping `key`.
pub open spec fn spec_drop_pending<V>(entries: Seq<(i64, V)>, key: i64) -> Seq<(i64, V)>
    decreases entries.len(),
{
    if entries.len() == 0 {
        Seq::empty()
    } else {
        let rest = spec_drop_pending(entries.skip(1), key);
        if entries[0].0 == key {
            rest
        } else {
            seq![entries[0]].add(rest)
        }
    }
}

/// Collects keyed items and hands the whole batch out when the flush
/// interval has passed. A later value under the same key replaces the
/// earlier one.
pub struct BatchDebouncer<V> {
    pub pending: Vec<(i64, V)>,
    pub last_flush: u64,
    pub flush_interval_ms: u64,
}

impl<V> BatchDebouncer<V> {
    /// A batch debouncer with the given interval, created at `now_ms`.
    pub fn new(flush_interval_ms: u64, now_ms: u64) -> (r: BatchDebouncer<V>)
        ensures
            r.pending@ == Seq::<(i64, V)>::empty(),
            r.last_flush == now_ms,
            r.flush_interval_ms == flush_interval_ms,
    {
        BatchDebouncer { pending: Vec::new(), last_flush: now_ms, flush_interval_ms }
    }

    /// Add an item to the batch, replacing any pending item under the same
    /// key.
    #[verifier::loop_isolation(false)]
    pub fn add(&mut self, key: i64, value: V)
        ensures
            final(self).pending@ == spec_drop_pending(old(self).pending@, key).push((key, value)),
            final(self).last_flush == old(self).last_flush,
            final(self).flush_interval_ms == old(self).flush_interval_ms,
    {
        let ghost all = self.pending@;
        let mut old_entries: Vec<(i64, V)> = Vec::new();
        core::mem::swap(&mut old_entries, &mut self.pending);
        let mut kept: Vec<(i64, V)> = Vec::new();
        proof {
            assert(all.skip(0) =~= all);
        }
        let ghost mut seen: int = 0;
        while old_entries.len() > 0
            invariant
                0 <= seen <= all.len(),
                old_entries@ =~= all.skip(seen),
                kept@.add(spec_drop_pending(all.skip(seen), key)) =~= spec_drop_pending(all, key),
            decreases old_entries.len(),
        {
            let entry = old_entries.remove(0);
            proof {
                assert(entry == all[seen]);
                assert(all.skip(seen)[0] == all[seen]);
                assert(all.skip(seen).skip(1) =~= all.skip(seen + 1));
            }
            if entry.0 != key {
                kept.push(entry);
            }
            proof {
                seen = seen + 1;
                assert(old_entries@ =~= all.skip(seen));
                assert(kept@.add(spec_drop_pending(all.skip(seen), key)) =~= spec_drop_pending(
                    all,
                    key,
                ));
            }
        }
        proof {
            assert(all.skip(all.len() as int) =~= Seq::<(i64, V)>::empty());
            assert(kept@ =~= spec_drop_pending(all, key));
        }
        kept.push((key, value));
        self.pending = kept;
    }

    /// Hand the batch out when the interval has passed and something is
    /// pending; an empty due batch only advances the flush clock.
    pub fn try_flush(&mut self, now_ms: u64) -> (r: Option<Vec<(i64, V)>>)
        ensures
            (match r {
                Some(items) => {
                    &&& now_ms >= old(self).last_flush
                    &&& now_ms - old(self).last_flush >= old(self).flush_interval_ms
                    &&& old(self).pending@.len() > 0
                    &&& items@ == old(self).pending@
                    &&& final(self).pending@ == Seq::<(i64, V)>::empty()
                    &&& final(self).last_flush == now_ms
                },
                None => {
                    &&& final(self).pending@ == old(self).pending@
                    &&& (if now_ms >= old(self).last_flush && now_ms - old(self).last_flush >= old(
                        self,
                    ).flush_interval_ms {
                        final(self).last_flush == now_ms
                    } else {
                        final(self).last_flush == old(self).last_flush
                    })
                },
            }),
            (now_ms >= old(self).last_flush && now_ms - old(self).last_flush >= old(
                self,
            ).flush_interval_ms && old(self).pending@.len() > 0) ==> r is Some,
            final(self).flush_interval_ms == old(self).flush_interval_ms,
    {
        if !(now_ms >= self.last_flush && now_ms - self.last_flush >= self.flush_interval_ms) {
            return None;
        }
        if self.pending.is_empty() {
            self.last_flush = now_ms;
            return None;
        }
        self.last_flush = now_ms;
        let mut items: Vec<(i64, V)> = Vec::new();
        core::mem::swap(&mut items, &mut self.pending);
        Some(items)
    }

    /// Hand the batch out unconditionally and advance the flush clock.
    pub fn flush(&mut self, now_ms: u64) -> (r: Vec<(i64, V)>)
        ensures
            r@ == old(self).pending@,
            final(self).pending@ == Seq::<(i64, V)>::empty(),
            final(self).last_flush == now_ms,
            final(self).flush_interval_ms == old(self).flush_interval_ms,
    {
        self.last_flush = now_ms;
        let mut items: Vec<(i64, V)> = Vec::new();
        core::mem::swap(&mut items, &mut self.pending);
        items
    }

    /// How many items are pending.
    pub fn pending_count(&self) -> (r: usize)
        ensures
            r == self.pending@.len(),
    {
        self.pending.len()
    }
}


/// The recorded time under a text key, scanning in order.
pub open spec fn spec_find_time_str(entries: Seq<(String, u64)>, key: Seq<char>) -> Option<u64>
    decreases entries.len(),
{
    if entries.len() == 0 {
        None
    } else if entries[0].0@ == key {
        Some(entries[0].1)
    } else {
        spec_find_time_str(entries.skip(1), key)
    }
}

/// The entries left after dropping a text key.
pub open spec fn spec_drop_time_str(entries: Seq<(String, u64)>, key: Seq<char>) -> Seq<
    (String, u64),
>
    decreases entries.len(),
{
    if entries.len() == 0 {
        Seq::empty()
    } else {
        let rest = spec_drop_time_str(entries.skip(1), key);
        if entries[0].0@ == key {
            rest
        } else {
            seq![entries[0]].add(rest)
        }
    }
}

/// Enough time has passed since the recorded execution under a text key.
pub open spec fn spec_due_str(
    entries: Seq<(String, u64)>,
    key: Seq<char>,
    now_ms: u64,
    interval_ms: u64,
) -> bool {
    match spec_find_time_str(entries, key) {
        None => true,
        Some(last) => now_ms >= last && now_ms - last >= interval_ms,
    }
}

/// A debouncer whose keys are texts rather than ids.
pub struct StringDebouncer {
    pub last_execution: Vec<(String, u64)>,
    pub debounce_duration_ms: u64,
}

impl StringDebouncer {
    /// A debouncer with the given interval.
    pub fn new(debounce_duration_ms: u64) -> (r: StringDebouncer)
        ensures
            r.last_execution@ == Seq::<(String, u64)>::empty(),
            r.debounce_duration_ms == debounce_duration_ms,
    {
        StringDebouncer { last_execution: Vec::new(), debounce_duration_ms }
    }

    /// Whether the operation should run for `key` at `now_ms`; when it
    /// should, the execution time is recorded.
    pub fn should_execute(&mut self, key: &str, now_ms: u64) -> (r: bool)
        ensures
            r == spec_due_str(
                old(self).last_execution@,
                key@,
                now_ms,
                old(self).debounce_duration_ms,
            ),
            r ==> ({
                &&& final(self).last_execution@.drop_last() == spec_drop_time_str(
                    old(self).last_execution@,
                    key@,
                )
                &&& final(self).last_execution@.len() == spec_drop_time_str(
                    old(self).last_execution@,
                    key@,
                ).len() + 1
                &&& final(self).last_execution@.last().0@ == key@
                &&& final(self).last_execution@.last().1 == now_ms
            }),
            !r ==> final(self).last_execution@ == old(self).last_execution@,
            final(self).debounce_duration_ms == old(self).debounce_duration_ms,
    {
        if self.check_only(key, now_ms) {
            self.mark_executed(key, now_ms);
            true
        } else {
            false
        }
    }

    /// Whether the operation should run for `key` at `now_ms`, without
    /// recording anything.
    #[verifier::loop_isolation(false)]
    pub fn check_only(&self, key: &str, now_ms: u64) -> (r: bool)
        ensures
            r == spec_due_str(self.last_execution@, key@, now_ms, self.debounce_duration_ms),
    {
        let n = self.last_execution.len();
        let mut i: usize = 0;
        proof {
            assert(self.last_execution@.skip(0) =~= self.last_execution@);
        }
        while i < n
            invariant
                i <= n,
                spec_find_time_str(self.last_execution@, key@) == spec_find_time_str(
                    self.last_execution@.skip(i as int),
                    key@,
                ),
            decreases n - i,
        {
            proof {
                assert(self.last_execution@.skip(i as int)[0] == self.last_execution@[i as int]);
                assert(self.last_execution@.skip(i as int).skip(1) =~= self.last_execution@.skip(
                    i + 1,
                ));
            }
            let entry = &self.last_execution[i];
            if crate::text::str_eq(entry.0.as_str(), key) {
                let last = entry.1;
                return now_ms >= last && now_ms - last >= self.debounce_duration_ms;
            }
            i = i + 1;
        }
        proof {
            assert(self.last_execution@.skip(n as int) =~= Seq::<(String, u64)>::empty());
        }
        true
    }

    /// Record that the operation ran for `key` at `now_ms`.
    #[verifier::loop_isolation(false)]
    pub fn mark_executed(&mut self, key: &str, now_ms: u64)
        ensures
            final(self).last_execution@.drop_last() == spec_drop_time_str(
                old(self).last_execution@,
                key@,
            ),
            final(self).last_execution@.len() == spec_drop_time_str(
                old(self).last_execution@,
                key@,
            ).len() + 1,
            final(self).last_execution@.last().0@ == key@,
            final(self).last_execution@.last().1 == now_ms,
            final(self).debounce_duration_ms == old(self).debounce_duration_ms,
    {
        let ghost all = self.last_execution@;
        let mut old_entries: Vec<(String, u64)> = Vec::new();
        core::mem::swap(&mut old_entries, &mut self.last_execution);
        let mut kept: Vec<(String, u64)> = Vec::new();
        proof {
            assert(all.skip(0) =~= all);
        }
        let ghost mut seen: int = 0;
        while old_entries.len() > 0
            invariant
                0 <= seen <= all.len(),
                old_entries@ =~= all.skip(seen),
                kept@.add(spec_drop_time_str(all.skip(seen), key@)) =~= spec_drop_time_str(
                    all,
                    key@,
                ),
            decreases old_entries.len(),
        {
            let entry = old_entries.remove(0);
            proof {
                assert(entry == all[seen]);
                assert(all.skip(seen)[0] == all[seen]);
                assert(all.skip(seen).skip(1) =~= all.skip(seen + 1));
            }
            if !crate::text::str_eq(entry.0.as_str(), key) {
                kept.push(entry);
            }
            proof {
                seen = seen + 1;
                assert(old_entries@ =~= all.skip(seen));
                assert(kept@.add(spec_drop_time_str(all.skip(seen), key@)) =~= spec_drop_time_str(
                    all,
                    key@,
                ));
            }
        }
        proof {
            assert(all.skip(all.len() as int) =~= Seq::<(String, u64)>::empty());
            assert(kept@ =~= spec_drop_time_str(all, key@));
        }
        kept.push((<String as vstd::string::StringExecFns>::from_str(key), now_ms));
        proof {
            assert(kept@.drop_last() =~= spec_drop_time_str(all, key@));
        }
        self.last_execution = kept;
    }

    /// Forget `key`, so the next check runs immediately.
    #[verifier::loop_isolation(false)]
    pub fn reset(&mut self, key: &str)
        ensures
            final(self).last_execution@ == spec_drop_time_str(old(self).last_execution@, key@),
            final(self).debounce_duration_ms == old(self).debounce_duration_ms,
    {
        let ghost all = self.last_execution@;
        let mut old_entries: Vec<(String, u64)> = Vec::new();
        core::mem::swap(&mut old_entries, &mut self.last_execution);
        let mut kept: Vec<(String, u64)> = Vec::new();
        proof {
            assert(all.skip(0) =~= all);
        }
        let ghost mut seen: int = 0;
        while old_entries.len() > 0
            invariant
                0 <= seen <= all.len(),
                old_entries@ =~= all.skip(seen),
                kept@.add(spec_drop_time_str(all.skip(seen), key@)) =~= spec_drop_time_str(
                    all,
                    key@,
                ),
            decreases old_entries.len(),
        {
            let entry = old_entries.remove(0);
            proof {
                assert(entry == all[seen]);
                assert(all.skip(seen)[0] == all[seen]);
                assert(all.skip(seen).skip(1) =~= all.skip(seen + 1));
            }
            if !crate::text::str_eq(entry.0.as_str(), key) {
                kept.push(entry);
            }
            proof {
                seen = seen + 1;
                assert(old_entries@ =~= all.skip(seen));
                assert(kept@.add(spec_drop_time_str(all.skip(seen), key@)) =~= spec_drop_time_str(
                    all,
                    key@,
                ));
            }
        }
        proof {
            assert(all.skip(all.len() as int) =~= Seq::<(String, u64)>::empty());
            assert(kept@ =~= spec_drop_time_str(all, key@));
        }
        self.last_execution = kept;
    }

    /// How many keys are tracked.
    pub fn len(&self) -> (r: usize)
        ensures
            r == self.last_execution@.len(),
    {
        self.last_execution.len()
    }

    /// Whether no key is tracked.
    pub fn is_empty(&self) -> (r: bool)
        ensures
            r == (self.last_execution@.len() == 0),
    {
        self.last_execution.is_empty()
    }
}

} // verus!
