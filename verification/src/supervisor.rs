//! The worker supervisor: the process-wide registry of running workers and
//! the decisions behind starting, stopping and bulk operations.
//!
//! The registry holds at most one entry per account; starting an account
//! whose entry is still live fails. The surrounding process owns the tasks
//! and channels; it reports liveness changes back into the registry.

use vstd::prelude::*;
use vstd::string::StringExecFns;
use crate::config::Account;
use crate::config::Settings;
use crate::text::i64_to_string;
use crate::text::spec_dec_i64;
use crate::text::str_eq;
use crate::validation::trim;
use crate::validation::trim_of;
use crate::worker::GroupSlotConfig;
use crate::worker::WorkerConfig;
use crate::worker::WorkerState;

verus! {

/// A command forwarded to a running worker task.
#[derive(Debug, Clone)]
pub enum WorkerCommand {
    Shutdown,
    ReloadPatterns,
}

/// One registry entry: an account's worker and whether its task is live.
#[derive(Debug)]
pub struct WorkerEntry {
    pub account_id: i64,
    pub account_name: String,
    pub live: bool,
}

/// The index of an account's entry, scanning in order.
pub open spec fn spec_find_entry(entries: Seq<WorkerEntry>, account_id: i64) -> Option<int>
    decreases entries.len(),
{
    if entries.len() == 0 {
        None
    } else if entries[0].account_id == account_id {
        Some(0)
    } else {
        match spec_find_entry(entries.skip(1), account_id) {
            Some(i) => Some(i + 1),
            None => None,
        }
    }
}

/// The entries left after dropping one account's entry.
pub open spec fn spec_drop_entry(entries: Seq<WorkerEntry>, account_id: i64) -> Seq<WorkerEntry>
    decreases entries.len(),
{
    if entries.len() == 0 {
        Seq::empty()
    } else {
        let rest = spec_drop_entry(entries.skip(1), account_id);
        if entries[0].account_id == account_id {
            rest
        } else {
            seq![entries[0]].add(rest)
        }
    }
}

/// An account has a live entry.
pub open spec fn spec_is_running(entries: Seq<WorkerEntry>, account_id: i64) -> bool {
    exists|i: int|
        0 <= i < entries.len() && (#[trigger] entries[i]).account_id == account_id
            && entries[i].live
}

/// The ids of the live entries, in registry order.
pub open spec fn spec_running_ids(entries: Seq<WorkerEntry>) -> Seq<i64>
    decreases entries.len(),
{
    if entries.len() == 0 {
        Seq::empty()
    } else {
        let rest = spec_running_ids(entries.skip(1));
        if entries[0].live {
            seq![entries[0].account_id].add(rest)
        } else {
            rest
        }
    }
}

/// The process-wide registry of account workers.
pub struct WorkerRegistry {
    pub entries: Vec<WorkerEntry>,
}

impl WorkerRegistry {
    /// At most one entry exists per account.
    pub open spec fn wf(self) -> bool {
        forall|i: int, j: int|
            0 <= i < j < self.entries@.len() ==> (#[trigger] self.entries@[i]).account_id != (
            #[trigger] self.entries@[j]).account_id
    }

    /// An empty registry.
    pub fn new() -> (r: WorkerRegistry)
        ensures
            r.entries@ == Seq::<WorkerEntry>::empty(),
            r.wf(),
    {
        WorkerRegistry { entries: Vec::new() }
    }

    /// Register an account's worker: fails when a live entry exists; a dead
    /// entry is replaced.
    #[verifier::loop_isolation(false)]
    pub fn try_register(&mut self, account_id: i64, account_name: String) -> (r: Result<
        (),
        String,
    >)
        requires
            old(self).wf(),
        ensures
            final(self).wf(),
            r is Err <==> spec_is_running(old(self).entries@, account_id),
            r is Ok ==> final(self).entries@ == spec_drop_entry(
                old(self).entries@,
                account_id,
            ).push(WorkerEntry { account_id, account_name, live: true }),
            r is Err ==> final(self).entries@ == old(self).entries@,
    {
        if self.is_running(account_id) {
            let mut msg = String::from_str("Account ");
            msg.append(i64_to_string(account_id).as_str());
            msg.append(" is already running");
            return Err(msg);
        }
        self.remove(account_id);
        proof {
            lemma_drop_entry_complete(old(self).entries@, account_id);
        }
        self.entries.push(WorkerEntry { account_id, account_name, live: true });
        proof {
            lemma_drop_entry_subset(old(self).entries@, account_id);
            assert forall|i: int, j: int|
                0 <= i < j < self.entries@.len() implies (#[trigger] self.entries@[i]).account_id
                != (#[trigger] self.entries@[j]).account_id by {
                let dropped = spec_drop_entry(old(self).entries@, account_id);
                if j < dropped.len() {
                } else {
                    assert(self.entries@[j].account_id == account_id);
                    assert(self.entries@[i] == dropped[i]);
                }
            }
        }
        Ok(())
    }

    /// Drop an account's entry, if present.
    #[verifier::loop_isolation(false)]
    pub fn remove(&mut self, account_id: i64)
        requires
            old(self).wf(),
        ensures
            final(self).wf(),
            final(self).entries@ == spec_drop_entry(old(self).entries@, account_id),
    {
        let ghost all = self.entries@;
        let mut old_entries: Vec<WorkerEntry> = Vec::new();
        core::mem::swap(&mut old_entries, &mut self.entries);
        let mut kept: Vec<WorkerEntry> = Vec::new();
        proof {
            assert(all.skip(0) =~= all);
        }
        let ghost mut seen: int = 0;
        while old_entries.len() > 0
            invariant
                0 <= seen <= all.len(),
                old_entries@ =~= all.skip(seen),
                kept@.add(spec_drop_entry(all.skip(seen), account_id)) =~= spec_drop_entry(
                    all,
                    account_id,
                ),
            decreases old_entries.len(),
        {
            let entry = old_entries.remove(0);
            proof {
                assert(entry == all[seen]);
                assert(all.skip(seen)[0] == all[seen]);
                assert(all.skip(seen).skip(1) =~= all.skip(seen + 1));
            }
            if entry.account_id != account_id {
                kept.push(entry);
            }
            proof {
                seen = seen + 1;
                assert(old_entries@ =~= all.skip(seen));
                assert(kept@.add(spec_drop_entry(all.skip(seen), account_id)) =~= spec_drop_entry(
                    all,
                    account_id,
                ));
            }
        }
        proof {
            assert(all.skip(all.len() as int) =~= Seq::<WorkerEntry>::empty());
            assert(kept@ =~= spec_drop_entry(all, account_id));
            lemma_drop_entry_wf(all, account_id);
        }
        self.entries = kept;
    }

    /// Mark an account's entry live or finished.
    #[verifier::loop_isolation(false)]
    pub fn set_live(&mut self, account_id: i64, live: bool)
        requires
            old(self).wf(),
        ensures
            final(self).wf(),
            final(self).entries@.len() == old(self).entries@.len(),
            forall|i: int|
                0 <= i < old(self).entries@.len() ==> {
                    &&& (#[trigger] final(self).entries@[i]).account_id == old(
                        self,
                    ).entries@[i].account_id
                    &&& final(self).entries@[i].account_name == old(
                        self,
                    ).entries@[i].account_name
                    &&& final(self).entries@[i].live == (if old(self).entries@[i].account_id
                        == account_id {
                        live
                    } else {
                        old(self).entries@[i].live
                    })
                },
    {
        let n = self.entries.len();
        let mut i: usize = 0;
        while i < n
            invariant
                i <= n,
                n == self.entries@.len(),
                self.entries@.len() == old(self).entries@.len(),
                forall|k: int|
                    0 <= k < n ==> {
                        &&& (#[trigger] self.entries@[k]).account_id == old(
                            self,
                        ).entries@[k].account_id
                        &&& self.entries@[k].account_name == old(self).entries@[k].account_name
                    },
                forall|k: int|
                    0 <= k < i ==> (#[trigger] self.entries@[k]).live == (if old(
                        self,
                    ).entries@[k].account_id == account_id {
                        live
                    } else {
                        old(self).entries@[k].live
                    }),
                forall|k: int|
                    i <= k < n ==> (#[trigger] self.entries@[k]).live == old(
                        self,
                    ).entries@[k].live,
            decreases n - i,
        {
            if self.entries[i].account_id == account_id {
                self.entries[i].live = live;
            }
            i = i + 1;
        }
        proof {
            assert forall|i: int, j: int|
                0 <= i < j < self.entries@.len() implies (#[trigger] self.entries@[i]).account_id
                != (#[trigger] self.entries@[j]).account_id by {
                assert(old(self).entries@[i].account_id != old(self).entries@[j].account_id);
            }
        }
    }

    /// Whether an account has a live entry.
    #[verifier::loop_isolation(false)]
    pub fn is_running(&self, account_id: i64) -> (r: bool)
        ensures
            r == spec_is_running(self.entries@, account_id),
    {
        let n = self.entries.len();
        let mut i: usize = 0;
        while i < n
            invariant
                i <= n,
                forall|k: int|
                    0 <= k < i ==> !((#[trigger] self.entries@[k]).account_id == account_id
                        && self.entries@[k].live),
            decreases n - i,
        {
            if self.entries[i].account_id == account_id && self.entries[i].live {
                return true;
            }
            i = i + 1;
        }
        proof {
            if spec_is_running(self.entries@, account_id) {
                let k = choose|k: int|
                    0 <= k < self.entries@.len() && (#[trigger] self.entries@[k]).account_id
                        == account_id && self.entries@[k].live;
            }
        }
        false
    }

    /// The accounts with live entries, in registry order.
    #[verifier::loop_isolation(false)]
    pub fn running_accounts(&self) -> (r: Vec<i64>)
        ensures
            r@ == spec_running_ids(self.entries@),
    {
        let mut out: Vec<i64> = Vec::new();
        let n = self.entries.len();
        let mut i: usize = 0;
        proof {
            assert(self.entries@.skip(0) =~= self.entries@);
        }
        while i < n
            invariant
                i <= n,
                out@.add(spec_running_ids(self.entries@.skip(i as int))) =~= spec_running_ids(
                    self.entries@,
                ),
            decreases n - i,
        {
            proof {
                assert(self.entries@.skip(i as int)[0] == self.entries@[i as int]);
                assert(self.entries@.skip(i as int).skip(1) =~= self.entries@.skip(i + 1));
            }
            if self.entries[i].live {
                out.push(self.entries[i].account_id);
            }
            proof {
                assert(out@.add(spec_running_ids(self.entries@.skip(i + 1))) =~= spec_running_ids(
                    self.entries@,
                ));
            }
            i = i + 1;
        }
        proof {
            assert(self.entries@.skip(n as int) =~= Seq::<WorkerEntry>::empty());
            assert(out@ =~= spec_running_ids(self.entries@));
        }
        out
    }

    /// How many workers are tracked, and how many are live.
    #[verifier::loop_isolation(false)]
    pub fn get_worker_counts(&self) -> (r: (usize, usize))
        ensures
            r.0 == self.entries@.len(),
            r.1 == spec_running_ids(self.entries@).len(),
    {
        let running = self.running_accounts();
        (self.entries.len(), running.len())
    }

    /// Every account with an entry, in registry order; the stop-everything
    /// plan visits exactly these.
    #[verifier::loop_isolation(false)]
    pub fn all_accounts(&self) -> (r: Vec<i64>)
        ensures
            r@.len() == self.entries@.len(),
            forall|i: int|
                0 <= i < self.entries@.len() ==> r@[i] == (#[trigger] self.entries@[i]).account_id,
    {
        let mut out: Vec<i64> = Vec::new();
        let n = self.entries.len();
        let mut i: usize = 0;
        while i < n
            invariant
                i <= n,
                out@.len() == i,
                forall|k: int|
                    0 <= k < i ==> out@[k] == (#[trigger] self.entries@[k]).account_id,
            decreases n - i,
        {
            out.push(self.entries[i].account_id);
            i = i + 1;
        }
        out
    }
}

/// Dropping an account leaves no entry with its id.
proof fn lemma_drop_entry_complete(entries: Seq<WorkerEntry>, account_id: i64)
    ensures
        forall|i: int|
            0 <= i < spec_drop_entry(entries, account_id).len() ==> (#[trigger] spec_drop_entry(
                entries,
                account_id,
            )[i]).account_id != account_id,
    decreases entries.len(),
{
    if entries.len() > 0 {
        lemma_drop_entry_complete(entries.skip(1), account_id);
        let rest = spec_drop_entry(entries.skip(1), account_id);
        if entries[0].account_id != account_id {
            let out = seq![entries[0]].add(rest);
            assert forall|i: int| 0 <= i < out.len() implies (#[trigger] out[i]).account_id
                != account_id by {
                if i > 0 {
                    assert(out[i] == rest[i - 1]);
                }
            }
        }
    }
}

/// Every entry that survives a drop came from the registry it was dropped from.
proof fn lemma_drop_entry_subset(entries: Seq<WorkerEntry>, account_id: i64)
    ensures
        forall|i: int|
            0 <= i < spec_drop_entry(entries, account_id).len() ==> exists|k: int|
                0 <= k < entries.len() && entries[k] == #[trigger] spec_drop_entry(
                    entries,
                    account_id,
                )[i],
    decreases entries.len(),
{
    if entries.len() > 0 {
        lemma_drop_entry_subset(entries.skip(1), account_id);
        let rest = spec_drop_entry(entries.skip(1), account_id);
        assert forall|i: int|
            0 <= i < spec_drop_entry(entries, account_id).len() implies exists|k: int|
            0 <= k < entries.len() && entries[k] == #[trigger] spec_drop_entry(
                entries,
                account_id,
            )[i] by {
            let out = spec_drop_entry(entries, account_id);
            if entries[0].account_id == account_id {
                let e = out[i];
                assert(rest[i] == e);
                let k = choose|k: int| 0 <= k < entries.skip(1).len() && entries.skip(1)[k] == e;
                assert(entries[k + 1] == e);
            } else {
                if i == 0 {
                    assert(entries[0] == out[0]);
                } else {
                    let e = out[i];
                    assert(rest[i - 1] == e);
                    let k = choose|k: int|
                        0 <= k < entries.skip(1).len() && entries.skip(1)[k] == e;
                    assert(entries[k + 1] == e);
                }
            }
        }
    }
}

/// Dropping an account from a well-formed registry keeps it well formed.
proof fn lemma_drop_entry_wf(entries: Seq<WorkerEntry>, account_id: i64)
    requires
        forall|i: int, j: int|
            0 <= i < j < entries.len() ==> (#[trigger] entries[i]).account_id != (
            #[trigger] entries[j]).account_id,
    ensures
        forall|i: int, j: int|
            0 <= i < j < spec_drop_entry(entries, account_id).len() ==> (#[trigger] spec_drop_entry(
                entries,
                account_id,
            )[i]).account_id != (#[trigger] spec_drop_entry(entries, account_id)[j]).account_id,
    decreases entries.len(),
{
    if entries.len() > 0 {
        assert(forall|i: int, j: int|
            0 <= i < j < entries.skip(1).len() ==> (#[trigger] entries.skip(1)[i]).account_id != (
            #[trigger] entries.skip(1)[j]).account_id);
        lemma_drop_entry_wf(entries.skip(1), account_id);
        let rest = spec_drop_entry(entries.skip(1), account_id);
        if entries[0].account_id != account_id {
            let out = seq![entries[0]].add(rest);
            lemma_drop_entry_subset(entries.skip(1), account_id);
            assert forall|i: int, j: int|
                0 <= i < j < out.len() implies (#[trigger] out[i]).account_id != (
                #[trigger] out[j]).account_id by {
                if i == 0 {
                    assert(out[j] == rest[j - 1]);
                    let k = choose|k: int|
                        0 <= k < entries.skip(1).len() && entries.skip(1)[k] == rest[j - 1];
                    assert(entries[k + 1] == rest[j - 1]);
                } else {
                    assert(out[i] == rest[i - 1]);
                    assert(out[j] == rest[j - 1]);
                }
            }
        }
    }
}

/// The registry holds at most one entry for any account.
pub proof fn lemma_registry_unique(r: WorkerRegistry, i: int, j: int)
    requires
        r.wf(),
        0 <= i < r.entries@.len(),
        0 <= j < r.entries@.len(),
        r.entries@[i].account_id == r.entries@[j].account_id,
    ensures
        i == j,
{
    if i < j {
        assert(r.entries@[i].account_id != r.entries@[j].account_id);
    }
    if j < i {
        assert(r.entries@[j].account_id != r.entries@[i].account_id);
    }
}

/// Registering a fresh account and then removing it restores the registry.
pub proof fn lemma_register_then_remove(entries: Seq<WorkerEntry>, e: WorkerEntry)
    requires
        forall|i: int|
            0 <= i < entries.len() ==> (#[trigger] entries[i]).account_id != e.account_id,
    ensures
        spec_drop_entry(entries.push(e), e.account_id) == entries,
    decreases entries.len(),
{
    if entries.len() == 0 {
        reveal_with_fuel(spec_drop_entry, 3);
        assert(entries.push(e)[0] == e);
        assert(entries.push(e).skip(1) =~= Seq::<WorkerEntry>::empty());
        assert(spec_drop_entry(entries.push(e), e.account_id) =~= entries);
    } else {
        assert(entries.push(e)[0] == entries[0]);
        assert(entries.push(e).skip(1) =~= entries.skip(1).push(e));
        lemma_register_then_remove(entries.skip(1), e);
        assert(seq![entries[0]].add(entries.skip(1)) =~= entries);
    }
}

/// Build the runtime config for one account from its row, the settings and
/// its enabled group slots, or say which credential is missing.
#[verifier::loop_isolation(false)]
pub fn build_worker_config(
    account: &Account,
    settings: &Settings,
    group_slots: Vec<(i64, String, String)>,
    session_dir: String,
) -> (r: Result<WorkerConfig, String>)
    ensures
        ({
            let api_id = (match account.api_id_override {
                Some(v) => Some(v),
                None => settings.api_id,
            });
            let api_hash_missing = account.api_hash_override is None && settings.api_hash is None;
            r is Err <==> (api_id is None || api_hash_missing || api_id == Some(0i64) || (
            !api_hash_missing && trim_of(
                (match account.api_hash_override {
                    Some(h) => h,
                    None => settings.api_hash->Some_0,
                })@,
            ).len() == 0))
        }),
        (match r {
            Ok(c) => {
                &&& c.account_id == account.id
                &&& c.account_name == account.account_name
                &&& Some(c.api_id) == (match account.api_id_override {
                    Some(v) => Some(v),
                    None => settings.api_id,
                })
                &&& c.session_dir == session_dir
                &&& c.group_chat_ids@.len() == group_slots@.len()
                &&& (forall|i: int|
                    0 <= i < group_slots@.len() ==> c.group_chat_ids@[i] == (
                    #[trigger] group_slots@[i]).0)
                &&& c.group_slots@.len() == group_slots@.len()
                &&& (forall|i: int|
                    0 <= i < group_slots@.len() ==> {
                        let main = spec_positive(settings.main_bot_user_id);
                        let beta = spec_positive(settings.beta_bot_user_id);
                        let kind = (#[trigger] group_slots@[i]).1@;
                        let chosen = if kind == "beta"@ {
                            spec_or(beta, main)
                        } else {
                            spec_or(main, beta)
                        };
                        &&& c.group_slots@[i].group_id == group_slots@[i].0
                        &&& c.group_slots@[i].moderator_kind == group_slots@[i].1
                        &&& c.group_slots@[i].group_title == group_slots@[i].2
                        &&& c.group_slots@[i].moderator_bot_id == (match chosen {
                            Some(b) => b,
                            None => 0,
                        })
                    })
                &&& c.main_bot_id == spec_positive(settings.main_bot_user_id)
                &&& c.beta_bot_id == spec_positive(settings.beta_bot_user_id)
                &&& c.moderator_bot_ids@ == (match (
                    spec_positive(settings.main_bot_user_id),
                    spec_positive(settings.beta_bot_user_id),
                ) {
                    (Some(m), Some(b)) => seq![m, b],
                    (Some(m), None) => seq![m],
                    (None, Some(b)) => seq![b],
                    (None, None) => Seq::<i64>::empty(),
                })
                &&& c.max_join_attempts == (match account.join_max_attempts_override {
                    Some(v) => v,
                    None => settings.join_max_attempts_default,
                })
                &&& c.join_cooldown_seconds == (match account.join_cooldown_seconds_override {
                    Some(v) => v,
                    None => settings.join_cooldown_seconds_default,
                })
            },
            Err(_) => true,
        }),
{
    let api_id = match account.api_id_override {
        Some(v) => v,
        None => match settings.api_id {
            Some(v) => v,
            None => {
                return Err(String::from_str("API ID not configured"));
            },
        },
    };
    let api_hash = match &account.api_hash_override {
        Some(h) => h.clone(),
        None => match &settings.api_hash {
            Some(h) => h.clone(),
            None => {
                return Err(String::from_str("API Hash not configured"));
            },
        },
    };
    if api_id == 0 {
        return Err(String::from_str(
            "API ID is invalid (0). Please configure a valid API ID in Settings or per-account.",
        ));
    }
    if trim(api_hash.as_str()).unicode_len() == 0 {
        return Err(String::from_str(
            "API Hash is empty. Please configure a valid API Hash in Settings or per-account.",
        ));
    }
    let main_bot_id = positive_id(settings.main_bot_user_id);
    let beta_bot_id = positive_id(settings.beta_bot_user_id);
    let mut moderator_bot_ids: Vec<i64> = Vec::new();
    match main_bot_id {
        Some(id) => {
            moderator_bot_ids.push(id);
        },
        None => {},
    }
    match beta_bot_id {
        Some(id) => {
            moderator_bot_ids.push(id);
        },
        None => {},
    }
    proof {
        assert(moderator_bot_ids@ =~= (match (
            spec_positive(settings.main_bot_user_id),
            spec_positive(settings.beta_bot_user_id),
        ) {
            (Some(m), Some(b)) => seq![m, b],
            (Some(m), None) => seq![m],
            (None, Some(b)) => seq![b],
            (None, None) => Seq::<i64>::empty(),
        }));
    }
    let mut group_chat_ids: Vec<i64> = Vec::new();
    let mut group_slot_configs: Vec<GroupSlotConfig> = Vec::new();
    let ghost all = group_slots@;
    let mut group_slots = group_slots;
    proof {
        assert(all.skip(0) =~= all);
    }
    let ghost mut seen: int = 0;
    while group_slots.len() > 0
        invariant
            0 <= seen <= all.len(),
            group_slots@ =~= all.skip(seen),
            group_chat_ids@.len() == seen,
            group_slot_configs@.len() == seen,
            forall|i: int| 0 <= i < seen ==> group_chat_ids@[i] == (#[trigger] all[i]).0,
            forall|i: int|
                0 <= i < seen ==> {
                    let main = spec_positive(settings.main_bot_user_id);
                    let beta = spec_positive(settings.beta_bot_user_id);
                    let kind = (#[trigger] all[i]).1@;
                    let chosen = if kind == "beta"@ {
                        spec_or(beta, main)
                    } else {
                        spec_or(main, beta)
                    };
                    &&& group_slot_configs@[i].group_id == all[i].0
                    &&& group_slot_configs@[i].moderator_kind == all[i].1
                    &&& group_slot_configs@[i].group_title == all[i].2
                    &&& group_slot_configs@[i].moderator_bot_id == (match chosen {
                        Some(b) => b,
                        None => 0,
                    })
                },
        decreases group_slots.len(),
    {
        let (group_id, moderator_kind, group_title) = group_slots.remove(0);
        proof {
            assert((group_id, moderator_kind, group_title) == all[seen]);
        }
        group_chat_ids.push(group_id);
        let chosen = if str_eq(moderator_kind.as_str(), "beta") {
            match beta_bot_id {
                Some(b) => Some(b),
                None => main_bot_id,
            }
        } else {
            match main_bot_id {
                Some(m) => Some(m),
                None => beta_bot_id,
            }
        };
        group_slot_configs.push(
            GroupSlotConfig {
                group_id,
                group_title,
                moderator_kind,
                moderator_bot_id: match chosen {
                    Some(b) => b,
                    None => 0,
                },
            },
        );
        proof {
            seen = seen + 1;
            assert(group_slots@ =~= all.skip(seen));
        }
    }
    let max_join_attempts = match account.join_max_attempts_override {
        Some(v) => v,
        None => settings.join_max_attempts_default,
    };
    let join_cooldown_seconds = match account.join_cooldown_seconds_override {
        Some(v) => v,
        None => settings.join_cooldown_seconds_default,
    };
    Ok(
        WorkerConfig {
            account_id: account.id,
            account_name: account.account_name.clone(),
            api_id,
            api_hash,
            session_dir,
            group_slots: group_slot_configs,
            group_chat_ids,
            moderator_bot_ids,
            main_bot_id,
            beta_bot_id,
            max_join_attempts,
            join_cooldown_seconds,
        },
    )
}

/// An optional id kept only when positive.
pub open spec fn spec_positive(id: Option<i64>) -> Option<i64> {
    match id {
        Some(v) => if v > 0 {
            Some(v)
        } else {
            None
        },
        None => None,
    }
}

/// The first of two options that is set.
pub open spec fn spec_or(a: Option<i64>, b: Option<i64>) -> Option<i64> {
    match a {
        Some(v) => Some(v),
        None => b,
    }
}

/// Keep an optional id only when positive.
fn positive_id(id: Option<i64>) -> (r: Option<i64>)
    ensures
        r == spec_positive(id),
{
    match id {
        Some(v) => if v > 0 {
            Some(v)
        } else {
            None
        },
        None => None,
    }
}

/// The rank of an observable status within one start-to-stop cycle.
pub open spec fn spec_status_rank(status: Seq<char>) -> int {
    if status == "starting"@ {
        1
    } else if status == "running"@ {
        2
    } else if status == "error"@ {
        3
    } else if status == "stopping"@ {
        4
    } else if status == "stopped"@ {
        5
    } else {
        0
    }
}

/// The status tag a lifecycle state shows.
pub open spec fn spec_status_of_state(s: WorkerState) -> Seq<char> {
    match s {
        WorkerState::Stopped => "stopped"@,
        WorkerState::Starting => "starting"@,
        WorkerState::Running => "running"@,
        WorkerState::Stopping => "stopping"@,
        WorkerState::Error(_) => "error"@,
    }
}

/// The transitions a worker's lifecycle takes: start from stopped, come up
/// or fail, stop from anywhere, error from running, and finish stopping.
pub open spec fn spec_lifecycle_step(pre: WorkerState, post: WorkerState) -> bool {
    ||| (pre is Stopped && post is Starting)
    ||| (pre is Starting && post is Running)
    ||| (pre is Starting && post is Error)
    ||| (pre is Running && post is Error)
    ||| (pre is Running && post is Stopping)
    ||| (pre is Starting && post is Stopping)
    ||| (pre is Error && post is Stopping)
    ||| (pre is Error && post is Stopped)
    ||| (pre is Stopping && post is Stopped)
}

/// Within one cycle, observable statuses only move forward: every
/// transition after the start raises or keeps the status rank, so the
/// emitted tags follow starting, running, error if any, stopping, stopped,
/// in that order.
pub proof fn lemma_status_monotonic(pre: WorkerState, post: WorkerState)
    requires
        spec_lifecycle_step(pre, post),
        !(pre is Stopped),
    ensures
        spec_status_rank(spec_status_of_state(post)) > spec_status_rank(spec_status_of_state(pre)),
{
    reveal_strlit("starting");
    reveal_strlit("running");
    reveal_strlit("error");
    reveal_strlit("stopping");
    reveal_strlit("stopped");
    assert("starting"@.len() != "running"@.len());
    assert("starting"@.len() != "error"@.len());
    assert("starting"@[3] != "stopping"@[3]);
    assert("starting"@.len() != "stopped"@.len());
    assert("running"@.len() != "error"@.len());
    assert("running"@.len() != "stopping"@.len());
    assert("running"@.len() == "stopped"@.len());
    assert("running"@[0] != "stopped"@[0]);
    assert("error"@.len() != "stopping"@.len());
    assert("error"@.len() != "stopped"@.len());
    assert("stopping"@.len() != "stopped"@.len());
    assert("starting"@ != "running"@ && "starting"@ != "error"@ && "starting"@ != "stopping"@
        && "starting"@ != "stopped"@);
    assert("running"@ != "error"@ && "running"@ != "stopping"@ && "running"@ != "stopped"@);
    assert("error"@ != "stopping"@ && "error"@ != "stopped"@);
    assert("stopping"@ != "stopped"@);
}

} // verus!
