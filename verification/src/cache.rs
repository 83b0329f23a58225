//! The shared configuration cache: TTL snapshots of phase patterns, the
//! action catalog and action patterns, plus resolved per-account action
//! configurations.
//!
//! Time is passed in by the caller as milliseconds, so every expiry decision
//! is a function of its arguments. On a miss the caller supplies the value
//! it loaded from the configuration store; the cache keeps it until its
//! entry expires or is invalidated.

use vstd::prelude::*;
use vstd::pervasive::unreached;
use crate::config::Action;
use crate::config::ActionPattern;
use crate::config::PhasePatternWithInfo;

verus! {

/// How long a cache entry stays valid, in milliseconds.
pub const DEFAULT_CACHE_TTL_MS: u64 = 300000;

/// A cached value with its expiry instant.
pub struct CachedItem<T> {
    pub data: T,
    pub expires_at: u64,
}

/// A counter raised by one, saturating.
pub open spec fn spec_bump(n: u64) -> u64 {
    if n == u64::MAX {
        u64::MAX
    } else {
        (n + 1) as u64
    }
}

/// The instant `ttl` milliseconds after `now`, saturating.
pub open spec fn spec_expiry(now_ms: u64, ttl_ms: u64) -> u64 {
    if now_ms + ttl_ms > u64::MAX {
        u64::MAX
    } else {
        (now_ms + ttl_ms) as u64
    }
}

/// The entry exists and has not expired at `now`.
pub open spec fn spec_item_valid<T>(item: Option<CachedItem<T>>, now_ms: u64) -> bool {
    match item {
        Some(entry) => now_ms <= entry.expires_at,
        None => false,
    }
}

impl<T> CachedItem<T> {
    /// Wrap a value, valid for `ttl_ms` from `now_ms`.
    pub fn new(data: T, now_ms: u64, ttl_ms: u64) -> (r: CachedItem<T>)
        ensures
            r.data == data,
            r.expires_at == spec_expiry(now_ms, ttl_ms),
    {
        let expires_at: u64 = if now_ms > u64::MAX - ttl_ms {
            u64::MAX
        } else {
            now_ms + ttl_ms
        };
        CachedItem { data, expires_at }
    }

    /// The entry has expired at `now_ms`.
    pub fn is_expired(&self, now_ms: u64) -> (r: bool)
        ensures
            r == (now_ms > self.expires_at),
    {
        now_ms > self.expires_at
    }

    /// The held value, when still valid at `now_ms`.
    pub fn get_if_valid(&self, now_ms: u64) -> (r: Option<&T>)
        ensures
            (match r {
                Some(v) => now_ms <= self.expires_at && *v == self.data,
                None => now_ms > self.expires_at,
            }),
    {
        if self.is_expired(now_ms) {
            None
        } else {
            Some(&self.data)
        }
    }
}

/// The resolved rules for one account and action: targets, blacklist,
/// pairs, delays, and the action's own flags.
pub struct ActionConfig {
    pub target_pairs: Vec<(String, String)>,
    pub blacklist: Vec<String>,
    pub targets: Vec<String>,
    pub delay_min: i32,
    pub delay_max: i32,
    pub button_type: String,
    pub random_fallback_enabled: bool,
    pub is_two_step: bool,
}

/// The per-account config entry under `(account_id, action_id)`, scanning in
/// order.
pub open spec fn spec_find_config(
    entries: Seq<(i64, i64, CachedItem<ActionConfig>)>,
    account_id: i64,
    action_id: i64,
) -> Option<CachedItem<ActionConfig>>
    decreases entries.len(),
{
    if entries.len() == 0 {
        None
    } else if entries[0].0 == account_id && entries[0].1 == action_id {
        Some(entries[0].2)
    } else {
        spec_find_config(entries.skip(1), account_id, action_id)
    }
}

/// The entries left after dropping one account's configs.
pub open spec fn spec_drop_account(
    entries: Seq<(i64, i64, CachedItem<ActionConfig>)>,
    account_id: i64,
) -> Seq<(i64, i64, CachedItem<ActionConfig>)>
    decreases entries.len(),
{
    if entries.len() == 0 {
        Seq::empty()
    } else {
        let rest = spec_drop_account(entries.skip(1), account_id);
        if entries[0].0 == account_id {
            rest
        } else {
            seq![entries[0]].add(rest)
        }
    }
}

/// The entries left after dropping one `(account, action)` key.
pub open spec fn spec_drop_key(
    entries: Seq<(i64, i64, CachedItem<ActionConfig>)>,
    account_id: i64,
    action_id: i64,
) -> Seq<(i64, i64, CachedItem<ActionConfig>)>
    decreases entries.len(),
{
    if entries.len() == 0 {
        Seq::empty()
    } else {
        let rest = spec_drop_key(entries.skip(1), account_id, action_id);
        if entries[0].0 == account_id && entries[0].1 == action_id {
            rest
        } else {
            seq![entries[0]].add(rest)
        }
    }
}

/// The shared cache of pattern snapshots and resolved action configs.
pub struct WorkerCache {
    pub phase_patterns: Option<CachedItem<Vec<PhasePatternWithInfo>>>,
    pub actions: Option<CachedItem<Vec<Action>>>,
    pub action_patterns: Option<CachedItem<Vec<ActionPattern>>>,
    pub action_configs: Vec<(i64, i64, CachedItem<ActionConfig>)>,
    pub hits: u64,
    pub misses: u64,
}

impl WorkerCache {
    /// An empty cache.
    pub fn new() -> (r: WorkerCache)
        ensures
            r.phase_patterns is None,
            r.actions is None,
            r.action_patterns is None,
            r.action_configs@ == Seq::<(i64, i64, CachedItem<ActionConfig>)>::empty(),
            r.hits == 0,
            r.misses == 0,
    {
        WorkerCache {
            phase_patterns: None,
            actions: None,
            action_patterns: None,
            action_configs: Vec::new(),
            hits: 0,
            misses: 0,
        }
    }

    /// Phase patterns: the cached snapshot when valid at `now_ms`, else the
    /// supplied loaded value, which is stored with a fresh TTL.
    pub fn get_phase_patterns<'a>(
        &'a mut self,
        now_ms: u64,
        loaded: Vec<PhasePatternWithInfo>,
    ) -> (r: &'a Vec<PhasePatternWithInfo>)
        ensures
            ({
                let cached = old(self).phase_patterns;
                if spec_item_valid(cached, now_ms) {
                    &&& final(self).hits == spec_bump(old(self).hits)
                    &&& final(self).misses == old(self).misses
                } else {
                    &&& final(self).misses == spec_bump(old(self).misses)
                    &&& final(self).hits == old(self).hits
                }
            }),
            ({
                let cached = old(self).phase_patterns;
                if spec_item_valid(cached, now_ms) {
                    *r == cached->Some_0.data && final(self).phase_patterns == cached
                } else {
                    *r == loaded && final(self).phase_patterns == Some(
                        CachedItem {
                            data: loaded,
                            expires_at: spec_expiry(now_ms, DEFAULT_CACHE_TTL_MS),
                        },
                    )
                }
            }),
            final(self).actions == old(self).actions,
            final(self).action_patterns == old(self).action_patterns,
            final(self).action_configs == old(self).action_configs,
    {
        let use_cached: bool = match &self.phase_patterns {
            Some(entry) => !entry.is_expired(now_ms),
            None => false,
        };
        if use_cached {
            self.bump_hits();
            match &self.phase_patterns {
                Some(entry) => &entry.data,
                None => unreached(),
            }
        } else {
            self.bump_misses();
            self.phase_patterns = Some(CachedItem::new(loaded, now_ms, DEFAULT_CACHE_TTL_MS));
            match &self.phase_patterns {
                Some(entry) => &entry.data,
                None => unreached(),
            }
        }
    }

    /// The action catalog: the cached snapshot when valid at `now_ms`, else
    /// the supplied loaded value, which is stored with a fresh TTL.
    pub fn get_actions<'a>(&'a mut self, now_ms: u64, loaded: Vec<Action>) -> (r: &'a Vec<Action>)
        ensures
            ({
                let cached = old(self).actions;
                if spec_item_valid(cached, now_ms) {
                    &&& final(self).hits == spec_bump(old(self).hits)
                    &&& final(self).misses == old(self).misses
                } else {
                    &&& final(self).misses == spec_bump(old(self).misses)
                    &&& final(self).hits == old(self).hits
                }
            }),
            ({
                let cached = old(self).actions;
                if spec_item_valid(cached, now_ms) {
                    *r == cached->Some_0.data && final(self).actions == cached
                } else {
                    *r == loaded && final(self).actions == Some(
                        CachedItem {
                            data: loaded,
                            expires_at: spec_expiry(now_ms, DEFAULT_CACHE_TTL_MS),
                        },
                    )
                }
            }),
            final(self).phase_patterns == old(self).phase_patterns,
            final(self).action_patterns == old(self).action_patterns,
            final(self).action_configs == old(self).action_configs,
    {
        let use_cached: bool = match &self.actions {
            Some(entry) => !entry.is_expired(now_ms),
            None => false,
        };
        if use_cached {
            self.bump_hits();
            match &self.actions {
                Some(entry) => &entry.data,
                None => unreached(),
            }
        } else {
            self.bump_misses();
            self.actions = Some(CachedItem::new(loaded, now_ms, DEFAULT_CACHE_TTL_MS));
            match &self.actions {
                Some(entry) => &entry.data,
                None => unreached(),
            }
        }
    }

    /// Action patterns: the cached snapshot when valid at `now_ms`, else the
    /// supplied loaded value, which is stored with a fresh TTL.
    pub fn get_action_patterns<'a>(&'a mut self, now_ms: u64, loaded: Vec<ActionPattern>) -> (r:
        &'a Vec<ActionPattern>)
        ensures
            ({
                let cached = old(self).action_patterns;
                if spec_item_valid(cached, now_ms) {
                    &&& final(self).hits == spec_bump(old(self).hits)
                    &&& final(self).misses == old(self).misses
                } else {
                    &&& final(self).misses == spec_bump(old(self).misses)
                    &&& final(self).hits == old(self).hits
                }
            }),
            ({
                let cached = old(self).action_patterns;
                if spec_item_valid(cached, now_ms) {
                    *r == cached->Some_0.data && final(self).action_patterns == cached
                } else {
                    *r == loaded && final(self).action_patterns == Some(
                        CachedItem {
                            data: loaded,
                            expires_at: spec_expiry(now_ms, DEFAULT_CACHE_TTL_MS),
                        },
                    )
                }
            }),
            final(self).phase_patterns == old(self).phase_patterns,
            final(self).actions == old(self).actions,
            final(self).action_configs == old(self).action_configs,
    {
        let use_cached: bool = match &self.action_patterns {
            Some(entry) => !entry.is_expired(now_ms),
            None => false,
        };
        if use_cached {
            self.bump_hits();
            match &self.action_patterns {
                Some(entry) => &entry.data,
                None => unreached(),
            }
        } else {
            self.bump_misses();
            self.action_patterns = Some(CachedItem::new(loaded, now_ms, DEFAULT_CACHE_TTL_MS));
            match &self.action_patterns {
                Some(entry) => &entry.data,
                None => unreached(),
            }
        }
    }

    /// Drop every cached snapshot and every resolved action config.
    pub fn invalidate_all(&mut self)
        ensures
            final(self).phase_patterns is None,
            final(self).actions is None,
            final(self).action_patterns is None,
            final(self).action_configs@ == Seq::<(i64, i64, CachedItem<ActionConfig>)>::empty(),
            final(self).hits == old(self).hits,
            final(self).misses == old(self).misses,
    {
        self.phase_patterns = None;
        self.actions = None;
        self.action_patterns = None;
        self.action_configs.clear();
    }

    /// Drop the pattern snapshots and every resolved action config.
    pub fn invalidate_patterns(&mut self)
        ensures
            final(self).phase_patterns is None,
            final(self).actions is None,
            final(self).action_patterns is None,
            final(self).action_configs@ == Seq::<(i64, i64, CachedItem<ActionConfig>)>::empty(),
            final(self).hits == old(self).hits,
            final(self).misses == old(self).misses,
    {
        self.phase_patterns = None;
        self.actions = None;
        self.action_patterns = None;
        self.action_configs.clear();
    }

    /// Drop one account's resolved action configs.
    #[verifier::loop_isolation(false)]
    pub fn invalidate_targets(&mut self, account_id: i64)
        ensures
            final(self).action_configs@ == spec_drop_account(old(self).action_configs@, account_id),
            final(self).phase_patterns == old(self).phase_patterns,
            final(self).actions == old(self).actions,
            final(self).action_patterns == old(self).action_patterns,
            final(self).hits == old(self).hits,
            final(self).misses == old(self).misses,
    {
        let ghost all = self.action_configs@;
        let mut old_entries: Vec<(i64, i64, CachedItem<ActionConfig>)> = Vec::new();
        core::mem::swap(&mut old_entries, &mut self.action_configs);
        let mut kept: Vec<(i64, i64, CachedItem<ActionConfig>)> = Vec::new();
        proof {
            assert(all.skip(0) =~= all);
        }
        let ghost mut seen: int = 0;
        while old_entries.len() > 0
            invariant
                0 <= seen <= all.len(),
                old_entries@ =~= all.skip(seen),
                kept@.add(spec_drop_account(all.skip(seen), account_id)) =~= spec_drop_account(
                    all,
                    account_id,
                ),
            decreases old_entries.len(),
        {
            let entry = old_entries.remove(0);
            proof {
                assert(entry == all[seen]);
                assert(all.skip(seen)[0] == all[seen]);
                assert(all.skip(seen).skip(1) =~= all.skip(seen + 1));
            }
            if entry.0 != account_id {
                kept.push(entry);
            }
            proof {
                seen = seen + 1;
                assert(old_entries@ =~= all.skip(seen));
                assert(kept@.add(spec_drop_account(all.skip(seen), account_id)) =~=
                    spec_drop_account(all, account_id));
            }
        }
        proof {
            assert(all.skip(all.len() as int) =~= Seq::<(i64, i64, CachedItem<ActionConfig>)>::empty());
            assert(kept@ =~= spec_drop_account(all, account_id));
        }
        self.action_configs = kept;
    }

    /// Drop every resolved action config.
    pub fn invalidate_action_configs(&mut self)
        ensures
            final(self).action_configs@ == Seq::<(i64, i64, CachedItem<ActionConfig>)>::empty(),
            final(self).phase_patterns == old(self).phase_patterns,
            final(self).actions == old(self).actions,
            final(self).action_patterns == old(self).action_patterns,
            final(self).hits == old(self).hits,
            final(self).misses == old(self).misses,
    {
        self.action_configs.clear();
    }

    /// The resolved config for `(account_id, action_id)`, when present and
    /// valid at `now_ms`.
    #[verifier::loop_isolation(false)]
    pub fn get_action_config<'a>(&'a self, account_id: i64, action_id: i64, now_ms: u64) -> (r:
        Option<&'a ActionConfig>)
        ensures
            (match r {
                Some(c) => {
                    &&& spec_item_valid(
                        spec_find_config(self.action_configs@, account_id, action_id),
                        now_ms,
                    )
                    &&& *c == spec_find_config(
                        self.action_configs@,
                        account_id,
                        action_id,
                    )->Some_0.data
                },
                None => !spec_item_valid(
                    spec_find_config(self.action_configs@, account_id, action_id),
                    now_ms,
                ),
            }),
    {
        let n = self.action_configs.len();
        let mut i: usize = 0;
        proof {
            assert(self.action_configs@.skip(0) =~= self.action_configs@);
        }
        while i < n
            invariant
                i <= n,
                spec_find_config(self.action_configs@, account_id, action_id) == spec_find_config(
                    self.action_configs@.skip(i as int),
                    account_id,
                    action_id,
                ),
            decreases n - i,
        {
            proof {
                assert(self.action_configs@.skip(i as int)[0] == self.action_configs@[i as int]);
                assert(self.action_configs@.skip(i as int).skip(1) =~= self.action_configs@.skip(
                    i + 1,
                ));
            }
            let entry = &self.action_configs[i];
            if entry.0 == account_id && entry.1 == action_id {
                return entry.2.get_if_valid(now_ms);
            }
            i = i + 1;
        }
        proof {
            assert(self.action_configs@.skip(n as int) =~= Seq::<
                (i64, i64, CachedItem<ActionConfig>),
            >::empty());
        }
        None
    }

    /// Store the resolved config for `(account_id, action_id)`, replacing
    /// any earlier entry for the same key.
    #[verifier::loop_isolation(false)]
    pub fn set_action_config(
        &mut self,
        account_id: i64,
        action_id: i64,
        data: ActionConfig,
        now_ms: u64,
    )
        ensures
            final(self).action_configs@ == spec_drop_key(
                old(self).action_configs@,
                account_id,
                action_id,
            ).push(
                (
                    account_id,
                    action_id,
                    CachedItem { data, expires_at: spec_expiry(now_ms, DEFAULT_CACHE_TTL_MS) },
                ),
            ),
            spec_find_config(final(self).action_configs@, account_id, action_id) == Some(
                CachedItem { data, expires_at: spec_expiry(now_ms, DEFAULT_CACHE_TTL_MS) },
            ),
            final(self).phase_patterns == old(self).phase_patterns,
            final(self).actions == old(self).actions,
            final(self).action_patterns == old(self).action_patterns,
            final(self).hits == old(self).hits,
            final(self).misses == old(self).misses,
    {
        let ghost all = self.action_configs@;
        let mut old_entries: Vec<(i64, i64, CachedItem<ActionConfig>)> = Vec::new();
        core::mem::swap(&mut old_entries, &mut self.action_configs);
        let mut kept: Vec<(i64, i64, CachedItem<ActionConfig>)> = Vec::new();
        proof {
            assert(all.skip(0) =~= all);
        }
        let ghost mut seen: int = 0;
        while old_entries.len() > 0
            invariant
                0 <= seen <= all.len(),
                old_entries@ =~= all.skip(seen),
                kept@.add(spec_drop_key(all.skip(seen), account_id, action_id)) =~= spec_drop_key(
                    all,
                    account_id,
                    action_id,
                ),
            decreases old_entries.len(),
        {
            let entry = old_entries.remove(0);
            proof {
                assert(entry == all[seen]);
                assert(all.skip(seen)[0] == all[seen]);
                assert(all.skip(seen).skip(1) =~= all.skip(seen + 1));
            }
            if !(entry.0 == account_id && entry.1 == action_id) {
                kept.push(entry);
            }
            proof {
                seen = seen + 1;
                assert(old_entries@ =~= all.skip(seen));
                assert(kept@.add(spec_drop_key(all.skip(seen), account_id, action_id)) =~=
                    spec_drop_key(all, account_id, action_id));
            }
        }
        proof {
            assert(all.skip(all.len() as int) =~= Seq::<(i64, i64, CachedItem<ActionConfig>)>::empty());
            assert(kept@ =~= spec_drop_key(all, account_id, action_id));
        }
        kept.push((account_id, action_id, CachedItem::new(data, now_ms, DEFAULT_CACHE_TTL_MS)));
        proof {
            lemma_drop_key_complete(all, account_id, action_id);
            lemma_find_config_push_hit(
                spec_drop_key(all, account_id, action_id),
                account_id,
                action_id,
                kept@.last().2,
            );
        }
        self.action_configs = kept;
    }

    /// Count a cache hit.
    fn bump_hits(&mut self)
        ensures
            final(self).hits == (if old(self).hits == u64::MAX {
                u64::MAX
            } else {
                (old(self).hits + 1) as u64
            }),
            final(self).misses == old(self).misses,
            final(self).phase_patterns == old(self).phase_patterns,
            final(self).actions == old(self).actions,
            final(self).action_patterns == old(self).action_patterns,
            final(self).action_configs == old(self).action_configs,
    {
        if self.hits < u64::MAX {
            self.hits = self.hits + 1;
        }
    }

    /// Count a cache miss.
    fn bump_misses(&mut self)
        ensures
            final(self).misses == (if old(self).misses == u64::MAX {
                u64::MAX
            } else {
                (old(self).misses + 1) as u64
            }),
            final(self).hits == old(self).hits,
            final(self).phase_patterns == old(self).phase_patterns,
            final(self).actions == old(self).actions,
            final(self).action_patterns == old(self).action_patterns,
            final(self).action_configs == old(self).action_configs,
    {
        if self.misses < u64::MAX {
            self.misses = self.misses + 1;
        }
    }
}

/// Dropping a key leaves no entry under it.
proof fn lemma_drop_key_complete(
    entries: Seq<(i64, i64, CachedItem<ActionConfig>)>,
    account_id: i64,
    action_id: i64,
)
    ensures
        forall|i: int|
            0 <= i < spec_drop_key(entries, account_id, action_id).len() ==> !((#[trigger]
            spec_drop_key(entries, account_id, action_id)[i]).0 == account_id && spec_drop_key(
                entries,
                account_id,
                action_id,
            )[i].1 == action_id),
    decreases entries.len(),
{
    if entries.len() > 0 {
        lemma_drop_key_complete(entries.skip(1), account_id, action_id);
        let rest = spec_drop_key(entries.skip(1), account_id, action_id);
        if !(entries[0].0 == account_id && entries[0].1 == action_id) {
            let out = seq![entries[0]].add(rest);
            assert forall|i: int| 0 <= i < out.len() implies !((#[trigger] out[i]).0 == account_id
                && out[i].1 == action_id) by {
                if i > 0 {
                    assert(out[i] == rest[i - 1]);
                }
            }
        }
    }
}

/// Looking a key up right after dropping it and pushing a fresh entry finds
/// that entry.
proof fn lemma_find_config_push_hit(
    entries: Seq<(i64, i64, CachedItem<ActionConfig>)>,
    account_id: i64,
    action_id: i64,
    item: CachedItem<ActionConfig>,
)
    requires
        forall|i: int|
            0 <= i < entries.len() ==> !((#[trigger] entries[i]).0 == account_id && entries[i].1
                == action_id),
    ensures
        spec_find_config(entries.push((account_id, action_id, item)), account_id, action_id)
            == Some(item),
    decreases entries.len(),
{
    if entries.len() == 0 {
        assert(entries.push((account_id, action_id, item)).skip(1) =~= Seq::<
            (i64, i64, CachedItem<ActionConfig>),
        >::empty().push((account_id, action_id, item)).skip(1));
    } else {
        assert(entries.push((account_id, action_id, item)).skip(1) =~= entries.skip(1).push(
            (account_id, action_id, item),
        ));
        assert(forall|i: int|
            0 <= i < entries.skip(1).len() ==> !((#[trigger] entries.skip(1)[i]).0 == account_id
                && entries.skip(1)[i].1 == action_id));
        lemma_find_config_push_hit(entries.skip(1), account_id, action_id, item);
    }
}

/// The law behind pattern reloads: after `invalidate_patterns`, a
/// loader-backed read returns exactly the loader's value, whatever the
/// clock says.
pub proof fn lemma_invalidated_read_returns_loaded(c: WorkerCache, now_ms: u64)
    requires
        c.phase_patterns is None,
        c.actions is None,
        c.action_patterns is None,
    ensures
        !spec_item_valid(c.phase_patterns, now_ms),
        !spec_item_valid(c.actions, now_ms),
        !spec_item_valid(c.action_patterns, now_ms),
{
}

} // verus!
