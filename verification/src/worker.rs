//! The per-account worker: a state machine that owns one subprocess client
//! session, classifies incoming messages, joins games, clicks buttons and
//! reconnects with bounded exponential backoff.
//!
//! The worker here is the decision kernel: it takes the current time and the
//! decoded inputs as arguments and returns the effects to perform — status
//! and log emissions, and request dispatches with their pre-delays. The
//! surrounding process performs them, sleeps where a dispatch carries a
//! delay or a response demands a wait, and feeds results back in.

use vstd::prelude::*;
use vstd::string::StringExecFns;
use crate::cache::ActionConfig;
use crate::cache::CachedItem;
use crate::cache::WorkerCache;
use crate::cache::spec_expiry;
use crate::cache::spec_find_config;
use crate::cache::spec_item_valid;
use crate::config::Account;
use crate::config::ActionPattern;
use crate::config::PhasePattern;
use crate::config::Settings;
use crate::constants::CLIENT_MAX_RECONNECT_ATTEMPTS;
use crate::constants::CLIENT_RECONNECT_DELAY_BASE_MS;
use crate::constants::CLIENT_RECONNECT_DELAY_MAX_MS;
use crate::constants::MAX_PRIORITY;
use crate::constants::MIN_PRIORITY;
use crate::constants::WORKER_IDLE_BACKOFF_BASE_MS;
use crate::constants::WORKER_IDLE_BACKOFF_MAX_MS;
use crate::constants::WORKER_IDLE_CYCLES_THRESHOLD;
use crate::detection::DetectionPipeline;
use crate::detection::spec_compile_actions;
use crate::detection::spec_compile_phases;
use crate::detection::spec_pattern_matches;
use crate::json::JsonNode;
use crate::json::lemma_obj_get_take_step;
use crate::json::json_of;
use crate::json::parse_json;
use crate::selection::EffectiveConfig;
use crate::selection::clone_string_pairs;
use crate::selection::clone_strings;
use crate::sorting::spec_sort_by;
use crate::text::lower_of;
use crate::text::lowercase;
use crate::text::contains_substring;
use crate::text::spec_contains;
use crate::text::str_eq;

verus! {

/// The lifecycle state of a worker.
#[derive(Debug)]
pub enum WorkerState {
    Stopped,
    Starting,
    Running,
    Stopping,
    Error(String),
}

impl PartialEq for WorkerState {
    fn eq(&self, other: &WorkerState) -> (r: bool) {
        match (self, other) {
            (WorkerState::Stopped, WorkerState::Stopped) => true,
            (WorkerState::Starting, WorkerState::Starting) => true,
            (WorkerState::Running, WorkerState::Running) => true,
            (WorkerState::Stopping, WorkerState::Stopping) => true,
            (WorkerState::Error(a), WorkerState::Error(b)) => str_eq(a.as_str(), b.as_str()),
            _ => false,
        }
    }
}

impl vstd::std_specs::cmp::PartialEqSpecImpl for WorkerState {
    open spec fn obeys_eq_spec() -> bool {
        true
    }

    open spec fn eq_spec(&self, other: &WorkerState) -> bool {
        match (self, other) {
            (WorkerState::Stopped, WorkerState::Stopped) => true,
            (WorkerState::Starting, WorkerState::Starting) => true,
            (WorkerState::Running, WorkerState::Running) => true,
            (WorkerState::Stopping, WorkerState::Stopping) => true,
            (WorkerState::Error(a), WorkerState::Error(b)) => a@ == b@,
            _ => false,
        }
    }
}

/// A command sent to a running worker.
#[derive(Debug)]
pub enum WorkerCommand {
    Stop,
    Reload,
}

/// One configured group chat with its moderator binding.
#[derive(Debug, Clone)]
pub struct GroupSlotConfig {
    pub group_id: i64,
    pub group_title: String,
    pub moderator_kind: String,
    pub moderator_bot_id: i64,
}

/// Everything a worker needs to run one account.
#[derive(Debug, Clone)]
pub struct WorkerConfig {
    pub account_id: i64,
    pub account_name: String,
    pub api_id: i64,
    pub api_hash: String,
    pub session_dir: String,
    pub group_slots: Vec<GroupSlotConfig>,
    pub group_chat_ids: Vec<i64>,
    pub moderator_bot_ids: Vec<i64>,
    pub main_bot_id: Option<i64>,
    pub beta_bot_id: Option<i64>,
    pub max_join_attempts: i32,
    pub join_cooldown_seconds: i32,
}

/// The in-game state of one account, reset at every game end.
#[derive(Debug)]
pub struct GameState {
    pub joined: bool,
    pub game_started: bool,
    pub game_ended: bool,
    pub ban_warned: bool,
}

impl Default for GameState {
    /// All flags cleared.
    fn default() -> (r: GameState)
        ensures
            !r.joined && !r.game_started && !r.game_ended && !r.ban_warned,
    {
        GameState { joined: false, game_started: false, game_ended: false, ban_warned: false }
    }
}

/// One ban-warning pattern, as configured.
#[derive(Debug)]
pub struct BanWarningPattern {
    pub pattern: String,
    pub is_regex: bool,
}

/// The cached first prompt of a two-step action.
#[derive(Debug)]
pub struct TwoStepCache {
    pub action_id: i64,
    pub first_chat_id: i64,
    pub first_message_id: i64,
    pub first_buttons: Vec<crate::telethon::TelethonButton>,
    pub selected_a: Option<String>,
}

/// A request the worker asks the surrounding process to send.
#[derive(Debug, PartialEq)]
pub enum ClientRequest {
    ClickButton { chat_id: i64, message_id: i64, data: String },
    SendMessage { chat_id: i64, text: String },
}

/// One observable effect of a worker step, in the order to perform them.
#[derive(Debug, PartialEq)]
pub enum WorkerEffect {
    UpdateLastSeen,
    Log { level: String, message: String },
    PhaseDetected { phase_name: String },
    ActionDetected { action_name: String, button: Option<String> },
    JoinAttempt { attempt: i32, max_attempts: i32 },
    AccountStatus { status: String, message: Option<String> },
    RegexValidation { scope: String, pattern: String, error: String },
    ActionConfigNeeded { action_id: i64 },
    Dispatch { pre_delay_ms: u64, request: ClientRequest },
}

/// What to do after a response: go on, sleep first, give up on this step,
/// or stop the worker for good.
#[derive(Debug, PartialEq)]
pub enum ResponseDirective {
    Proceed,
    SleepSeconds(u64),
    Fail(String),
    Fatal(String),
}

/// What a bot-start link yields: see the wrapper below.
pub uninterp spec fn start_param_of(u: Seq<char>) -> Option<Seq<char>>;

/// Relies on url::Url::parse and Url::query_pairs: whether a text parses as
/// a URL with a `start` query parameter, and that parameter's value, depend
/// on the text alone.
#[verifier::external_body]
pub fn parse_start_parameter(url_text: &str) -> (r: Option<String>)
    ensures
        (match r {
            Some(p) => start_param_of(url_text@) == Some(p@),
            None => start_param_of(url_text@) is None,
        }),
{
    match url::Url::parse(url_text) {
        Ok(u) => u.query_pairs().find(|(k, _)| k == "start").map(|(_, v)| v.into_owned()),
        Err(_) => None,
    }
}

/// The first slot configured for this group, scanning in order.
pub open spec fn spec_find_slot(slots: Seq<GroupSlotConfig>, group_id: i64) -> Option<
    GroupSlotConfig,
>
    decreases slots.len(),
{
    if slots.len() == 0 {
        None
    } else if slots[0].group_id == group_id {
        Some(slots[0])
    } else {
        spec_find_slot(slots.skip(1), group_id)
    }
}

/// The moderator bot for a group: its slot's bot when that is set, else the
/// first known moderator bot.
pub open spec fn spec_moderator_for_group(config: WorkerConfig, group_id: i64) -> Option<i64> {
    let fallback: Option<i64> = if config.moderator_bot_ids@.len() > 0 {
        Some(config.moderator_bot_ids@[0])
    } else {
        None
    };
    match spec_find_slot(config.group_slots@, group_id) {
        Some(slot) => if slot.moderator_bot_id > 0 {
            Some(slot.moderator_bot_id)
        } else {
            fallback
        },
        None => fallback,
    }
}

/// A lowered error text names a transient condition.
pub open spec fn spec_transient_error(lowered: Seq<char>) -> bool {
    ||| spec_contains(lowered, "network"@)
    ||| spec_contains(lowered, "timeout"@)
    ||| spec_contains(lowered, "connection"@)
    ||| spec_contains(lowered, "disconnected"@)
    ||| spec_contains(lowered, "retry"@)
    ||| spec_contains(lowered, "temporarily"@)
    ||| spec_contains(lowered, "temporary"@)
    ||| spec_contains(lowered, "flood"@)
    ||| spec_contains(lowered, "unreachable"@)
    ||| spec_contains(lowered, "unavailable"@)
}

/// An error is recoverable exactly when its lowered text names a transient
/// condition; authentication classes and unknown errors are not.
pub open spec fn spec_is_recoverable(error: Seq<char>) -> bool {
    spec_transient_error(lower_of(error))
}

/// The reconnect delay before attempt number `attempts + 1`: the base
/// doubled per past attempt, capped.
pub open spec fn spec_reconnect_delay(attempts: u32) -> u64 {
    let raw = CLIENT_RECONNECT_DELAY_BASE_MS * spec_pow2(attempts as nat);
    if raw > CLIENT_RECONNECT_DELAY_MAX_MS {
        CLIENT_RECONNECT_DELAY_MAX_MS
    } else {
        raw as u64
    }
}

/// Two to the given power.
pub open spec fn spec_pow2(n: nat) -> nat
    decreases n,
{
    if n == 0 {
        1
    } else {
        2 * spec_pow2((n - 1) as nat)
    }
}

/// One ban-warning entry as configured: kept when it is an object whose
/// `pattern` is a non-empty string and whose `enabled` member, boolean or
/// absent, is not false.
pub open spec fn spec_ban_entry_of(n: JsonNode) -> Option<BanWarningPattern> {
    match n {
        JsonNode::Obj(_) => {
            match n.spec_get("pattern"@) {
                Some(JsonNode::Str(p)) => {
                    if p@.len() == 0 {
                        None
                    } else {
                        let enabled = match n.spec_get("enabled"@) {
                            Some(JsonNode::Bool(b)) => b,
                            _ => true,
                        };
                        let is_regex = match n.spec_get("is_regex"@) {
                            Some(JsonNode::Bool(b)) => b,
                            _ => false,
                        };
                        if enabled {
                            Some(BanWarningPattern { pattern: p, is_regex })
                        } else {
                            None
                        }
                    }
                },
                _ => None,
            }
        },
        _ => None,
    }
}

/// The ban-warning patterns a configured text yields: the kept entries of
/// its array, in order; no array, no patterns.
pub open spec fn spec_ban_patterns_of(parsed: Option<JsonNode>) -> Seq<BanWarningPattern>
{
    match parsed {
        Some(JsonNode::Arr(items)) => spec_ban_entries(items@),
        _ => Seq::empty(),
    }
}

/// The kept ban entries of an item list, in order.
pub open spec fn spec_ban_entries(items: Seq<JsonNode>) -> Seq<BanWarningPattern>
    decreases items.len(),
{
    if items.len() == 0 {
        Seq::empty()
    } else {
        let rest = spec_ban_entries(items.drop_last());
        match spec_ban_entry_of(items.last()) {
            Some(p) => rest.push(p),
            None => rest,
        }
    }
}

/// A text matches some ban-warning pattern.
pub open spec fn spec_ban_match(patterns: Seq<BanWarningPattern>, text: Seq<char>) -> bool {
    exists|i: int|
        0 <= i < patterns.len() && spec_pattern_matches(
            text,
            (#[trigger] patterns[i]).pattern@,
            patterns[i].is_regex,
        )
}

/// The per-account worker.
pub struct AccountWorker {
    pub config: WorkerConfig,
    pub state: WorkerState,
    pub detection_pipeline: DetectionPipeline,
    pub game_state: GameState,
    pub join_attempts: i32,
    pub last_join_attempt: Option<u64>,
    pub last_seen_update: Option<u64>,
    pub ban_warning_patterns: Vec<BanWarningPattern>,
    pub two_step_cache: Vec<TwoStepCache>,
    pub reconnect_attempts: u32,
    pub last_reconnect_attempt: Option<u64>,
    pub send_blocked_until: u64,
    pub cache: WorkerCache,
}

impl AccountWorker {
    /// The worker's standing invariant: the join counter honours its cap,
    /// the reconnect counter its bound, the pipeline its ordering, and the
    /// configured limits are non-negative.
    pub open spec fn wf(self) -> bool {
        &&& 0 <= self.join_attempts <= self.config.max_join_attempts
        &&& self.config.join_cooldown_seconds >= 0
        &&& self.reconnect_attempts <= CLIENT_MAX_RECONNECT_ATTEMPTS
        &&& self.detection_pipeline.wf()
    }

    /// Create a stopped worker for one account.
    pub fn new(config: WorkerConfig) -> (r: AccountWorker)
        requires
            config.max_join_attempts >= 0,
            config.join_cooldown_seconds >= 0,
        ensures
            r.config == config,
            r.state is Stopped,
            !r.game_state.joined && !r.game_state.game_started && !r.game_state.game_ended
                && !r.game_state.ban_warned,
            r.join_attempts == 0,
            r.last_join_attempt is None,
            r.last_seen_update is None,
            r.ban_warning_patterns@ == Seq::<BanWarningPattern>::empty(),
            r.two_step_cache@ == Seq::<TwoStepCache>::empty(),
            r.reconnect_attempts == 0,
            r.last_reconnect_attempt is None,
            r.send_blocked_until == 0,
            r.wf(),
    {
        AccountWorker {
            config,
            state: WorkerState::Stopped,
            detection_pipeline: DetectionPipeline::new(),
            game_state: GameState::default(),
            join_attempts: 0,
            last_join_attempt: None,
            last_seen_update: None,
            ban_warning_patterns: Vec::new(),
            two_step_cache: Vec::new(),
            reconnect_attempts: 0,
            last_reconnect_attempt: None,
            send_blocked_until: 0,
            cache: WorkerCache::new(),
        }
    }

    /// Build a worker config from an account row and the global settings:
    /// per-account overrides win, group bindings are filled in later by the
    /// supervisor.
    pub fn config_from_account(account: &Account, settings: &Settings, session_dir: String) -> (r:
        WorkerConfig)
        ensures
            r.account_id == account.id,
            r.account_name == account.account_name,
            r.api_id == (match account.api_id_override {
                Some(v) => v,
                None => match settings.api_id {
                    Some(v) => v,
                    None => 0,
                },
            }),
            (match account.api_hash_override {
                Some(h) => r.api_hash == h,
                None => match settings.api_hash {
                    Some(h) => r.api_hash == h,
                    None => r.api_hash@ == Seq::<char>::empty(),
                },
            }),
            r.session_dir == session_dir,
            r.group_slots@ == Seq::<GroupSlotConfig>::empty(),
            r.group_chat_ids@ == Seq::<i64>::empty(),
            r.moderator_bot_ids@ == (match (settings.main_bot_user_id, settings.beta_bot_user_id) {
                (Some(m), Some(b)) => seq![m, b],
                (Some(m), None) => seq![m],
                (None, Some(b)) => seq![b],
                (None, None) => Seq::<i64>::empty(),
            }),
            r.main_bot_id == settings.main_bot_user_id,
            r.beta_bot_id == settings.beta_bot_user_id,
            r.max_join_attempts == (match account.join_max_attempts_override {
                Some(v) => v,
                None => settings.join_max_attempts_default,
            }),
            r.join_cooldown_seconds == (match account.join_cooldown_seconds_override {
                Some(v) => v,
                None => settings.join_cooldown_seconds_default,
            }),
    {
        let api_id = match account.api_id_override {
            Some(v) => v,
            None => match settings.api_id {
                Some(v) => v,
                None => 0,
            },
        };
        let api_hash = match &account.api_hash_override {
            Some(h) => h.clone(),
            None => match &settings.api_hash {
                Some(h) => h.clone(),
                None => String::new(),
            },
        };
        let max_attempts = match account.join_max_attempts_override {
            Some(v) => v,
            None => settings.join_max_attempts_default,
        };
        let cooldown = match account.join_cooldown_seconds_override {
            Some(v) => v,
            None => settings.join_cooldown_seconds_default,
        };
        let mut moderator_bot_ids: Vec<i64> = Vec::new();
        match settings.main_bot_user_id {
            Some(id) => {
                moderator_bot_ids.push(id);
            },
            None => {},
        }
        match settings.beta_bot_user_id {
            Some(id) => {
                moderator_bot_ids.push(id);
            },
            None => {},
        }
        proof {
            assert(moderator_bot_ids@ =~= (match (
                settings.main_bot_user_id,
                settings.beta_bot_user_id,
            ) {
                (Some(m), Some(b)) => seq![m, b],
                (Some(m), None) => seq![m],
                (None, Some(b)) => seq![b],
                (None, None) => Seq::<i64>::empty(),
            }));
        }
        WorkerConfig {
            account_id: account.id,
            account_name: account.account_name.clone(),
            api_id,
            api_hash,
            session_dir,
            group_slots: Vec::new(),
            group_chat_ids: Vec::new(),
            moderator_bot_ids,
            main_bot_id: settings.main_bot_user_id,
            beta_bot_id: settings.beta_bot_user_id,
            max_join_attempts: max_attempts,
            join_cooldown_seconds: cooldown,
        }
    }

    /// The moderator bot in charge of a group.
    #[verifier::loop_isolation(false)]
    pub fn get_moderator_for_group(&self, group_id: i64) -> (r: Option<i64>)
        ensures
            r == spec_moderator_for_group(self.config, group_id),
    {
        let slots = &self.config.group_slots;
        let n = slots.len();
        let mut i: usize = 0;
        proof {
            assert(slots@.skip(0) =~= slots@);
        }
        while i < n
            invariant
                i <= n,
                spec_find_slot(slots@, group_id) == spec_find_slot(slots@.skip(i as int), group_id),
            decreases n - i,
        {
            proof {
                assert(slots@.skip(i as int)[0] == slots@[i as int]);
                assert(slots@.skip(i as int).skip(1) =~= slots@.skip(i + 1));
            }
            if slots[i].group_id == group_id {
                if slots[i].moderator_bot_id > 0 {
                    return Some(slots[i].moderator_bot_id);
                }
                return self.first_moderator_bot();
            }
            i = i + 1;
        }
        proof {
            assert(slots@.skip(n as int) =~= Seq::<GroupSlotConfig>::empty());
        }
        self.first_moderator_bot()
    }

    /// The first known moderator bot, if any.
    pub fn first_moderator_bot(&self) -> (r: Option<i64>)
        ensures
            r == (if self.config.moderator_bot_ids@.len() > 0 {
                Some(self.config.moderator_bot_ids@[0])
            } else {
                None::<i64>
            }),
    {
        if self.config.moderator_bot_ids.len() > 0 {
            Some(self.config.moderator_bot_ids[0])
        } else {
            None
        }
    }

    /// The account this worker runs.
    pub fn account_id(&self) -> (r: i64)
        ensures
            r == self.config.account_id,
    {
        self.config.account_id
    }

    /// The current lifecycle state.
    pub fn state(&self) -> (r: &WorkerState)
        ensures
            r == &self.state,
    {
        &self.state
    }

    /// Begin starting: only a stopped worker may start.
    pub fn begin_start(&mut self) -> (r: Result<(), String>)
        ensures
            old(self).state is Stopped <==> r is Ok,
            r is Ok ==> *final(self) == (AccountWorker {
                state: WorkerState::Starting,
                ..*old(self)
            }),
            r is Err ==> *final(self) == *old(self),
            old(self).wf() ==> final(self).wf(),
    {
        match self.state {
            WorkerState::Stopped => {
                self.state = WorkerState::Starting;
                Ok(())
            },
            _ => Err(String::from_str("Worker is not stopped")),
        }
    }

    /// Record the outcome of the start round-trip: a successful
    /// `start_updates` makes the worker running, a failure puts it in error.
    pub fn finish_start(&mut self, ok: bool, error: Option<String>)
        ensures
            ok ==> *final(self) == (AccountWorker { state: WorkerState::Running, ..*old(self) }),
            !ok ==> final(self).state is Error && *final(self) == (AccountWorker {
                state: final(self).state,
                ..*old(self)
            }),
            old(self).wf() ==> final(self).wf(),
    {
        if ok {
            self.state = WorkerState::Running;
        } else {
            let msg = match error {
                Some(e) => e,
                None => String::from_str("Telethon worker error"),
            };
            self.state = WorkerState::Error(msg);
        }
    }

    /// Stop the worker: only a running or starting worker may stop; every
    /// runtime counter and cache is reset.
    pub fn stop(&mut self) -> (r: Result<(), String>)
        ensures
            r is Ok <==> (old(self).state is Running || old(self).state is Starting),
            r is Ok ==> {
                &&& final(self).state is Stopped
                &&& !final(self).game_state.joined && !final(self).game_state.game_started
                    && !final(self).game_state.game_ended && !final(self).game_state.ban_warned
                &&& final(self).join_attempts == 0
                &&& final(self).last_join_attempt is None
                &&& final(self).reconnect_attempts == 0
                &&& final(self).last_reconnect_attempt is None
                &&& final(self).two_step_cache@ == Seq::<TwoStepCache>::empty()
                &&& final(self).config == old(self).config
            },
            r is Err ==> *final(self) == *old(self),
            old(self).wf() ==> final(self).wf(),
    {
        let may_stop = match self.state {
            WorkerState::Running => true,
            WorkerState::Starting => true,
            _ => false,
        };
        if !may_stop {
            return Err(String::from_str("Worker is not running"));
        }
        self.state = WorkerState::Stopped;
        self.game_state = GameState::default();
        self.join_attempts = 0;
        self.last_join_attempt = None;
        self.reconnect_attempts = 0;
        self.last_reconnect_attempt = None;
        self.two_step_cache.clear();
        Ok(())
    }

    /// React to a command: a stop request puts the worker into stopping;
    /// a reload request asks the caller to reload patterns.
    pub fn on_command(&mut self, cmd: &WorkerCommand) -> (needs_reload: bool)
        ensures
            (match cmd {
                WorkerCommand::Stop => !needs_reload && *final(self) == (AccountWorker {
                    state: WorkerState::Stopping,
                    ..*old(self)
                }),
                WorkerCommand::Reload => needs_reload && *final(self) == *old(self),
            }),
            old(self).wf() ==> final(self).wf(),
    {
        match cmd {
            WorkerCommand::Stop => {
                self.state = WorkerState::Stopping;
                false
            },
            WorkerCommand::Reload => true,
        }
    }

    /// The idle-loop backoff: short at first, longer after sustained
    /// idleness.
    pub fn idle_backoff(idle_cycles: u32) -> (r: u64)
        ensures
            r == (if idle_cycles > WORKER_IDLE_CYCLES_THRESHOLD {
                WORKER_IDLE_BACKOFF_MAX_MS
            } else {
                WORKER_IDLE_BACKOFF_BASE_MS
            }),
    {
        if idle_cycles > WORKER_IDLE_CYCLES_THRESHOLD {
            WORKER_IDLE_BACKOFF_MAX_MS
        } else {
            WORKER_IDLE_BACKOFF_BASE_MS
        }
    }

    /// Whether an error text names a condition worth reconnecting over.
    pub fn is_recoverable_error(error: &str) -> (r: bool)
        ensures
            r == spec_is_recoverable(error@),
    {
        let lowered = lowercase(error);
        let l = lowered.as_str();
        contains_substring(l, "network") || contains_substring(l, "timeout") || contains_substring(
            l,
            "connection",
        ) || contains_substring(l, "disconnected") || contains_substring(l, "retry")
            || contains_substring(l, "temporarily") || contains_substring(l, "temporary")
            || contains_substring(l, "flood") || contains_substring(l, "unreachable")
            || contains_substring(l, "unavailable")
    }

    /// The delay before the next reconnection attempt.
    pub fn calculate_reconnect_delay(&self) -> (r: u64)
        requires
            self.reconnect_attempts <= CLIENT_MAX_RECONNECT_ATTEMPTS,
        ensures
            r == spec_reconnect_delay(self.reconnect_attempts),
    {
        proof {
            reveal_with_fuel(spec_pow2, 7);
        }
        let factor: u64 = match self.reconnect_attempts {
            0 => 1,
            1 => 2,
            2 => 4,
            3 => 8,
            4 => 16,
            _ => 32,
        };
        let raw = CLIENT_RECONNECT_DELAY_BASE_MS * factor;
        if raw > CLIENT_RECONNECT_DELAY_MAX_MS {
            CLIENT_RECONNECT_DELAY_MAX_MS
        } else {
            raw
        }
    }

    /// Begin one reconnection attempt: None when the attempts are spent,
    /// else the backoff delay to sleep before attempt `k`, doubling per past
    /// attempt from the base and capped, with the counter advanced.
    pub fn begin_reconnect(&mut self, now_ms: u64) -> (r: Option<u64>)
        requires
            old(self).wf(),
        ensures
            final(self).wf(),
            old(self).reconnect_attempts >= CLIENT_MAX_RECONNECT_ATTEMPTS ==> {
                &&& r is None
                &&& *final(self) == *old(self)
            },
            old(self).reconnect_attempts < CLIENT_MAX_RECONNECT_ATTEMPTS ==> {
                &&& r == Some(spec_reconnect_delay(old(self).reconnect_attempts))
                &&& final(self).reconnect_attempts == old(self).reconnect_attempts + 1
                &&& final(self).last_reconnect_attempt == Some(now_ms)
                &&& final(self).config == old(self).config
                &&& final(self).state == old(self).state
            },
    {
        if self.reconnect_attempts >= CLIENT_MAX_RECONNECT_ATTEMPTS {
            return None;
        }
        let delay = self.calculate_reconnect_delay();
        self.reconnect_attempts = self.reconnect_attempts + 1;
        self.last_reconnect_attempt = Some(now_ms);
        Some(delay)
    }

    /// Record the outcome of one reconnection attempt: success clears the
    /// counter and resumes running; a failure with the attempts spent puts
    /// the worker in error.
    pub fn on_reconnect_result(&mut self, ok: bool) -> (effects: Vec<WorkerEffect>)
        requires
            old(self).wf(),
        ensures
            final(self).wf(),
            final(self).config == old(self).config,
            ok ==> {
                &&& final(self).state is Running
                &&& final(self).reconnect_attempts == 0
                &&& effects@.len() == 1
                &&& (match effects@[0] {
                    WorkerEffect::AccountStatus { status, message } => status@ == "running"@
                        && message is None,
                    _ => false,
                })
            },
            (!ok && old(self).reconnect_attempts >= CLIENT_MAX_RECONNECT_ATTEMPTS) ==> {
                &&& final(self).state is Error
                &&& final(self).reconnect_attempts == old(self).reconnect_attempts
                &&& effects@.len() == 2
                &&& (match effects@[0] {
                    WorkerEffect::AccountStatus { status, message } => status@ == "error"@
                        && message is Some,
                    _ => false,
                })
                &&& (match effects@[1] {
                    WorkerEffect::Log { level, .. } => level@ == "error"@,
                    _ => false,
                })
            },
            (!ok && old(self).reconnect_attempts < CLIENT_MAX_RECONNECT_ATTEMPTS) ==> {
                &&& *final(self) == *old(self)
                &&& effects@.len() == 0
            },
            final(self).reconnect_attempts <= old(self).reconnect_attempts,
    {
        let mut effects: Vec<WorkerEffect> = Vec::new();
        if ok {
            self.reconnect_attempts = 0;
            self.state = WorkerState::Running;
            effects.push(
                WorkerEffect::AccountStatus {
                    status: String::from_str("running"),
                    message: None,
                },
            );
        } else if self.reconnect_attempts >= CLIENT_MAX_RECONNECT_ATTEMPTS {
            let msg = String::from_str("Failed to reconnect after 5 attempts");
            self.state = WorkerState::Error(msg.clone());
            effects.push(
                WorkerEffect::AccountStatus {
                    status: String::from_str("error"),
                    message: Some(String::from_str("Reconnection failed after 5 attempts")),
                },
            );
            effects.push(
                WorkerEffect::Log {
                    level: String::from_str("error"),
                    message: String::from_str(
                        "Failed to reconnect after 5 attempts. Worker stopped.",
                    ),
                },
            );
        }
        effects
    }

    /// Handle a response from the child process: flood waits block further
    /// sends until the wait has passed and ask the caller to sleep; a
    /// revoked session is fatal; any other failure is handed up.
    pub fn handle_telethon_response(&mut self, now_ms: u64, response: &crate::telethon::TelethonResponse) -> (r: (
        Vec<WorkerEffect>,
        ResponseDirective,
    ))
        requires
            old(self).wf(),
        ensures
            final(self).wf(),
            final(self).config == old(self).config,
            response.ok ==> r.1 is Proceed && *final(self) == *old(self) && r.0@.len() == 0,
            !response.ok ==> (match spec_response_code(response.payload) {
                ResponseCode::FloodWait(secs) => {
                    &&& r.1 == ResponseDirective::SleepSeconds(secs)
                    &&& final(self).send_blocked_until == spec_expiry(now_ms, spec_sat_mul_1000(
                        secs,
                    ))
                    &&& final(self).state == old(self).state
                    &&& final(self).game_state == old(self).game_state
                    &&& r.0@.len() == 1
                    &&& (match r.0@[0] {
                        WorkerEffect::Log { level, .. } => level@ == "warn"@,
                        _ => false,
                    })
                },
                ResponseCode::AuthRevoked => {
                    &&& r.1 is Fatal
                    &&& final(self).state is Error
                    &&& r.0@.len() == 1
                    &&& (match r.0@[0] {
                        WorkerEffect::AccountStatus { status, message } => status@ == "error"@
                            && message is Some,
                        _ => false,
                    })
                },
                ResponseCode::Other => {
                    &&& r.1 is Fail
                    &&& final(self).state == old(self).state
                    &&& final(self).send_blocked_until == old(self).send_blocked_until
                    &&& r.0@.len() == 1
                    &&& (match r.0@[0] {
                        WorkerEffect::Log { level, .. } => level@ == "warn"@,
                        _ => false,
                    })
                },
            }),
    {
        if response.ok {
            return (Vec::new(), ResponseDirective::Proceed);
        }
        let mut effects: Vec<WorkerEffect> = Vec::new();
        let code: i32;
        let mut seconds: u64 = 1;
        let mut message: Option<String> = None;
        match &response.payload {
            Some(payload) => {
                let is_flood: i32 = match payload.get("code") {
                    Some(node) => match node {
                        JsonNode::Str(c) => {
                            if str_eq(c.as_str(), "FLOOD_WAIT") || str_eq(
                                c.as_str(),
                                "SLOWMODE_WAIT",
                            ) {
                                1
                            } else if str_eq(c.as_str(), "AUTH_REVOKED") {
                                2
                            } else {
                                0
                            }
                        },
                        _ => 0,
                    },
                    None => 0,
                };
                code = is_flood;
                match payload.get("seconds") {
                    Some(node) => match node {
                        JsonNode::Num(Some(v)) => {
                            if *v >= 0 {
                                seconds = *v as u64;
                            }
                        },
                        _ => {},
                    },
                    None => {},
                }
                match payload.get("message") {
                    Some(node) => match node {
                        JsonNode::Str(m) => {
                            message = Some(m.clone());
                        },
                        _ => {},
                    },
                    None => {},
                }
            },
            None => {
                code = 0;
            },
        }
        if code == 1 {
            effects.push(
                WorkerEffect::Log {
                    level: String::from_str("warn"),
                    message: String::from_str("Rate limited; waiting before further sends"),
                },
            );
            let blocked_ms: u64 = if seconds > u64::MAX / 1000 {
                u64::MAX
            } else {
                seconds * 1000
            };
            self.send_blocked_until = if now_ms > u64::MAX - blocked_ms {
                u64::MAX
            } else {
                now_ms + blocked_ms
            };
            (effects, ResponseDirective::SleepSeconds(seconds))
        } else if code == 2 {
            let msg = match message {
                Some(m) => m,
                None => {
                    match &response.error {
                        Some(e) => e.clone(),
                        None => String::from_str("Session revoked or duplicated"),
                    }
                },
            };
            self.state = WorkerState::Error(msg.clone());
            effects.push(
                WorkerEffect::AccountStatus {
                    status: String::from_str("error"),
                    message: Some(msg.clone()),
                },
            );
            (effects, ResponseDirective::Fatal(msg))
        } else {
            let msg = match message {
                Some(m) => m,
                None => {
                    match &response.error {
                        Some(e) => e.clone(),
                        None => String::from_str("Telethon request failed"),
                    }
                },
            };
            effects.push(
                WorkerEffect::Log {
                    level: String::from_str("warn"),
                    message: msg.clone(),
                },
            );
            (effects, ResponseDirective::Fail(msg))
        }
    }
}

/// The well-known code a response payload carries.
pub enum ResponseCode {
    FloodWait(u64),
    AuthRevoked,
    Other,
}

/// Classify the well-known code of a failed response's payload: flood and
/// slow-mode waits carry the seconds to wait, a revoked session is fatal,
/// everything else is ordinary failure.
pub open spec fn spec_response_code(payload: Option<JsonNode>) -> ResponseCode {
    match payload {
        Some(p) => {
            match p.spec_get("code"@) {
                Some(JsonNode::Str(c)) => {
                    if c@ == "FLOOD_WAIT"@ || c@ == "SLOWMODE_WAIT"@ {
                        ResponseCode::FloodWait(spec_flood_seconds(p))
                    } else if c@ == "AUTH_REVOKED"@ {
                        ResponseCode::AuthRevoked
                    } else {
                        ResponseCode::Other
                    }
                },
                _ => ResponseCode::Other,
            }
        },
        None => ResponseCode::Other,
    }
}

/// The seconds a flood-wait payload asks for; one when absent or negative.
pub open spec fn spec_flood_seconds(p: JsonNode) -> u64 {
    match p.spec_get("seconds"@) {
        Some(JsonNode::Num(Some(v))) => if v >= 0 {
            v as u64
        } else {
            1
        },
        _ => 1,
    }
}

/// A second count times 1000, saturating in u64.
pub open spec fn spec_sat_mul_1000(secs: u64) -> u64 {
    if secs > u64::MAX / 1000 {
        u64::MAX
    } else {
        (secs * 1000) as u64
    }
}

/// The reconnect delays grow exactly as base times two to the number of
/// past attempts, capped at the maximum.
pub proof fn lemma_reconnect_backoff(k: u32)
    requires
        k <= CLIENT_MAX_RECONNECT_ATTEMPTS,
    ensures
        spec_reconnect_delay(k) as nat == (if CLIENT_RECONNECT_DELAY_BASE_MS * spec_pow2(k as nat)
            > CLIENT_RECONNECT_DELAY_MAX_MS {
            CLIENT_RECONNECT_DELAY_MAX_MS as nat
        } else {
            (CLIENT_RECONNECT_DELAY_BASE_MS * spec_pow2(k as nat)) as nat
        }),
{
}

/// The cached two-step entry for an action, scanning in order.
pub open spec fn spec_find_ts(entries: Seq<TwoStepCache>, action_id: i64) -> Option<int>
    decreases entries.len(),
{
    if entries.len() == 0 {
        None
    } else if entries[0].action_id == action_id {
        Some(0)
    } else {
        match spec_find_ts(entries.skip(1), action_id) {
            Some(i) => Some(i + 1),
            None => None,
        }
    }
}

/// The two-step entries left after dropping one action's entry.
pub open spec fn spec_drop_ts(entries: Seq<TwoStepCache>, action_id: i64) -> Seq<TwoStepCache>
    decreases entries.len(),
{
    if entries.len() == 0 {
        Seq::empty()
    } else {
        let rest = spec_drop_ts(entries.skip(1), action_id);
        if entries[0].action_id == action_id {
            rest
        } else {
            seq![entries[0]].add(rest)
        }
    }
}

/// The effective rules for an action, at the spec level.
pub struct ResolvedView {
    pub targets: Seq<String>,
    pub blacklist: Seq<String>,
    pub target_pairs: Seq<(String, String)>,
    pub button_type: Seq<char>,
    pub random_fallback_enabled: bool,
    pub is_two_step: bool,
    pub delay_min: int,
    pub delay_max: int,
}

/// The cache holds a still-valid resolved config for this action.
pub open spec fn spec_config_available(w: AccountWorker, action_id: i64, now_ms: u64) -> bool {
    spec_item_valid(
        spec_find_config(w.cache.action_configs@, w.config.account_id, action_id),
        now_ms,
    )
}

/// The rules the cached config resolves to; meaningful only while
/// `spec_config_available` holds.
pub open spec fn spec_resolve_view(w: AccountWorker, action_id: i64, now_ms: u64) -> ResolvedView {
    let found = spec_find_config(w.cache.action_configs@, w.config.account_id, action_id);
    let c = found->Some_0.data;
    ResolvedView {
        targets: c.targets@,
        blacklist: c.blacklist@,
        target_pairs: c.target_pairs@,
        button_type: c.button_type@,
        random_fallback_enabled: c.random_fallback_enabled,
        is_two_step: c.is_two_step,
        delay_min: c.delay_min as int,
        delay_max: c.delay_max as int,
    }
}

/// An effective config agrees with a resolved view.
pub open spec fn spec_effective_matches(cfg: EffectiveConfig, rv: ResolvedView) -> bool {
    &&& cfg.targets@ == rv.targets
    &&& cfg.blacklist@ == rv.blacklist
    &&& cfg.target_pairs@ == rv.target_pairs
    &&& cfg.button_type@ == rv.button_type
    &&& cfg.random_fallback_enabled == rv.random_fallback_enabled
    &&& cfg.is_two_step == rv.is_two_step
    &&& cfg.delay_min as int == rv.delay_min
    &&& cfg.delay_max as int == rv.delay_max
}

/// The inline buttons a flattened button list converts to.
pub open spec fn spec_inline_buttons(flat: Seq<crate::telethon::TelethonButton>) -> Seq<
    crate::detection::InlineButton,
>
    decreases flat.len(),
{
    if flat.len() == 0 {
        Seq::empty()
    } else {
        spec_inline_buttons(flat.drop_last()).push(
            crate::detection::InlineButton {
                text: flat.last().text,
                callback_data: flat.last().data,
                url: flat.last().url,
            },
        )
    }
}

/// Whether a join can be attempted now: not banned, not already joined or
/// started, the attempt cap not reached, and the cooldown elapsed.
pub open spec fn spec_can_attempt_join(w: AccountWorker, now_ms: u64) -> bool {
    &&& !w.game_state.ban_warned
    &&& !w.game_state.joined
    &&& !w.game_state.game_started
    &&& w.join_attempts < w.config.max_join_attempts
    &&& (match w.last_join_attempt {
        None => true,
        Some(last) => now_ms >= last && now_ms - last >= w.config.join_cooldown_seconds as u64
            * 1000,
    })
}

/// The first button carrying a bot-start link: a url button whose link
/// yields a start parameter.
pub open spec fn spec_first_start_button(flat: Seq<crate::telethon::TelethonButton>) -> Option<
    crate::telethon::TelethonButton,
>
    decreases flat.len(),
{
    if flat.len() == 0 {
        None
    } else if flat[0].kind@ == "url"@ && flat[0].url is Some && start_param_of(
        flat[0].url->Some_0@,
    ) is Some {
        Some(flat[0])
    } else {
        spec_first_start_button(flat.skip(1))
    }
}

/// What a click of one button must dispatch: callback buttons send their
/// data, bot-start url buttons send `/start` with the link's parameter to
/// the first moderator bot, and anything else dispatches nothing.
pub open spec fn spec_click_request_ok(
    config: WorkerConfig,
    chat_id: i64,
    message_id: i64,
    b: crate::telethon::TelethonButton,
    r: Option<ClientRequest>,
) -> bool {
    if b.kind@ == "callback"@ {
        match b.data {
            Some(d) => r == Some(ClientRequest::ClickButton { chat_id, message_id, data: d }),
            None => r is None,
        }
    } else if b.kind@ == "url"@ {
        match b.url {
            Some(u) => {
                match start_param_of(u@) {
                    Some(p) => {
                        if config.moderator_bot_ids@.len() > 0 {
                            match r {
                                Some(ClientRequest::SendMessage { chat_id: c, text }) => c
                                    == config.moderator_bot_ids@[0] && text@ == "/start "@ + p,
                                _ => false,
                            }
                        } else {
                            r is None
                        }
                    },
                    None => r is None,
                }
            },
            None => r is None,
        }
    } else {
        r is None
    }
}

/// How many phase-detected emissions a list holds.
pub open spec fn spec_phase_effect_count(effects: Seq<WorkerEffect>) -> int
    decreases effects.len(),
{
    if effects.len() == 0 {
        0
    } else {
        spec_phase_effect_count(effects.drop_last()) + if effects.last() is PhaseDetected {
            1int
        } else {
            0int
        }
    }
}

/// How many phase classifications a result list holds.
pub open spec fn spec_phase_result_count(results: Seq<crate::detection::DetectionResult>) -> int
    decreases results.len(),
{
    if results.len() == 0 {
        0
    } else {
        spec_phase_result_count(results.drop_last()) + if results.last() is Phase {
            1int
        } else {
            0int
        }
    }
}

/// How many dispatch effects a list holds.
pub open spec fn spec_dispatch_count(effects: Seq<WorkerEffect>) -> int
    decreases effects.len(),
{
    if effects.len() == 0 {
        0
    } else {
        spec_dispatch_count(effects.drop_last()) + if effects.last() is Dispatch {
            1int
        } else {
            0int
        }
    }
}

/// Everything the reaction to one detected phase settles, relating the
/// worker before and after and the effects returned.
pub open spec fn spec_phase_post(
    pre: AccountWorker,
    post: AccountWorker,
    phase_name: Seq<char>,
    message: crate::telethon::TelethonMessage,
    now: u64,
    effects: Seq<WorkerEffect>,
) -> bool {
    &&& (post.config == pre.config)
    &&& (post.state == pre.state)
    &&& (post.send_blocked_until == pre.send_blocked_until)
    &&& (post.reconnect_attempts == pre.reconnect_attempts)
    &&& (post.last_seen_update == pre.last_seen_update)
    &&& (effects.len() >= 1)
    &&& (match effects[0] {
                WorkerEffect::PhaseDetected { phase_name: emitted } => emitted@ == phase_name,
                _ => false,
            })
    &&& (forall|i: int| 1 <= i < effects.len() ==> !((#[trigger] effects[i]) is PhaseDetected))
    &&& (phase_name == "join_time"@ ==> {
                if !pre.game_state.joined && spec_can_attempt_join(pre, now) {
                    &&& post.join_attempts == pre.join_attempts + 1
                    &&& post.last_join_attempt == Some(now)
                    &&& post.game_state == pre.game_state
                    &&& effects.len() == 3
                    &&& effects[1] == (WorkerEffect::JoinAttempt {
                        attempt: (pre.join_attempts + 1) as i32,
                        max_attempts: pre.config.max_join_attempts,
                    })
                    &&& spec_join_dispatch_ok(pre.config, message, effects[2])
                } else {
                    &&& post == pre
                    &&& effects.len() == 1
                }
            })
    &&& (phase_name == "join_confirmation"@ ==> {
                &&& post.game_state.joined
                &&& post.game_state.game_started == pre.game_state.game_started
                &&& post.game_state.game_ended == pre.game_state.game_ended
                &&& post.game_state.ban_warned == pre.game_state.ban_warned
                &&& post.join_attempts == 0
                &&& post.last_join_attempt is None
                &&& effects.len() == 1
            })
    &&& (phase_name == "game_start"@ ==> {
                &&& post.game_state.game_started
                &&& post.game_state.joined == pre.game_state.joined
                &&& post.game_state.game_ended == pre.game_state.game_ended
                &&& post.game_state.ban_warned == pre.game_state.ban_warned
                &&& post.join_attempts == 0
                &&& post.last_join_attempt is None
                &&& effects.len() == 1
            })
    &&& (phase_name == "game_end"@ ==> {
                &&& !post.game_state.joined
                &&& !post.game_state.game_started
                &&& !post.game_state.game_ended
                &&& !post.game_state.ban_warned
                &&& post.join_attempts == 0
                &&& post.last_join_attempt is None
                &&& effects.len() == 1
            })
    &&& ((phase_name != "join_time"@ && phase_name != "join_confirmation"@ && phase_name
        != "game_start"@ && phase_name != "game_end"@) ==> {
                &&& post == pre
                &&& effects.len() == 1
            })
}

/// Everything the reaction to one detected action settles, relating the
/// worker before and after and the effects returned.
pub open spec fn spec_action_post(
    pre: AccountWorker,
    post: AccountWorker,
    action_id: i64,
    action_name: Seq<char>,
    step: i32,
    message: crate::telethon::TelethonMessage,
    now: u64,
    effects: Seq<WorkerEffect>,
) -> bool {
    &&& (post == (AccountWorker {
                two_step_cache: post.two_step_cache,
                ..pre
            }))
    &&& (spec_dispatch_count(effects) <= 2)
    &&& (forall|i: int| 0 <= i < effects.len() ==> !((#[trigger] effects[i]) is PhaseDetected))
    &&& (!spec_config_available(pre, action_id, now) ==> {
                &&& post == pre
                &&& effects.len() == 2
                &&& (match effects[0] {
                    WorkerEffect::Log { level, .. } => level@ == "warn"@,
                    _ => false,
                })
                &&& effects[1] == (WorkerEffect::ActionConfigNeeded { action_id })
                &&& spec_dispatch_count(effects) == 0
            })
    &&& (spec_config_available(pre, action_id, now) ==> ({
                let rv = spec_resolve_view(pre, action_id, now);
                let flat = crate::selection::spec_flatten(message.buttons@);
                &&& (!rv.is_two_step ==> post.two_step_cache == pre.two_step_cache)
                &&& (!rv.is_two_step ==> spec_dispatch_count(effects) <= 1)
                &&& (!rv.is_two_step ==> (exists|sel: Option<(crate::telethon::TelethonButton, i32)>|
                    #![trigger crate::selection::spec_selection_ok(
                        rv.targets,
                        rv.blacklist,
                        rv.button_type,
                        rv.random_fallback_enabled,
                        flat,
                        sel,
                    )]
                    {
                        &&& crate::selection::spec_selection_ok(
                            rv.targets,
                            rv.blacklist,
                            rv.button_type,
                            rv.random_fallback_enabled,
                            flat,
                            sel,
                        )
                        &&& (match sel {
                            None => effects.len() == 0,
                            Some(p) => {
                                &&& crate::selection::spec_delay_admissible(
                                    rv.delay_min,
                                    rv.delay_max,
                                    p.1 as int,
                                )
                                &&& spec_one_step_effects_ok(
                                    pre.config,
                                    message.chat_id,
                                    message.id,
                                    action_name,
                                    p.0,
                                    p.1,
                                    effects,
                                )
                            },
                        })
                    }))
                &&& ((!rv.is_two_step && rv.button_type != "yes_no"@ && rv.button_type != "fixed"@
                    && !rv.random_fallback_enabled && crate::selection::spec_first_target_hit(
                    rv.targets,
                    flat,
                ) is None) ==> effects.len() == 0)
                &&& (rv.is_two_step ==> spec_two_step_post(
                    pre,
                    post,
                    action_id,
                    action_name,
                    step,
                    message,
                    rv.target_pairs,
                    rv.blacklist,
                    rv.random_fallback_enabled,
                    rv.delay_min,
                    rv.delay_max,
                    effects,
                ))
            }))
}

/// Everything the reaction to one classification settles: the phase or the
/// action contract, by the result's kind.
pub open spec fn spec_result_step_ok(
    pre: AccountWorker,
    post: AccountWorker,
    result: crate::detection::DetectionResult,
    message: crate::telethon::TelethonMessage,
    now: u64,
    effects: Seq<WorkerEffect>,
) -> bool {
    match result {
        crate::detection::DetectionResult::Phase { phase_name, .. } => spec_phase_post(
            pre,
            post,
            phase_name@,
            message,
            now,
            effects,
        ),
        crate::detection::DetectionResult::Action { action_id, action_name, step, .. } =>
            spec_action_post(pre, post, action_id, action_name@, step, message, now, effects),
    }
}

/// The per-result contracts, folded in order over the pipeline's output:
/// the effects split into one segment per classification, each related to
/// its result's contract, with the worker state threaded through.
pub open spec fn spec_results_fold_ok(
    w0: AccountWorker,
    w1: AccountWorker,
    results: Seq<crate::detection::DetectionResult>,
    effects: Seq<WorkerEffect>,
    message: crate::telethon::TelethonMessage,
    now: u64,
) -> bool
    decreases results.len(),
{
    if results.len() == 0 {
        w1 == w0 && effects.len() == 0
    } else {
        exists|mid: AccountWorker, k: int|
            #![trigger spec_result_step_ok(w0, mid, results[0], message, now, effects.take(k))]
            {
                &&& 0 <= k <= effects.len()
                &&& spec_result_step_ok(w0, mid, results[0], message, now, effects.take(k))
                &&& spec_results_fold_ok(mid, w1, results.skip(1), effects.skip(k), message, now)
            }
    }
}

/// Extending a fold by one more handled result.
proof fn lemma_results_fold_snoc(
    w0: AccountWorker,
    w1: AccountWorker,
    w2: AccountWorker,
    results: Seq<crate::detection::DetectionResult>,
    effects: Seq<WorkerEffect>,
    r: crate::detection::DetectionResult,
    seg: Seq<WorkerEffect>,
    message: crate::telethon::TelethonMessage,
    now: u64,
)
    requires
        spec_results_fold_ok(w0, w1, results, effects, message, now),
        spec_result_step_ok(w1, w2, r, message, now, seg),
    ensures
        spec_results_fold_ok(w0, w2, results.push(r), effects.add(seg), message, now),
    decreases results.len(),
{
    if results.len() == 0 {
        assert(w1 == w0 && effects.len() == 0);
        let whole = effects.add(seg);
        assert(whole.take(seg.len() as int) =~= seg);
        assert(whole.skip(seg.len() as int) =~= Seq::<WorkerEffect>::empty());
        assert(results.push(r)[0] == r);
        assert(results.push(r).skip(1) =~= Seq::<crate::detection::DetectionResult>::empty());
        assert(spec_result_step_ok(w0, w2, results.push(r)[0], message, now, whole.take(
            seg.len() as int,
        )));
        assert(spec_results_fold_ok(w2, w2, results.push(r).skip(1), whole.skip(
            seg.len() as int,
        ), message, now));
    } else {
        let mid = choose|mid: AccountWorker, k: int|
            #![trigger spec_result_step_ok(w0, mid, results[0], message, now, effects.take(k))]
            0 <= k <= effects.len() && spec_result_step_ok(
                w0,
                mid,
                results[0],
                message,
                now,
                effects.take(k),
            ) && spec_results_fold_ok(mid, w1, results.skip(1), effects.skip(k), message, now);
        let (m, k) = mid;
        lemma_results_fold_snoc(
            m,
            w1,
            w2,
            results.skip(1),
            effects.skip(k),
            r,
            seg,
            message,
            now,
        );
        let whole = effects.add(seg);
        assert(whole.take(k) =~= effects.take(k));
        assert(whole.skip(k) =~= effects.skip(k).add(seg));
        assert(results.push(r)[0] == results[0]);
        assert(results.push(r).skip(1) =~= results.skip(1).push(r));
        assert(spec_result_step_ok(w0, m, results.push(r)[0], message, now, whole.take(k)));
        assert(spec_results_fold_ok(m, w2, results.push(r).skip(1), whole.skip(k), message, now));
    }
}

/// What the join protocol dispatches: the first bot-start link among the
/// message's buttons sent as a start command to the group's moderator, or
/// a warning when no such link or bot exists.
pub open spec fn spec_join_dispatch_ok(
    config: WorkerConfig,
    message: crate::telethon::TelethonMessage,
    e: WorkerEffect,
) -> bool {
    let flat = crate::selection::spec_flatten(message.buttons@);
    let bot = spec_moderator_for_group(config, message.chat_id);
    match (spec_first_start_button(flat), bot) {
        (Some(btn), Some(b)) => match e {
            WorkerEffect::Dispatch { pre_delay_ms, request } => {
                &&& pre_delay_ms == 0
                &&& (match request {
                    ClientRequest::SendMessage { chat_id, text } => chat_id == b && text@
                        == "/start "@ + start_param_of(btn.url->Some_0@)->Some_0,
                    _ => false,
                })
            },
            _ => false,
        },
        _ => e is Log,
    }
}

impl AccountWorker {
    /// Decode one configured ban-warning entry.
    #[verifier::loop_isolation(false)]
    fn decode_ban_entry(n: JsonNode) -> (r: Option<BanWarningPattern>)
        ensures
            r == spec_ban_entry_of(n),
    {
        proof {
            reveal_strlit("pattern");
            reveal_strlit("enabled");
            reveal_strlit("is_regex");
            assert("pattern"@[0] != "enabled"@[0]);
            assert("pattern"@ != "enabled"@);
            assert("is_regex"@.len() != "pattern"@.len());
            assert("is_regex"@ != "pattern"@);
            assert("is_regex"@ != "enabled"@);
        }
        match n {
            JsonNode::Obj(fields) => {
                let mut pattern_node: Option<JsonNode> = None;
                let mut enabled_node: Option<JsonNode> = None;
                let mut regex_node: Option<JsonNode> = None;
                let ghost all = fields@;
                let mut fields = fields;
                proof {
                    assert(all.take(0) =~= Seq::<(String, JsonNode)>::empty());
                }
                let ghost mut seen: int = 0;
                while fields.len() > 0
                    invariant
                        0 <= seen <= all.len(),
                        fields@ =~= all.skip(seen),
                        pattern_node == crate::json::spec_obj_get(all.take(seen), "pattern"@),
                        enabled_node == crate::json::spec_obj_get(all.take(seen), "enabled"@),
                        regex_node == crate::json::spec_obj_get(all.take(seen), "is_regex"@),
                    decreases fields.len(),
                {
                    let entry = fields.remove(0);
                    proof {
                        assert(entry == all[seen]);
                        lemma_obj_get_take_step(all, seen, "pattern"@);
                        lemma_obj_get_take_step(all, seen, "enabled"@);
                        lemma_obj_get_take_step(all, seen, "is_regex"@);
                    }
                    if str_eq(entry.0.as_str(), "pattern") {
                        if pattern_node.is_none() {
                            pattern_node = Some(entry.1);
                        }
                    } else if str_eq(entry.0.as_str(), "enabled") {
                        if enabled_node.is_none() {
                            enabled_node = Some(entry.1);
                        }
                    } else if str_eq(entry.0.as_str(), "is_regex") {
                        if regex_node.is_none() {
                            regex_node = Some(entry.1);
                        }
                    }
                    proof {
                        seen = seen + 1;
                        assert(fields@ =~= all.skip(seen));
                    }
                }
                proof {
                    assert(all.take(all.len() as int) =~= all);
                }
                let pattern = match pattern_node {
                    Some(JsonNode::Str(p)) => p,
                    _ => {
                        return None;
                    },
                };
                if pattern.as_str().unicode_len() == 0 {
                    return None;
                }
                let enabled = match enabled_node {
                    Some(JsonNode::Bool(b)) => b,
                    _ => true,
                };
                let is_regex = match regex_node {
                    Some(JsonNode::Bool(b)) => b,
                    _ => false,
                };
                if !enabled {
                    return None;
                }
                Some(BanWarningPattern { pattern, is_regex })
            },
            _ => None,
        }
    }

    /// Parse the configured ban-warning patterns; anything that is not an
    /// array of well-formed entries yields none.
    #[verifier::loop_isolation(false)]
    pub fn parse_ban_warning_patterns(&self, json: &str) -> (r: Vec<BanWarningPattern>)
        ensures
            r@ == spec_ban_patterns_of(json_of(json@)),
    {
        let parsed = parse_json(json);
        match parsed {
            Some(JsonNode::Arr(items)) => {
                let ghost all = items@;
                let mut items = items;
                let mut out: Vec<BanWarningPattern> = Vec::new();
                proof {
                    assert(all.take(0) =~= Seq::<JsonNode>::empty());
                }
                let ghost mut seen: int = 0;
                while items.len() > 0
                    invariant
                        0 <= seen <= all.len(),
                        items@ =~= all.skip(seen),
                        out@ == spec_ban_entries(all.take(seen)),
                    decreases items.len(),
                {
                    let node = items.remove(0);
                    proof {
                        assert(node == all[seen]);
                        assert(all.take(seen + 1).drop_last() =~= all.take(seen));
                        assert(all.take(seen + 1).last() == all[seen]);
                    }
                    match Self::decode_ban_entry(node) {
                        Some(p) => {
                            out.push(p);
                        },
                        None => {},
                    }
                    proof {
                        seen = seen + 1;
                        assert(items@ =~= all.skip(seen));
                    }
                }
                proof {
                    assert(all.take(all.len() as int) =~= all);
                }
                out
            },
            _ => Vec::new(),
        }
    }

    /// Whether a text matches any configured ban-warning pattern.
    #[verifier::loop_isolation(false)]
    pub fn check_ban_warning(&self, text: &str) -> (r: bool)
        ensures
            r == spec_ban_match(self.ban_warning_patterns@, text@),
    {
        let patterns = &self.ban_warning_patterns;
        let n = patterns.len();
        let mut i: usize = 0;
        while i < n
            invariant
                i <= n,
                forall|k: int|
                    0 <= k < i ==> !spec_pattern_matches(
                        text@,
                        (#[trigger] patterns@[k]).pattern@,
                        patterns@[k].is_regex,
                    ),
            decreases n - i,
        {
            let p = &patterns[i];
            let hit: bool;
            if p.is_regex {
                hit = match crate::text::regex_find(p.pattern.as_str(), text) {
                    Ok(b) => b,
                    Err(_) => false,
                };
            } else {
                hit = contains_substring(text, p.pattern.as_str());
            }
            if hit {
                return true;
            }
            i = i + 1;
        }
        proof {
            if spec_ban_match(patterns@, text@) {
                let k = choose|k: int|
                    0 <= k < patterns@.len() && spec_pattern_matches(
                        text@,
                        (#[trigger] patterns@[k]).pattern@,
                        patterns@[k].is_regex,
                    );
            }
        }
        false
    }

    /// Resolve the effective rules for an action from the cached per-account
    /// config. A missing or expired entry is surfaced as None, never papered
    /// over with defaults: the caller asks the configuration layer to load.
    pub fn resolve_action_config(&self, action_id: i64, now_ms: u64) -> (cfg: Option<
        EffectiveConfig,
    >)
        ensures
            (match cfg {
                Some(c) => spec_config_available(*self, action_id, now_ms)
                    && spec_effective_matches(c, spec_resolve_view(*self, action_id, now_ms)),
                None => !spec_config_available(*self, action_id, now_ms),
            }),
    {
        match self.cache.get_action_config(self.config.account_id, action_id, now_ms) {
            Some(c) => Some(
                EffectiveConfig {
                    targets: clone_strings(&c.targets),
                    blacklist: clone_strings(&c.blacklist),
                    target_pairs: clone_string_pairs(&c.target_pairs),
                    button_type: c.button_type.clone(),
                    random_fallback_enabled: c.random_fallback_enabled,
                    is_two_step: c.is_two_step,
                    delay_min: c.delay_min,
                    delay_max: c.delay_max,
                },
            ),
            None => None,
        }
    }

    /// Convert a wire message to the pipeline's event form: the buttons are
    /// flattened row-major, and a chat outside the configured groups counts
    /// as private.
    #[verifier::loop_isolation(false)]
    pub fn telethon_message_to_event(&self, message: &crate::telethon::TelethonMessage) -> (r:
        crate::detection::MessageEvent)
        ensures
            r.text == message.text,
            r.chat_id == message.chat_id,
            r.sender_id == message.sender_id,
            r.is_private == !self.config.group_chat_ids@.contains(message.chat_id),
            r.buttons@ == spec_inline_buttons(
                crate::selection::spec_flatten(message.buttons@),
            ),
    {
        let flat = crate::selection::flatten_buttons(&message.buttons);
        let ghost flat_view = flat@;
        let mut buttons: Vec<crate::detection::InlineButton> = Vec::new();
        let n = flat.len();
        let mut i: usize = 0;
        proof {
            assert(flat_view.take(0) =~= Seq::<crate::telethon::TelethonButton>::empty());
        }
        while i < n
            invariant
                i <= n,
                n == flat_view.len(),
                flat@ == flat_view,
                buttons@ == spec_inline_buttons(flat_view.take(i as int)),
            decreases n - i,
        {
            proof {
                assert(flat_view.take(i + 1).drop_last() =~= flat_view.take(i as int));
                assert(flat_view.take(i + 1).last() == flat_view[i as int]);
            }
            let b = &flat[i];
            let callback_data = match &b.data {
                Some(d) => Some(d.clone()),
                None => None,
            };
            let url = match &b.url {
                Some(u) => Some(u.clone()),
                None => None,
            };
            buttons.push(
                crate::detection::InlineButton { text: b.text.clone(), callback_data, url },
            );
            i = i + 1;
        }
        proof {
            assert(flat_view.take(n as int) =~= flat_view);
        }
        let is_private = !crate::selection::contains_i64(
            &self.config.group_chat_ids,
            message.chat_id,
        );
        crate::detection::MessageEvent {
            text: message.text.clone(),
            chat_id: message.chat_id,
            is_private,
            sender_id: message.sender_id,
            buttons,
        }
    }

    /// Whether a join can be attempted now.
    pub fn can_attempt_join(&self, now_ms: u64) -> (r: bool)
        requires
            self.wf(),
        ensures
            r == spec_can_attempt_join(*self, now_ms),
    {
        if self.game_state.ban_warned || self.game_state.joined || self.game_state.game_started {
            return false;
        }
        if self.join_attempts >= self.config.max_join_attempts {
            return false;
        }
        match self.last_join_attempt {
            None => true,
            Some(last) => {
                let cooldown_ms = (self.config.join_cooldown_seconds as u64) * 1000;
                now_ms >= last && now_ms - last >= cooldown_ms
            },
        }
    }

    /// Clear the join counter and the last-attempt mark.
    pub fn stop_join_attempts(&mut self)
        ensures
            *final(self) == (AccountWorker {
                join_attempts: 0,
                last_join_attempt: None,
                ..*old(self)
            }),
            old(self).wf() ==> final(self).wf(),
    {
        self.join_attempts = 0;
        self.last_join_attempt = None;
    }

    /// Reset the in-game state for the next game.
    pub fn reset_game_state(&mut self)
        ensures
            *final(self) == (AccountWorker {
                game_state: final(self).game_state,
                join_attempts: 0,
                last_join_attempt: None,
                ..*old(self)
            }),
            !final(self).game_state.joined,
            !final(self).game_state.game_started,
            !final(self).game_state.game_ended,
            !final(self).game_state.ban_warned,
            old(self).wf() ==> final(self).wf(),
    {
        self.game_state = GameState::default();
        self.join_attempts = 0;
        self.last_join_attempt = None;
    }

    /// Attempt to join: count the attempt, announce it, and dispatch the
    /// first bot-start link among the message's buttons to the group's
    /// moderator; warn when there is none.
    #[verifier::loop_isolation(false)]
    pub fn attempt_join(&mut self, now_ms: u64, message: &crate::telethon::TelethonMessage) -> (effects: Vec<WorkerEffect>)
        requires
            old(self).wf(),
            old(self).join_attempts < old(self).config.max_join_attempts,
        ensures
            final(self).wf(),
            *final(self) == (AccountWorker {
                join_attempts: (old(self).join_attempts + 1) as i32,
                last_join_attempt: Some(now_ms),
                ..*old(self)
            }),
            effects@.len() == 2,
            effects@[0] == (WorkerEffect::JoinAttempt {
                attempt: (old(self).join_attempts + 1) as i32,
                max_attempts: old(self).config.max_join_attempts,
            }),
            spec_join_dispatch_ok(old(self).config, *message, effects@[1]),
            forall|i: int| 0 <= i < effects@.len() ==> !((#[trigger] effects@[i]) is PhaseDetected),
    {
        self.join_attempts = self.join_attempts + 1;
        self.last_join_attempt = Some(now_ms);
        let mut effects: Vec<WorkerEffect> = Vec::new();
        effects.push(
            WorkerEffect::JoinAttempt {
                attempt: self.join_attempts,
                max_attempts: self.config.max_join_attempts,
            },
        );
        let flat = crate::selection::flatten_buttons(&message.buttons);
        let bot = self.get_moderator_for_group(message.chat_id);
        let found = Self::find_start_button(&flat);
        match (found, bot) {
            (Some(param), Some(b)) => {
                let mut text = String::from_str("/start ");
                text.append(param.as_str());
                effects.push(
                    WorkerEffect::Dispatch {
                        pre_delay_ms: 0,
                        request: ClientRequest::SendMessage { chat_id: b, text },
                    },
                );
            },
            _ => {
                effects.push(
                    WorkerEffect::Log {
                        level: String::from_str("warn"),
                        message: String::from_str("No join button found"),
                    },
                );
            },
        }
        effects
    }

    /// The start parameter of the first bot-start link among the buttons.
    #[verifier::loop_isolation(false)]
    fn find_start_button(flat: &Vec<crate::telethon::TelethonButton>) -> (r: Option<String>)
        ensures
            (match spec_first_start_button(flat@) {
                Some(btn) => r is Some && Some(r->Some_0@) == start_param_of(btn.url->Some_0@),
                None => r is None,
            }),
    {
        let n = flat.len();
        let mut i: usize = 0;
        proof {
            assert(flat@.skip(0) =~= flat@);
        }
        while i < n
            invariant
                i <= n,
                spec_first_start_button(flat@) == spec_first_start_button(flat@.skip(i as int)),
            decreases n - i,
        {
            proof {
                assert(flat@.skip(i as int)[0] == flat@[i as int]);
                assert(flat@.skip(i as int).skip(1) =~= flat@.skip(i + 1));
            }
            let b = &flat[i];
            if str_eq(b.kind.as_str(), "url") {
                match &b.url {
                    Some(u) => {
                        match parse_start_parameter(u.as_str()) {
                            Some(param) => {
                                return Some(param);
                            },
                            None => {},
                        }
                    },
                    None => {},
                }
            }
            i = i + 1;
        }
        proof {
            assert(flat@.skip(n as int) =~= Seq::<crate::telethon::TelethonButton>::empty());
        }
        None
    }

    /// React to the winning phase of a message: join prompts trigger a join
    /// attempt under the cooldown and cap, confirmations and starts settle
    /// the game flags, and a game end resets them.
    pub fn handle_phase(&mut self, now_ms: u64, phase_name: &str, message: &crate::telethon::TelethonMessage) -> (effects: Vec<WorkerEffect>)
        requires
            old(self).wf(),
        ensures
            final(self).wf(),
            spec_phase_post(*old(self), *final(self), phase_name@, *message, now_ms, effects@),
    {
        proof {
            reveal_strlit("join_time");
            reveal_strlit("join_confirmation");
            reveal_strlit("game_start");
            reveal_strlit("game_end");
            assert("join_time"@.len() != "join_confirmation"@.len());
            assert("join_time"@.len() != "game_start"@.len());
            assert("join_time"@.len() != "game_end"@.len());
            assert("join_confirmation"@.len() != "game_start"@.len());
            assert("join_confirmation"@.len() != "game_end"@.len());
            assert("game_start"@.len() != "game_end"@.len());
        }
        let mut effects: Vec<WorkerEffect> = Vec::new();
        effects.push(WorkerEffect::PhaseDetected { phase_name: String::from_str(phase_name) });
        if str_eq(phase_name, "join_time") {
            if !self.game_state.joined && self.can_attempt_join(now_ms) {
                let mut join_effects = self.attempt_join(now_ms, message);
                effects.append(&mut join_effects);
            }
        } else if str_eq(phase_name, "join_confirmation") {
            self.game_state.joined = true;
            self.stop_join_attempts();
        } else if str_eq(phase_name, "game_start") {
            self.game_state.game_started = true;
            self.stop_join_attempts();
        } else if str_eq(phase_name, "game_end") {
            self.game_state.game_ended = true;
            self.reset_game_state();
        }
        effects
    }
}

/// While a worker holds its invariant, its join attempts never exceed the
/// configured cap, from the first join prompt until the game ends.
pub proof fn lemma_join_attempts_bounded(w: AccountWorker)
    requires
        w.wf(),
    ensures
        0 <= w.join_attempts <= w.config.max_join_attempts,
{
}

/// A flood wait observed at `t` for `n` seconds blocks dispatching until
/// `t + n` seconds: any step admitted after the block has passed that mark.
pub proof fn lemma_flood_wait_blocks(blocked_until: u64, t: u64, n: u64, t2: u64)
    requires
        blocked_until == spec_expiry(t, spec_sat_mul_1000(n)),
        t + n * 1000 <= u64::MAX,
        t2 >= blocked_until,
    ensures
        t2 >= t + n * 1000,
{
}

/// The first cached two-step entry for an action, by value.
pub open spec fn spec_get_ts(entries: Seq<TwoStepCache>, action_id: i64) -> Option<TwoStepCache>
    decreases entries.len(),
{
    if entries.len() == 0 {
        None
    } else if entries[0].action_id == action_id {
        Some(entries[0])
    } else {
        spec_get_ts(entries.skip(1), action_id)
    }
}

/// A dispatch request plausibly aimed at one prompt: a button click names
/// that prompt's chat and message; a sent message carries no such ids.
pub open spec fn spec_req_for(req: ClientRequest, chat: i64, msgid: i64) -> bool {
    match req {
        ClientRequest::ClickButton { chat_id, message_id, .. } => chat_id == chat && message_id
            == msgid,
        ClientRequest::SendMessage { .. } => true,
    }
}

/// No pair can be resolved: no configured pair is available across the two
/// prompts, and the random fallback is off or has no candidates.
pub open spec fn spec_no_pair(
    pairs: Seq<(String, String)>,
    blacklist: Seq<String>,
    fallback: bool,
    first_buttons: Seq<crate::telethon::TelethonButton>,
    second_buttons: Seq<crate::telethon::TelethonButton>,
) -> bool {
    &&& crate::selection::spec_first_pair_hit(pairs, first_buttons, second_buttons) is None
    &&& !(fallback && crate::selection::spec_not_blacklisted(first_buttons, blacklist).len() > 0
        && crate::selection::spec_not_blacklisted(second_buttons, blacklist).len() > 0)
}

/// A click of this button forms a request: a callback button with data, or
/// a url button whose bot-start link resolves while a moderator bot is
/// known.
pub open spec fn spec_click_forms(config: WorkerConfig, b: crate::telethon::TelethonButton) -> bool {
    if b.kind@ == "callback"@ {
        b.data is Some
    } else if b.kind@ == "url"@ {
        b.url is Some && start_param_of(b.url->Some_0@) is Some
            && config.moderator_bot_ids@.len() > 0
    } else {
        false
    }
}

/// What a one-step action's effects must be for the selected button: the
/// click, when the button admits one, with the drawn delay, else a
/// warning; then the action-detected emission naming the clicked button.
pub open spec fn spec_one_step_effects_ok(
    config: WorkerConfig,
    chat_id: i64,
    message_id: i64,
    action_name: Seq<char>,
    b: crate::telethon::TelethonButton,
    d: i32,
    effects: Seq<WorkerEffect>,
) -> bool {
    &&& effects.len() == 2
    &&& (if spec_click_forms(config, b) {
        match effects[0] {
            WorkerEffect::Dispatch { pre_delay_ms, request } => {
                &&& pre_delay_ms == (if d > 0 {
                    d as u64
                } else {
                    0u64
                })
                &&& spec_click_request_ok(config, chat_id, message_id, b, Some(request))
            },
            _ => false,
        }
    } else {
        match effects[0] {
            WorkerEffect::Log { level, .. } => level@ == "warn"@,
            _ => false,
        }
    })
    &&& (match effects[1] {
        WorkerEffect::ActionDetected { action_name: emitted, button } => {
            &&& emitted@ == action_name
            &&& button == Some(b.text)
        },
        _ => false,
    })
}

/// How many effects one step of a two-step resolution contributes: none
/// without a button, else the click or its warning plus the emission.
pub open spec fn spec_step_len(
    config: WorkerConfig,
    btn: Option<crate::telethon::TelethonButton>,
) -> int {
    match btn {
        None => 0,
        Some(_) => 2,
    }
}

/// A dispatch pre-delay is an admissible draw for the range, clamped at
/// zero.
pub open spec fn spec_predelay_admissible(dmin: int, dmax: int, pre: u64) -> bool {
    exists|d: int|
        crate::selection::spec_delay_admissible(dmin, dmax, d) && pre as int == (if d > 0 {
            d
        } else {
            0
        })
}

/// What one step of a two-step resolution must emit for its found button:
/// the click formed per the button's kind, with an admissible delay, or a
/// warning when the button admits no request, then the labelled
/// action-detected emission naming the resolved target.
pub open spec fn spec_step_segment_ok(
    config: WorkerConfig,
    chat_id: i64,
    message_id: i64,
    btn: Option<crate::telethon::TelethonButton>,
    target: Seq<char>,
    label: Seq<char>,
    dmin: int,
    dmax: int,
    seg: Seq<WorkerEffect>,
) -> bool {
    match btn {
        None => seg.len() == 0,
        Some(b) => {
            &&& seg.len() == 2
            &&& (if spec_click_forms(config, b) {
                match seg[0] {
                    WorkerEffect::Dispatch { pre_delay_ms, request } => {
                        &&& spec_click_request_ok(config, chat_id, message_id, b, Some(request))
                        &&& spec_predelay_admissible(dmin, dmax, pre_delay_ms)
                    },
                    _ => false,
                }
            } else {
                match seg[0] {
                    WorkerEffect::Log { level, .. } => level@ == "warn"@,
                    _ => false,
                }
            })
            &&& (match seg[1] {
                WorkerEffect::ActionDetected { action_name: emitted, button } => {
                    &&& emitted@ == label
                    &&& (match button {
                        Some(t) => t@ == target,
                        None => false,
                    })
                },
                _ => false,
            })
        },
    }
}

/// How many dispatches clicking this optional button contributes.
pub open spec fn spec_step_click_count(
    config: WorkerConfig,
    btn: Option<crate::telethon::TelethonButton>,
) -> int {
    match btn {
        None => 0,
        Some(b) => if spec_click_forms(config, b) {
            1int
        } else {
            0int
        },
    }
}

/// Everything one two-step prompt settles, relating the worker before and
/// after: the first prompt replaces the action's cached entry without
/// clicking; a second prompt without a cached entry only warns; with one,
/// the entry is dropped and the resolved pair's buttons are clicked in
/// order, cached prompt first, each with its labelled emission.
pub open spec fn spec_two_step_post(
    pre: AccountWorker,
    post: AccountWorker,
    action_id: i64,
    action_name: Seq<char>,
    step: i32,
    message: crate::telethon::TelethonMessage,
    pairs: Seq<(String, String)>,
    blacklist: Seq<String>,
    fallback: bool,
    dmin: int,
    dmax: int,
    effects: Seq<WorkerEffect>,
) -> bool {
    &&& (step == 1 ==> {
                &&& effects.len() == 0
                &&& post.two_step_cache@.len() == spec_drop_ts(
                    pre.two_step_cache@,
                    action_id,
                ).len() + 1
                &&& post.two_step_cache@.drop_last() == spec_drop_ts(
                    pre.two_step_cache@,
                    action_id,
                )
                &&& post.two_step_cache@.last().action_id == action_id
                &&& post.two_step_cache@.last().first_chat_id == message.chat_id
                &&& post.two_step_cache@.last().first_message_id == message.id
                &&& post.two_step_cache@.last().first_buttons@
                    == crate::selection::spec_flatten(message.buttons@)
                &&& post.two_step_cache@.last().selected_a is None
            })
    &&& ((step == 2 && spec_get_ts(pre.two_step_cache@, action_id) is None) ==> {
                &&& effects.len() == 1
                &&& effects[0] is Log
                &&& post.two_step_cache@ == pre.two_step_cache@
            })
    &&& ((step == 2 && spec_get_ts(pre.two_step_cache@, action_id) is Some) ==> {
                let entry = spec_get_ts(pre.two_step_cache@, action_id)->Some_0;
                &&& post.two_step_cache@ == spec_drop_ts(
                    pre.two_step_cache@,
                    action_id,
                )
                &&& (spec_no_pair(
                    pairs,
                    blacklist,
                    fallback,
                    entry.first_buttons@,
                    crate::selection::spec_flatten(message.buttons@),
                ) ==> effects.len() == 0)
                &&& (forall|i: int, j: int|
                    0 <= i < j < effects.len() && effects[i] is Dispatch
                        && effects[j] is Dispatch ==> spec_req_for(
                        effects[i]->Dispatch_request,
                        entry.first_chat_id,
                        entry.first_message_id,
                    ) && spec_req_for(effects[j]->Dispatch_request, message.chat_id, message.id))
                &&& (!spec_no_pair(
                    pairs,
                    blacklist,
                    fallback,
                    entry.first_buttons@,
                    crate::selection::spec_flatten(message.buttons@),
                ) ==> (exists|p: (String, String)|
                    #![trigger crate::selection::spec_first_containing(entry.first_buttons@, p.0@)]
                    {
                        let flat = crate::selection::spec_flatten(message.buttons@);
                        let btn_a = crate::selection::spec_first_containing(
                            entry.first_buttons@,
                            p.0@,
                        );
                        let btn_b = crate::selection::spec_first_containing(flat, p.1@);
                        let len_a = spec_step_len(pre.config, btn_a);
                        &&& crate::selection::spec_pair_choice_ok(
                            pairs,
                            blacklist,
                            fallback,
                            entry.first_buttons@,
                            flat,
                            Some(p),
                        )
                        &&& spec_dispatch_count(effects) == spec_step_click_count(
                            pre.config,
                            btn_a,
                        ) + spec_step_click_count(pre.config, btn_b)
                        &&& spec_step_segment_ok(
                            pre.config,
                            entry.first_chat_id,
                            entry.first_message_id,
                            btn_a,
                            p.0@,
                            action_name + " (Step 1)"@,
                            dmin,
                            dmax,
                            effects.take(len_a),
                        )
                        &&& spec_step_segment_ok(
                            pre.config,
                            message.chat_id,
                            message.id,
                            btn_b,
                            p.1@,
                            action_name + " (Step 2)"@,
                            dmin,
                            dmax,
                            effects.skip(len_a),
                        )
                    }))
            })
    &&& ((step != 1 && step != 2) ==> effects.len() == 0 && post.two_step_cache
        == pre.two_step_cache)
}

impl AccountWorker {
    /// Take the cached two-step entry for an action out of the cache.
    #[verifier::loop_isolation(false)]
    fn take_two_step_entry(&mut self, action_id: i64) -> (r: Option<TwoStepCache>)
        ensures
            r == spec_get_ts(old(self).two_step_cache@, action_id),
            final(self).two_step_cache@ == spec_drop_ts(old(self).two_step_cache@, action_id),
            *final(self) == (AccountWorker {
                two_step_cache: final(self).two_step_cache,
                ..*old(self)
            }),
            old(self).wf() ==> final(self).wf(),
    {
        let ghost all = self.two_step_cache@;
        let mut old_entries: Vec<TwoStepCache> = Vec::new();
        core::mem::swap(&mut old_entries, &mut self.two_step_cache);
        let mut kept: Vec<TwoStepCache> = Vec::new();
        let mut found: Option<TwoStepCache> = None;
        proof {
            assert(all.skip(0) =~= all);
            assert(all.take(0) =~= Seq::<TwoStepCache>::empty());
        }
        let ghost mut seen: int = 0;
        while old_entries.len() > 0
            invariant
                0 <= seen <= all.len(),
                old_entries@ =~= all.skip(seen),
                found == spec_get_ts(all.take(seen), action_id),
                kept@.add(spec_drop_ts(all.skip(seen), action_id)) =~= spec_drop_ts(
                    all,
                    action_id,
                ),
            decreases old_entries.len(),
        {
            let entry = old_entries.remove(0);
            proof {
                assert(entry == all[seen]);
                assert(all.skip(seen)[0] == all[seen]);
                assert(all.skip(seen).skip(1) =~= all.skip(seen + 1));
                lemma_get_ts_take_step(all, seen, action_id);
            }
            if entry.action_id == action_id {
                if found.is_none() {
                    found = Some(entry);
                }
            } else {
                kept.push(entry);
            }
            proof {
                seen = seen + 1;
                assert(old_entries@ =~= all.skip(seen));
                assert(kept@.add(spec_drop_ts(all.skip(seen), action_id)) =~= spec_drop_ts(
                    all,
                    action_id,
                ));
            }
        }
        proof {
            assert(all.skip(all.len() as int) =~= Seq::<TwoStepCache>::empty());
            assert(all.take(all.len() as int) =~= all);
            assert(kept@ =~= spec_drop_ts(all, action_id));
        }
        self.two_step_cache = kept;
        found
    }

    /// What a click of one button dispatches.
    pub fn click_request(&self, chat_id: i64, message_id: i64, button: &crate::telethon::TelethonButton) -> (r: Option<ClientRequest>)
        ensures
            spec_click_request_ok(self.config, chat_id, message_id, *button, r),
    {
        proof {
            reveal_strlit("callback");
            reveal_strlit("url");
            assert("callback"@.len() != "url"@.len());
            assert("callback"@ != "url"@);
        }
        if str_eq(button.kind.as_str(), "callback") {
            match &button.data {
                Some(d) => Some(
                    ClientRequest::ClickButton { chat_id, message_id, data: d.clone() },
                ),
                None => None,
            }
        } else if str_eq(button.kind.as_str(), "url") {
            match &button.url {
                Some(u) => {
                    match parse_start_parameter(u.as_str()) {
                        Some(param) => {
                            match self.first_moderator_bot() {
                                Some(bot) => {
                                    let mut text = String::from_str("/start ");
                                    text.append(param.as_str());
                                    Some(ClientRequest::SendMessage { chat_id: bot, text })
                                },
                                None => None,
                            }
                        },
                        None => None,
                    }
                },
                None => None,
            }
        } else {
            None
        }
    }

    /// The first button of a message whose text contains the given text.
    pub fn find_button_by_text(&self, message: &crate::telethon::TelethonMessage, text: &str) -> (r: Option<crate::telethon::TelethonButton>)
        ensures
            r == crate::selection::spec_first_containing(
                crate::selection::spec_flatten(message.buttons@),
                text@,
            ),
    {
        let flat = crate::selection::flatten_buttons(&message.buttons);
        crate::selection::find_button_containing(&flat, text)
    }

    /// React to one detected action: two-step actions cache or resolve
    /// their prompts; one-step actions pick a button under the resolved
    /// rules and dispatch a click after the drawn delay. A missing or
    /// expired config is surfaced as a load request, never defaulted.
    pub fn handle_action(&mut self, now_ms: u64, action_id: i64, action_name: &str, step: i32, message: &crate::telethon::TelethonMessage) -> (effects: Vec<WorkerEffect>)
        requires
            old(self).wf(),
        ensures
            final(self).wf(),
            spec_action_post(
                *old(self),
                *final(self),
                action_id,
                action_name@,
                step,
                *message,
                now_ms,
                effects@,
            ),

    {
        let cfg = match self.resolve_action_config(action_id, now_ms) {
            Some(c) => c,
            None => {
                let mut effects: Vec<WorkerEffect> = Vec::new();
                let warn = WorkerEffect::Log {
                    level: String::from_str("warn"),
                    message: String::from_str(
                        "Action rules are not cached; requesting a configuration load",
                    ),
                };
                proof {
                    assert(spec_dispatch_count(Seq::<WorkerEffect>::empty()) == 0);
                    lemma_dispatch_count_push(effects@, warn);
                }
                effects.push(warn);
                let needed = WorkerEffect::ActionConfigNeeded { action_id };
                proof {
                    lemma_dispatch_count_push(effects@, needed);
                }
                effects.push(needed);
                return effects;
            },
        };
        if cfg.is_two_step {
            let effects = self.handle_two_step_action(now_ms, action_id, action_name, step, message, &cfg);
            proof {
                lemma_dispatch_count_bound(effects@);
            }
            effects
        } else {
            let flat = crate::selection::flatten_buttons(&message.buttons);
            let picked = crate::selection::select_target_button(&cfg, &flat);
            let ghost rv = spec_resolve_view(*old(self), action_id, now_ms);
            proof {
                assert(spec_dispatch_count(Seq::<WorkerEffect>::empty()) == 0);
                assert(cfg.targets@ == rv.targets && cfg.blacklist@ == rv.blacklist
                    && cfg.button_type@ == rv.button_type && cfg.random_fallback_enabled
                    == rv.random_fallback_enabled);
            }
            match picked {
                Some((button, delay)) => {
                    let mut effects: Vec<WorkerEffect> = Vec::new();
                    let pre_delay_ms: u64 = if delay > 0 {
                        delay as u64
                    } else {
                        0
                    };
                    match self.click_request(message.chat_id, message.id, &button) {
                        Some(request) => {
                            proof {
                                lemma_dispatch_count_push(
                                    effects@,
                                    (WorkerEffect::Dispatch { pre_delay_ms, request }),
                                );
                            }
                            effects.push(WorkerEffect::Dispatch { pre_delay_ms, request });
                        },
                        None => {
                            let warn = WorkerEffect::Log {
                                level: String::from_str("warn"),
                                message: String::from_str("Unknown button type"),
                            };
                            proof {
                                lemma_dispatch_count_push(effects@, warn);
                            }
                            effects.push(warn);
                        },
                    }
                    let emitted = WorkerEffect::ActionDetected {
                        action_name: String::from_str(action_name),
                        button: Some(button.text.clone()),
                    };
                    proof {
                        lemma_dispatch_count_push(effects@, emitted);
                    }
                    effects.push(emitted);
                    proof {
                        if rv.button_type != "yes_no"@ && rv.button_type != "fixed"@
                            && !rv.random_fallback_enabled
                            && crate::selection::spec_first_target_hit(
                            rv.targets,
                            flat@,
                        ) is None {
                            crate::selection::lemma_no_fallback_no_click(
                                rv.targets,
                                rv.blacklist,
                                rv.button_type,
                                flat@,
                                Some((button, delay)),
                            );
                        }
                        assert(spec_one_step_effects_ok(
                            old(self).config,
                            message.chat_id,
                            message.id,
                            action_name@,
                            button,
                            delay,
                            effects@,
                        ));
                    }
                    effects
                },
                None => Vec::new(),
            }
        }
    }

    /// Handle one prompt of a two-step action: the first prompt is cached,
    /// the second resolves a pair and clicks the cached button before the
    /// current one.
    pub fn handle_two_step_action(&mut self, now_ms: u64, action_id: i64, action_name: &str, step: i32, message: &crate::telethon::TelethonMessage, cfg: &EffectiveConfig) -> (effects: Vec<WorkerEffect>)
        requires
            old(self).wf(),
        ensures
            final(self).wf(),
            *final(self) == (AccountWorker {
                two_step_cache: final(self).two_step_cache,
                ..*old(self)
            }),
            spec_dispatch_count(effects@) <= 2,
            forall|i: int| 0 <= i < effects@.len() ==> !((#[trigger] effects@[i]) is PhaseDetected),
            spec_two_step_post(
                *old(self),
                *final(self),
                action_id,
                action_name@,
                step,
                *message,
                cfg.target_pairs@,
                cfg.blacklist@,
                cfg.random_fallback_enabled,
                cfg.delay_min as int,
                cfg.delay_max as int,
                effects@,
            ),
    {
        if step == 1 {
            let flat = crate::selection::flatten_buttons(&message.buttons);
            let _ = self.take_two_step_entry(action_id);
            self.two_step_cache.push(
                TwoStepCache {
                    action_id,
                    first_chat_id: message.chat_id,
                    first_message_id: message.id,
                    first_buttons: flat,
                    selected_a: None,
                },
            );
            proof {
                assert(final(self).two_step_cache@.drop_last() =~= spec_drop_ts(
                    old(self).two_step_cache@,
                    action_id,
                ));
            }
            return Vec::new();
        }
        if step != 2 {
            return Vec::new();
        }
        let entry = match self.take_two_step_entry(action_id) {
            Some(e) => e,
            None => {
                let mut effects: Vec<WorkerEffect> = Vec::new();
                let warn = WorkerEffect::Log {
                    level: String::from_str("warn"),
                    message: String::from_str(
                        "Two-step action step 2 received but no cache exists",
                    ),
                };
                proof {
                    lemma_drop_ts_absent(old(self).two_step_cache@, action_id);
                    assert(spec_dispatch_count(effects@) == 0);
                    lemma_dispatch_count_push(effects@, warn);
                }
                effects.push(warn);
                return effects;
            },
        };
        let flat = crate::selection::flatten_buttons(&message.buttons);
        let pair = crate::selection::resolve_pair(
            &cfg.target_pairs,
            &cfg.blacklist,
            cfg.random_fallback_enabled,
            &entry.first_buttons,
            &flat,
        );
        let mut effects: Vec<WorkerEffect> = Vec::new();
        match pair {
            Some((target_a, target_b)) => {
                match crate::selection::find_button_containing(
                    &entry.first_buttons,
                    target_a.as_str(),
                ) {
                    Some(btn_a) => {
                        let delay_a = crate::selection::draw_delay_ms(cfg.delay_min, cfg.delay_max);
                        let pre_a: u64 = if delay_a > 0 {
                            delay_a as u64
                        } else {
                            0
                        };
                        match self.click_request(
                            entry.first_chat_id,
                            entry.first_message_id,
                            &btn_a,
                        ) {
                            Some(request) => {
                                proof {
                                    lemma_dispatch_count_push(
                                        effects@,
                                        (WorkerEffect::Dispatch {
                                            pre_delay_ms: pre_a,
                                            request,
                                        }),
                                    );
                                }
                                effects.push(
                                    WorkerEffect::Dispatch { pre_delay_ms: pre_a, request },
                                );
                            },
                            None => {
                                let warn = WorkerEffect::Log {
                                    level: String::from_str("warn"),
                                    message: String::from_str("Unknown button type"),
                                };
                                proof {
                                    lemma_dispatch_count_push(effects@, warn);
                                }
                                effects.push(warn);
                            },
                        }
                        let mut label_a = String::from_str(action_name);
                        label_a.append(" (Step 1)");
                        let emitted_a = WorkerEffect::ActionDetected {
                            action_name: label_a,
                            button: Some(target_a.clone()),
                        };
                        proof {
                            lemma_dispatch_count_push(effects@, emitted_a);
                        }
                        effects.push(emitted_a);
                    },
                    None => {},
                }
                let ghost mark_a = effects@.len() as int;
                let ghost seg_a = effects@;
                match crate::selection::find_button_containing(&flat, target_b.as_str()) {
                    Some(btn_b) => {
                        let delay_b = crate::selection::draw_delay_ms(cfg.delay_min, cfg.delay_max);
                        let pre_b: u64 = if delay_b > 0 {
                            delay_b as u64
                        } else {
                            0
                        };
                        match self.click_request(message.chat_id, message.id, &btn_b) {
                            Some(request) => {
                                proof {
                                    lemma_dispatch_count_push(
                                        effects@,
                                        (WorkerEffect::Dispatch {
                                            pre_delay_ms: pre_b,
                                            request,
                                        }),
                                    );
                                }
                                effects.push(
                                    WorkerEffect::Dispatch { pre_delay_ms: pre_b, request },
                                );
                            },
                            None => {
                                let warn = WorkerEffect::Log {
                                    level: String::from_str("warn"),
                                    message: String::from_str("Unknown button type"),
                                };
                                proof {
                                    lemma_dispatch_count_push(effects@, warn);
                                }
                                effects.push(warn);
                            },
                        }
                        let mut label_b = String::from_str(action_name);
                        label_b.append(" (Step 2)");
                        let emitted_b = WorkerEffect::ActionDetected {
                            action_name: label_b,
                            button: Some(target_b.clone()),
                        };
                        proof {
                            lemma_dispatch_count_push(effects@, emitted_b);
                        }
                        effects.push(emitted_b);
                    },
                    None => {},
                }
                proof {
                    let config = old(self).config;
                    let btn_a_spec = crate::selection::spec_first_containing(
                        entry.first_buttons@,
                        target_a@,
                    );
                    let btn_b_spec = crate::selection::spec_first_containing(flat@, target_b@);
                    assert(effects@.take(mark_a) =~= seg_a);
                    assert(mark_a == spec_step_len(config, btn_a_spec));
                    assert(spec_step_segment_ok(
                        config,
                        entry.first_chat_id,
                        entry.first_message_id,
                        btn_a_spec,
                        target_a@,
                        action_name@ + " (Step 1)"@,
                        cfg.delay_min as int,
                        cfg.delay_max as int,
                        effects@.take(mark_a),
                    ));
                    assert(effects@.skip(mark_a).len() == spec_step_len(config, btn_b_spec));
                    assert(spec_step_segment_ok(
                        config,
                        message.chat_id,
                        message.id,
                        btn_b_spec,
                        target_b@,
                        action_name@ + " (Step 2)"@,
                        cfg.delay_min as int,
                        cfg.delay_max as int,
                        effects@.skip(mark_a),
                    ));
                }
            },
            None => {},
        }
        effects
    }
}

/// One step of a first-match scan of the two-step cache.
proof fn lemma_get_ts_take_step(all: Seq<TwoStepCache>, seen: int, action_id: i64)
    requires
        0 <= seen < all.len(),
    ensures
        spec_get_ts(all.take(seen + 1), action_id) == (match spec_get_ts(all.take(seen), action_id) {
            Some(e) => Some(e),
            None => if all[seen].action_id == action_id {
                Some(all[seen])
            } else {
                None
            },
        }),
    decreases seen,
{
    if seen == 0 {
        assert(all.take(0) =~= Seq::<TwoStepCache>::empty());
        assert(all.take(1)[0] == all[0]);
        assert(all.take(1).skip(1) =~= Seq::<TwoStepCache>::empty());
    } else {
        let t1 = all.take(seen + 1);
        let t0 = all.take(seen);
        assert(t1[0] == all[0]);
        assert(t0[0] == all[0]);
        if all[0].action_id == action_id {
        } else {
            assert(t1.skip(1) =~= all.skip(1).take(seen));
            assert(t0.skip(1) =~= all.skip(1).take(seen - 1));
            lemma_get_ts_take_step(all.skip(1), seen - 1, action_id);
            assert(all.skip(1)[seen - 1] == all[seen]);
        }
    }
}

/// Dropping an absent action changes nothing.
proof fn lemma_drop_ts_absent(entries: Seq<TwoStepCache>, action_id: i64)
    requires
        spec_get_ts(entries, action_id) is None,
    ensures
        spec_drop_ts(entries, action_id) == entries,
    decreases entries.len(),
{
    if entries.len() > 0 {
        assert(entries[0].action_id != action_id);
        lemma_drop_ts_absent(entries.skip(1), action_id);
        assert(seq![entries[0]].add(entries.skip(1)) =~= entries);
    }
}

/// Pushing one effect raises the dispatch count by one exactly when it is a
/// dispatch.
proof fn lemma_dispatch_count_push(s: Seq<WorkerEffect>, e: WorkerEffect)
    ensures
        spec_dispatch_count(s.push(e)) == spec_dispatch_count(s) + if e is Dispatch {
            1int
        } else {
            0int
        },
{
    assert(s.push(e).drop_last() =~= s);
    assert(s.push(e).last() == e);
}

/// A list with no phase-detected emission counts zero.
proof fn lemma_phase_count_none(effects: Seq<WorkerEffect>)
    requires
        forall|i: int| 0 <= i < effects.len() ==> !((#[trigger] effects[i]) is PhaseDetected),
    ensures
        spec_phase_effect_count(effects) == 0,
    decreases effects.len(),
{
    if effects.len() > 0 {
        lemma_phase_count_none(effects.drop_last());
    }
}

/// A list whose head is a phase-detected emission and whose tail holds no
/// other counts one.
proof fn lemma_phase_count_one(effects: Seq<WorkerEffect>)
    requires
        effects.len() >= 1,
        effects[0] is PhaseDetected,
        forall|i: int| 1 <= i < effects.len() ==> !((#[trigger] effects[i]) is PhaseDetected),
    ensures
        spec_phase_effect_count(effects) == 1,
    decreases effects.len(),
{
    if effects.len() == 1 {
        reveal_with_fuel(spec_phase_effect_count, 2);
        assert(effects.drop_last() =~= Seq::<WorkerEffect>::empty());
    } else {
        lemma_phase_count_one(effects.drop_last());
    }
}

/// Phase-effect counts add over concatenation.
proof fn lemma_phase_count_concat(a: Seq<WorkerEffect>, b: Seq<WorkerEffect>)
    ensures
        spec_phase_effect_count(a.add(b)) == spec_phase_effect_count(a)
            + spec_phase_effect_count(b),
    decreases b.len(),
{
    if b.len() == 0 {
        assert(a.add(b) =~= a);
    } else {
        lemma_phase_count_concat(a, b.drop_last());
        assert(a.add(b).drop_last() =~= a.add(b.drop_last()));
        assert(a.add(b).last() == b.last());
    }
}

/// Phase-result counts step by one exactly on a phase classification.
proof fn lemma_phase_result_count_push(
    results: Seq<crate::detection::DetectionResult>,
    r: crate::detection::DetectionResult,
)
    ensures
        spec_phase_result_count(results.push(r)) == spec_phase_result_count(results)
            + if r is Phase {
            1int
        } else {
            0int
        },
{
    assert(results.push(r).drop_last() =~= results);
    assert(results.push(r).last() == r);
}

/// A dispatch count never exceeds the effect count.
proof fn lemma_dispatch_count_bound(effects: Seq<WorkerEffect>)
    ensures
        0 <= spec_dispatch_count(effects) <= effects.len(),
    decreases effects.len(),
{
    if effects.len() > 0 {
        lemma_dispatch_count_bound(effects.drop_last());
    }
}

/// A message concerns this worker: it came from a configured group chat or
/// from a known moderator bot.
pub open spec fn spec_relevant(config: WorkerConfig, m: crate::telethon::TelethonMessage) -> bool {
    config.group_chat_ids@.contains(m.chat_id) || config.moderator_bot_ids@.contains(m.sender_id)
}

/// The persisted last-seen mark is due for a refresh: none was written
/// yet, or more than the throttle interval has passed.
pub open spec fn spec_last_seen_due(last: Option<u64>, now_ms: u64) -> bool {
    match last {
        None => true,
        Some(t) => now_ms > t && now_ms - t > crate::constants::LAST_SEEN_THROTTLE_SECONDS * 1000,
    }
}

/// The cache entries after preloading resolved configs for one account, in
/// order: each preload replaces any earlier entry under its key.
pub open spec fn spec_preload(
    entries: Seq<(i64, i64, CachedItem<ActionConfig>)>,
    account_id: i64,
    configs: Seq<(i64, ActionConfig)>,
    now_ms: u64,
) -> Seq<(i64, i64, CachedItem<ActionConfig>)>
    decreases configs.len(),
{
    if configs.len() == 0 {
        entries
    } else {
        let prev = spec_preload(entries, account_id, configs.drop_last(), now_ms);
        crate::cache::spec_drop_key(prev, account_id, configs.last().0).push(
            (
                account_id,
                configs.last().0,
                CachedItem {
                    data: configs.last().1,
                    expires_at: spec_expiry(now_ms, crate::cache::DEFAULT_CACHE_TTL_MS),
                },
            ),
        )
    }
}

/// The result is a game-end phase classification.
pub open spec fn spec_is_game_end(r: crate::detection::DetectionResult) -> bool {
    match r {
        crate::detection::DetectionResult::Phase { phase_name, .. } => phase_name@ == "game_end"@,
        _ => false,
    }
}

/// Some classification in the list is a game-end phase.
pub open spec fn spec_results_have_game_end(
    results: Seq<crate::detection::DetectionResult>,
) -> bool {
    exists|i: int| 0 <= i < results.len() && spec_is_game_end(#[trigger] results[i])
}

/// Extending a result list adds a game end exactly when the new result is
/// one.
proof fn lemma_have_game_end_push(
    results: Seq<crate::detection::DetectionResult>,
    r: crate::detection::DetectionResult,
)
    ensures
        spec_results_have_game_end(results.push(r)) == (spec_results_have_game_end(results)
            || spec_is_game_end(r)),
{
    if spec_results_have_game_end(results.push(r)) {
        let i = choose|i: int|
            0 <= i < results.push(r).len() && spec_is_game_end(#[trigger] results.push(r)[i]);
        if i < results.len() {
            assert(spec_is_game_end(results[i]));
        } else {
            assert(results.push(r)[i] == r);
        }
    }
    if spec_results_have_game_end(results) {
        let i = choose|i: int| 0 <= i < results.len() && spec_is_game_end(#[trigger] results[i]);
        assert(spec_is_game_end(results.push(r)[i]));
    }
    if spec_is_game_end(r) {
        assert(spec_is_game_end(results.push(r)[results.len() as int]));
    }
}

/// Everything one message-handling step settles, relating the worker before
/// and after and the effects returned: the subscription filter, the
/// last-seen debounce, the ban-warning interception from a moderator — the
/// flag set, the join counter and last-attempt mark cleared, the warning
/// logged — one phase-detected emission per phase classification, and the
/// per-result contracts folded in order from a mid-state that differs from
/// the pre-state only in the last-seen mark and the interception.
pub open spec fn spec_message_step_ok(
    pre: AccountWorker,
    post: AccountWorker,
    message: crate::telethon::TelethonMessage,
    now_ms: u64,
    effects: Seq<WorkerEffect>,
) -> bool {
    &&& post.config == pre.config
    &&& post.state == pre.state
    &&& post.send_blocked_until == pre.send_blocked_until
    &&& post.reconnect_attempts == pre.reconnect_attempts
    &&& (message.is_outgoing ==> post == pre && effects.len() == 0)
    &&& ((!message.is_outgoing && !spec_relevant(pre.config, message)) ==> post == pre
        && effects.len() == 0)
    &&& ((!message.is_outgoing && spec_relevant(pre.config, message)) ==> ({
        let due = spec_last_seen_due(pre.last_seen_update, now_ms);
        let banned_now = pre.config.moderator_bot_ids@.contains(message.sender_id)
            && !pre.game_state.ban_warned && spec_ban_match(
            pre.ban_warning_patterns@,
            message.text@,
        );
        let results = crate::detection::spec_process(
            pre.detection_pipeline.phase_patterns@,
            pre.detection_pipeline.action_patterns@,
            message.text@,
        );
        &&& (if due {
            &&& post.last_seen_update == Some(now_ms)
            &&& effects.len() >= 1
            &&& effects[0] is UpdateLastSeen
        } else {
            post.last_seen_update == pre.last_seen_update
        })
        &&& (banned_now ==> ({
            let ban_idx: int = if due {
                1
            } else {
                0
            };
            &&& effects.len() > ban_idx
            &&& (match effects[ban_idx] {
                WorkerEffect::Log { level, .. } => level@ == "warn"@,
                _ => false,
            })
        }))
        &&& post.game_state.ban_warned == ((pre.game_state.ban_warned || banned_now)
            && !spec_results_have_game_end(results))
        &&& spec_phase_effect_count(effects) == spec_phase_result_count(results)
        &&& (exists|mid: AccountWorker, k: int|
            #![trigger effects.skip(k), spec_results_fold_ok(
                mid,
                post,
                results,
                effects.skip(k),
                message,
                now_ms,
            )]
            {
                &&& 0 <= k <= effects.len()
                &&& mid == (AccountWorker {
                    last_seen_update: if due {
                        Some(now_ms)
                    } else {
                        pre.last_seen_update
                    },
                    game_state: mid.game_state,
                    join_attempts: if banned_now {
                        0
                    } else {
                        pre.join_attempts
                    },
                    last_join_attempt: if banned_now {
                        None
                    } else {
                        pre.last_join_attempt
                    },
                    ..pre
                })
                &&& mid.game_state.ban_warned == (pre.game_state.ban_warned || banned_now)
                &&& mid.game_state.joined == pre.game_state.joined
                &&& mid.game_state.game_started == pre.game_state.game_started
                &&& mid.game_state.game_ended == pre.game_state.game_ended
                &&& spec_results_fold_ok(mid, post, results, effects.skip(k), message, now_ms)
            })
    }))
}

impl AccountWorker {
    /// Load the detection patterns and rules: the pipeline is rebuilt from
    /// the given rows, the ban-warning patterns parsed, and the resolved
    /// per-account configs preloaded into the cache.
    #[verifier::loop_isolation(false)]
    pub fn load_detection_patterns(
        &mut self,
        now_ms: u64,
        phase_rows: Vec<(PhasePattern, String, i32)>,
        actions: Vec<crate::config::Action>,
        action_patterns: Vec<ActionPattern>,
        ban_patterns_json: &str,
        action_configs: Vec<(i64, ActionConfig)>,
    )
        requires
            old(self).wf(),
            forall|i: int|
                0 <= i < phase_rows@.len() ==> {
                    &&& MIN_PRIORITY <= (#[trigger] phase_rows@[i]).0.priority <= MAX_PRIORITY
                    &&& MIN_PRIORITY <= phase_rows@[i].2 <= MAX_PRIORITY
                },
        ensures
            final(self).wf(),
            final(self).detection_pipeline.phase_patterns@ == spec_sort_by(
                crate::detection::spec_phase_ge(),
                spec_compile_phases(phase_rows@),
            ),
            final(self).detection_pipeline.action_patterns@ == spec_sort_by(
                crate::detection::spec_action_ge(),
                spec_compile_actions(actions@, action_patterns@),
            ),
            final(self).ban_warning_patterns@ == spec_ban_patterns_of(
                json_of(ban_patterns_json@),
            ),
            final(self).cache.action_configs@ == spec_preload(
                old(self).cache.action_configs@,
                old(self).config.account_id,
                action_configs@,
                now_ms,
            ),
            final(self).config == old(self).config,
            final(self).state == old(self).state,
            final(self).game_state == old(self).game_state,
            final(self).join_attempts == old(self).join_attempts,
            final(self).two_step_cache == old(self).two_step_cache,
            final(self).send_blocked_until == old(self).send_blocked_until,
            final(self).reconnect_attempts == old(self).reconnect_attempts,
    {
        self.detection_pipeline.load_phase_patterns(phase_rows);
        self.detection_pipeline.load_action_patterns(actions, action_patterns);
        self.ban_warning_patterns = self.parse_ban_warning_patterns(ban_patterns_json);
        let account_id = self.config.account_id;
        let ghost all = action_configs@;
        let ghost entries0 = self.cache.action_configs@;
        let ghost mid = *self;
        let mut action_configs = action_configs;
        proof {
            assert(all.take(0) =~= Seq::<(i64, ActionConfig)>::empty());
        }
        let ghost mut seen: int = 0;
        while action_configs.len() > 0
            invariant
                0 <= seen <= all.len(),
                action_configs@ =~= all.skip(seen),
                account_id == self.config.account_id,
                *self == (AccountWorker { cache: self.cache, ..mid }),
                self.cache.phase_patterns == mid.cache.phase_patterns,
                self.cache.actions == mid.cache.actions,
                self.cache.action_patterns == mid.cache.action_patterns,
                self.cache.action_configs@ == spec_preload(
                    entries0,
                    account_id,
                    all.take(seen),
                    now_ms,
                ),
            decreases action_configs.len(),
        {
            let (aid, cfg) = action_configs.remove(0);
            proof {
                assert((aid, cfg) == all[seen]);
                assert(all.take(seen + 1).drop_last() =~= all.take(seen));
                assert(all.take(seen + 1).last() == all[seen]);
            }
            self.cache.set_action_config(account_id, aid, cfg, now_ms);
            proof {
                seen = seen + 1;
                assert(action_configs@ =~= all.skip(seen));
            }
        }
        proof {
            assert(all.take(all.len() as int) =~= all);
        }
    }

    /// Handle one incoming message: filter by chat and sender, refresh the
    /// last-seen mark under its debounce, intercept ban warnings from a
    /// moderator, then classify and react to every detection result.
    pub fn handle_telethon_message(&mut self, now_ms: u64, message: &crate::telethon::TelethonMessage) -> (effects: Vec<WorkerEffect>)
        requires
            old(self).wf(),
            now_ms >= old(self).send_blocked_until,
        ensures
            final(self).wf(),
            spec_message_step_ok(*old(self), *final(self), *message, now_ms, effects@),
    {
        if message.is_outgoing {
            return Vec::new();
        }
        let is_group_message = crate::selection::contains_i64(
            &self.config.group_chat_ids,
            message.chat_id,
        );
        let is_bot_pm = crate::selection::contains_i64(
            &self.config.moderator_bot_ids,
            message.sender_id,
        );
        if !is_group_message && !is_bot_pm {
            return Vec::new();
        }
        let mut effects: Vec<WorkerEffect> = Vec::new();
        let should_update = match self.last_seen_update {
            Some(t) => now_ms > t && now_ms - t > crate::constants::LAST_SEEN_THROTTLE_SECONDS
                * 1000,
            None => true,
        };
        if should_update {
            effects.push(WorkerEffect::UpdateLastSeen);
            self.last_seen_update = Some(now_ms);
        }
        let ghost banned_now = old(self).config.moderator_bot_ids@.contains(message.sender_id)
            && !old(self).game_state.ban_warned && spec_ban_match(
            old(self).ban_warning_patterns@,
            message.text@,
        );
        if is_bot_pm && !self.game_state.ban_warned {
            if self.check_ban_warning(message.text.as_str()) {
                self.game_state.ban_warned = true;
                self.stop_join_attempts();
                effects.push(
                    WorkerEffect::Log {
                        level: String::from_str("warn"),
                        message: String::from_str(
                            "Ban warning received from moderator bot. Join attempts stopped.",
                        ),
                    },
                );
            }
        }
        let ghost mid_ban = self.game_state.ban_warned;
        proof {
            assert(mid_ban == (old(self).game_state.ban_warned || banned_now));
        }
        let event = self.telethon_message_to_event(message);
        let (results, issues) = self.detection_pipeline.process_with_issues(&event);
        let ghost all_results = results@;
        let mut issues = issues;
        let ghost prefix = effects@;
        while issues.len() > 0
            invariant
                effects@.len() >= prefix.len(),
                effects@.take(prefix.len() as int) == prefix,
                forall|i: int|
                    0 <= i < effects@.len() ==> !((#[trigger] effects@[i]) is PhaseDetected),
            decreases issues.len(),
        {
            let issue = issues.remove(0);
            effects.push(
                WorkerEffect::RegexValidation {
                    scope: issue.scope,
                    pattern: issue.pattern,
                    error: issue.error,
                },
            );
            proof {
                assert(effects@.take(prefix.len() as int) =~= prefix);
            }
        }
        let mut results = results;
        let ghost base = *self;
        let ghost prefix2 = effects@;
        proof {
            lemma_phase_count_none(prefix2);
            assert(all_results.take(0) =~= Seq::<crate::detection::DetectionResult>::empty());
        }
        proof {
            assert(effects@.skip(prefix2.len() as int) =~= Seq::<WorkerEffect>::empty());
        }
        let ghost mut seen: int = 0;
        while results.len() > 0
            invariant
                self.wf(),
                self.config == base.config,
                self.state == base.state,
                self.send_blocked_until == base.send_blocked_until,
                self.reconnect_attempts == base.reconnect_attempts,
                self.last_seen_update == base.last_seen_update,
                now_ms >= self.send_blocked_until,
                0 <= seen <= all_results.len(),
                results@ =~= all_results.skip(seen),
                effects@.len() >= prefix2.len(),
                effects@.take(prefix2.len() as int) == prefix2,
                self.game_state.ban_warned == (mid_ban && !spec_results_have_game_end(
                    all_results.take(seen),
                )),
                spec_phase_effect_count(effects@) == spec_phase_result_count(
                    all_results.take(seen),
                ),
                spec_results_fold_ok(
                    base,
                    *self,
                    all_results.take(seen),
                    effects@.skip(prefix2.len() as int),
                    *message,
                    now_ms,
                ),
            decreases results.len(),
        {
            let result = results.remove(0);
            let ghost before_step = *self;
            let ghost old_tail = effects@.skip(prefix2.len() as int);
            let ghost mut seg: Seq<WorkerEffect> = Seq::empty();
            proof {
                assert(result == all_results[seen]);
                assert(all_results.take(seen + 1) =~= all_results.take(seen).push(
                    all_results[seen],
                ));
                lemma_have_game_end_push(all_results.take(seen), all_results[seen]);
                lemma_phase_result_count_push(all_results.take(seen), all_results[seen]);
            }
            match result {
                crate::detection::DetectionResult::Phase { phase_name, .. } => {
                    let mut phase_effects = self.handle_phase(
                        now_ms,
                        phase_name.as_str(),
                        message,
                    );
                    proof {
                        seg = phase_effects@;
                        lemma_phase_count_one(phase_effects@);
                        lemma_phase_count_concat(effects@, phase_effects@);
                        assert(spec_result_step_ok(
                            before_step,
                            *self,
                            all_results[seen],
                            *message,
                            now_ms,
                            phase_effects@,
                        ));
                        lemma_results_fold_snoc(
                            base,
                            before_step,
                            *self,
                            all_results.take(seen),
                            old_tail,
                            all_results[seen],
                            phase_effects@,
                            *message,
                            now_ms,
                        );
                    }
                    effects.append(&mut phase_effects);
                },
                crate::detection::DetectionResult::Action {
                    action_id,
                    action_name,
                    step,
                    ..
                } => {
                    let mut action_effects = self.handle_action(
                        now_ms,
                        action_id,
                        action_name.as_str(),
                        step,
                        message,
                    );
                    proof {
                        seg = action_effects@;
                        lemma_phase_count_none(action_effects@);
                        lemma_phase_count_concat(effects@, action_effects@);
                        assert(spec_result_step_ok(
                            before_step,
                            *self,
                            all_results[seen],
                            *message,
                            now_ms,
                            action_effects@,
                        ));
                        lemma_results_fold_snoc(
                            base,
                            before_step,
                            *self,
                            all_results.take(seen),
                            old_tail,
                            all_results[seen],
                            action_effects@,
                            *message,
                            now_ms,
                        );
                    }
                    effects.append(&mut action_effects);
                },
            }
            proof {
                seen = seen + 1;
                assert(results@ =~= all_results.skip(seen));
                assert(effects@.take(prefix2.len() as int) =~= prefix2);
                assert(effects@.skip(prefix2.len() as int) =~= old_tail.add(seg));
            }
        }
        proof {
            assert(all_results.take(all_results.len() as int) =~= all_results);
            if prefix.len() > 0 {
                assert(effects@[0] == effects@.take(prefix2.len() as int)[0]);
                assert(prefix2[0] == prefix2.take(prefix.len() as int)[0]);
                assert(effects@[0] == prefix[0]);
            }
            if prefix.len() > 1 {
                assert(effects@[1] == effects@.take(prefix2.len() as int)[1]);
                assert(prefix2[1] == prefix2.take(prefix.len() as int)[1]);
                assert(effects@[1] == prefix[1]);
            }
        }
        effects
    }

    /// Handle one event from the child process: messages and edits are
    /// classified; a message also clears the reconnect counter, and so does
    /// any other event kind.
    pub fn handle_telethon_event(&mut self, now_ms: u64, event: &crate::telethon::TelethonEvent) -> (effects: Vec<WorkerEffect>)
        requires
            old(self).wf(),
            now_ms >= old(self).send_blocked_until,
        ensures
            final(self).wf(),
            final(self).config == old(self).config,
            final(self).state == old(self).state,
            final(self).send_blocked_until == old(self).send_blocked_until,
            (event.kind@ != "message"@ && event.kind@ != "message_edited"@) ==> {
                &&& effects@.len() == 0
                &&& *final(self) == (AccountWorker { reconnect_attempts: 0, ..*old(self) })
            },
            (event.kind@ == "message"@ && event.message is Some) ==> spec_message_step_ok(
                (AccountWorker { reconnect_attempts: 0, ..*old(self) }),
                *final(self),
                event.message->Some_0,
                now_ms,
                effects@,
            ),
            (event.kind@ == "message"@ && event.message is None) ==> {
                &&& effects@.len() == 0
                &&& *final(self) == (AccountWorker { reconnect_attempts: 0, ..*old(self) })
            },
            (event.kind@ == "message_edited"@ && event.message is Some) ==> spec_message_step_ok(
                *old(self),
                *final(self),
                event.message->Some_0,
                now_ms,
                effects@,
            ),
            (event.kind@ == "message_edited"@ && event.message is None) ==> {
                &&& effects@.len() == 0
                &&& *final(self) == *old(self)
            },
            event.kind@ == "message"@ ==> final(self).reconnect_attempts == 0,
    {
        proof {
            reveal_strlit("message");
            reveal_strlit("message_edited");
            assert("message"@.len() != "message_edited"@.len());
        }
        if str_eq(event.kind.as_str(), "message") {
            self.reconnect_attempts = 0;
            match &event.message {
                Some(m) => self.handle_telethon_message(now_ms, m),
                None => Vec::new(),
            }
        } else if str_eq(event.kind.as_str(), "message_edited") {
            match &event.message {
                Some(m) => self.handle_telethon_message(now_ms, m),
                None => Vec::new(),
            }
        } else {
            self.reconnect_attempts = 0;
            Vec::new()
        }
    }
}

/// A delay bound clamped into the accepted range of seconds.
pub open spec fn spec_clamped_delay(v: int) -> int {
    if v < crate::constants::MIN_DELAY_SECONDS {
        crate::constants::MIN_DELAY_SECONDS as int
    } else if v > crate::constants::MAX_DELAY_SECONDS {
        crate::constants::MAX_DELAY_SECONDS as int
    } else {
        v
    }
}

/// The target names a parsed rule lists: the string elements of its
/// `targets` member, in order, other elements skipped.
pub open spec fn spec_rule_targets(rule: JsonNode) -> Seq<String> {
    match rule.spec_get("targets"@) {
        Some(JsonNode::Arr(items)) => spec_string_items(items@),
        _ => Seq::empty(),
    }
}

/// The string elements of a list, in order.
pub open spec fn spec_string_items(items: Seq<JsonNode>) -> Seq<String>
    decreases items.len(),
{
    if items.len() == 0 {
        Seq::empty()
    } else {
        let rest = spec_string_items(items.drop_last());
        match items.last() {
            JsonNode::Str(s) => rest.push(s),
            _ => rest,
        }
    }
}

/// The fallback flag a rule text decides: the rule's boolean
/// `random_fallback` member when the text parses to one, else the action's
/// own flag.
pub open spec fn spec_rule_fallback(rule_json: Option<&str>, action_default: bool) -> bool {
    match rule_json {
        None => action_default,
        Some(json) => match json_of(json@) {
            Some(rule) => match rule.spec_get("random_fallback"@) {
                Some(JsonNode::Bool(b)) => b,
                _ => action_default,
            },
            None => action_default,
        },
    }
}

/// The target list a rule text decides: the rule's `targets` strings when
/// the text parses, else none.
pub open spec fn spec_rule_target_list(rule_json: Option<&str>) -> Seq<String> {
    match rule_json {
        None => Seq::empty(),
        Some(json) => match json_of(json@) {
            Some(rule) => spec_rule_targets(rule),
            None => Seq::empty(),
        },
    }
}

/// Clamp a delay bound into the accepted range of seconds.
pub fn clamp_delay_seconds(v: i32) -> (r: i32)
    ensures
        r as int == spec_clamped_delay(v as int),
{
    if v < crate::constants::MIN_DELAY_SECONDS {
        crate::constants::MIN_DELAY_SECONDS
    } else if v > crate::constants::MAX_DELAY_SECONDS {
        crate::constants::MAX_DELAY_SECONDS
    } else {
        v
    }
}

/// Resolve one action's rules into its effective config: the effective
/// delay clamped, the target rule text parsed for targets and a fallback
/// override, and the action's own strategy and flags.
#[verifier::loop_isolation(false)]
pub fn build_action_config(
    action: &crate::config::Action,
    delay: (i32, i32),
    target_pairs: Vec<(String, String)>,
    blacklist: Vec<String>,
    rule_json: Option<&str>,
) -> (r: ActionConfig)
    ensures
        r.target_pairs == target_pairs,
        r.blacklist == blacklist,
        r.targets@ == spec_rule_target_list(rule_json),
        r.delay_min as int == spec_clamped_delay(delay.0 as int),
        r.delay_max as int == spec_clamped_delay(delay.1 as int),
        r.button_type == action.button_type,
        r.random_fallback_enabled == spec_rule_fallback(rule_json, action.random_fallback_enabled),
        r.is_two_step == action.is_two_step,
{
    let mut targets: Vec<String> = Vec::new();
    let mut random_fallback_enabled = action.random_fallback_enabled;
    match rule_json {
        Some(json) => {
            match parse_json(json) {
                Some(rule) => {
                    match rule.get("targets") {
                        Some(node) => {
                            match node.as_array() {
                                Some(items) => {
                                    let n = items.len();
                                    let mut i: usize = 0;
                                    proof {
                                        assert(items@.take(0) =~= Seq::<JsonNode>::empty());
                                    }
                                    while i < n
                                        invariant
                                            i <= n,
                                            targets@ == spec_string_items(items@.take(i as int)),
                                        decreases n - i,
                                    {
                                        proof {
                                            assert(items@.take(i + 1).drop_last() =~= items@.take(
                                                i as int,
                                            ));
                                            assert(items@.take(i + 1).last() == items@[i as int]);
                                        }
                                        match items[i].as_str() {
                                            Some(s) => {
                                                targets.push(s.clone());
                                            },
                                            None => {},
                                        }
                                        i = i + 1;
                                    }
                                    proof {
                                        assert(items@.take(n as int) =~= items@);
                                    }
                                },
                                None => {},
                            }
                        },
                        None => {},
                    }
                    match rule.get("random_fallback") {
                        Some(node) => {
                            match node.as_bool() {
                                Some(b) => {
                                    random_fallback_enabled = b;
                                },
                                None => {},
                            }
                        },
                        None => {},
                    }
                },
                None => {},
            }
        },
        None => {},
    }
    ActionConfig {
        target_pairs,
        blacklist,
        targets,
        delay_min: clamp_delay_seconds(delay.0),
        delay_max: clamp_delay_seconds(delay.1),
        button_type: action.button_type.clone(),
        random_fallback_enabled,
        is_two_step: action.is_two_step,
    }
}


} // verus!
