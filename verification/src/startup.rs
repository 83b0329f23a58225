//! Startup and pre-flight checks: structured probes evaluated before
//! starting accounts or logging in.
//!
//! The probes that touch the file system or the child process run outside
//! the library and hand their findings in as plain values; the decisions
//! and the collected results are made here.

use vstd::prelude::*;
use vstd::string::StringExecFns;
use crate::config::Account;
use crate::config::Settings;
use crate::validation::spec_valid_api_hash;
use crate::validation::validate_api_hash;
use crate::validation::validate_api_id;

verus! {

/// One check finding: a stable code, a message, optional details, and
/// whether it blocks the operation.
#[derive(Debug)]
pub struct StartupCheckError {
    pub code: String,
    pub message: String,
    pub details: Option<String>,
    pub is_blocking: bool,
}

impl StartupCheckError {
    /// A blocking finding.
    pub fn blocking(code: &str, message: &str, details: Option<&str>) -> (r: StartupCheckError)
        ensures
            r.code@ == code@,
            r.message@ == message@,
            (match (r.details, details) {
                (Some(d), Some(given)) => d@ == given@,
                (None, None) => true,
                _ => false,
            }),
            r.is_blocking,
    {
        let details = match details {
            Some(d) => Some(String::from_str(d)),
            None => None,
        };
        StartupCheckError {
            code: String::from_str(code),
            message: String::from_str(message),
            details,
            is_blocking: true,
        }
    }

    /// A non-blocking warning.
    pub fn warning(code: &str, message: &str, details: Option<&str>) -> (r: StartupCheckError)
        ensures
            r.code@ == code@,
            r.message@ == message@,
            (match (r.details, details) {
                (Some(d), Some(given)) => d@ == given@,
                (None, None) => true,
                _ => false,
            }),
            !r.is_blocking,
    {
        let details = match details {
            Some(d) => Some(String::from_str(d)),
            None => None,
        };
        StartupCheckError {
            code: String::from_str(code),
            message: String::from_str(message),
            details,
            is_blocking: false,
        }
    }
}

/// Some finding in the list blocks.
pub open spec fn spec_any_blocking(errors: Seq<StartupCheckError>) -> bool {
    exists|i: int| 0 <= i < errors.len() && (#[trigger] errors[i]).is_blocking
}

/// Some finding in the list is a mere warning.
pub open spec fn spec_any_warning(errors: Seq<StartupCheckError>) -> bool {
    exists|i: int| 0 <= i < errors.len() && !(#[trigger] errors[i]).is_blocking
}

/// The collected findings of a check run.
#[derive(Debug)]
pub struct StartupCheckResult {
    pub can_proceed: bool,
    pub errors: Vec<StartupCheckError>,
}

impl StartupCheckResult {
    /// The result tracks its findings: it proceeds exactly when none
    /// blocks.
    pub open spec fn wf(self) -> bool {
        self.can_proceed == !spec_any_blocking(self.errors@)
    }

    /// A clean result.
    pub fn success() -> (r: StartupCheckResult)
        ensures
            r.can_proceed,
            r.errors@ == Seq::<StartupCheckError>::empty(),
            r.wf(),
    {
        StartupCheckResult { can_proceed: true, errors: Vec::new() }
    }

    /// Record a finding; a blocking one bars the operation.
    pub fn add_error(&mut self, error: StartupCheckError)
        ensures
            final(self).errors@ == old(self).errors@.push(error),
            final(self).can_proceed == (old(self).can_proceed && !error.is_blocking),
            old(self).wf() ==> final(self).wf(),
    {
        if error.is_blocking {
            self.can_proceed = false;
        }
        proof {
            let appended = old(self).errors@.push(error);
            if error.is_blocking {
                assert(appended[old(self).errors@.len() as int].is_blocking);
                assert(spec_any_blocking(appended));
            } else if old(self).wf() {
                if old(self).can_proceed {
                    if spec_any_blocking(appended) {
                        let i = choose|i: int|
                            0 <= i < appended.len() && (#[trigger] appended[i]).is_blocking;
                        if i < old(self).errors@.len() {
                            assert(old(self).errors@[i].is_blocking);
                            assert(spec_any_blocking(old(self).errors@));
                        } else {
                            assert(appended[i] == error);
                        }
                        assert(false);
                    }
                } else {
                    let i = choose|i: int|
                        0 <= i < old(self).errors@.len() && (#[trigger] old(
                            self,
                        ).errors@[i]).is_blocking;
                    assert(appended[i].is_blocking);
                    assert(spec_any_blocking(appended));
                }
            }
        }
        self.errors.push(error);
    }

    /// Fold another result in: its findings are appended and a blocked
    /// result stays blocked.
    #[verifier::loop_isolation(false)]
    pub fn merge(&mut self, other: StartupCheckResult)
        ensures
            final(self).errors@ == old(self).errors@.add(other.errors@),
            final(self).can_proceed == (old(self).can_proceed && other.can_proceed),
            (old(self).wf() && other.wf()) ==> final(self).wf(),
    {
        if !other.can_proceed {
            self.can_proceed = false;
        }
        let ghost incoming = other.errors@;
        let ghost base = self.errors@;
        let ghost my_proceed = self.can_proceed;
        let mut rest = other.errors;
        proof {
            assert(base.add(incoming.take(0)) =~= base);
        }
        let ghost mut moved: int = 0;
        while rest.len() > 0
            invariant
                0 <= moved <= incoming.len(),
                rest@ =~= incoming.skip(moved),
                self.errors@ == base.add(incoming.take(moved)),
                self.can_proceed == my_proceed,
            decreases rest.len(),
        {
            let e = rest.remove(0);
            proof {
                assert(e == incoming[moved]);
            }
            self.errors.push(e);
            proof {
                moved = moved + 1;
                assert(rest@ =~= incoming.skip(moved));
                assert(base.add(incoming.take(moved - 1)).push(incoming[moved - 1]) =~= base.add(
                    incoming.take(moved),
                ));
            }
        }
        proof {
            assert(incoming.take(incoming.len() as int) =~= incoming);
            if old(self).wf() && other.wf() {
                lemma_any_blocking_concat(base, incoming);
            }
        }
    }

    /// Whether any finding blocks.
    #[verifier::loop_isolation(false)]
    pub fn has_blocking_errors(&self) -> (r: bool)
        ensures
            r == spec_any_blocking(self.errors@),
    {
        let n = self.errors.len();
        let mut i: usize = 0;
        while i < n
            invariant
                i <= n,
                forall|k: int| 0 <= k < i ==> !(#[trigger] self.errors@[k]).is_blocking,
            decreases n - i,
        {
            if self.errors[i].is_blocking {
                return true;
            }
            i = i + 1;
        }
        proof {
            if spec_any_blocking(self.errors@) {
                let k = choose|k: int|
                    0 <= k < self.errors@.len() && (#[trigger] self.errors@[k]).is_blocking;
            }
        }
        false
    }

    /// Whether any finding is a warning.
    #[verifier::loop_isolation(false)]
    pub fn has_warnings(&self) -> (r: bool)
        ensures
            r == spec_any_warning(self.errors@),
    {
        let n = self.errors.len();
        let mut i: usize = 0;
        while i < n
            invariant
                i <= n,
                forall|k: int| 0 <= k < i ==> (#[trigger] self.errors@[k]).is_blocking,
            decreases n - i,
        {
            if !self.errors[i].is_blocking {
                return true;
            }
            i = i + 1;
        }
        proof {
            if spec_any_warning(self.errors@) {
                let k = choose|k: int|
                    0 <= k < self.errors@.len() && !(#[trigger] self.errors@[k]).is_blocking;
            }
        }
        false
    }
}

/// A blocking finding in a concatenation lies in one of the parts.
proof fn lemma_any_blocking_concat(a: Seq<StartupCheckError>, b: Seq<StartupCheckError>)
    ensures
        spec_any_blocking(a.add(b)) == (spec_any_blocking(a) || spec_any_blocking(b)),
{
    if spec_any_blocking(a.add(b)) {
        let i = choose|i: int| 0 <= i < a.add(b).len() && (#[trigger] a.add(b)[i]).is_blocking;
        if i < a.len() {
            assert(a[i].is_blocking);
        } else {
            assert(b[i - a.len()].is_blocking);
        }
    }
    if spec_any_blocking(a) {
        let i = choose|i: int| 0 <= i < a.len() && (#[trigger] a[i]).is_blocking;
        assert(a.add(b)[i].is_blocking);
    }
    if spec_any_blocking(b) {
        let i = choose|i: int| 0 <= i < b.len() && (#[trigger] b[i]).is_blocking;
        assert(a.add(b)[a.len() + i].is_blocking);
    }
}

/// A point-in-time view of the supervisor for diagnostics.
#[derive(Debug)]
pub struct DiagnosticsSnapshot {
    pub timestamp_ms: i64,
    pub uptime_ms: i64,
    pub total_workers: i64,
    pub running_workers: i64,
}

/// Assemble a diagnostics snapshot from the clock readings and the worker
/// counts.
pub fn diagnostics_snapshot(timestamp_ms: i64, uptime_ms: i64, total: usize, running: usize) -> (r:
    DiagnosticsSnapshot)
    requires
        total <= i64::MAX,
        running <= i64::MAX,
    ensures
        r.timestamp_ms == timestamp_ms,
        r.uptime_ms == uptime_ms,
        r.total_workers == total as i64,
        r.running_workers == running as i64,
{
    DiagnosticsSnapshot {
        timestamp_ms,
        uptime_ms,
        total_workers: total as i64,
        running_workers: running as i64,
    }
}

/// Whether the child process executable was found; a missing one blocks
/// everything that needs it.
pub fn check_telethon_available(worker_found: bool) -> (r: StartupCheckResult)
    ensures
        r.wf(),
        r.can_proceed == worker_found,
        worker_found ==> r.errors@.len() == 0,
        !worker_found ==> r.errors@.len() == 1 && r.errors@[0].code@ == "TELETHON_NOT_FOUND"@
            && r.errors@[0].is_blocking,
{
    let mut result = StartupCheckResult::success();
    if !worker_found {
        result.add_error(
            StartupCheckError::blocking(
                "TELETHON_NOT_FOUND",
                "Telethon worker executable not found",
                Some(
                    "Ensure the telethon-worker binary is placed next to the app executable.",
                ),
            ),
        );
    }
    result
}

/// Whether the child process check would pass, as a plain flag.
pub fn is_telethon_available(worker_found: bool) -> (r: bool)
    ensures
        r == worker_found,
{
    let result = check_telethon_available(worker_found);
    result.can_proceed
}

/// What the file-system probes found about an account's session.
#[derive(Debug)]
pub struct SessionProbe {
    pub dir_found: bool,
    pub dir_readable: bool,
    pub session_file_found: bool,
}

/// The findings the account pre-flight check reports, in order: each code
/// with whether it blocks.
pub open spec fn spec_account_check_codes(
    telethon_found: bool,
    account: Option<Account>,
    settings: Settings,
    session: SessionProbe,
    group_slots: Option<Seq<i64>>,
) -> Seq<(Seq<char>, bool)> {
    if !telethon_found {
        seq![("TELETHON_NOT_FOUND"@, true)]
    } else {
        match account {
            None => seq![("ACCOUNT_NOT_FOUND"@, true)],
            Some(a) => {
                let id_part: Seq<(Seq<char>, bool)> = match (a.api_id_override, settings.api_id) {
                    (None, None) => seq![("API_ID_MISSING"@, true)],
                    (Some(v), _) => if v <= 0 {
                        seq![("API_ID_INVALID"@, true)]
                    } else {
                        Seq::empty()
                    },
                    (None, Some(v)) => if v <= 0 {
                        seq![("API_ID_INVALID"@, true)]
                    } else {
                        Seq::empty()
                    },
                };
                let hash_part: Seq<(Seq<char>, bool)> = match (
                    a.api_hash_override,
                    settings.api_hash,
                ) {
                    (None, None) => seq![("API_HASH_MISSING"@, true)],
                    (Some(h), _) => if !spec_valid_api_hash(h@) {
                        seq![("API_HASH_INVALID"@, true)]
                    } else {
                        Seq::empty()
                    },
                    (None, Some(h)) => if !spec_valid_api_hash(h@) {
                        seq![("API_HASH_INVALID"@, true)]
                    } else {
                        Seq::empty()
                    },
                };
                let session_part: Seq<(Seq<char>, bool)> = if !session.dir_found {
                    seq![("SESSION_NOT_FOUND"@, true)]
                } else {
                    (if !session.dir_readable {
                        seq![("SESSION_NOT_READABLE"@, true)]
                    } else {
                        Seq::empty()
                    }).add(
                        if !session.session_file_found {
                            seq![("SESSION_CORRUPT"@, true)]
                        } else {
                            Seq::empty()
                        },
                    )
                };
                let slots_part: Seq<(Seq<char>, bool)> = match group_slots {
                    Some(slots) => if slots.len() == 0 {
                        seq![("NO_GROUP_SLOTS"@, false)]
                    } else {
                        Seq::empty()
                    },
                    None => seq![("GROUP_SLOTS_CHECK_FAILED"@, false)],
                };
                let bots_part: Seq<(Seq<char>, bool)> = if settings.main_bot_user_id is None
                    && settings.beta_bot_user_id is None {
                    seq![("NO_MODERATOR_BOTS"@, false)]
                } else {
                    Seq::empty()
                };
                id_part.add(hash_part).add(session_part).add(slots_part).add(bots_part)
            },
        }
    }
}

/// Pre-flight checks before starting an account, over the probe findings:
/// the child process, the account row, the credentials well formed, the
/// session files, and warnings for missing group slots or moderator bots.
#[verifier::rlimit(80)]
pub fn check_account_can_start(
    telethon_found: bool,
    account: Option<&Account>,
    settings: &Settings,
    session: &SessionProbe,
    group_slots: Option<&Vec<i64>>,
) -> (r: StartupCheckResult)
    ensures
        r.wf(),
        ({
            let codes = spec_account_check_codes(
                telethon_found,
                (match account {
                    Some(a) => Some(*a),
                    None => None,
                }),
                *settings,
                *session,
                (match group_slots {
                    Some(slots) => Some(slots@),
                    None => None,
                }),
            );
            &&& r.errors@.len() == codes.len()
            &&& (forall|k: int|
                0 <= k < codes.len() ==> (#[trigger] r.errors@[k]).code@ == codes[k].0
                    && r.errors@[k].is_blocking == codes[k].1)
        }),
{
    let telethon_check = check_telethon_available(telethon_found);
    if !telethon_check.can_proceed {
        return telethon_check;
    }
    let mut result = StartupCheckResult::success();
    let account = match account {
        Some(a) => a,
        None => {
            result.add_error(
                StartupCheckError::blocking("ACCOUNT_NOT_FOUND", "Account not found", None),
            );
            return result;
        },
    };
    let effective_api_id = match account.api_id_override {
        Some(v) => Some(v),
        None => settings.api_id,
    };
    match effective_api_id {
        None => {
            result.add_error(
                StartupCheckError::blocking(
                    "API_ID_MISSING",
                    "API ID not configured",
                    Some(
                        "Configure API ID in Settings, or set an override in the account's edit page.",
                    ),
                ),
            );
        },
        Some(id) => {
            if validate_api_id(id).is_err() {
                result.add_error(
                    StartupCheckError::blocking(
                        "API_ID_INVALID",
                        "API ID must be a positive number",
                        None,
                    ),
                );
            }
        },
    }
    let effective_api_hash: Option<&String> = match &account.api_hash_override {
        Some(h) => Some(h),
        None => match &settings.api_hash {
            Some(h) => Some(h),
            None => None,
        },
    };
    match effective_api_hash {
        None => {
            result.add_error(
                StartupCheckError::blocking(
                    "API_HASH_MISSING",
                    "API Hash not configured",
                    Some(
                        "Configure API Hash in Settings, or set an override in the account's edit page.",
                    ),
                ),
            );
        },
        Some(hash) => {
            if validate_api_hash(hash.as_str()).is_err() {
                result.add_error(
                    StartupCheckError::blocking(
                        "API_HASH_INVALID",
                        "API Hash must be exactly 32 hexadecimal characters",
                        None,
                    ),
                );
            }
        },
    }
    if !session.dir_found {
        result.add_error(
            StartupCheckError::blocking(
                "SESSION_NOT_FOUND",
                "Session not found",
                Some("Please log in first using the Login button on the Accounts page."),
            ),
        );
    } else {
        if !session.dir_readable {
            result.add_error(
                StartupCheckError::blocking(
                    "SESSION_NOT_READABLE",
                    "Cannot read session directory",
                    Some(
                        "Try restarting the application or re-logging into the account.",
                    ),
                ),
            );
        }
        if !session.session_file_found {
            result.add_error(
                StartupCheckError::blocking(
                    "SESSION_CORRUPT",
                    "Session appears to be corrupted",
                    Some(
                        "The session directory exists but is missing the Telethon session file.",
                    ),
                ),
            );
        }
    }
    match group_slots {
        Some(slots) => {
            if slots.len() == 0 {
                result.add_error(
                    StartupCheckError::warning(
                        "NO_GROUP_SLOTS",
                        "No game groups configured",
                        Some(
                            "This account will start but won't monitor any groups.",
                        ),
                    ),
                );
            }
        },
        None => {
            result.add_error(
                StartupCheckError::warning(
                    "GROUP_SLOTS_CHECK_FAILED",
                    "Could not check group slots",
                    None,
                ),
            );
        },
    }
    if settings.main_bot_user_id.is_none() && settings.beta_bot_user_id.is_none() {
        result.add_error(
            StartupCheckError::warning(
                "NO_MODERATOR_BOTS",
                "No moderator bot IDs configured",
                Some("Game phase detection won't work without moderator bot IDs."),
            ),
        );
    }
    result
}

/// The findings the login pre-flight check reports, in order: each code
/// with whether it blocks.
pub open spec fn spec_login_check_codes(
    telethon_found: bool,
    api_id_override: Option<i64>,
    api_hash_override: Option<Seq<char>>,
    settings: Option<Settings>,
    sessions_dir_usable: bool,
) -> Seq<(Seq<char>, bool)> {
    if !telethon_found {
        seq![("TELETHON_NOT_FOUND"@, true)]
    } else {
        let eff_id = match api_id_override {
            Some(v) => Some(v),
            None => match settings {
                Some(s) => s.api_id,
                None => None,
            },
        };
        let id_part: Seq<(Seq<char>, bool)> = match eff_id {
            None => seq![("API_ID_REQUIRED"@, true)],
            Some(v) => if v <= 0 {
                seq![("API_ID_INVALID"@, true)]
            } else {
                Seq::empty()
            },
        };
        let eff_hash: Option<Seq<char>> = match api_hash_override {
            Some(h) => Some(h),
            None => match settings {
                Some(s) => match s.api_hash {
                    Some(h) => Some(h@),
                    None => None,
                },
                None => None,
            },
        };
        let hash_part: Seq<(Seq<char>, bool)> = match eff_hash {
            None => seq![("API_HASH_REQUIRED"@, true)],
            Some(h) => if !spec_valid_api_hash(h) {
                seq![("API_HASH_INVALID"@, true)]
            } else {
                Seq::empty()
            },
        };
        let dir_part: Seq<(Seq<char>, bool)> = if !sessions_dir_usable {
            seq![("SESSIONS_DIR_NOT_ACCESSIBLE"@, true)]
        } else {
            Seq::empty()
        };
        id_part.add(hash_part).add(dir_part)
    }
}

/// Pre-flight checks before the login flow: the child process, effective
/// credentials well formed, and the sessions directory usable. The finding
/// list is exactly the failed checks, in order, so a well-formed login
/// request proceeds.
#[verifier::rlimit(60)]
pub fn check_can_login(
    telethon_found: bool,
    api_id_override: Option<i64>,
    api_hash_override: Option<&str>,
    settings: Option<&Settings>,
    sessions_dir_usable: bool,
) -> (r: StartupCheckResult)
    ensures
        r.wf(),
        ({
            let codes = spec_login_check_codes(
                telethon_found,
                api_id_override,
                (match api_hash_override {
                    Some(h) => Some(h@),
                    None => None,
                }),
                (match settings {
                    Some(s) => Some(*s),
                    None => None,
                }),
                sessions_dir_usable,
            );
            &&& r.errors@.len() == codes.len()
            &&& (forall|k: int|
                0 <= k < codes.len() ==> (#[trigger] r.errors@[k]).code@ == codes[k].0
                    && r.errors@[k].is_blocking == codes[k].1)
        }),
{
    let telethon_check = check_telethon_available(telethon_found);
    if !telethon_check.can_proceed {
        return telethon_check;
    }
    let mut result = StartupCheckResult::success();
    let effective_api_id = match api_id_override {
        Some(v) => Some(v),
        None => match settings {
            Some(s) => s.api_id,
            None => None,
        },
    };
    match effective_api_id {
        None => {
            result.add_error(
                StartupCheckError::blocking(
                    "API_ID_REQUIRED",
                    "API ID is required for login",
                    Some("Configure API ID in Settings first, or provide it during login."),
                ),
            );
        },
        Some(id) => {
            if validate_api_id(id).is_err() {
                result.add_error(
                    StartupCheckError::blocking(
                        "API_ID_INVALID",
                        "API ID must be a positive number",
                        None,
                    ),
                );
            }
        },
    }
    let effective_api_hash: Option<&str> = match api_hash_override {
        Some(h) => Some(h),
        None => match settings {
            Some(s) => match &s.api_hash {
                Some(h) => Some(h.as_str()),
                None => None,
            },
            None => None,
        },
    };
    match effective_api_hash {
        None => {
            result.add_error(
                StartupCheckError::blocking(
                    "API_HASH_REQUIRED",
                    "API Hash is required for login",
                    Some("Configure API Hash in Settings first, or provide it during login."),
                ),
            );
        },
        Some(hash) => {
            if validate_api_hash(hash).is_err() {
                result.add_error(
                    StartupCheckError::blocking(
                        "API_HASH_INVALID",
                        "API Hash must be exactly 32 hexadecimal characters",
                        None,
                    ),
                );
            }
        },
    }
    if !sessions_dir_usable {
        result.add_error(
            StartupCheckError::blocking(
                "SESSIONS_DIR_NOT_ACCESSIBLE",
                "Cannot access sessions directory",
                None,
            ),
        );
    }
    result
}

/// The findings the system check reports, in order: each code with whether
/// it blocks.
pub open spec fn spec_system_check_codes(
    db_ok: bool,
    telethon_found: bool,
    settings: Option<Settings>,
) -> Seq<(Seq<char>, bool)> {
    if !db_ok {
        seq![("DB_LOCK_FAILED"@, true)]
    } else {
        let telethon_part: Seq<(Seq<char>, bool)> = if !telethon_found {
            seq![("TELETHON_NOT_FOUND"@, false)]
        } else {
            Seq::empty()
        };
        let creds_part: Seq<(Seq<char>, bool)> = match settings {
            Some(s) => if s.api_id is None || s.api_hash is None {
                seq![("API_CREDENTIALS_NOT_SET"@, false)]
            } else {
                Seq::empty()
            },
            None => Seq::empty(),
        };
        let bots_part: Seq<(Seq<char>, bool)> = match settings {
            Some(s) => if s.main_bot_user_id is None && s.beta_bot_user_id is None {
                seq![("MODERATOR_BOTS_NOT_SET"@, false)]
            } else {
                Seq::empty()
            },
            None => Seq::empty(),
        };
        telethon_part.add(creds_part).add(bots_part)
    }
}

/// System check at application startup: the store must open; a missing
/// child process or missing configuration only warns. The finding list is
/// exactly the failed checks, in order.
pub fn check_system(db_ok: bool, telethon_found: bool, settings: Option<&Settings>) -> (r:
    StartupCheckResult)
    ensures
        r.wf(),
        r.can_proceed == db_ok,
        ({
            let codes = spec_system_check_codes(
                db_ok,
                telethon_found,
                (match settings {
                    Some(s) => Some(*s),
                    None => None,
                }),
            );
            &&& r.errors@.len() == codes.len()
            &&& (forall|k: int|
                0 <= k < codes.len() ==> (#[trigger] r.errors@[k]).code@ == codes[k].0
                    && r.errors@[k].is_blocking == codes[k].1)
        }),
{
    let mut result = StartupCheckResult::success();
    if !db_ok {
        result.add_error(
            StartupCheckError::blocking("DB_LOCK_FAILED", "Cannot access database", None),
        );
        return result;
    }
    if !telethon_found {
        result.add_error(
            StartupCheckError::warning(
                "TELETHON_NOT_FOUND",
                "Telethon worker executable not found",
                Some(
                    "Ensure the telethon-worker binary is placed next to the app executable.",
                ),
            ),
        );
    }
    match settings {
        Some(s) => {
            if s.api_id.is_none() || s.api_hash.is_none() {
                result.add_error(
                    StartupCheckError::warning(
                        "API_CREDENTIALS_NOT_SET",
                        "API credentials not configured",
                        Some(
                            "Configure API ID and API Hash in Settings before logging into accounts.",
                        ),
                    ),
                );
            }
            if s.main_bot_user_id.is_none() && s.beta_bot_user_id.is_none() {
                result.add_error(
                    StartupCheckError::warning(
                        "MODERATOR_BOTS_NOT_SET",
                        "Moderator bot IDs not configured",
                        Some("Configure moderator bot IDs in Settings for game phase detection."),
                    ),
                );
            }
        },
        None => {},
    }
    result
}

} // verus!
