//! Admission and outcome rules of the authenticated loopback validation API.

use vstd::prelude::*;

use super::harness::ValidationResult;
use super::scenarios::{known, scenario_names};
use crate::text::{has_prefix, str_eq, starts_with};
use crate::types::GameMemoryBank;

verus! {

/// A validation request, as posted to `/v1/memory/validate`.
#[derive(Debug)]
pub struct ValidateRequest {
    pub scenario: String,
    pub role_id: i32,
    pub display_name: String,
    pub initial_bank: GameMemoryBank,
    pub line_count: usize,
    pub update_interval: usize,
    pub delay_ms: u64,
    pub fail_section: Option<String>,
    pub empty_section: Option<String>,
    pub panic_section: Option<String>,
    pub timeout_ms: u64,
    pub append_during_update: bool,
    pub persistence_roundtrip: bool,
}

/// The answer to an admitted validation request.
#[derive(Debug)]
pub struct ValidateResponse {
    pub outcome: String,
    pub scenario: String,
    pub triggered: bool,
    pub committed: bool,
    pub calls: usize,
    pub bank: GameMemoryBank,
    pub last_processed_global_idx: i64,
    pub unprocessed_tail_lines: usize,
    pub updating: bool,
    pub persistence_roundtrip: Option<bool>,
    pub error_code: Option<String>,
}

pub fn default_role_id() -> (r: i32)
    ensures
        r == 7,
{
    7
}

pub fn default_display_name() -> (r: String)
    ensures
        r@ == "Test AI"@,
{
    String::from_str("Test AI")
}

pub fn default_line_count() -> (r: usize)
    ensures
        r == 4,
{
    4
}

pub fn default_update_interval() -> (r: usize)
    ensures
        r == 1,
{
    1
}

pub fn default_timeout_ms() -> (r: u64)
    ensures
        r == 10_000,
{
    10_000
}

/// The request with every field at its default, as an empty JSON object reads.
pub fn default_request() -> (r: ValidateRequest)
    ensures
        r.scenario@.len() == 0,
        r.role_id == 7,
        r.display_name@ == "Test AI"@,
        r.line_count == 4,
        r.update_interval == 1,
        r.delay_ms == 0,
        r.fail_section is None,
        r.empty_section is None,
        r.panic_section is None,
        r.timeout_ms == 10_000,
        !r.append_during_update,
        !r.persistence_roundtrip,
        r.initial_bank.meta.last_processed_global_idx == 0,
{
    ValidateRequest {
        scenario: String::new(),
        role_id: default_role_id(),
        display_name: default_display_name(),
        initial_bank: GameMemoryBank::empty(),
        line_count: default_line_count(),
        update_interval: default_update_interval(),
        delay_ms: 0,
        fail_section: None,
        empty_section: None,
        panic_section: None,
        timeout_ms: default_timeout_ms(),
        append_during_update: false,
        persistence_roundtrip: false,
    }
}

/// Why the API refuses a request, each with its HTTP status and error code.
#[derive(Debug, PartialEq, Eq, Structural)]
pub enum ApiRejection {
    Unauthorized,
    InvalidJson,
    UnknownScenario,
    InvalidRoleId,
    TooManyLines,
    InvalidLimits,
    Busy,
    BusyStateUnavailable,
    TimedOut,
}

pub open spec fn spec_status(r: ApiRejection) -> u16 {
    match r {
        ApiRejection::Unauthorized => 401,
        ApiRejection::InvalidJson => 400,
        ApiRejection::UnknownScenario => 422,
        ApiRejection::InvalidRoleId => 422,
        ApiRejection::TooManyLines => 422,
        ApiRejection::InvalidLimits => 422,
        ApiRejection::Busy => 429,
        ApiRejection::BusyStateUnavailable => 500,
        ApiRejection::TimedOut => 408,
    }
}

pub open spec fn spec_error_code(r: ApiRejection) -> Seq<char> {
    match r {
        ApiRejection::Unauthorized => "unauthorized"@,
        ApiRejection::InvalidJson => "invalid_json"@,
        ApiRejection::UnknownScenario => "unknown_scenario"@,
        ApiRejection::InvalidRoleId => "invalid_role_id"@,
        ApiRejection::TooManyLines => "too_many_lines"@,
        ApiRejection::InvalidLimits => "invalid_limits"@,
        ApiRejection::Busy => "validation_busy"@,
        ApiRejection::BusyStateUnavailable => "busy_state_unavailable"@,
        ApiRejection::TimedOut => "timed_out"@,
    }
}

impl ApiRejection {
    /// The HTTP status of the refusal.
    pub fn status_code(&self) -> (r: u16)
        ensures
            r == spec_status(*self),
    {
        match self {
            ApiRejection::Unauthorized => 401,
            ApiRejection::InvalidJson => 400,
            ApiRejection::UnknownScenario => 422,
            ApiRejection::InvalidRoleId => 422,
            ApiRejection::TooManyLines => 422,
            ApiRejection::InvalidLimits => 422,
            ApiRejection::Busy => 429,
            ApiRejection::BusyStateUnavailable => 500,
            ApiRejection::TimedOut => 408,
        }
    }

    /// The `error` field of the refusal's JSON body.
    pub fn error_code(&self) -> (r: &'static str)
        ensures
            r@ == spec_error_code(*self),
    {
        match self {
            ApiRejection::Unauthorized => "unauthorized",
            ApiRejection::InvalidJson => "invalid_json",
            ApiRejection::UnknownScenario => "unknown_scenario",
            ApiRejection::InvalidRoleId => "invalid_role_id",
            ApiRejection::TooManyLines => "too_many_lines",
            ApiRejection::InvalidLimits => "invalid_limits",
            ApiRejection::Busy => "validation_busy",
            ApiRejection::BusyStateUnavailable => "busy_state_unavailable",
            ApiRejection::TimedOut => "timed_out",
        }
    }
}

/// Whether an `Authorization` header value carries the bearer token.
pub open spec fn spec_authorized(header: Option<Seq<char>>, token: Seq<char>) -> bool {
    match header {
        Some(h) => has_prefix(h, "Bearer "@) && h.subrange(7, h.len() as int) == token,
        None => false,
    }
}

/// Whether the request's `Authorization` header (as text, when it is valid
/// text) is `Bearer <token>`.
pub fn authorized(header: Option<&str>, token: &str) -> (b: bool)
    ensures
        b == spec_authorized(header.deep_view(), token@),
{
    proof {
        reveal_strlit("Bearer ");
    }
    match header {
        Some(h) => {
            if starts_with(h, "Bearer ") {
                let n = h.unicode_len();
                str_eq(h.substring_char(7, n), token)
            } else {
                false
            }
        },
        None => false,
    }
}

/// Taking the slot: whether it was taken, and the slot afterwards.
pub open spec fn spec_acquire(busy: bool) -> (bool, bool) {
    (!busy, true)
}

/// Takes the single validation slot: true, and the slot busy, when it was free;
/// false, and nothing changed, when a validation is already running.
pub fn try_acquire_busy(busy: &mut bool) -> (acquired: bool)
    ensures
        (acquired, *final(busy)) == spec_acquire(*old(busy)),
{
    if *busy {
        false
    } else {
        *busy = true;
        true
    }
}

/// Frees the validation slot (when a validation ends, however it ends, a
/// panic included).
pub fn release_busy(busy: &mut bool)
    ensures
        !*final(busy),
{
    *busy = false;
}

/// Single flight: from a free slot the first validation is admitted, a second
/// one while it runs is refused, and after the slot is released the next one is
/// admitted again.
pub proof fn lemma_single_flight()
    ensures
        ({
            let (first, held) = spec_acquire(false);
            let (second, still_held) = spec_acquire(held);
            let (third, _) = spec_acquire(false);
            first && !second && still_held && third
        }),
{
}

/// What the admitted request runs: the scenario (the route's, when the route
/// names one) and its built-in settings.
pub struct AdmittedView {
    pub scenario: Seq<char>,
    pub delay_ms: u64,
    pub fail_section: Option<Seq<char>>,
    pub empty_section: Option<Seq<char>>,
    pub append_during_update: bool,
    pub persistence_roundtrip: bool,
}

/// The scenario's built-in settings applied: `one-section-fails` and
/// `empty-section-fails` fail the `promises` section unless one is named,
/// `append-during-update` appends during the update with a delay of 10 ms unless
/// one is given, `persistence-roundtrip` checks the database round trip.
pub open spec fn spec_adjusted(
    scenario: Seq<char>,
    delay_ms: u64,
    fail_section: Option<Seq<char>>,
    empty_section: Option<Seq<char>>,
    append_during_update: bool,
    persistence_roundtrip: bool,
) -> AdmittedView {
    AdmittedView {
        scenario,
        delay_ms: if scenario == "append-during-update"@ && delay_ms == 0 {
            10
        } else {
            delay_ms
        },
        fail_section: if scenario == "one-section-fails"@ && fail_section is None {
            Some("promises"@)
        } else {
            fail_section
        },
        empty_section: if scenario == "empty-section-fails"@ && empty_section is None {
            Some("promises"@)
        } else {
            empty_section
        },
        append_during_update: append_during_update || scenario == "append-during-update"@,
        persistence_roundtrip: persistence_roundtrip || scenario == "persistence-roundtrip"@,
    }
}

/// Why an adjusted request is refused, checked in this order: unknown
/// scenario, a role id of 0 or below, more than 10 000 lines, and limits out of
/// range (update interval 0, timeout 0 or above 120 s, delay above 60 s).
pub open spec fn spec_admission_error(
    a: AdmittedView,
    role_id: i32,
    line_count: usize,
    update_interval: usize,
    timeout_ms: u64,
) -> Option<ApiRejection> {
    if !scenario_names().contains(a.scenario) {
        Some(ApiRejection::UnknownScenario)
    } else if role_id <= 0 {
        Some(ApiRejection::InvalidRoleId)
    } else if line_count > 10_000 {
        Some(ApiRejection::TooManyLines)
    } else if update_interval == 0 || timeout_ms == 0 || timeout_ms > 120_000 || a.delay_ms
        > 60_000 {
        Some(ApiRejection::InvalidLimits)
    } else {
        None
    }
}

impl ValidateRequest {
    /// The scenario that the request runs.
    pub open spec fn effective_scenario(&self, route_scenario: Option<Seq<char>>) -> Seq<char> {
        match route_scenario {
            Some(s) => s,
            None => self.scenario@,
        }
    }

    pub open spec fn spec_admitted(&self, route_scenario: Option<Seq<char>>) -> AdmittedView {
        spec_adjusted(
            self.effective_scenario(route_scenario),
            self.delay_ms,
            self.fail_section.deep_view(),
            self.empty_section.deep_view(),
            self.append_during_update,
            self.persistence_roundtrip,
        )
    }

    /// Admits a parsed request: the route's scenario replaces the body's, the
    /// scenario's built-in settings are applied, then the request is checked.
    pub fn accept_for_run(self, route_scenario: Option<String>) -> (r: Result<ValidateRequest, ApiRejection>)
        ensures
            ({
                let a = self.spec_admitted(route_scenario.deep_view());
                match spec_admission_error(
                    a,
                    self.role_id,
                    self.line_count,
                    self.update_interval,
                    self.timeout_ms,
                ) {
                    Some(e) => r == Err::<ValidateRequest, ApiRejection>(e),
                    None => r matches Ok(q) && q.scenario@ == a.scenario && q.delay_ms == a.delay_ms
                        && q.fail_section.deep_view() == a.fail_section
                        && q.empty_section.deep_view() == a.empty_section
                        && q.append_during_update == a.append_during_update
                        && q.persistence_roundtrip == a.persistence_roundtrip && q.role_id
                        == self.role_id && q.display_name == self.display_name && q.initial_bank
                        == self.initial_bank && q.line_count == self.line_count && q.update_interval
                        == self.update_interval && q.panic_section == self.panic_section
                        && q.timeout_ms == self.timeout_ms,
                }
            }),
    {
        let mut request = self;
        if let Some(scenario) = route_scenario {
            request.scenario = scenario;
        }
        if !known(request.scenario.as_str()) {
            return Err(ApiRejection::UnknownScenario);
        }
        proof {
            reveal_strlit("promises");
        }
        if str_eq(request.scenario.as_str(), "one-section-fails") && request.fail_section.is_none() {
            request.fail_section = Some(String::from_str("promises"));
        }
        if str_eq(request.scenario.as_str(), "empty-section-fails")
            && request.empty_section.is_none() {
            request.empty_section = Some(String::from_str("promises"));
        }
        if str_eq(request.scenario.as_str(), "append-during-update") {
            request.append_during_update = true;
            if request.delay_ms == 0 {
                request.delay_ms = 10;
            }
        }
        if str_eq(request.scenario.as_str(), "persistence-roundtrip") {
            request.persistence_roundtrip = true;
        }
        if request.role_id <= 0 {
            return Err(ApiRejection::InvalidRoleId);
        }
        if request.line_count > 10_000 {
            return Err(ApiRejection::TooManyLines);
        }
        if request.update_interval == 0 || request.timeout_ms == 0 || request.timeout_ms > 120_000
            || request.delay_ms > 60_000 {
            return Err(ApiRejection::InvalidLimits);
        }
        Ok(request)
    }

    /// Whether the request names a section to fail, to answer empty or to panic,
    /// so that its compression cannot commit.
    pub open spec fn spec_fails(&self) -> bool {
        self.fail_section is Some || self.empty_section is Some || self.panic_section is Some
    }

    pub fn fails(&self) -> (b: bool)
        ensures
            b == self.spec_fails(),
    {
        self.fail_section.is_some() || self.empty_section.is_some() || self.panic_section.is_some()
    }

    /// Whether the database round trip runs after a completed validation: when
    /// requested and the compression committed.
    pub fn needs_persistence_check(&self, result: &ValidationResult) -> (b: bool)
        ensures
            b == (self.persistence_roundtrip && result.committed),
    {
        self.persistence_roundtrip && result.committed
    }
}

/// How the database round trip went.
#[derive(Debug)]
pub enum PersistenceCheck {
    /// Not requested, or the compression did not commit.
    NotRun,
    /// The bank read back equals the bank written.
    Passed,
    /// The round trip failed, with the reason.
    Failed(String),
}

/// The outcome of a completed validation.
pub open spec fn spec_outcome(failed: bool, persistence_failed: bool, committed: bool) -> Seq<char> {
    if failed {
        "not_committed"@
    } else if persistence_failed {
        "persistence_failed"@
    } else if committed {
        "succeeded"@
    } else {
        "not_committed"@
    }
}

/// The error code of a completed validation.
pub open spec fn spec_completed_error_code(failed: bool, persistence_failed: bool) -> Option<Seq<char>> {
    if failed {
        Some("compression_failed"@)
    } else if persistence_failed {
        Some("persistence_failed"@)
    } else {
        None
    }
}

impl ValidateResponse {
    /// The answer to a validation that ran to its end.
    pub fn completed(request: ValidateRequest, result: ValidationResult, persistence: PersistenceCheck) -> (r:
        ValidateResponse)
        ensures
            ({
                let failed = request.spec_fails();
                let persistence_failed = persistence is Failed;
                &&& r.outcome@ == spec_outcome(failed, persistence_failed, result.committed)
                &&& r.scenario == request.scenario
                &&& r.triggered == result.triggered
                &&& r.committed == result.committed
                &&& r.calls == result.calls
                &&& r.bank == result.bank
                &&& r.last_processed_global_idx == result.processed_idx
                &&& r.unprocessed_tail_lines == result.tail_lines
                &&& r.updating == result.updating
                &&& r.persistence_roundtrip == if persistence is Passed {
                    Some(true)
                } else {
                    None::<bool>
                }
                &&& r.error_code.deep_view() == spec_completed_error_code(failed, persistence_failed)
            }),
    {
        let failed = request.fails();
        let (passed, persistence_failed) = match persistence {
            PersistenceCheck::NotRun => (false, false),
            PersistenceCheck::Passed => (true, false),
            PersistenceCheck::Failed(_) => (false, true),
        };
        let outcome = if failed {
            String::from_str("not_committed")
        } else if persistence_failed {
            String::from_str("persistence_failed")
        } else if result.committed {
            String::from_str("succeeded")
        } else {
            String::from_str("not_committed")
        };
        let error_code = if failed {
            Some(String::from_str("compression_failed"))
        } else if persistence_failed {
            Some(String::from_str("persistence_failed"))
        } else {
            None
        };
        ValidateResponse {
            outcome,
            scenario: request.scenario,
            triggered: result.triggered,
            committed: result.committed,
            calls: result.calls,
            bank: result.bank,
            last_processed_global_idx: result.processed_idx,
            unprocessed_tail_lines: result.tail_lines,
            updating: result.updating,
            persistence_roundtrip: if passed {
                Some(true)
            } else {
                None
            },
            error_code,
        }
    }

    /// The answer to a validation whose run reported an error: nothing
    /// committed, every requested line left unprocessed.
    pub fn run_failed(request: ValidateRequest, calls: usize) -> (r: ValidateResponse)
        ensures
            r.outcome@ == "not_committed"@,
            r.scenario == request.scenario,
            !r.triggered,
            !r.committed,
            r.calls == calls,
            r.bank.meta.last_processed_global_idx == 0,
            r.bank.data.short_term@.len() == 0,
            r.bank.data.long_term@.len() == 0,
            r.bank.data.user_info@.len() == 0,
            r.bank.data.promises@.len() == 0,
            r.last_processed_global_idx == 0,
            r.unprocessed_tail_lines == request.line_count,
            !r.updating,
            r.persistence_roundtrip is None,
            r.error_code.deep_view() == Some("validation_failed"@),
    {
        ValidateResponse {
            outcome: String::from_str("not_committed"),
            scenario: request.scenario,
            triggered: false,
            committed: false,
            calls,
            bank: GameMemoryBank::empty(),
            last_processed_global_idx: 0,
            unprocessed_tail_lines: request.line_count,
            updating: false,
            persistence_roundtrip: None,
            error_code: Some(String::from_str("validation_failed")),
        }
    }
}

} // verus!
