//! Health of the coordinator: the state of its subsystems, the overall state
//! that follows from them, and the context that travels with a request.

use vstd::prelude::*;
use vstd::string::*;
use crate::clock::Timestamp;
use crate::ident::{fresh_uuid, is_hyphenated_uuid};
use crate::logging::LogLevel;
use crate::table::{upsert, Entry, Keyed, Table};
use crate::text::text_eq;

verus! {

/// Version of the health report.
pub const HEALTH_CHECK_VERSION: &'static str = "1.0.0";

/// Prepares the collection of metrics. Nothing needs preparing here: the
/// values are kept by whoever records them.
pub fn initialize_metrics() {
}

/// Prepares tracing for the application `_app_name` in the environment
/// `_environment`. Nothing needs preparing here.
pub fn initialize_tracing(_app_name: &str, _environment: &str) {
}

/// The lowest status code of a request that failed.
pub const FIRST_FAILURE_STATUS: u16 = 400;

/// Whether a request that ended with the status code `status_code` failed.
pub fn is_failed_request(status_code: u16) -> (failed: bool)
    ensures
        failed == (status_code >= FIRST_FAILURE_STATUS),
{
    status_code >= FIRST_FAILURE_STATUS
}

/// The level at which an event marked `level` is logged: the level of that
/// name among `ERROR`, `WARN`, `INFO` and `DEBUG`, and `INFO` for any other.
pub open spec fn event_level_of(level: Seq<char>) -> LogLevel {
    if level == "ERROR"@ {
        LogLevel::ERROR
    } else if level == "WARN"@ {
        LogLevel::WARN
    } else if level == "DEBUG"@ {
        LogLevel::DEBUG
    } else {
        LogLevel::INFO
    }
}

/// The level at which an event marked `level` is logged.
pub fn event_level(level: &str) -> (at: LogLevel)
    ensures
        at == event_level_of(level@),
{
    let marked = String::from_str(level);
    if text_eq(&marked, "ERROR") {
        LogLevel::ERROR
    } else if text_eq(&marked, "WARN") {
        LogLevel::WARN
    } else if text_eq(&marked, "DEBUG") {
        LogLevel::DEBUG
    } else {
        LogLevel::INFO
    }
}

/// How well a subsystem, or the whole, is.
#[derive(Clone, Copy, Debug, PartialEq, Eq, Structural)]
pub enum HealthStatus {
    Healthy,
    Degraded,
    Unhealthy,
    Critical,
}

/// The state of one subsystem at its last check.
#[derive(Debug)]
pub struct SubsystemHealth {
    pub name: String,
    pub status: HealthStatus,
    pub last_check: Timestamp,
    pub error_count: u64,
    pub warning_count: u64,
    pub details: Vec<(String, String)>,
}

/// What a [`SubsystemHealth`] holds, as mathematical values.
pub struct SubsystemHealthView {
    pub name: Seq<char>,
    pub status: HealthStatus,
    pub last_check: Timestamp,
    pub error_count: u64,
    pub warning_count: u64,
    pub details: Seq<(Seq<char>, Seq<char>)>,
}

impl View for SubsystemHealth {
    type V = SubsystemHealthView;

    open spec fn view(&self) -> SubsystemHealthView {
        SubsystemHealthView {
            name: self.name@,
            status: self.status,
            last_check: self.last_check,
            error_count: self.error_count,
            warning_count: self.warning_count,
            details: Seq::new(
                self.details@.len(),
                |i: int| (self.details@[i].0@, self.details@[i].1@),
            ),
        }
    }
}

impl Keyed for SubsystemHealthView {
    open spec fn key(self) -> Seq<char> {
        self.name
    }
}

impl Entry for SubsystemHealth {
    fn key_text(&self) -> (k: &String) {
        &self.name
    }
}

/// Whether one of `subsystems` is in the state `status`.
pub open spec fn any_in(subsystems: Seq<SubsystemHealthView>, status: HealthStatus) -> bool {
    exists|i: int| 0 <= i < subsystems.len() && (#[trigger] subsystems[i]).status == status
}

/// The overall state that follows from `subsystems`: the worst state that
/// any of them is in, `Healthy` where there is none.
pub open spec fn overall(subsystems: Seq<SubsystemHealthView>) -> HealthStatus {
    if any_in(subsystems, HealthStatus::Critical) {
        HealthStatus::Critical
    } else if any_in(subsystems, HealthStatus::Unhealthy) {
        HealthStatus::Unhealthy
    } else if any_in(subsystems, HealthStatus::Degraded) {
        HealthStatus::Degraded
    } else {
        HealthStatus::Healthy
    }
}

/// The health of the whole and of its parts.
pub struct HealthState {
    pub overall_status: HealthStatus,
    pub subsystem_health: Table<SubsystemHealth>,
    pub last_health_check: Timestamp,
    pub uptime_seconds: u64,
    pub health_check_version: String,
}

impl HealthState {
    /// The health of a coordinator that has just started at `now`: healthy,
    /// with no subsystem known.
    pub fn new(now: Timestamp) -> (state: Self)
        ensures
            state.overall_status == HealthStatus::Healthy,
            state.subsystem_health@.len() == 0,
            state.last_health_check == now,
            state.uptime_seconds == 0,
            state.health_check_version@ == HEALTH_CHECK_VERSION@,
    {
        HealthState {
            overall_status: HealthStatus::Healthy,
            subsystem_health: Table::new(),
            last_health_check: now,
            uptime_seconds: 0,
            health_check_version: String::from_str(HEALTH_CHECK_VERSION),
        }
    }

    /// Whether a subsystem is in the state `status`.
    fn any_subsystem_in(&self, status: HealthStatus) -> (found: bool)
        ensures
            found == any_in(self.subsystem_health@, status),
    {
        let n = self.subsystem_health.len();
        let mut i: usize = 0;
        while i < n
            invariant
                i <= n,
                n == self.subsystem_health@.len(),
                forall|k: int| 0 <= k < i ==> (#[trigger] self.subsystem_health@[k]).status != status,
            decreases n - i,
        {
            match self.subsystem_health.at(i) {
                Some(subsystem) => {
                    if subsystem.status == status {
                        return true;
                    }
                },
                None => {},
            }
            i = i + 1;
        }
        false
    }

    /// Records the state of one subsystem as checked at `now`, in place of
    /// what was known of it, and sets the overall state to the worst state
    /// among the subsystems.
    pub fn update_subsystem_health_at(&mut self, subsystem: SubsystemHealth, now: Timestamp)
        ensures
            final(self).subsystem_health@ == upsert(old(self).subsystem_health@, subsystem@),
            final(self).overall_status == overall(final(self).subsystem_health@),
            final(self).last_health_check == now,
            final(self).uptime_seconds == old(self).uptime_seconds,
            final(self).health_check_version == old(self).health_check_version,
    {
        self.subsystem_health.upsert(subsystem);
        let status = if self.any_subsystem_in(HealthStatus::Critical) {
            HealthStatus::Critical
        } else if self.any_subsystem_in(HealthStatus::Unhealthy) {
            HealthStatus::Unhealthy
        } else if self.any_subsystem_in(HealthStatus::Degraded) {
            HealthStatus::Degraded
        } else {
            HealthStatus::Healthy
        };
        self.overall_status = status;
        self.last_health_check = now;
    }
}

/// The result of one check.
#[derive(Debug)]
pub struct HealthCheck {
    pub name: String,
    pub passed: bool,
    pub message: String,
    pub details: Vec<(String, String)>,
}

/// The results of all checks of one round.
#[derive(Debug)]
pub struct HealthCheckResult {
    pub overall_status: HealthStatus,
    pub checks: Vec<HealthCheck>,
    pub timestamp: Timestamp,
}

/// Whether every check of `checks` passed.
pub open spec fn all_passed(checks: Seq<HealthCheck>) -> bool {
    forall|i: int| 0 <= i < checks.len() ==> (#[trigger] checks[i]).passed
}

/// A check named `name` that passed, with the message `message`.
pub fn passed_check(name: &str, message: &str) -> (check: HealthCheck)
    ensures
        check.name@ == name@,
        check.passed,
        check.message@ == message@,
        check.details@.len() == 0,
{
    HealthCheck {
        name: String::from_str(name),
        passed: true,
        message: String::from_str(message),
        details: Vec::new(),
    }
}

/// The round of checks `checks`, taken at `now`: healthy where every check
/// passed, unhealthy otherwise.
pub fn summarize_health_checks(checks: Vec<HealthCheck>, now: Timestamp) -> (result:
    HealthCheckResult)
    ensures
        result.checks == checks,
        result.timestamp == now,
        result.overall_status == if all_passed(checks@) {
            HealthStatus::Healthy
        } else {
            HealthStatus::Unhealthy
        },
{
    let mut passed = true;
    let mut i: usize = 0;
    while i < checks.len()
        invariant
            i <= checks@.len(),
            passed == all_passed(checks@.take(i as int)),
        decreases checks@.len() - i,
    {
        if !checks[i].passed {
            passed = false;
        }
        proof {
            let before = checks@.take(i as int);
            let after = checks@.take(i + 1);
            assert(after[i as int] == checks@[i as int]);
            assert forall|k: int| 0 <= k < before.len() implies before[k] == after[k] by {}
            if all_passed(after) {
                assert forall|k: int| 0 <= k < before.len() implies (#[trigger] before[k]).passed by {}
            }
        }
        i = i + 1;
    }
    assert(checks@.take(i as int) =~= checks@);
    let overall_status = if passed {
        HealthStatus::Healthy
    } else {
        HealthStatus::Unhealthy
    };
    HealthCheckResult { overall_status, checks, timestamp: now }
}

/// The four checks of the coordinator in the form in which they are
/// reported while nothing is probed: each passes.
pub fn perform_health_check_at(now: Timestamp) -> (result: HealthCheckResult)
    ensures
        result.overall_status == HealthStatus::Healthy,
        result.checks@.len() == 4,
        result.checks@[0].name@ == "system_resources"@,
        result.checks@[1].name@ == "database_connectivity"@,
        result.checks@[2].name@ == "external_dependencies"@,
        result.checks@[3].name@ == "security_posture"@,
        result.timestamp == now,
{
    let mut checks: Vec<HealthCheck> = Vec::new();
    checks.push(passed_check("system_resources", "System resources within acceptable limits"));
    checks.push(passed_check("database_connectivity", "Database connectivity verified"));
    checks.push(passed_check("external_dependencies", "External dependencies responsive"));
    checks.push(passed_check("security_posture", "Security posture compliant"));
    summarize_health_checks(checks, now)
}

/// What travels with a request through the coordinator.
#[derive(Debug)]
pub struct OperationalContext {
    pub correlation_id: String,
    pub request_id: String,
    pub user_id: Option<String>,
    pub tenant_id: Option<String>,
    pub trace_id: String,
    pub span_id: String,
    pub parent_span_id: Option<String>,
    pub operation_name: String,
    pub service_name: String,
    pub custom_attributes: Vec<(String, String)>,
}

impl OperationalContext {
    /// The context of the operation `operation_name`: under the request
    /// identifier given, or a fresh one where none is given, and with fresh
    /// identifiers for trace, span and correlation. The parent span and the
    /// service stay as they were.
    pub fn renew(
        self,
        operation_name: &str,
        request_id: Option<String>,
        user_id: Option<String>,
        tenant_id: Option<String>,
        custom_attributes: Vec<(String, String)>,
    ) -> (context: Self)
        ensures
            context.operation_name@ == operation_name@,
            match request_id {
                Some(id) => context.request_id == id,
                None => is_hyphenated_uuid(context.request_id@),
            },
            context.user_id == user_id,
            context.tenant_id == tenant_id,
            is_hyphenated_uuid(context.trace_id@),
            is_hyphenated_uuid(context.span_id@),
            is_hyphenated_uuid(context.correlation_id@),
            context.custom_attributes == custom_attributes,
            context.parent_span_id == self.parent_span_id,
            context.service_name == self.service_name,
    {
        let request_id = match request_id {
            Some(id) => id,
            None => fresh_uuid(),
        };
        OperationalContext {
            correlation_id: fresh_uuid(),
            request_id,
            user_id,
            tenant_id,
            trace_id: fresh_uuid(),
            span_id: fresh_uuid(),
            parent_span_id: self.parent_span_id,
            operation_name: String::from_str(operation_name),
            service_name: self.service_name,
            custom_attributes,
        }
    }
}

} // verus!
