//! Structured log entries: how one is built field by field, and which
//! entries a logger lets through to its outputs.

use vstd::prelude::*;
use vstd::string::*;
use crate::clock::Timestamp;
use crate::ident::{fresh_uuid, is_hyphenated_uuid};

verus! {

/// How grave an entry is.
#[derive(Clone, Copy, Debug, PartialEq, Eq, Structural)]
pub enum LogLevel {
    DEBUG,
    INFO,
    WARN,
    ERROR,
    CRITICAL,
}

impl LogLevel {
    /// The rank of the level, from 0 for `DEBUG` to 4 for `CRITICAL`.
    pub open spec fn rank(self) -> nat {
        match self {
            LogLevel::DEBUG => 0,
            LogLevel::INFO => 1,
            LogLevel::WARN => 2,
            LogLevel::ERROR => 3,
            LogLevel::CRITICAL => 4,
        }
    }

    /// The rank of the level.
    pub fn severity(&self) -> (rank: u8)
        ensures
            rank == self.rank(),
    {
        match self {
            LogLevel::DEBUG => 0,
            LogLevel::INFO => 1,
            LogLevel::WARN => 2,
            LogLevel::ERROR => 3,
            LogLevel::CRITICAL => 4,
        }
    }
}

/// Where an entry comes from.
#[derive(Debug)]
pub struct LogContext {
    pub trace_id: String,
    pub span_id: String,
    pub service: String,
    pub version: String,
    pub environment: String,
    pub node_id: Option<String>,
    pub user_id: Option<String>,
    pub session_id: Option<String>,
    pub correlation_id: Option<String>,
    pub operation: Option<String>,
    pub component: Option<String>,
}

/// What went wrong.
#[derive(Debug)]
pub struct ErrorDetails {
    pub error_type: String,
    pub error_code: Option<String>,
    pub stack_trace: Option<String>,
    pub cause: Option<String>,
    pub resolution_hint: Option<String>,
}

/// What an operation cost.
#[derive(Debug)]
pub struct PerformanceMetrics {
    pub duration_ms: u64,
    pub memory_usage_bytes: Option<u64>,
    pub request_size_bytes: Option<u64>,
    pub response_size_bytes: Option<u64>,
}

/// What an entry says about security.
#[derive(Debug)]
pub struct SecurityContext {
    pub authentication_method: Option<String>,
    pub authorization_level: Option<String>,
    pub source_ip: Option<String>,
    pub user_agent: Option<String>,
    pub threat_level: Option<String>,
    pub audit_event: Option<String>,
}

/// One entry of the log.
#[derive(Debug)]
pub struct StructuredLogEntry {
    pub timestamp: Timestamp,
    pub level: LogLevel,
    pub message: String,
    pub context: LogContext,
    /// Further fields, each as a name and a value in JSON.
    pub fields: Vec<(String, String)>,
    pub error: Option<ErrorDetails>,
    pub performance: Option<PerformanceMetrics>,
    pub security: Option<SecurityContext>,
}

/// An output that appends entries to a file, one JSON text per line.
#[derive(Debug)]
pub struct JsonFileOutput {
    pub file_path: String,
}

/// An output that prints entries, one JSON text per line.
#[derive(Debug)]
pub struct JsonStdoutOutput;

/// An output that sends entries to a search index.
#[derive(Debug)]
pub struct ElasticsearchOutput {
    pub endpoint: String,
    pub index_pattern: String,
    pub api_key: Option<String>,
}

/// One of the outputs that a logger writes to.
#[derive(Debug)]
pub enum LogTarget {
    Stdout(JsonStdoutOutput),
    File(JsonFileOutput),
    Elasticsearch(ElasticsearchOutput),
}

/// A copy of an optional text.
fn owned(text: Option<&str>) -> (copy: Option<String>)
    ensures
        match text {
            Some(t) => copy matches Some(c) && c@ == t@,
            None => copy is None,
        },
{
    match text {
        Some(t) => Some(String::from_str(t)),
        None => None,
    }
}

/// A logger: who it speaks for, from which level on it writes, and where to.
pub struct StructuredLogger {
    pub service_name: String,
    pub version: String,
    pub environment: String,
    pub minimum_level: LogLevel,
    pub outputs: Vec<LogTarget>,
}

impl StructuredLogger {
    /// A logger that writes entries from `INFO` on to the standard output.
    pub fn new(service_name: &str, version: &str, environment: &str) -> (logger: Self)
        ensures
            logger.service_name@ == service_name@,
            logger.version@ == version@,
            logger.environment@ == environment@,
            logger.minimum_level == LogLevel::INFO,
            logger.outputs@.len() == 1,
            logger.outputs@[0] is Stdout,
    {
        let mut outputs: Vec<LogTarget> = Vec::new();
        outputs.push(LogTarget::Stdout(JsonStdoutOutput));
        StructuredLogger {
            service_name: String::from_str(service_name),
            version: String::from_str(version),
            environment: String::from_str(environment),
            minimum_level: LogLevel::INFO,
            outputs,
        }
    }

    /// The logger, writing from `level` on.
    pub fn with_minimum_level(self, level: LogLevel) -> (logger: Self)
        ensures
            logger == (StructuredLogger { minimum_level: level, ..self }),
    {
        let mut logger = self;
        logger.minimum_level = level;
        logger
    }

    /// The logger, writing to the file `file_path` as well.
    pub fn with_file_output(self, file_path: &str) -> (logger: Self)
        ensures
            logger.outputs@.len() == self.outputs@.len() + 1,
            logger.outputs@.drop_last() == self.outputs@,
            logger.outputs@.last() matches LogTarget::File(file) && file.file_path@ == file_path@,
            logger == (StructuredLogger { outputs: logger.outputs, ..self }),
    {
        let mut logger = self;
        logger.outputs.push(LogTarget::File(JsonFileOutput { file_path: String::from_str(file_path) }));
        logger
    }

    /// The logger, writing to the search index at `endpoint` as well.
    pub fn with_elasticsearch_output(
        self,
        endpoint: &str,
        index_pattern: &str,
        api_key: Option<String>,
    ) -> (logger: Self)
        ensures
            logger.outputs@.len() == self.outputs@.len() + 1,
            logger.outputs@.drop_last() == self.outputs@,
            logger.outputs@.last() matches LogTarget::Elasticsearch(index) && index.endpoint@
                == endpoint@ && index.index_pattern@ == index_pattern@ && index.api_key == api_key,
            logger == (StructuredLogger { outputs: logger.outputs, ..self }),
    {
        let mut logger = self;
        logger.outputs.push(
            LogTarget::Elasticsearch(
                ElasticsearchOutput {
                    endpoint: String::from_str(endpoint),
                    index_pattern: String::from_str(index_pattern),
                    api_key,
                },
            ),
        );
        logger
    }

    /// Whether the logger writes entries of the level `level`: those that
    /// are at least as grave as its minimum level.
    pub fn should_log(&self, level: &LogLevel) -> (writes: bool)
        ensures
            writes == (level.rank() >= self.minimum_level.rank()),
    {
        level.severity() >= self.minimum_level.severity()
    }

    /// The context of an entry of this logger, under the trace and span
    /// given, or under fresh ones where none are given.
    pub fn create_context(&self, trace_id: Option<String>, span_id: Option<String>) -> (context:
        LogContext)
        ensures
            match trace_id {
                Some(id) => context.trace_id == id,
                None => is_hyphenated_uuid(context.trace_id@),
            },
            match span_id {
                Some(id) => context.span_id == id,
                None => is_hyphenated_uuid(context.span_id@),
            },
            context.service@ == self.service_name@,
            context.version@ == self.version@,
            context.environment@ == self.environment@,
            context.node_id is None,
            context.user_id is None,
            context.session_id is None,
            context.correlation_id is None,
            context.operation is None,
            context.component is None,
    {
        let trace_id = match trace_id {
            Some(id) => id,
            None => fresh_uuid(),
        };
        let span_id = match span_id {
            Some(id) => id,
            None => fresh_uuid(),
        };
        LogContext {
            trace_id,
            span_id,
            service: self.service_name.clone(),
            version: self.version.clone(),
            environment: self.environment.clone(),
            node_id: None,
            user_id: None,
            session_id: None,
            correlation_id: None,
            operation: None,
            component: None,
        }
    }

    /// Whether `builder` is an entry of this logger that has just been
    /// started at the level `level` with the message `message`: it passes
    /// where the level is at least the logger's minimum, speaks for the
    /// logger's service under a fresh trace and span, and holds nothing else.
    pub open spec fn starts(&self, builder: LogEntryBuilder, level: LogLevel, message: Seq<char>)
        -> bool {
        &&& builder.level == level
        &&& builder.message@ == message
        &&& builder.passes == (level.rank() >= self.minimum_level.rank())
        &&& is_hyphenated_uuid(builder.context.trace_id@)
        &&& is_hyphenated_uuid(builder.context.span_id@)
        &&& builder.context.service@ == self.service_name@
        &&& builder.context.version@ == self.version@
        &&& builder.context.environment@ == self.environment@
        &&& builder.context.node_id is None
        &&& builder.context.user_id is None
        &&& builder.context.session_id is None
        &&& builder.context.correlation_id is None
        &&& builder.context.operation is None
        &&& builder.context.component is None
        &&& builder.fields@.len() == 0
        &&& builder.error is None
        &&& builder.performance is None
        &&& builder.security is None
    }

    /// Starts an entry of the level `level` that says `message`.
    pub fn log(&self, level: LogLevel, message: &str) -> (builder: LogEntryBuilder)
        ensures
            self.starts(builder, level, message@),
    {
        LogEntryBuilder {
            passes: self.should_log(&level),
            level,
            message: String::from_str(message),
            context: self.create_context(None, None),
            fields: Vec::new(),
            error: None,
            performance: None,
            security: None,
        }
    }

    /// Starts an entry of the level `DEBUG`.
    pub fn debug(&self, message: &str) -> (builder: LogEntryBuilder)
        ensures
            self.starts(builder, LogLevel::DEBUG, message@),
    {
        self.log(LogLevel::DEBUG, message)
    }

    /// Starts an entry of the level `INFO`.
    pub fn info(&self, message: &str) -> (builder: LogEntryBuilder)
        ensures
            self.starts(builder, LogLevel::INFO, message@),
    {
        self.log(LogLevel::INFO, message)
    }

    /// Starts an entry of the level `WARN`.
    pub fn warn(&self, message: &str) -> (builder: LogEntryBuilder)
        ensures
            self.starts(builder, LogLevel::WARN, message@),
    {
        self.log(LogLevel::WARN, message)
    }

    /// Starts an entry of the level `ERROR`.
    pub fn error(&self, message: &str) -> (builder: LogEntryBuilder)
        ensures
            self.starts(builder, LogLevel::ERROR, message@),
    {
        self.log(LogLevel::ERROR, message)
    }

    /// Starts an entry of the level `CRITICAL`.
    pub fn critical(&self, message: &str) -> (builder: LogEntryBuilder)
        ensures
            self.starts(builder, LogLevel::CRITICAL, message@),
    {
        self.log(LogLevel::CRITICAL, message)
    }
}

/// An entry in the making.
#[derive(Debug)]
pub struct LogEntryBuilder {
    /// Whether the logger that started the entry writes entries of its level.
    pub passes: bool,
    pub level: LogLevel,
    pub message: String,
    pub context: LogContext,
    pub fields: Vec<(String, String)>,
    pub error: Option<ErrorDetails>,
    pub performance: Option<PerformanceMetrics>,
    pub security: Option<SecurityContext>,
}

impl LogEntryBuilder {
    /// The entry under the trace `trace_id`.
    pub fn with_trace_id(self, trace_id: &str) -> (builder: Self)
        ensures
            builder.context.trace_id@ == trace_id@,
            builder == (LogEntryBuilder {
                context: LogContext { trace_id: builder.context.trace_id, ..self.context },
                ..self
            }),
    {
        let mut builder = self;
        builder.context.trace_id = String::from_str(trace_id);
        builder
    }

    /// The entry under the span `span_id`.
    pub fn with_span_id(self, span_id: &str) -> (builder: Self)
        ensures
            builder.context.span_id@ == span_id@,
            builder == (LogEntryBuilder {
                context: LogContext { span_id: builder.context.span_id, ..self.context },
                ..self
            }),
    {
        let mut builder = self;
        builder.context.span_id = String::from_str(span_id);
        builder
    }

    /// The entry on behalf of the user `user_id`.
    pub fn with_user_id(self, user_id: &str) -> (builder: Self)
        ensures
            builder.context.user_id matches Some(id) && id@ == user_id@,
            builder == (LogEntryBuilder {
                context: LogContext { user_id: builder.context.user_id, ..self.context },
                ..self
            }),
    {
        let mut builder = self;
        builder.context.user_id = Some(String::from_str(user_id));
        builder
    }

    /// The entry within the session `session_id`.
    pub fn with_session_id(self, session_id: &str) -> (builder: Self)
        ensures
            builder.context.session_id matches Some(id) && id@ == session_id@,
            builder == (LogEntryBuilder {
                context: LogContext { session_id: builder.context.session_id, ..self.context },
                ..self
            }),
    {
        let mut builder = self;
        builder.context.session_id = Some(String::from_str(session_id));
        builder
    }

    /// The entry about the operation `operation`.
    pub fn with_operation(self, operation: &str) -> (builder: Self)
        ensures
            builder.context.operation matches Some(name) && name@ == operation@,
            builder == (LogEntryBuilder {
                context: LogContext { operation: builder.context.operation, ..self.context },
                ..self
            }),
    {
        let mut builder = self;
        builder.context.operation = Some(String::from_str(operation));
        builder
    }

    /// The entry from the component `component`.
    pub fn with_component(self, component: &str) -> (builder: Self)
        ensures
            builder.context.component matches Some(name) && name@ == component@,
            builder == (LogEntryBuilder {
                context: LogContext { component: builder.context.component, ..self.context },
                ..self
            }),
    {
        let mut builder = self;
        builder.context.component = Some(String::from_str(component));
        builder
    }

    /// The entry with one more field: `key`, and its value as JSON text.
    pub fn with_field(self, key: &str, json_value: String) -> (builder: Self)
        ensures
            builder.fields@.len() == self.fields@.len() + 1,
            builder.fields@.drop_last() == self.fields@,
            builder.fields@.last().0@ == key@,
            builder.fields@.last().1 == json_value,
            builder == (LogEntryBuilder { fields: builder.fields, ..self }),
    {
        let mut builder = self;
        builder.fields.push((String::from_str(key), json_value));
        builder
    }

    /// The entry about an error of the type `error_type`.
    pub fn with_error(self, error_type: &str, error_code: Option<&str>, stack_trace: Option<&str>) -> (builder:
        Self)
        ensures
            builder.error matches Some(details) && {
                &&& details.error_type@ == error_type@
                &&& match error_code {
                    Some(code) => details.error_code matches Some(c) && c@ == code@,
                    None => details.error_code is None,
                }
                &&& match stack_trace {
                    Some(trace) => details.stack_trace matches Some(t) && t@ == trace@,
                    None => details.stack_trace is None,
                }
                &&& details.cause is None
                &&& details.resolution_hint is None
            },
            builder == (LogEntryBuilder { error: builder.error, ..self }),
    {
        let mut builder = self;
        builder.error = Some(
            ErrorDetails {
                error_type: String::from_str(error_type),
                error_code: owned(error_code),
                stack_trace: owned(stack_trace),
                cause: None,
                resolution_hint: None,
            },
        );
        builder
    }

    /// The entry about an operation that took `duration_ms` milliseconds.
    pub fn with_performance(self, duration_ms: u64) -> (builder: Self)
        ensures
            builder.performance == Some(
                PerformanceMetrics {
                    duration_ms,
                    memory_usage_bytes: None,
                    request_size_bytes: None,
                    response_size_bytes: None,
                },
            ),
            builder == (LogEntryBuilder { performance: builder.performance, ..self }),
    {
        let mut builder = self;
        builder.performance = Some(
            PerformanceMetrics {
                duration_ms,
                memory_usage_bytes: None,
                request_size_bytes: None,
                response_size_bytes: None,
            },
        );
        builder
    }

    /// The entry about the security event `event_type`.
    pub fn with_security_event(self, event_type: &str, threat_level: Option<&str>) -> (builder:
        Self)
        ensures
            builder.security matches Some(security) && {
                &&& security.authentication_method is None
                &&& security.authorization_level is None
                &&& security.source_ip is None
                &&& security.user_agent is None
                &&& match threat_level {
                    Some(level) => security.threat_level matches Some(l) && l@ == level@,
                    None => security.threat_level is None,
                }
                &&& security.audit_event matches Some(event) && event@ == event_type@
            },
            builder == (LogEntryBuilder { security: builder.security, ..self }),
    {
        let mut builder = self;
        builder.security = Some(
            SecurityContext {
                authentication_method: None,
                authorization_level: None,
                source_ip: None,
                user_agent: None,
                threat_level: owned(threat_level),
                audit_event: Some(String::from_str(event_type)),
            },
        );
        builder
    }

    /// Ends the entry at `now`. The entry comes back where the logger writes
    /// entries of its level, to be written to each of the logger's outputs;
    /// nothing comes back where it does not.
    pub fn commit_at(self, now: Timestamp) -> (entry: Option<StructuredLogEntry>)
        ensures
            entry is Some <==> self.passes,
            entry matches Some(e) ==> e == (StructuredLogEntry {
                timestamp: now,
                level: self.level,
                message: self.message,
                context: self.context,
                fields: self.fields,
                error: self.error,
                performance: self.performance,
                security: self.security,
            }),
    {
        if self.passes {
            Some(
                StructuredLogEntry {
                    timestamp: now,
                    level: self.level,
                    message: self.message,
                    context: self.context,
                    fields: self.fields,
                    error: self.error,
                    performance: self.performance,
                    security: self.security,
                },
            )
        } else {
            None
        }
    }

    /// Ends the entry at the current time.
    pub fn commit(self) -> (entry: Option<StructuredLogEntry>)
        ensures
            entry is Some <==> self.passes,
            entry matches Some(e) ==> e == (StructuredLogEntry {
                timestamp: e.timestamp,
                level: self.level,
                message: self.message,
                context: self.context,
                fields: self.fields,
                error: self.error,
                performance: self.performance,
                security: self.security,
            }),
    {
        let now = Timestamp::now();
        self.commit_at(now)
    }
}

} // verus!
