use vstd::prelude::*;
use crate::duration::Duration;
use crate::json::{distinct_keys, JsonValue};
use crate::text::{decimal, decimal_text};

verus! {

/// Failures of the storage layer.
#[derive(Debug, Clone)]
pub enum DatabaseError {
    ConnectionFailed { database: String, reason: String, retry_after: Option<Duration> },
    QueryTimeout { seconds: u64, query: String, suggested_limit: Option<usize> },
    NotFound { entity_type: String, id: String, suggestions: Vec<String> },
    ConstraintViolation { constraint: String, table: String, conflicting_value: String },
    MigrationFailed {
        version: String,
        target_version: String,
        reason: String,
        rollback_available: bool,
    },
    TransactionFailed { operation: String, reason: String, can_retry: bool },
    IndexCorruption { index_name: String, table: String, repair_command: Option<String> },
}

/// Rejected input, with the field and the expectation it broke.
#[derive(Debug, Clone)]
pub enum ValidationError {
    RequiredFieldMissing { field: String, context: String, suggestion: Option<String> },
    InvalidFormat { field: String, expected: String, actual: String, examples: Vec<String> },
    OutOfRange { field: String, value: String, min: String, max: String },
    InvalidRelationship { source_type: String, target_type: String, allowed_types: Vec<String> },
    SchemaValidationFailed { schema_path: String, violations: Vec<String>, schema_version: String },
    BusinessRuleViolation { rule: String, context: JsonValue, resolution_steps: Vec<String> },
}

/// Transport failures, with retry guidance.
///
/// `reset_time` is in microseconds since the Unix epoch (UTC).
#[derive(Debug, Clone)]
pub enum NetworkError {
    ConnectionTimeout {
        endpoint: String,
        timeout_ms: u64,
        retry_after: Option<Duration>,
        max_retries: u32,
    },
    DnsResolutionFailed { hostname: String, dns_servers: Vec<String>, fallback_endpoints: Vec<String> },
    HttpError {
        status_code: u16,
        reason: String,
        endpoint: String,
        headers: Vec<(String, String)>,
        retryable: bool,
    },
    TlsError { reason: String, certificate_info: Option<String>, suggested_action: String },
    RateLimitExceeded { limit: u32, window: String, reset_time: i64, retry_after: Duration },
    NetworkUnreachable { network: String, interface: Option<String>, routing_table: Vec<String> },
}

/// Failures of the processing services, with service attribution.
///
/// `similarity_threshold` is an IEEE-754 binary32 bit pattern.
#[derive(Debug, Clone)]
pub enum ProcessingError {
    ModelError {
        service: String,
        model_name: String,
        reason: String,
        model_version: Option<String>,
        fallback_available: bool,
    },
    EmbeddingFailed {
        reason: String,
        input_type: String,
        dimensions: Option<usize>,
        model_info: Option<String>,
    },
    VectorSearchFailed {
        reason: String,
        index_name: String,
        query_dimensions: usize,
        similarity_threshold: Option<u32>,
    },
    WorkflowFailed {
        workflow_id: String,
        step: String,
        reason: String,
        can_resume: bool,
        checkpoint_available: bool,
    },
    ResourceExhausted {
        resource_type: String,
        current_usage: String,
        limit: String,
        suggested_action: String,
    },
    SerializationFailed {
        format: String,
        reason: String,
        data_type: String,
        fallback_formats: Vec<String>,
    },
}

/// Failures between services.
///
/// `reset_time` is in microseconds since the Unix epoch (UTC); `current_load`
/// and `max_capacity` are IEEE-754 binary32 bit patterns.
#[derive(Debug, Clone)]
pub enum ServiceError {
    ServiceUnavailable {
        service_name: String,
        endpoint: String,
        health_check_url: Option<String>,
        estimated_recovery: Option<Duration>,
    },
    VersionMismatch {
        service: String,
        expected: String,
        actual: String,
        compatibility_matrix: Vec<String>,
    },
    ConfigurationError {
        service: String,
        config_key: String,
        expected_type: String,
        current_value: Option<String>,
        valid_values: Vec<String>,
    },
    CircuitBreakerOpen { service: String, failure_count: u32, failure_threshold: u32, reset_time: i64 },
    AuthenticationFailed { service: String, reason: String, auth_type: String, renewal_required: bool },
    CapacityExceeded { service: String, current_load: u32, max_capacity: u32, queue_length: Option<u32> },
}

/// How serious an error is.
#[derive(Debug, Clone, Copy, PartialEq, Eq, Structural)]
pub enum ErrorSeverity {
    /// Informational, no action required.
    Info,
    /// Worth noting, does not prevent the operation.
    Warning,
    /// Prevents the current operation from completing.
    Error,
    /// Affects the stability of the system.
    Critical,
}

/// The error every cross-service operation reports: one of five domains, or
/// one of two catch-all variants.
#[derive(Debug, Clone)]
pub enum NodeSpaceError {
    Database(DatabaseError),
    Validation(ValidationError),
    Network(NetworkError),
    Processing(ProcessingError),
    Service(ServiceError),
    IoError { message: String },
    InternalError { message: String, service: String },
}

/// The outcome of an operation of this library.
pub type NodeSpaceResult<T> = Result<T, NodeSpaceError>;

/// The label of a severity level.
pub open spec fn severity_label(s: ErrorSeverity) -> Seq<char> {
    match s {
        ErrorSeverity::Info => "INFO"@,
        ErrorSeverity::Warning => "WARN"@,
        ErrorSeverity::Error => "ERROR"@,
        ErrorSeverity::Critical => "CRITICAL"@,
    }
}

impl ErrorSeverity {
    /// The label of the level: INFO, WARN, ERROR or CRITICAL.
    pub fn to_string(&self) -> (r: String)
        ensures
            r@ == severity_label(*self),
    {
        match self {
            ErrorSeverity::Info => String::from_str("INFO"),
            ErrorSeverity::Warning => String::from_str("WARN"),
            ErrorSeverity::Error => String::from_str("ERROR"),
            ErrorSeverity::Critical => String::from_str("CRITICAL"),
        }
    }
}


/// A span of `secs` whole seconds.
pub open spec fn secs(d: Duration, secs: int) -> bool {
    d.secs == secs && d.nanos == 0
}

/// A span that is present and lasts `n` whole seconds.
pub open spec fn some_secs(d: Option<Duration>, n: int) -> bool {
    d matches Some(w) && secs(w, n)
}

/// The text of an optional string.
pub open spec fn opt_text(s: Option<String>) -> Option<Seq<char>> {
    match s {
        Some(t) => Some(t@),
        None => None,
    }
}

/// The binary32 bit pattern of 0.7, the default similarity threshold.
pub const DEFAULT_SIMILARITY_THRESHOLD_BITS: u32 = 0x3F33_3333;

/// The embedding dimensionality that processing errors report by default.
pub const DEFAULT_EMBEDDING_DIMENSIONS: usize = 384;

impl DatabaseError {
    /// A connection failure that suggests retrying after five seconds.
    pub fn connection_failed(database: &str, reason: &str) -> (r: Self)
        ensures
            r matches DatabaseError::ConnectionFailed { database: d, reason: why, retry_after }
                && d@ == database@ && why@ == reason@
                && some_secs(retry_after, 5),
    {
        DatabaseError::ConnectionFailed {
            database: String::from_str(database),
            reason: String::from_str(reason),
            retry_after: Some(Duration::from_secs(5)),
        }
    }

    /// A missing record, with no suggestions.
    pub fn not_found(entity_type: &str, id: &str) -> (r: Self)
        ensures
            r matches DatabaseError::NotFound { entity_type: t, id: i, suggestions }
                && t@ == entity_type@ && i@ == id@ && suggestions@.len() == 0,
    {
        DatabaseError::NotFound {
            entity_type: String::from_str(entity_type),
            id: String::from_str(id),
            suggestions: Vec::new(),
        }
    }

    /// A query timeout that suggests a limit of one thousand rows.
    pub fn query_timeout(query: &str, seconds: u64) -> (r: Self)
        ensures
            r matches DatabaseError::QueryTimeout { seconds: s, query: q, suggested_limit }
                && s == seconds && q@ == query@ && suggested_limit == Some(1000usize),
    {
        DatabaseError::QueryTimeout {
            seconds,
            query: String::from_str(query),
            suggested_limit: Some(1000),
        }
    }
}

/// The suggestion a missing-field error carries for `field`.
pub open spec fn provide_value_hint(field: Seq<char>) -> Seq<char> {
    "Please provide a value for '"@ + field + "'"@
}

impl ValidationError {
    /// A missing field, with a suggestion that names it.
    pub fn required_field(field: &str, context: &str) -> (r: Self)
        ensures
            r matches ValidationError::RequiredFieldMissing { field: f, context: c, suggestion }
                && f@ == field@ && c@ == context@
                && opt_text(suggestion) == Some(provide_value_hint(field@)),
    {
        let hint = String::from_str("Please provide a value for '").concat(field).concat("'");
        ValidationError::RequiredFieldMissing {
            field: String::from_str(field),
            context: String::from_str(context),
            suggestion: Some(hint),
        }
    }

    /// A value whose format is not the expected one, with no examples.
    pub fn invalid_format(field: &str, expected: &str, actual: &str) -> (r: Self)
        ensures
            r matches ValidationError::InvalidFormat { field: f, expected: e, actual: a, examples }
                && f@ == field@ && e@ == expected@ && a@ == actual@ && examples@.len() == 0,
    {
        ValidationError::InvalidFormat {
            field: String::from_str(field),
            expected: String::from_str(expected),
            actual: String::from_str(actual),
            examples: Vec::new(),
        }
    }

    /// A value outside `[min, max]`.
    pub fn out_of_range(field: &str, value: &str, min: &str, max: &str) -> (r: Self)
        ensures
            r matches ValidationError::OutOfRange { field: f, value: v, min: lo, max: hi }
                && f@ == field@ && v@ == value@ && lo@ == min@ && hi@ == max@,
    {
        ValidationError::OutOfRange {
            field: String::from_str(field),
            value: String::from_str(value),
            min: String::from_str(min),
            max: String::from_str(max),
        }
    }
}

impl NetworkError {
    /// Headers are a map: no header name appears twice.
    pub open spec fn wf(self) -> bool {
        self matches NetworkError::HttpError { headers, .. } ==> distinct_keys(headers@)
    }

    /// A connection timeout: retry after one second, at most three times.
    pub fn connection_timeout(endpoint: &str, timeout_ms: u64) -> (r: Self)
        ensures
            r matches NetworkError::ConnectionTimeout { endpoint: e, timeout_ms: t, retry_after, max_retries }
                && e@ == endpoint@ && t == timeout_ms
                && some_secs(retry_after, 1)
                && max_retries == 3,
    {
        NetworkError::ConnectionTimeout {
            endpoint: String::from_str(endpoint),
            timeout_ms,
            retry_after: Some(Duration::from_secs(1)),
            max_retries: 3,
        }
    }

    /// An HTTP error, retryable exactly for a 5xx status.
    pub fn http_error(status_code: u16, reason: &str, endpoint: &str) -> (r: Self)
        ensures
            r matches NetworkError::HttpError { status_code: s, reason: why, endpoint: e, headers, retryable }
                && s == status_code && why@ == reason@ && e@ == endpoint@
                && headers@.len() == 0
                && retryable == (500 <= status_code <= 599),
            r.wf(),
    {
        NetworkError::HttpError {
            status_code,
            reason: String::from_str(reason),
            endpoint: String::from_str(endpoint),
            headers: Vec::new(),
            retryable: 500 <= status_code && status_code <= 599,
        }
    }

    /// A rate limit, to be retried after sixty seconds.
    pub fn rate_limit_exceeded(limit: u32, window: &str, reset_time: i64) -> (r: Self)
        ensures
            r matches NetworkError::RateLimitExceeded { limit: l, window: w, reset_time: t, retry_after }
                && l == limit && w@ == window@ && t == reset_time && secs(retry_after, 60),
    {
        NetworkError::RateLimitExceeded {
            limit,
            window: String::from_str(window),
            reset_time,
            retry_after: Duration::from_secs(60),
        }
    }
}

impl ProcessingError {
    /// A model failure with no known version and no fallback.
    pub fn model_error(service: &str, model_name: &str, reason: &str) -> (r: Self)
        ensures
            r matches ProcessingError::ModelError { service: s, model_name: m, reason: why, model_version, fallback_available }
                && s@ == service@ && m@ == model_name@ && why@ == reason@
                && model_version is None && !fallback_available,
    {
        ProcessingError::ModelError {
            service: String::from_str(service),
            model_name: String::from_str(model_name),
            reason: String::from_str(reason),
            model_version: None,
            fallback_available: false,
        }
    }

    /// An embedding failure for the default dimensionality.
    pub fn embedding_failed(reason: &str, input_type: &str) -> (r: Self)
        ensures
            r matches ProcessingError::EmbeddingFailed { reason: why, input_type: t, dimensions, model_info }
                && why@ == reason@ && t@ == input_type@
                && dimensions == Some(DEFAULT_EMBEDDING_DIMENSIONS) && model_info is None,
    {
        ProcessingError::EmbeddingFailed {
            reason: String::from_str(reason),
            input_type: String::from_str(input_type),
            dimensions: Some(DEFAULT_EMBEDDING_DIMENSIONS),
            model_info: None,
        }
    }

    /// A vector search failure with the default similarity threshold.
    pub fn vector_search_failed(reason: &str, index_name: &str, query_dimensions: usize) -> (r: Self)
        ensures
            r matches ProcessingError::VectorSearchFailed { reason: why, index_name: i, query_dimensions: q, similarity_threshold }
                && why@ == reason@ && i@ == index_name@ && q == query_dimensions
                && similarity_threshold == Some(DEFAULT_SIMILARITY_THRESHOLD_BITS),
    {
        ProcessingError::VectorSearchFailed {
            reason: String::from_str(reason),
            index_name: String::from_str(index_name),
            query_dimensions,
            similarity_threshold: Some(DEFAULT_SIMILARITY_THRESHOLD_BITS),
        }
    }
}

impl ServiceError {
    /// An unavailable service, expected back within thirty seconds.
    pub fn service_unavailable(service_name: &str, endpoint: &str) -> (r: Self)
        ensures
            r matches ServiceError::ServiceUnavailable { service_name: s, endpoint: e, health_check_url, estimated_recovery }
                && s@ == service_name@ && e@ == endpoint@ && health_check_url is None
                && some_secs(estimated_recovery, 30),
    {
        ServiceError::ServiceUnavailable {
            service_name: String::from_str(service_name),
            endpoint: String::from_str(endpoint),
            health_check_url: None,
            estimated_recovery: Some(Duration::from_secs(30)),
        }
    }

    /// A version mismatch with an empty compatibility list.
    pub fn version_mismatch(service: &str, expected: &str, actual: &str) -> (r: Self)
        ensures
            r matches ServiceError::VersionMismatch { service: s, expected: e, actual: a, compatibility_matrix }
                && s@ == service@ && e@ == expected@ && a@ == actual@
                && compatibility_matrix@.len() == 0,
    {
        ServiceError::VersionMismatch {
            service: String::from_str(service),
            expected: String::from_str(expected),
            actual: String::from_str(actual),
            compatibility_matrix: Vec::new(),
        }
    }

    /// A configuration error with no current value and no valid values.
    pub fn configuration_error(service: &str, config_key: &str, expected_type: &str) -> (r: Self)
        ensures
            r matches ServiceError::ConfigurationError { service: s, config_key: k, expected_type: t, current_value, valid_values }
                && s@ == service@ && k@ == config_key@ && t@ == expected_type@
                && current_value is None && valid_values@.len() == 0,
    {
        ServiceError::ConfigurationError {
            service: String::from_str(service),
            config_key: String::from_str(config_key),
            expected_type: String::from_str(expected_type),
            current_value: None,
            valid_values: Vec::new(),
        }
    }
}


/// The category names, one for each top-level variant.
pub open spec fn category_names() -> Seq<Seq<char>> {
    seq!["database"@, "validation"@, "network"@, "processing"@, "service"@, "io"@, "internal"@]
}

impl NodeSpaceError {
    /// The fixed severity table.
    pub open spec fn spec_severity(self) -> ErrorSeverity {
        match self {
            NodeSpaceError::Database(DatabaseError::ConnectionFailed { .. }) => ErrorSeverity::Critical,
            NodeSpaceError::Database(DatabaseError::QueryTimeout { .. }) => ErrorSeverity::Warning,
            NodeSpaceError::Validation(_) => ErrorSeverity::Error,
            NodeSpaceError::Network(NetworkError::ConnectionTimeout { .. }) => ErrorSeverity::Warning,
            NodeSpaceError::Network(NetworkError::HttpError { status_code, .. }) => {
                if 500 <= status_code && status_code <= 599 {
                    ErrorSeverity::Error
                } else {
                    ErrorSeverity::Info
                }
            },
            NodeSpaceError::Processing(ProcessingError::ModelError { .. }) => ErrorSeverity::Error,
            NodeSpaceError::Service(ServiceError::ServiceUnavailable { .. }) => ErrorSeverity::Critical,
            _ => ErrorSeverity::Info,
        }
    }

    /// Whether re-attempting the failed operation is sanctioned.
    pub open spec fn spec_is_retryable(self) -> bool {
        match self {
            NodeSpaceError::Database(DatabaseError::TransactionFailed { can_retry, .. }) => can_retry,
            NodeSpaceError::Network(NetworkError::HttpError { retryable, .. }) => retryable,
            NodeSpaceError::Network(NetworkError::ConnectionTimeout { .. }) => true,
            NodeSpaceError::Network(NetworkError::RateLimitExceeded { .. }) => true,
            NodeSpaceError::Processing(ProcessingError::ModelError { fallback_available, .. }) => fallback_available,
            NodeSpaceError::Service(ServiceError::ServiceUnavailable { .. }) => true,
            NodeSpaceError::Service(ServiceError::CircuitBreakerOpen { .. }) => false,
            _ => false,
        }
    }

    /// The service the error names, if it names one.
    pub open spec fn spec_service_attribution(self) -> Option<String> {
        match self {
            NodeSpaceError::Processing(ProcessingError::ModelError { service, .. }) => Some(service),
            NodeSpaceError::Service(ServiceError::ServiceUnavailable { service_name, .. }) => Some(service_name),
            NodeSpaceError::Service(ServiceError::VersionMismatch { service, .. }) => Some(service),
            NodeSpaceError::Service(ServiceError::ConfigurationError { service, .. }) => Some(service),
            NodeSpaceError::Service(ServiceError::CircuitBreakerOpen { service, .. }) => Some(service),
            NodeSpaceError::Service(ServiceError::AuthenticationFailed { service, .. }) => Some(service),
            NodeSpaceError::Service(ServiceError::CapacityExceeded { service, .. }) => Some(service),
            NodeSpaceError::InternalError { service, .. } => Some(service),
            _ => None,
        }
    }

    /// The backoff hint the error carries, if any.
    pub open spec fn spec_retry_after(self) -> Option<Duration> {
        match self {
            NodeSpaceError::Database(DatabaseError::ConnectionFailed { retry_after, .. }) => retry_after,
            NodeSpaceError::Network(NetworkError::ConnectionTimeout { retry_after, .. }) => retry_after,
            NodeSpaceError::Network(NetworkError::RateLimitExceeded { retry_after, .. }) => Some(retry_after),
            NodeSpaceError::Service(ServiceError::ServiceUnavailable { estimated_recovery, .. }) => estimated_recovery,
            _ => None,
        }
    }

    /// The position of the error's category in `category_names()`.
    pub open spec fn spec_category_index(self) -> int {
        match self {
            NodeSpaceError::Database(_) => 0,
            NodeSpaceError::Validation(_) => 1,
            NodeSpaceError::Network(_) => 2,
            NodeSpaceError::Processing(_) => 3,
            NodeSpaceError::Service(_) => 4,
            NodeSpaceError::IoError { .. } => 5,
            NodeSpaceError::InternalError { .. } => 6,
        }
    }

    /// The name of the error's category.
    pub open spec fn spec_category(self) -> Seq<char> {
        category_names()[self.spec_category_index()]
    }

    /// A connection failure to an unknown database.
    pub fn database_error(msg: &str) -> (r: Self)
        ensures
            r matches NodeSpaceError::Database(DatabaseError::ConnectionFailed { database, reason, retry_after })
                && database@ == "unknown"@ && reason@ == msg@ && some_secs(retry_after, 5),
    {
        proof {
            reveal_strlit("unknown");
        }
        NodeSpaceError::Database(DatabaseError::connection_failed("unknown", msg))
    }

    /// A missing record of unknown type.
    pub fn not_found(msg: &str) -> (r: Self)
        ensures
            r matches NodeSpaceError::Database(DatabaseError::NotFound { entity_type, id, suggestions })
                && entity_type@ == "unknown"@ && id@ == msg@ && suggestions@.len() == 0,
    {
        NodeSpaceError::Database(DatabaseError::not_found("unknown", msg))
    }

    /// A missing field named "unknown", whose context is `msg`.
    pub fn validation_error(msg: &str) -> (r: Self)
        ensures
            r matches NodeSpaceError::Validation(ValidationError::RequiredFieldMissing { field, context, suggestion })
                && field@ == "unknown"@ && context@ == msg@
                && opt_text(suggestion) == Some(provide_value_hint("unknown"@)),
    {
        NodeSpaceError::Validation(ValidationError::required_field("unknown", msg))
    }

    /// The same error; the context is accepted and not kept.
    pub fn with_context(self, context: std::collections::HashMap<String, String>) -> (r: Self)
        ensures
            r == self,
    {
        self
    }

    /// The severity of the error, by the fixed table.
    pub fn severity(&self) -> (r: ErrorSeverity)
        ensures
            r == self.spec_severity(),
    {
        match self {
            NodeSpaceError::Database(DatabaseError::ConnectionFailed { .. }) => ErrorSeverity::Critical,
            NodeSpaceError::Database(DatabaseError::QueryTimeout { .. }) => ErrorSeverity::Warning,
            NodeSpaceError::Validation(_) => ErrorSeverity::Error,
            NodeSpaceError::Network(NetworkError::ConnectionTimeout { .. }) => ErrorSeverity::Warning,
            NodeSpaceError::Network(NetworkError::HttpError { status_code, .. }) if 500 <= *status_code && *status_code <= 599 => {
                ErrorSeverity::Error
            },
            NodeSpaceError::Processing(ProcessingError::ModelError { .. }) => ErrorSeverity::Error,
            NodeSpaceError::Service(ServiceError::ServiceUnavailable { .. }) => ErrorSeverity::Critical,
            _ => ErrorSeverity::Info,
        }
    }

    /// Whether re-attempting the failed operation is sanctioned; never for an
    /// open circuit breaker.
    pub fn is_retryable(&self) -> (r: bool)
        ensures
            r == self.spec_is_retryable(),
    {
        match self {
            NodeSpaceError::Database(DatabaseError::TransactionFailed { can_retry, .. }) => *can_retry,
            NodeSpaceError::Network(NetworkError::HttpError { retryable, .. }) => *retryable,
            NodeSpaceError::Network(NetworkError::ConnectionTimeout { .. }) => true,
            NodeSpaceError::Network(NetworkError::RateLimitExceeded { .. }) => true,
            NodeSpaceError::Processing(ProcessingError::ModelError { fallback_available, .. }) => *fallback_available,
            NodeSpaceError::Service(ServiceError::ServiceUnavailable { .. }) => true,
            NodeSpaceError::Service(ServiceError::CircuitBreakerOpen { .. }) => false,
            _ => false,
        }
    }

    /// The service that owns the error, when the error names one.
    pub fn service_attribution(&self) -> (r: Option<String>)
        ensures
            r == self.spec_service_attribution(),
    {
        match self {
            NodeSpaceError::Processing(ProcessingError::ModelError { service, .. }) => Some(service.clone()),
            NodeSpaceError::Service(ServiceError::ServiceUnavailable { service_name, .. }) => {
                Some(service_name.clone())
            },
            NodeSpaceError::Service(ServiceError::VersionMismatch { service, .. }) => Some(service.clone()),
            NodeSpaceError::Service(ServiceError::ConfigurationError { service, .. }) => Some(service.clone()),
            NodeSpaceError::Service(ServiceError::CircuitBreakerOpen { service, .. }) => Some(service.clone()),
            NodeSpaceError::Service(ServiceError::AuthenticationFailed { service, .. }) => Some(service.clone()),
            NodeSpaceError::Service(ServiceError::CapacityExceeded { service, .. }) => Some(service.clone()),
            NodeSpaceError::InternalError { service, .. } => Some(service.clone()),
            _ => None,
        }
    }

    /// The error's own backoff hint; `None` when it carries none.
    pub fn retry_after(&self) -> (r: Option<Duration>)
        ensures
            r == self.spec_retry_after(),
    {
        match self {
            NodeSpaceError::Database(DatabaseError::ConnectionFailed { retry_after, .. }) => *retry_after,
            NodeSpaceError::Network(NetworkError::ConnectionTimeout { retry_after, .. }) => *retry_after,
            NodeSpaceError::Network(NetworkError::RateLimitExceeded { retry_after, .. }) => Some(*retry_after),
            NodeSpaceError::Service(ServiceError::ServiceUnavailable { estimated_recovery, .. }) => {
                *estimated_recovery
            },
            _ => None,
        }
    }

    /// The name of the variant that produced the error, for metrics.
    pub fn error_category(&self) -> (r: &'static str)
        ensures
            r@ == self.spec_category(),
    {
        match self {
            NodeSpaceError::Database(_) => "database",
            NodeSpaceError::Validation(_) => "validation",
            NodeSpaceError::Network(_) => "network",
            NodeSpaceError::Processing(_) => "processing",
            NodeSpaceError::Service(_) => "service",
            NodeSpaceError::IoError { .. } => "io",
            NodeSpaceError::InternalError { .. } => "internal",
        }
    }
}

impl From<DatabaseError> for NodeSpaceError {
    fn from(e: DatabaseError) -> (r: NodeSpaceError) {
        NodeSpaceError::Database(e)
    }
}

impl vstd::std_specs::convert::FromSpecImpl<DatabaseError> for NodeSpaceError {
    open spec fn obeys_from_spec() -> bool {
        true
    }

    open spec fn from_spec(e: DatabaseError) -> NodeSpaceError {
        NodeSpaceError::Database(e)
    }
}

impl From<ValidationError> for NodeSpaceError {
    fn from(e: ValidationError) -> (r: NodeSpaceError) {
        NodeSpaceError::Validation(e)
    }
}

impl vstd::std_specs::convert::FromSpecImpl<ValidationError> for NodeSpaceError {
    open spec fn obeys_from_spec() -> bool {
        true
    }

    open spec fn from_spec(e: ValidationError) -> NodeSpaceError {
        NodeSpaceError::Validation(e)
    }
}

impl From<NetworkError> for NodeSpaceError {
    fn from(e: NetworkError) -> (r: NodeSpaceError) {
        NodeSpaceError::Network(e)
    }
}

impl vstd::std_specs::convert::FromSpecImpl<NetworkError> for NodeSpaceError {
    open spec fn obeys_from_spec() -> bool {
        true
    }

    open spec fn from_spec(e: NetworkError) -> NodeSpaceError {
        NodeSpaceError::Network(e)
    }
}

impl From<ProcessingError> for NodeSpaceError {
    fn from(e: ProcessingError) -> (r: NodeSpaceError) {
        NodeSpaceError::Processing(e)
    }
}

impl vstd::std_specs::convert::FromSpecImpl<ProcessingError> for NodeSpaceError {
    open spec fn obeys_from_spec() -> bool {
        true
    }

    open spec fn from_spec(e: ProcessingError) -> NodeSpaceError {
        NodeSpaceError::Processing(e)
    }
}

impl From<ServiceError> for NodeSpaceError {
    fn from(e: ServiceError) -> (r: NodeSpaceError) {
        NodeSpaceError::Service(e)
    }
}

impl vstd::std_specs::convert::FromSpecImpl<ServiceError> for NodeSpaceError {
    open spec fn obeys_from_spec() -> bool {
        true
    }

    open spec fn from_spec(e: ServiceError) -> NodeSpaceError {
        NodeSpaceError::Service(e)
    }
}

/// A rate-limited request may be retried, while an open circuit breaker
/// refuses retries, though both mean that a service is refusing work.
pub proof fn lemma_rate_limit_retryable_breaker_not(limited: NodeSpaceError, breaker: NodeSpaceError)
    requires
        limited matches NodeSpaceError::Network(NetworkError::RateLimitExceeded { .. }),
        breaker matches NodeSpaceError::Service(ServiceError::CircuitBreakerOpen { .. }),
    ensures
        limited.spec_is_retryable(),
        !breaker.spec_is_retryable(),
{
}

/// A rate-limit error reports exactly the backoff it was configured with, and
/// a validation error reports none.
pub proof fn lemma_retry_after_rate_limit_and_validation(limited: NodeSpaceError, invalid: NodeSpaceError)
    requires
        limited matches NodeSpaceError::Network(NetworkError::RateLimitExceeded { .. }),
        invalid matches NodeSpaceError::Validation(_),
    ensures
        limited.spec_retry_after() == Some(limited->Network_0->RateLimitExceeded_retry_after),
        invalid.spec_retry_after() is None,
{
}

/// Every error falls in exactly one of the fixed categories: its category is
/// one of the names, and the names are pairwise distinct.
pub proof fn lemma_category_partition(e: NodeSpaceError)
    ensures
        category_names().len() == 7,
        exists|i: int| 0 <= i < 7 && category_names()[i] == e.spec_category(),
        forall|i: int, j: int| 0 <= i < j < 7 ==> category_names()[i] != category_names()[j],
{
    reveal_strlit("database");
    reveal_strlit("validation");
    reveal_strlit("network");
    reveal_strlit("processing");
    reveal_strlit("service");
    reveal_strlit("io");
    reveal_strlit("internal");
    let names = category_names();
    assert(names[e.spec_category_index()] == e.spec_category());
    assert forall|i: int, j: int| 0 <= i < j < 7 implies names[i] != names[j] by {
        if names[i] == names[j] {
            assert(names[i].len() == names[j].len());
            assert(names[i][0] == names[j][0]);
        }
    }
}


/// The message of a storage failure.
pub open spec fn database_message(e: DatabaseError) -> Seq<char> {
    match e {
        DatabaseError::ConnectionFailed { database, reason, .. } => "Connection failed to "@ + database@ + ": "@
            + reason@,
        DatabaseError::QueryTimeout { seconds, query, .. } => "Query timeout after "@ + decimal(seconds as nat)
            + "s: "@ + query@,
        DatabaseError::NotFound { entity_type, id, .. } => "Record not found: "@ + entity_type@ + " with id "@
            + id@,
        DatabaseError::ConstraintViolation { constraint, table, .. } => "Constraint violation: "@ + constraint@
            + " on "@ + table@,
        DatabaseError::MigrationFailed { version, target_version, reason, .. } => "Migration failed: "@
            + version@ + " -> "@ + target_version@ + ": "@ + reason@,
        DatabaseError::TransactionFailed { operation, .. } => "Transaction failed: "@ + operation@,
        DatabaseError::IndexCorruption { index_name, .. } => "Index corruption detected: "@ + index_name@,
    }
}

/// The message of a validation failure.
pub open spec fn validation_message(e: ValidationError) -> Seq<char> {
    match e {
        ValidationError::RequiredFieldMissing { field, context, .. } => "Required field missing: "@ + field@
            + " in "@ + context@,
        ValidationError::InvalidFormat { field, expected, actual, .. } => "Invalid format for "@ + field@
            + ": expected "@ + expected@ + ", got "@ + actual@,
        ValidationError::OutOfRange { field, value, min, max } => "Value out of range for "@ + field@ + ": "@
            + value@ + " not in ["@ + min@ + ", "@ + max@ + "]"@,
        ValidationError::InvalidRelationship { source_type, target_type, .. } => "Invalid relationship: "@
            + source_type@ + " cannot reference "@ + target_type@,
        ValidationError::SchemaValidationFailed { schema_path, .. } => "Schema validation failed: "@
            + schema_path@,
        ValidationError::BusinessRuleViolation { rule, .. } => "Business rule violation: "@ + rule@,
    }
}

/// The message of a transport failure.
pub open spec fn network_message(e: NetworkError) -> Seq<char> {
    match e {
        NetworkError::ConnectionTimeout { endpoint, timeout_ms, .. } => "Connection timeout to "@ + endpoint@
            + " after "@ + decimal(timeout_ms as nat) + "ms"@,
        NetworkError::DnsResolutionFailed { hostname, .. } => "DNS resolution failed for "@ + hostname@,
        NetworkError::HttpError { status_code, reason, .. } => "HTTP error "@ + decimal(status_code as nat)
            + ": "@ + reason@,
        NetworkError::TlsError { reason, .. } => "TLS/SSL error: "@ + reason@,
        NetworkError::RateLimitExceeded { limit, window, .. } => "Rate limit exceeded: "@ + decimal(limit as nat)
            + " requests per "@ + window@,
        NetworkError::NetworkUnreachable { network, .. } => "Network unreachable: "@ + network@,
    }
}

/// The message of a processing failure.
pub open spec fn processing_message(e: ProcessingError) -> Seq<char> {
    match e {
        ProcessingError::ModelError { service, model_name, reason, .. } => "AI model error in "@ + service@
            + ": "@ + model_name@ + " - "@ + reason@,
        ProcessingError::EmbeddingFailed { reason, .. } => "Embedding generation failed: "@ + reason@,
        ProcessingError::VectorSearchFailed { reason, .. } => "Vector search failed: "@ + reason@,
        ProcessingError::WorkflowFailed { workflow_id, step, .. } => "Workflow execution failed: "@
            + workflow_id@ + " at step "@ + step@,
        ProcessingError::ResourceExhausted { resource_type, .. } => "Resource exhausted: "@ + resource_type@,
        ProcessingError::SerializationFailed { format, reason, .. } => "Serialization failed: "@ + format@
            + " - "@ + reason@,
    }
}

/// The message of a failure between services.
pub open spec fn service_message(e: ServiceError) -> Seq<char> {
    match e {
        ServiceError::ServiceUnavailable { service_name, .. } => "Service unavailable: "@ + service_name@,
        ServiceError::VersionMismatch { service, expected, actual, .. } => "Service version mismatch: "@
            + service@ + " expected "@ + expected@ + ", got "@ + actual@,
        ServiceError::ConfigurationError { service, config_key, .. } => "Configuration error in "@ + service@
            + ": "@ + config_key@,
        ServiceError::CircuitBreakerOpen { service, failure_count, .. } => "Circuit breaker open for "@
            + service@ + ": "@ + decimal(failure_count as nat) + " failures"@,
        ServiceError::AuthenticationFailed { service, reason, .. } => "Authentication failed for service "@
            + service@ + ": "@ + reason@,
        ServiceError::CapacityExceeded { service, .. } => "Service capacity exceeded: "@ + service@,
    }
}

/// The message of an error.
pub open spec fn error_message(e: NodeSpaceError) -> Seq<char> {
    match e {
        NodeSpaceError::Database(d) => "Database operation failed: "@ + database_message(d),
        NodeSpaceError::Validation(v) => "Validation failed: "@ + validation_message(v),
        NodeSpaceError::Network(n) => "Network operation failed: "@ + network_message(n),
        NodeSpaceError::Processing(p) => "Processing failed: "@ + processing_message(p),
        NodeSpaceError::Service(s) => "Service error: "@ + service_message(s),
        NodeSpaceError::IoError { message } => "IO error: "@ + message@,
        NodeSpaceError::InternalError { message, service } => "Internal error: "@ + message@ + " (service: "@
            + service@ + ")"@,
    }
}

impl DatabaseError {
    /// The human-readable message, with the fields filled in.
    pub fn to_string(&self) -> (r: String)
        ensures
            r@ == database_message(*self),
    {
        match self {
            DatabaseError::ConnectionFailed { database, reason, .. } => String::from_str(
                "Connection failed to ",
            ).concat(database.as_str()).concat(": ").concat(reason.as_str()),
            DatabaseError::QueryTimeout { seconds, query, .. } => String::from_str("Query timeout after ").concat(
                decimal_text(*seconds).as_str(),
            ).concat("s: ").concat(query.as_str()),
            DatabaseError::NotFound { entity_type, id, .. } => String::from_str("Record not found: ").concat(
                entity_type.as_str(),
            ).concat(" with id ").concat(id.as_str()),
            DatabaseError::ConstraintViolation { constraint, table, .. } => String::from_str(
                "Constraint violation: ",
            ).concat(constraint.as_str()).concat(" on ").concat(table.as_str()),
            DatabaseError::MigrationFailed { version, target_version, reason, .. } => String::from_str(
                "Migration failed: ",
            ).concat(version.as_str()).concat(" -> ").concat(target_version.as_str()).concat(": ").concat(
                reason.as_str(),
            ),
            DatabaseError::TransactionFailed { operation, .. } => String::from_str("Transaction failed: ").concat(
                operation.as_str(),
            ),
            DatabaseError::IndexCorruption { index_name, .. } => String::from_str(
                "Index corruption detected: ",
            ).concat(index_name.as_str()),
        }
    }
}

impl ValidationError {
    /// The human-readable message, with the fields filled in.
    pub fn to_string(&self) -> (r: String)
        ensures
            r@ == validation_message(*self),
    {
        match self {
            ValidationError::RequiredFieldMissing { field, context, .. } => String::from_str(
                "Required field missing: ",
            ).concat(field.as_str()).concat(" in ").concat(context.as_str()),
            ValidationError::InvalidFormat { field, expected, actual, .. } => String::from_str(
                "Invalid format for ",
            ).concat(field.as_str()).concat(": expected ").concat(expected.as_str()).concat(", got ").concat(
                actual.as_str(),
            ),
            ValidationError::OutOfRange { field, value, min, max } => String::from_str(
                "Value out of range for ",
            ).concat(field.as_str()).concat(": ").concat(value.as_str()).concat(" not in [").concat(
                min.as_str(),
            ).concat(", ").concat(max.as_str()).concat("]"),
            ValidationError::InvalidRelationship { source_type, target_type, .. } => String::from_str(
                "Invalid relationship: ",
            ).concat(source_type.as_str()).concat(" cannot reference ").concat(target_type.as_str()),
            ValidationError::SchemaValidationFailed { schema_path, .. } => String::from_str(
                "Schema validation failed: ",
            ).concat(schema_path.as_str()),
            ValidationError::BusinessRuleViolation { rule, .. } => String::from_str(
                "Business rule violation: ",
            ).concat(rule.as_str()),
        }
    }
}

impl NetworkError {
    /// The human-readable message, with the fields filled in.
    pub fn to_string(&self) -> (r: String)
        ensures
            r@ == network_message(*self),
    {
        match self {
            NetworkError::ConnectionTimeout { endpoint, timeout_ms, .. } => String::from_str(
                "Connection timeout to ",
            ).concat(endpoint.as_str()).concat(" after ").concat(decimal_text(*timeout_ms).as_str()).concat(
                "ms",
            ),
            NetworkError::DnsResolutionFailed { hostname, .. } => String::from_str(
                "DNS resolution failed for ",
            ).concat(hostname.as_str()),
            NetworkError::HttpError { status_code, reason, .. } => String::from_str("HTTP error ").concat(
                decimal_text(*status_code as u64).as_str(),
            ).concat(": ").concat(reason.as_str()),
            NetworkError::TlsError { reason, .. } => String::from_str("TLS/SSL error: ").concat(reason.as_str()),
            NetworkError::RateLimitExceeded { limit, window, .. } => String::from_str(
                "Rate limit exceeded: ",
            ).concat(decimal_text(*limit as u64).as_str()).concat(" requests per ").concat(window.as_str()),
            NetworkError::NetworkUnreachable { network, .. } => String::from_str("Network unreachable: ").concat(
                network.as_str(),
            ),
        }
    }
}

impl ProcessingError {
    /// The human-readable message, with the fields filled in.
    pub fn to_string(&self) -> (r: String)
        ensures
            r@ == processing_message(*self),
    {
        match self {
            ProcessingError::ModelError { service, model_name, reason, .. } => String::from_str(
                "AI model error in ",
            ).concat(service.as_str()).concat(": ").concat(model_name.as_str()).concat(" - ").concat(
                reason.as_str(),
            ),
            ProcessingError::EmbeddingFailed { reason, .. } => String::from_str(
                "Embedding generation failed: ",
            ).concat(reason.as_str()),
            ProcessingError::VectorSearchFailed { reason, .. } => String::from_str("Vector search failed: ").concat(
                reason.as_str(),
            ),
            ProcessingError::WorkflowFailed { workflow_id, step, .. } => String::from_str(
                "Workflow execution failed: ",
            ).concat(workflow_id.as_str()).concat(" at step ").concat(step.as_str()),
            ProcessingError::ResourceExhausted { resource_type, .. } => String::from_str(
                "Resource exhausted: ",
            ).concat(resource_type.as_str()),
            ProcessingError::SerializationFailed { format, reason, .. } => String::from_str(
                "Serialization failed: ",
            ).concat(format.as_str()).concat(" - ").concat(reason.as_str()),
        }
    }
}

impl ServiceError {
    /// The human-readable message, with the fields filled in.
    pub fn to_string(&self) -> (r: String)
        ensures
            r@ == service_message(*self),
    {
        match self {
            ServiceError::ServiceUnavailable { service_name, .. } => String::from_str(
                "Service unavailable: ",
            ).concat(service_name.as_str()),
            ServiceError::VersionMismatch { service, expected, actual, .. } => String::from_str(
                "Service version mismatch: ",
            ).concat(service.as_str()).concat(" expected ").concat(expected.as_str()).concat(", got ").concat(
                actual.as_str(),
            ),
            ServiceError::ConfigurationError { service, config_key, .. } => String::from_str(
                "Configuration error in ",
            ).concat(service.as_str()).concat(": ").concat(config_key.as_str()),
            ServiceError::CircuitBreakerOpen { service, failure_count, .. } => String::from_str(
                "Circuit breaker open for ",
            ).concat(service.as_str()).concat(": ").concat(decimal_text(*failure_count as u64).as_str()).concat(
                " failures",
            ),
            ServiceError::AuthenticationFailed { service, reason, .. } => String::from_str(
                "Authentication failed for service ",
            ).concat(service.as_str()).concat(": ").concat(reason.as_str()),
            ServiceError::CapacityExceeded { service, .. } => String::from_str(
                "Service capacity exceeded: ",
            ).concat(service.as_str()),
        }
    }
}

impl NodeSpaceError {
    /// The human-readable message: the domain's prefix and the inner
    /// error's message, with the fields filled in.
    pub fn to_string(&self) -> (r: String)
        ensures
            r@ == error_message(*self),
    {
        match self {
            NodeSpaceError::Database(d) => String::from_str("Database operation failed: ").concat(
                d.to_string().as_str(),
            ),
            NodeSpaceError::Validation(v) => String::from_str("Validation failed: ").concat(v.to_string().as_str()),
            NodeSpaceError::Network(n) => String::from_str("Network operation failed: ").concat(
                n.to_string().as_str(),
            ),
            NodeSpaceError::Processing(p) => String::from_str("Processing failed: ").concat(p.to_string().as_str()),
            NodeSpaceError::Service(s) => String::from_str("Service error: ").concat(s.to_string().as_str()),
            NodeSpaceError::IoError { message } => String::from_str("IO error: ").concat(message.as_str()),
            NodeSpaceError::InternalError { message, service } => String::from_str("Internal error: ").concat(
                message.as_str(),
            ).concat(" (service: ").concat(service.as_str()).concat(")"),
        }
    }
}

} // verus!
