use nodespace_core_types::{
    DatabaseError, Duration, ErrorSeverity, NetworkError, NodeSpaceError, ProcessingError, ServiceError,
    ValidationError,
};

fn rate_limited(window_secs: u64) -> NodeSpaceError {
    NodeSpaceError::Network(NetworkError::RateLimitExceeded {
        limit: 100,
        window: "hour".to_string(),
        reset_time: 1_700_000_000_000_000,
        retry_after: Duration::from_secs(window_secs),
    })
}

fn breaker_open() -> NodeSpaceError {
    NodeSpaceError::Service(ServiceError::CircuitBreakerOpen {
        service: "nlp-engine".to_string(),
        failure_count: 5,
        failure_threshold: 3,
        reset_time: 1_700_000_000_000_000,
    })
}

#[test]
fn connection_failed_defaults_to_five_second_retry() {
    match DatabaseError::connection_failed("lancedb", "refused") {
        DatabaseError::ConnectionFailed { database, reason, retry_after } => {
            assert_eq!(database, "lancedb");
            assert_eq!(reason, "refused");
            assert_eq!(retry_after, Some(Duration::from_secs(5)));
        }
        other => panic!("unexpected {:?}", other),
    }
}

#[test]
fn query_timeout_suggests_a_limit() {
    match DatabaseError::query_timeout("SELECT *", 30) {
        DatabaseError::QueryTimeout { seconds, query, suggested_limit } => {
            assert_eq!(seconds, 30);
            assert_eq!(query, "SELECT *");
            assert_eq!(suggested_limit, Some(1000));
        }
        other => panic!("unexpected {:?}", other),
    }
}

#[test]
fn not_found_has_no_suggestions() {
    match DatabaseError::not_found("Node", "abc") {
        DatabaseError::NotFound { entity_type, id, suggestions } => {
            assert_eq!(entity_type, "Node");
            assert_eq!(id, "abc");
            assert!(suggestions.is_empty());
        }
        other => panic!("unexpected {:?}", other),
    }
}

#[test]
fn required_field_suggests_providing_it() {
    match ValidationError::required_field("title", "Note") {
        ValidationError::RequiredFieldMissing { field, context, suggestion } => {
            assert_eq!(field, "title");
            assert_eq!(context, "Note");
            assert_eq!(suggestion.as_deref(), Some("Please provide a value for 'title'"));
        }
        other => panic!("unexpected {:?}", other),
    }
}

#[test]
fn invalid_format_and_out_of_range_keep_their_fields() {
    match ValidationError::invalid_format("date", "YYYY-MM-DD", "30/06") {
        ValidationError::InvalidFormat { field, expected, actual, examples } => {
            assert_eq!((field.as_str(), expected.as_str(), actual.as_str()), ("date", "YYYY-MM-DD", "30/06"));
            assert!(examples.is_empty());
        }
        other => panic!("unexpected {:?}", other),
    }
    match ValidationError::out_of_range("age", "200", "0", "150") {
        ValidationError::OutOfRange { field, value, min, max } => {
            assert_eq!((field.as_str(), value.as_str(), min.as_str(), max.as_str()), ("age", "200", "0", "150"));
        }
        other => panic!("unexpected {:?}", other),
    }
}

#[test]
fn http_error_is_retryable_exactly_for_5xx() {
    for (status, expected) in [(404u16, false), (499, false), (500, true), (503, true), (599, true), (600, false)] {
        match NetworkError::http_error(status, "reason", "/api") {
            NetworkError::HttpError { status_code, retryable, headers, .. } => {
                assert_eq!(status_code, status);
                assert_eq!(retryable, expected, "status {}", status);
                assert!(headers.is_empty());
            }
            other => panic!("unexpected {:?}", other),
        }
    }
}

#[test]
fn connection_timeout_defaults() {
    match NetworkError::connection_timeout("http://store", 2500) {
        NetworkError::ConnectionTimeout { endpoint, timeout_ms, retry_after, max_retries } => {
            assert_eq!(endpoint, "http://store");
            assert_eq!(timeout_ms, 2500);
            assert_eq!(retry_after, Some(Duration::from_secs(1)));
            assert_eq!(max_retries, 3);
        }
        other => panic!("unexpected {:?}", other),
    }
}

#[test]
fn rate_limit_constructor_waits_sixty_seconds() {
    match NetworkError::rate_limit_exceeded(10, "minute", 42) {
        NetworkError::RateLimitExceeded { limit, window, reset_time, retry_after } => {
            assert_eq!(limit, 10);
            assert_eq!(window, "minute");
            assert_eq!(reset_time, 42);
            assert_eq!(retry_after.as_secs(), 60);
        }
        other => panic!("unexpected {:?}", other),
    }
}

#[test]
fn processing_constructors_fill_defaults() {
    match ProcessingError::model_error("nlp", "gemma", "oom") {
        ProcessingError::ModelError { service, model_name, reason, model_version, fallback_available } => {
            assert_eq!((service.as_str(), model_name.as_str(), reason.as_str()), ("nlp", "gemma", "oom"));
            assert_eq!(model_version, None);
            assert!(!fallback_available);
        }
        other => panic!("unexpected {:?}", other),
    }
    match ProcessingError::embedding_failed("empty", "text") {
        ProcessingError::EmbeddingFailed { dimensions, model_info, .. } => {
            assert_eq!(dimensions, Some(384));
            assert_eq!(model_info, None);
        }
        other => panic!("unexpected {:?}", other),
    }
    match ProcessingError::vector_search_failed("no index", "nodes", 384) {
        ProcessingError::VectorSearchFailed { query_dimensions, similarity_threshold, index_name, .. } => {
            assert_eq!(query_dimensions, 384);
            assert_eq!(index_name, "nodes");
            assert_eq!(similarity_threshold, Some(0.7f32.to_bits()));
        }
        other => panic!("unexpected {:?}", other),
    }
}

#[test]
fn service_constructors_fill_defaults() {
    match ServiceError::service_unavailable("store", "http://store") {
        ServiceError::ServiceUnavailable { service_name, endpoint, health_check_url, estimated_recovery } => {
            assert_eq!((service_name.as_str(), endpoint.as_str()), ("store", "http://store"));
            assert_eq!(health_check_url, None);
            assert_eq!(estimated_recovery, Some(Duration::from_secs(30)));
        }
        other => panic!("unexpected {:?}", other),
    }
    match ServiceError::version_mismatch("store", "2.0", "1.4") {
        ServiceError::VersionMismatch { expected, actual, compatibility_matrix, .. } => {
            assert_eq!((expected.as_str(), actual.as_str()), ("2.0", "1.4"));
            assert!(compatibility_matrix.is_empty());
        }
        other => panic!("unexpected {:?}", other),
    }
    match ServiceError::configuration_error("store", "db.path", "string") {
        ServiceError::ConfigurationError { config_key, expected_type, current_value, valid_values, .. } => {
            assert_eq!((config_key.as_str(), expected_type.as_str()), ("db.path", "string"));
            assert_eq!(current_value, None);
            assert!(valid_values.is_empty());
        }
        other => panic!("unexpected {:?}", other),
    }
}

#[test]
fn rate_limit_retryable_but_open_breaker_not() {
    assert!(rate_limited(60).is_retryable());
    assert!(!breaker_open().is_retryable());
}

#[test]
fn retryability_follows_the_variant_fields() {
    let tx = |can_retry| {
        NodeSpaceError::Database(DatabaseError::TransactionFailed {
            operation: "commit".to_string(),
            reason: "conflict".to_string(),
            can_retry,
        })
    };
    assert!(tx(true).is_retryable());
    assert!(!tx(false).is_retryable());
    assert!(NodeSpaceError::from(NetworkError::http_error(502, "bad gateway", "/")).is_retryable());
    assert!(!NodeSpaceError::from(NetworkError::http_error(404, "missing", "/")).is_retryable());
    assert!(NodeSpaceError::from(NetworkError::connection_timeout("x", 1)).is_retryable());
    assert!(NodeSpaceError::from(ServiceError::service_unavailable("s", "e")).is_retryable());
    assert!(!NodeSpaceError::from(ProcessingError::model_error("s", "m", "r")).is_retryable());
    let with_fallback = NodeSpaceError::Processing(ProcessingError::ModelError {
        service: "s".to_string(),
        model_name: "m".to_string(),
        reason: "r".to_string(),
        model_version: None,
        fallback_available: true,
    });
    assert!(with_fallback.is_retryable());
    assert!(!NodeSpaceError::from(ValidationError::required_field("a", "b")).is_retryable());
    assert!(!NodeSpaceError::IoError { message: "disk".to_string() }.is_retryable());
}

#[test]
fn retry_after_reports_configured_window() {
    assert_eq!(rate_limited(3600).retry_after(), Some(Duration::from_secs(3600)));
    let invalid = NodeSpaceError::from(ValidationError::required_field("title", "Note"));
    assert_eq!(invalid.retry_after(), None);
}

#[test]
fn retry_after_other_hints() {
    assert_eq!(
        NodeSpaceError::from(DatabaseError::connection_failed("db", "x")).retry_after(),
        Some(Duration::from_secs(5))
    );
    assert_eq!(
        NodeSpaceError::from(NetworkError::connection_timeout("e", 10)).retry_after(),
        Some(Duration::from_secs(1))
    );
    assert_eq!(
        NodeSpaceError::from(ServiceError::service_unavailable("s", "e")).retry_after(),
        Some(Duration::from_secs(30))
    );
    assert_eq!(breaker_open().retry_after(), None);
}

#[test]
fn severity_table() {
    let sev = |e: NodeSpaceError| e.severity();
    assert_eq!(sev(DatabaseError::connection_failed("d", "r").into()), ErrorSeverity::Critical);
    assert_eq!(sev(DatabaseError::query_timeout("q", 1).into()), ErrorSeverity::Warning);
    assert_eq!(sev(DatabaseError::not_found("n", "i").into()), ErrorSeverity::Info);
    assert_eq!(sev(ValidationError::out_of_range("f", "v", "a", "b").into()), ErrorSeverity::Error);
    assert_eq!(sev(NetworkError::connection_timeout("e", 1).into()), ErrorSeverity::Warning);
    assert_eq!(sev(NetworkError::http_error(500, "r", "e").into()), ErrorSeverity::Error);
    assert_eq!(sev(NetworkError::http_error(404, "r", "e").into()), ErrorSeverity::Info);
    assert_eq!(sev(NetworkError::http_error(599, "r", "e").into()), ErrorSeverity::Error);
    assert_eq!(sev(NetworkError::http_error(600, "r", "e").into()), ErrorSeverity::Info);
    assert_eq!(sev(NetworkError::http_error(999, "r", "e").into()), ErrorSeverity::Info);
    assert_eq!(sev(ProcessingError::model_error("s", "m", "r").into()), ErrorSeverity::Error);
    assert_eq!(sev(ProcessingError::embedding_failed("r", "t").into()), ErrorSeverity::Info);
    assert_eq!(sev(ServiceError::service_unavailable("s", "e").into()), ErrorSeverity::Critical);
    assert_eq!(sev(breaker_open()), ErrorSeverity::Info);
    assert_eq!(sev(rate_limited(1)), ErrorSeverity::Info);
}

#[test]
fn severity_labels() {
    assert_eq!(ErrorSeverity::Info.to_string(), "INFO");
    assert_eq!(ErrorSeverity::Warning.to_string(), "WARN");
    assert_eq!(ErrorSeverity::Error.to_string(), "ERROR");
    assert_eq!(ErrorSeverity::Critical.to_string(), "CRITICAL");
}

#[test]
fn service_attribution_names_the_owner() {
    assert_eq!(
        NodeSpaceError::from(ProcessingError::model_error("nlp-engine", "m", "r")).service_attribution(),
        Some("nlp-engine".to_string())
    );
    assert_eq!(
        NodeSpaceError::from(ServiceError::service_unavailable("store", "e")).service_attribution(),
        Some("store".to_string())
    );
    assert_eq!(breaker_open().service_attribution(), Some("nlp-engine".to_string()));
    let internal = NodeSpaceError::InternalError { message: "boom".to_string(), service: "core".to_string() };
    assert_eq!(internal.service_attribution(), Some("core".to_string()));
    assert_eq!(
        NodeSpaceError::from(ValidationError::required_field("a", "b")).service_attribution(),
        None
    );
    assert_eq!(NodeSpaceError::from(ProcessingError::embedding_failed("r", "t")).service_attribution(), None);
}

#[test]
fn categories_cover_every_variant() {
    let all: Vec<(NodeSpaceError, &str)> = vec![
        (DatabaseError::not_found("a", "b").into(), "database"),
        (ValidationError::required_field("a", "b").into(), "validation"),
        (NetworkError::connection_timeout("a", 1).into(), "network"),
        (ProcessingError::embedding_failed("a", "b").into(), "processing"),
        (ServiceError::service_unavailable("a", "b").into(), "service"),
        (NodeSpaceError::IoError { message: "m".to_string() }, "io"),
        (NodeSpaceError::InternalError { message: "m".to_string(), service: "s".to_string() }, "internal"),
    ];
    let mut seen: Vec<&str> = Vec::new();
    for (e, expected) in &all {
        let c = e.error_category();
        assert_eq!(c, *expected);
        assert!(!seen.contains(&c));
        seen.push(c);
    }
    assert_eq!(seen.len(), 7);
}

#[test]
fn legacy_constructors() {
    match NodeSpaceError::database_error("down") {
        NodeSpaceError::Database(DatabaseError::ConnectionFailed { database, reason, .. }) => {
            assert_eq!((database.as_str(), reason.as_str()), ("unknown", "down"));
        }
        other => panic!("unexpected {:?}", other),
    }
    match NodeSpaceError::not_found("n1") {
        NodeSpaceError::Database(DatabaseError::NotFound { entity_type, id, .. }) => {
            assert_eq!((entity_type.as_str(), id.as_str()), ("unknown", "n1"));
        }
        other => panic!("unexpected {:?}", other),
    }
    match NodeSpaceError::validation_error("bad") {
        NodeSpaceError::Validation(ValidationError::RequiredFieldMissing { field, context, .. }) => {
            assert_eq!((field.as_str(), context.as_str()), ("unknown", "bad"));
        }
        other => panic!("unexpected {:?}", other),
    }
    let e = NodeSpaceError::with_context(breaker_open(), std::collections::HashMap::new());
    assert_eq!(e.error_category(), "service");
}

#[test]
fn messages_fill_in_the_fields() {
    assert_eq!(
        NodeSpaceError::from(DatabaseError::query_timeout("SELECT *", 30)).to_string(),
        "Database operation failed: Query timeout after 30s: SELECT *"
    );
    assert_eq!(
        NodeSpaceError::from(NetworkError::http_error(503, "unavailable", "/x")).to_string(),
        "Network operation failed: HTTP error 503: unavailable"
    );
    assert_eq!(
        NodeSpaceError::from(ValidationError::out_of_range("age", "200", "0", "150")).to_string(),
        "Validation failed: Value out of range for age: 200 not in [0, 150]"
    );
    assert_eq!(
        breaker_open().to_string(),
        "Service error: Circuit breaker open for nlp-engine: 5 failures"
    );
    assert_eq!(rate_limited(60).to_string(), "Network operation failed: Rate limit exceeded: 100 requests per hour");
    assert_eq!(
        NodeSpaceError::from(ProcessingError::model_error("nlp", "gemma", "oom")).to_string(),
        "Processing failed: AI model error in nlp: gemma - oom"
    );
    assert_eq!(
        NodeSpaceError::InternalError { message: "boom".to_string(), service: "core".to_string() }.to_string(),
        "Internal error: boom (service: core)"
    );
    assert_eq!(NodeSpaceError::IoError { message: "disk full".to_string() }.to_string(), "IO error: disk full");
    assert_eq!(
        NetworkError::connection_timeout("http://a", 1500).to_string(),
        "Connection timeout to http://a after 1500ms"
    );
    assert_eq!(DatabaseError::connection_failed("db", "refused").to_string(), "Connection failed to db: refused");
}
