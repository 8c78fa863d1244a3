use rpg::config::{database_address, get_config, ConfigError};
use rpg::error::ResolverError;

#[test]
fn config_needs_both_settings() {
    let c = get_config(Some("postgres://a".into()), Some("0.0.0.0:8000".into())).unwrap();
    assert_eq!(c.database_url, "postgres://a");
    assert_eq!(c.endpoint_url, "0.0.0.0:8000");
    assert_eq!(
        get_config(None, Some("0.0.0.0:8000".into())).unwrap_err(),
        ConfigError::MissingDatabaseUrl
    );
    assert_eq!(get_config(None, None).unwrap_err(), ConfigError::MissingDatabaseUrl);
    assert_eq!(
        get_config(Some("postgres://a".into()), None).unwrap_err(),
        ConfigError::MissingEndpointUrl
    );
}

#[test]
fn database_address_is_between_at_and_question_mark() {
    assert_eq!(
        database_address("postgres://user:pw@db.local:5432/rpg?sslmode=disable"),
        Some("db.local:5432/rpg".to_string())
    );
    assert_eq!(database_address("a@?b"), Some(String::new()));
    assert_eq!(database_address("a@b@c?d?e"), Some("b@c".to_string()));
    assert_eq!(database_address("postgres://db.local/rpg"), None);
    assert_eq!(database_address("postgres://u@db.local/rpg"), None);
    assert_eq!(database_address("x?y@z"), None);
    assert_eq!(database_address("ü@höst?ß"), Some("höst".to_string()));
}

#[test]
fn error_codes_messages_and_reasons() {
    let internal = ResolverError::InternalServer;
    assert_eq!(internal.code(), "INTERNAL_SERVER_ERROR");
    assert_eq!(internal.message(), "Internal server error");
    assert_eq!(internal.reason(), None);
    let rejected = ResolverError::UnprocessableContent("id is required".into());
    assert_eq!(rejected.code(), "UNPROCESSABLE_CONTENT");
    assert_eq!(rejected.message(), "Unprocessable content");
    assert_eq!(rejected.reason(), Some("id is required".to_string()));
    assert_ne!(internal, rejected);
}

#[test]
fn errors_extend_to_their_wire_form() {
    let wire = ResolverError::UnprocessableContent("input is required".into()).extend();
    assert_eq!(wire.message, "Unprocessable content");
    assert_eq!(wire.code, "UNPROCESSABLE_CONTENT");
    assert_eq!(wire.reason, Some("input is required".to_string()));
    let wire = ResolverError::InternalServer.extend();
    assert_eq!(wire.message, "Internal server error");
    assert_eq!(wire.code, "INTERNAL_SERVER_ERROR");
    assert_eq!(wire.reason, None);
}
