use document_management_system::config::{Config, ConfigVars};
use document_management_system::error::AppError;
use document_management_system::handlers::search::{
    default_limit, join, search_documents, search_filter, SearchParams,
};
use document_management_system::middleware::auth::AuthUser;
use document_management_system::models::document::Document;
use document_management_system::services::search::{timestamp_seconds, DocumentSearchIndex};
use document_management_system::services::storage::{
    editor_file_url, new_object_key, object_key_for,
};
use document_management_system::text::decimal_string;
use document_management_system::utils::jwt::Claims;

fn some(text: &str) -> Option<String> {
    Some(text.to_string())
}

fn full_vars() -> ConfigVars {
    ConfigVars {
        database_url: some("postgres://db"),
        server_host: some("127.0.0.1"),
        server_port: some("3000"),
        jwt_secret: some("jwt"),
        jwt_expiration: some("7200"),
        minio_endpoint: some("http://minio:9000"),
        minio_access_key: some("access"),
        minio_secret_key: some("secret"),
        minio_bucket: some("bucket"),
        minio_region: some("eu-west-1"),
        meilisearch_host: some("http://meili:7700"),
        meilisearch_api_key: some("key"),
        onlyoffice_server: some("http://editor"),
        onlyoffice_jwt_secret: some("editor-jwt"),
        app_url: some("http://app"),
    }
}

#[test]
fn configuration_is_read_from_the_variables() {
    let config = Config::from_env(full_vars()).unwrap();
    assert_eq!(config.database.url, "postgres://db");
    assert_eq!(config.server.host, "127.0.0.1");
    assert_eq!(config.server.port, 3000);
    assert_eq!(config.jwt.secret, "jwt");
    assert_eq!(config.jwt.expiration, 7200);
    assert_eq!(config.minio.endpoint, "http://minio:9000");
    assert_eq!(config.minio.access_key, "access");
    assert_eq!(config.minio.secret_key, "secret");
    assert_eq!(config.minio.bucket, "bucket");
    assert_eq!(config.minio.region, "eu-west-1");
    assert_eq!(config.meilisearch.host, "http://meili:7700");
    assert_eq!(config.meilisearch.api_key, "key");
    assert_eq!(config.onlyoffice.server, "http://editor");
    assert_eq!(config.onlyoffice.jwt_secret, "editor-jwt");
    assert_eq!(config.app.url, "http://app");
    assert_eq!(config.server_address(), "127.0.0.1:3000");
    let copy = config.clone();
    assert_eq!(copy.minio.bucket, "bucket");
    assert_eq!(copy.server.port, 3000);
}

#[test]
fn configuration_falls_back_to_its_defaults() {
    let mut vars = full_vars();
    vars.server_host = None;
    vars.server_port = None;
    vars.jwt_expiration = None;
    vars.minio_region = None;
    let config = Config::from_env(vars).unwrap();
    assert_eq!(config.server.host, "0.0.0.0");
    assert_eq!(config.server.port, 8080);
    assert_eq!(config.jwt.expiration, 86400);
    assert_eq!(config.minio.region, "us-east-1");
    assert_eq!(config.server_address(), "0.0.0.0:8080");
}

#[test]
fn missing_variable_is_named() {
    let cases: [(fn(&mut ConfigVars), &str); 11] = [
        (|v| v.database_url = None, "DATABASE_URL must be set"),
        (|v| v.jwt_secret = None, "JWT_SECRET must be set"),
        (|v| v.minio_endpoint = None, "MINIO_ENDPOINT must be set"),
        (|v| v.minio_access_key = None, "MINIO_ACCESS_KEY must be set"),
        (|v| v.minio_secret_key = None, "MINIO_SECRET_KEY must be set"),
        (|v| v.minio_bucket = None, "MINIO_BUCKET must be set"),
        (|v| v.meilisearch_host = None, "MEILISEARCH_HOST must be set"),
        (|v| v.meilisearch_api_key = None, "MEILISEARCH_API_KEY must be set"),
        (|v| v.onlyoffice_server = None, "ONLYOFFICE_SERVER must be set"),
        (|v| v.onlyoffice_jwt_secret = None, "ONLYOFFICE_JWT_SECRET must be set"),
        (|v| v.app_url = None, "APP_URL must be set"),
    ];
    for (unset, message) in cases {
        let mut vars = full_vars();
        unset(&mut vars);
        assert_eq!(Config::from_env(vars).unwrap_err(), message);
    }
}

#[test]
fn first_fault_in_the_order_of_reading_is_reported() {
    let mut vars = full_vars();
    vars.app_url = None;
    vars.jwt_secret = None;
    vars.server_port = some("port");
    assert_eq!(Config::from_env(vars).unwrap_err(), "SERVER_PORT must be a valid u16");
    let mut vars = full_vars();
    vars.database_url = None;
    vars.server_port = some("port");
    assert_eq!(Config::from_env(vars).unwrap_err(), "DATABASE_URL must be set");
    let mut vars = full_vars();
    vars.jwt_expiration = some("soon");
    vars.minio_endpoint = None;
    assert_eq!(Config::from_env(vars).unwrap_err(), "JWT_EXPIRATION must be a valid i64");
}

#[test]
fn numbers_of_the_configuration_must_be_numbers() {
    for port in ["", "65536", "-1", "80 ", "0x50", "8080.0"] {
        let mut vars = full_vars();
        vars.server_port = some(port);
        assert_eq!(Config::from_env(vars).unwrap_err(), "SERVER_PORT must be a valid u16");
    }
    for (port, value) in [("0", 0), ("65535", 65535), ("+443", 443), ("0080", 80)] {
        let mut vars = full_vars();
        vars.server_port = some(port);
        assert_eq!(Config::from_env(vars).unwrap().server.port, value);
    }
    for expiration in ["", "9223372036854775808", "1h", "1.5"] {
        let mut vars = full_vars();
        vars.jwt_expiration = some(expiration);
        assert_eq!(Config::from_env(vars).unwrap_err(), "JWT_EXPIRATION must be a valid i64");
    }
    for (expiration, value) in [("-5", -5), ("9223372036854775807", i64::MAX), ("-9223372036854775808", i64::MIN)] {
        let mut vars = full_vars();
        vars.jwt_expiration = some(expiration);
        assert_eq!(Config::from_env(vars).unwrap().jwt.expiration, value);
    }
}

#[test]
fn server_address_is_host_colon_port() {
    let mut config = Config::from_env(full_vars()).unwrap();
    for (port, text) in [(0u16, "h:0"), (7, "h:7"), (10, "h:10"), (443, "h:443"), (8080, "h:8080"), (65535, "h:65535")] {
        config.server.host = "h".to_string();
        config.server.port = port;
        assert_eq!(config.server_address(), text);
    }
    config.server.host = String::new();
    config.server.port = 1;
    assert_eq!(config.server_address(), ":1");
}

#[test]
fn numbers_in_decimal() {
    assert_eq!(decimal_string(0), "0");
    assert_eq!(decimal_string(9), "9");
    assert_eq!(decimal_string(10), "10");
    assert_eq!(decimal_string(109), "109");
    assert_eq!(decimal_string(65535), "65535");
    for n in [1u16, 42, 100, 999, 1000, 12345, 60000] {
        assert_eq!(decimal_string(n), n.to_string());
    }
}

#[test]
fn errors_have_a_status_a_reason_and_a_rendering() {
    let cases = [
        (AppError::DatabaseError("a".to_string()), 500, "Database error: a"),
        (AppError::NotFound("b".to_string()), 404, "Not found: b"),
        (AppError::Unauthorized("c".to_string()), 401, "Unauthorized: c"),
        (AppError::Forbidden("d".to_string()), 403, "Forbidden: d"),
        (AppError::BadRequest("e".to_string()), 400, "Bad request: e"),
        (AppError::InternalServerError("f".to_string()), 500, "Internal server error: f"),
        (AppError::ValidationError("g".to_string()), 400, "Validation error: g"),
    ];
    for (error, status, rendering) in cases {
        assert_eq!(error.status_code(), status);
        assert_eq!(error.to_string(), rendering);
        assert_eq!(error.message().len(), 1);
        assert!(rendering.ends_with(error.message()));
    }
    assert_eq!(AppError::NotFound(String::new()).to_string(), "Not found: ");
}

#[test]
fn store_failures_become_errors() {
    match AppError::from_store_failure(true, "no rows".to_string()) {
        AppError::NotFound(m) => assert_eq!(m, "Resource not found"),
        other => panic!("unexpected: {:?}", other),
    }
    match AppError::from_store_failure(false, "connection reset".to_string()) {
        AppError::DatabaseError(m) => assert_eq!(m, "connection reset"),
        other => panic!("unexpected: {:?}", other),
    }
}

#[test]
fn whole_seconds_round_down() {
    assert_eq!(timestamp_seconds(0), 0);
    assert_eq!(timestamp_seconds(999_999), 0);
    assert_eq!(timestamp_seconds(1_000_000), 1);
    assert_eq!(timestamp_seconds(1_500_000), 1);
    assert_eq!(timestamp_seconds(1_700_000_000_123_456), 1_700_000_000);
    assert_eq!(timestamp_seconds(-1), -1);
    assert_eq!(timestamp_seconds(-999_999), -1);
    assert_eq!(timestamp_seconds(-1_000_000), -1);
    assert_eq!(timestamp_seconds(-1_000_001), -2);
    assert_eq!(timestamp_seconds(i64::MAX), 9_223_372_036_854);
    assert_eq!(timestamp_seconds(i64::MIN), -9_223_372_036_855);
    for micros in [-3_000_000i64, -2_999_999, -5, 5, 2_999_999, 3_000_000] {
        assert_eq!(timestamp_seconds(micros), micros.div_euclid(1_000_000));
    }
}

#[test]
fn index_entry_of_a_document() {
    let doc = Document {
        id: 0x936da01f_9abd_4d9d_80c7_02af85c822a8,
        name: "plan.docx".to_string(),
        description: some("the plan"),
        file_path: "blobs/plan".to_string(),
        file_size: 10,
        mime_type: "text/plain".to_string(),
        version: 3,
        status: "active".to_string(),
        owner_id: 1,
        parent_folder_id: None,
        is_folder: false,
        tags: Some(vec![some("a"), None, some("b"), None]),
        metadata: some("{}"),
        created_at: 1_700_000_000_999_999,
        updated_at: -1,
        deleted_at: None,
    };
    let entry = DocumentSearchIndex::from_document(&doc);
    assert_eq!(entry.id, "936da01f-9abd-4d9d-80c7-02af85c822a8");
    assert_eq!(entry.name, "plan.docx");
    assert_eq!(entry.description.as_deref(), Some("the plan"));
    assert_eq!(entry.mime_type, "text/plain");
    assert_eq!(entry.owner_id, "00000000-0000-0000-0000-000000000001");
    assert!(!entry.is_folder);
    assert_eq!(entry.tags, vec!["a", "b"]);
    assert_eq!(entry.created_at, 1_700_000_000);
    assert_eq!(entry.updated_at, -1);

    let mut bare = doc.clone();
    bare.tags = None;
    bare.is_folder = true;
    bare.description = None;
    let entry = DocumentSearchIndex::from_document(&bare);
    assert!(entry.tags.is_empty());
    assert!(entry.is_folder);
    assert_eq!(entry.description, None);
}

#[test]
fn texts_are_joined_with_a_separator() {
    let parts = |v: &[&str]| v.iter().map(|s| s.to_string()).collect::<Vec<String>>();
    assert_eq!(join(&parts(&[]), ", "), "");
    assert_eq!(join(&parts(&["a"]), ", "), "a");
    assert_eq!(join(&parts(&["a", "b"]), ", "), "a, b");
    assert_eq!(join(&parts(&["a", "", "c"]), "-"), "a--c");
    assert_eq!(join(&parts(&["a", "b", "c"]), ""), "abc");
}

#[test]
fn search_filter_joins_the_given_conditions() {
    let mut params = SearchParams {
        q: "plan".to_string(),
        limit: default_limit(),
        offset: 0,
        owner_id: None,
        mime_type: None,
        is_folder: None,
    };
    assert_eq!(default_limit(), 50);
    assert_eq!(search_filter(&params), None);
    params.is_folder = Some(false);
    assert_eq!(search_filter(&params).as_deref(), Some("is_folder = false"));
    params.owner_id = some("u1");
    assert_eq!(search_filter(&params).as_deref(), Some("owner_id = \"u1\" AND is_folder = false"));
    params.mime_type = some("text/plain");
    params.is_folder = Some(true);
    assert_eq!(
        search_filter(&params).as_deref(),
        Some("owner_id = \"u1\" AND mime_type = \"text/plain\" AND is_folder = true")
    );
    params.owner_id = None;
    params.is_folder = None;
    assert_eq!(search_filter(&params).as_deref(), Some("mime_type = \"text/plain\""));
}

#[test]
fn search_request_carries_words_filter_and_window() {
    let user = AuthUser::new(Claims::issued_at(1, "u".to_string(), "user".to_string(), 10, 100));
    let params = SearchParams {
        q: "quarterly report".to_string(),
        limit: 20,
        offset: 40,
        owner_id: some("u1"),
        mime_type: None,
        is_folder: None,
    };
    let request = search_documents(&user, &params);
    assert_eq!(request.query, "quarterly report");
    assert_eq!(request.filter.as_deref(), Some("owner_id = \"u1\""));
    assert_eq!(request.limit, Some(20));
    assert_eq!(request.offset, Some(40));
}

#[test]
fn object_keys_are_an_identifier_a_slash_and_the_name() {
    assert_eq!(
        object_key_for(0x936da01f_9abd_4d9d_80c7_02af85c822a8, "plan.docx"),
        "936da01f-9abd-4d9d-80c7-02af85c822a8/plan.docx"
    );
    assert_eq!(object_key_for(0, ""), "00000000-0000-0000-0000-000000000000/");
    let key = new_object_key("a/b.txt");
    assert_eq!(key.len(), 36 + 1 + 7);
    assert!(key.ends_with("/a/b.txt"));
    assert_eq!(&key[14..15], "4");
    assert!(["8", "9", "a", "b"].contains(&&key[19..20]));
    assert_ne!(new_object_key("a/b.txt"), key);
}

#[test]
fn editor_address_uses_the_internal_endpoint() {
    assert_eq!(
        editor_file_url("http://localhost:9000/bucket/key?sig=1", "http://localhost:9000", Some("http://minio:9000")),
        "http://minio:9000/bucket/key?sig=1"
    );
    assert_eq!(
        editor_file_url("http://localhost:9000/bucket/key", "http://localhost:9000", None),
        "http://localhost:9000/bucket/key"
    );
    assert_eq!(editor_file_url("a-b-a", "a", Some("xy")), "xy-b-xy");
    assert_eq!(editor_file_url("abc", "z", Some("y")), "abc");
}

#[test]
fn signs_before_numbers_are_read_as_signs() {
    for port in ["+", "-", "+-1", "++1", "-0", "1+", " 1", "١٢"] {
        let mut vars = full_vars();
        vars.server_port = some(port);
        assert_eq!(Config::from_env(vars).unwrap_err(), "SERVER_PORT must be a valid u16");
    }
    for (port, value) in [("+0", 0), ("000000000000000000000065535", 65535), ("+65535", 65535)] {
        let mut vars = full_vars();
        vars.server_port = some(port);
        assert_eq!(Config::from_env(vars).unwrap().server.port, value);
    }
    for expiration in ["+", "-", "--1", "-+1", "+-1", "- 1", "-9223372036854775809"] {
        let mut vars = full_vars();
        vars.jwt_expiration = some(expiration);
        assert_eq!(Config::from_env(vars).unwrap_err(), "JWT_EXPIRATION must be a valid i64");
    }
    for (expiration, value) in [("-0", 0), ("+0", 0), ("+86400", 86400), ("-00012", -12)] {
        let mut vars = full_vars();
        vars.jwt_expiration = some(expiration);
        assert_eq!(Config::from_env(vars).unwrap().jwt.expiration, value);
    }
}

#[test]
fn replacement_takes_matches_from_the_left_without_overlap() {
    assert_eq!(editor_file_url("aaa", "aa", Some("b")), "ba");
    assert_eq!(editor_file_url("aaaa", "aa", Some("b")), "bb");
    assert_eq!(editor_file_url("abc", "", Some("-")), "-a-b-c-");
    assert_eq!(editor_file_url("", "", Some("-")), "-");
    assert_eq!(editor_file_url("", "a", Some("-")), "");
    assert_eq!(editor_file_url("abab", "ab", Some("")), "");
    assert_eq!(editor_file_url("xabx", "ab", Some("abab")), "xababx");
}
