use user_directory::config::Config;
use user_directory::errors::{DbError, GrpcError, MigrationError, RepoError, StatusCode};
use user_directory::internal::InternalRepository;
use user_directory::relational::{
    migration_plan, update_outcome, MigrationPlan, PoolAction, PoolBuilder, RETRY_BACKOFF_SECS,
};
use user_directory::service::UserServiceCore;
use uuid::Uuid;

fn fresh_service() -> UserServiceCore<InternalRepository> {
    UserServiceCore::new(InternalRepository::new())
}

/// The worked example: create, read back, rename, and resolve by both
/// the old and the new name.
#[test]
fn example_scenario_round_trip() {
    let mut service = fresh_service();
    let id_text = "0189a30a-60c7-7135-b683-7d7f3783d4b7";

    service
        .create_user(id_text, "testuser".to_string(), "testuser@test.com".to_string())
        .unwrap();

    let read = service.get_user_data_by_id(id_text).unwrap();
    assert_eq!(read.user_name, "testuser");
    assert_eq!(read.user_email, "testuser@test.com");

    let update = service
        .update_user_data(id_text, "updateduser".to_string(), String::new())
        .unwrap();
    assert_eq!(update.message, format!("User {} updated successfully", id_text));

    let read = service.get_user_data_by_id(id_text).unwrap();
    assert_eq!(read.user_name, "updateduser");
    assert_eq!(read.user_email, "testuser@test.com");

    let old_name = service.get_user_id_by_nickname("testuser");
    assert_eq!(old_name.unwrap_err().code(), StatusCode::NotFound);

    let new_name = service.get_user_id_by_nickname("updateduser").unwrap();
    assert_eq!(new_name.user_uuid, id_text);
}

/// An id never created reads back as NotFound.
#[test]
fn read_of_never_created_id_is_not_found() {
    let mut service = fresh_service();
    service
        .create_user(
            &Uuid::now_v7().to_string(),
            "present".to_string(),
            "present@example.com".to_string(),
        )
        .unwrap();

    let never_created = Uuid::now_v7();
    let result = service.get_user_data_by_id(&never_created.to_string());
    let error = result.unwrap_err();
    assert_eq!(error.code(), StatusCode::NotFound);
    assert_eq!(error.message(), "User not found");
}

/// An update with both fields empty reports "no changes" and writes
/// nothing; one with an empty email replaces only the name.
#[test]
fn update_with_empty_fields() {
    let mut service = fresh_service();
    let user_id = Uuid::now_v7();
    service
        .create_user(
            &user_id.to_string(),
            "original".to_string(),
            "original@example.com".to_string(),
        )
        .unwrap();

    let response = service
        .update_user_data(&user_id.to_string(), String::new(), String::new())
        .unwrap();
    assert_eq!(
        response.message,
        format!("No changes detected for user {}", user_id)
    );

    let read = service.get_user_data_by_id(&user_id.to_string()).unwrap();
    assert_eq!(read.user_name, "original");
    assert_eq!(read.user_email, "original@example.com");

    service
        .update_user_data(&user_id.to_string(), "renamed".to_string(), String::new())
        .unwrap();
    let read = service.get_user_data_by_id(&user_id.to_string()).unwrap();
    assert_eq!(read.user_name, "renamed");
    assert_eq!(read.user_email, "original@example.com");
}

/// An update to the very same values also counts as "no changes".
#[test]
fn update_with_identical_values_is_no_change() {
    let mut service = fresh_service();
    let user_id = Uuid::now_v7();
    service
        .create_user(&user_id.to_string(), "same".to_string(), "same@example.com".to_string())
        .unwrap();

    let response = service
        .update_user_data(
            &user_id.to_string(),
            "same".to_string(),
            "same@example.com".to_string(),
        )
        .unwrap();
    assert_eq!(
        response.message,
        format!("No changes detected for user {}", user_id)
    );
}

/// An update with a malformed new email is rejected and changes nothing.
#[test]
fn update_with_invalid_email_is_rejected() {
    let mut service = fresh_service();
    let user_id = Uuid::now_v7();
    service
        .create_user(&user_id.to_string(), "kept".to_string(), "kept@example.com".to_string())
        .unwrap();

    let response = service.update_user_data(
        &user_id.to_string(),
        String::new(),
        "not-an-email".to_string(),
    );
    let error = response.unwrap_err();
    assert_eq!(error.code(), StatusCode::InvalidArgument);
    assert_eq!(error.message(), "Invalid email format");

    let read = service.get_user_data_by_id(&user_id.to_string()).unwrap();
    assert_eq!(read.user_email, "kept@example.com");
}

/// List-all after creating N distinct users returns exactly N records,
/// each matching its input.
#[test]
fn list_all_after_three_creates() {
    let mut service = fresh_service();
    let inputs = [
        (Uuid::now_v7(), "alice", "alice@example.com"),
        (Uuid::now_v7(), "bob", "bob@example.com"),
        (Uuid::now_v7(), "carol", "carol@example.com"),
    ];
    for (id, name, email) in &inputs {
        service
            .create_user(&id.to_string(), name.to_string(), email.to_string())
            .unwrap();
    }

    let listing = service.get_all_users().unwrap();
    assert_eq!(listing.users.len(), 3);
    for (id, name, email) in &inputs {
        let entry = listing
            .users
            .iter()
            .find(|u| u.user_uuid == id.to_string())
            .expect("created user missing from listing");
        assert_eq!(entry.user_name, *name);
        assert_eq!(entry.user_email, *email);
    }
}

/// The invalid UUID text is rejected with InvalidArgument by every
/// id-taking operation, and nothing panics.
#[test]
fn invalid_uuid_rejected_everywhere() {
    let mut service = fresh_service();
    let bad = "invalid-uuid";

    let e = service.get_user_data_by_id(bad).unwrap_err();
    assert_eq!(e.code(), StatusCode::InvalidArgument);
    let e = service.get_user_data(bad).unwrap_err();
    assert_eq!(e.code(), StatusCode::InvalidArgument);
    let e = service
        .put_user_data(bad, "n".to_string(), "n@example.com".to_string())
        .unwrap_err();
    assert_eq!(e.code(), StatusCode::InvalidArgument);
    let e = service
        .create_user(bad, "n".to_string(), "n@example.com".to_string())
        .unwrap_err();
    assert_eq!(e.code(), StatusCode::InvalidArgument);
    let e = service
        .update_user_data(bad, "n".to_string(), "n@example.com".to_string())
        .unwrap_err();
    assert_eq!(e.code(), StatusCode::InvalidArgument);
}

/// Resolving a name and reading by the returned id reaches the same
/// record the by-name lookup saw.
#[test]
fn by_name_and_by_id_agree() {
    let mut service = fresh_service();
    let user_id = Uuid::now_v7();
    service
        .create_user(
            &user_id.to_string(),
            "lookup_me".to_string(),
            "lookup_me@example.com".to_string(),
        )
        .unwrap();

    let resolved = service.get_user_id_by_nickname("lookup_me").unwrap();
    assert_eq!(resolved.user_uuid, user_id.to_string());

    let by_id = service.get_user_data_by_id(&resolved.user_uuid).unwrap();
    assert_eq!(by_id.user_name, "lookup_me");
    assert_eq!(by_id.user_email, "lookup_me@example.com");

    let via_get_user = service.get_user("lookup_me").unwrap();
    assert_eq!(via_get_user.uuid, user_id.to_string());
}

/// Pool construction retries with the fixed backoff for every failed
/// attempt — it never gives up — and announces a restored connection
/// once a later attempt succeeds.
#[test]
fn pool_construction_retries_until_reachable() {
    let mut builder = PoolBuilder::new();
    for _ in 0..3 {
        let action = builder.on_attempt(false);
        assert_eq!(action, PoolAction::RetryAfterSecs(RETRY_BACKOFF_SECS));
    }
    let action = builder.on_attempt(true);
    assert_eq!(action, PoolAction::UsePool { announce_restored: true });

    let mut immediate = PoolBuilder::new();
    let action = immediate.on_attempt(true);
    assert_eq!(action, PoolAction::UsePool { announce_restored: false });
}

#[test]
fn migration_plan_decisions() {
    let plan = migration_plan(false, vec!["0001_init".to_string()]);
    assert!(matches!(plan, MigrationPlan::RunAll));

    let plan = migration_plan(true, Vec::new());
    assert!(matches!(plan, MigrationPlan::NoOp));

    let pending = vec!["0002_add_email".to_string(), "0003_rename".to_string()];
    match migration_plan(true, pending.clone()) {
        MigrationPlan::Apply(versions) => assert_eq!(versions, pending),
        other => panic!("expected Apply, got {:?}", other),
    }
}

#[test]
fn update_outcome_separates_rows() {
    assert_eq!(update_outcome(0), None);
    assert_eq!(update_outcome(1), Some(()));
    assert_eq!(update_outcome(7), Some(()));
}

#[test]
fn error_messages_and_mapping() {
    let conn = DbError::ConnectionError("pool exhausted".to_string());
    assert_eq!(
        conn.message(),
        "Failed to get a connection from the pool: pool exhausted"
    );
    let query = DbError::QueryError("syntax".to_string());
    assert_eq!(query.message(), "Failed to run query: syntax");

    let migration = MigrationError::MigrationFailed("locked".to_string());
    assert_eq!(migration.message(), "Failed to run migrations: locked");

    let repo_err = RepoError::from(DbError::QueryError("boom".to_string()));
    let grpc = GrpcError::from_repo(repo_err);
    assert_eq!(grpc.code(), StatusCode::Internal);
    assert_eq!(grpc.message(), "Database error: QueryError(\"boom\")");

    let repo_err = RepoError::from(DbError::ConnectionError("pool \"a\" down".to_string()));
    let grpc = GrpcError::from_repo(repo_err);
    assert_eq!(
        grpc.message(),
        "Database error: ConnectionError(\"pool \\\"a\\\" down\")"
    );

    let grpc = GrpcError::from_repo(RepoError::UserNotFound);
    assert_eq!(grpc.code(), StatusCode::NotFound);
    assert_eq!(grpc.message(), "User not found");

    let grpc = GrpcError::from_repo(RepoError::Unknown("odd".to_string()));
    assert_eq!(grpc.code(), StatusCode::Unknown);
    assert_eq!(grpc.message(), "Unknown error: odd");

    assert_eq!(
        GrpcError::InvalidArgument("x".to_string()).code(),
        StatusCode::InvalidArgument
    );
    assert_eq!(
        GrpcError::AlreadyExists("x".to_string()).code(),
        StatusCode::AlreadyExists
    );
}

#[test]
fn config_carries_values() {
    let config = Config::new(
        "postgres://localhost/users".to_string(),
        "127.0.0.1:8080".to_string(),
        "debug".to_string(),
    );
    assert_eq!(config.get_database_url(), "postgres://localhost/users");
    assert_eq!(config.get_server_addr(), "127.0.0.1:8080");
    assert_eq!(config.get_log_level(), "debug");
}
