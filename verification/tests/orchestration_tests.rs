use forkstack::config::Config;
use forkstack::errors::ForkError;
use forkstack::turso::{DatabaseInfo, DatabaseListItem};
use forkstack::{create_fork, delete_fork, list_forks};

fn one_bucket_config() -> Config {
    Config::from_toml_str(
        "[database]\nprovider = \"turso\"\norganization = \"my-org\"\nproduction = \"my-db\"\n\n[storage.uploads]\nprovider = \"tigris\"\nbucket = \"bucket\"\n",
        "test.toml",
    )
    .unwrap()
}

fn db_ok(hostname: &str) -> Result<DatabaseInfo, ForkError> {
    Ok(DatabaseInfo {
        db_id: "id-1".to_string(),
        name: "x".to_string(),
        hostname: hostname.to_string(),
    })
}

#[test]
fn test_create_fork_end_to_end() {
    let config = one_bucket_config();
    let fork = create_fork(
        &config,
        Some("x".to_string()),
        "generated-name-0".to_string(),
        1234,
        db_ok("abc.turso.io"),
        vec![Ok("s3://bucket/forks/x/".to_string())],
    )
    .unwrap();
    assert_eq!(fork.name, "x");
    assert_eq!(fork.database_url, "libsql://abc.turso.io");
    assert!(fork.storage_url.contains("uploads"));
    assert!(fork.storage_url.contains("s3://bucket/forks/x/"));
    assert_eq!(fork.storage_url, "uploads: s3://bucket/forks/x/");
    assert_eq!(fork.created_at, 1234);
}

#[test]
fn test_create_fork_uses_generated_name_when_unnamed() {
    let config = one_bucket_config();
    let fork = create_fork(
        &config,
        None,
        "calm-wave-4".to_string(),
        1234,
        db_ok("abc.turso.io"),
        vec![Ok("s3://bucket/forks/calm-wave-4/".to_string())],
    )
    .unwrap();
    assert_eq!(fork.name, "calm-wave-4");
}

#[test]
fn test_create_fork_database_failure_aborts() {
    let config = one_bucket_config();
    let r = create_fork(
        &config,
        Some("x".to_string()),
        "g".to_string(),
        0,
        Err(ForkError::Api { status: 500, body: "boom".to_string() }),
        vec![Ok("unused".to_string())],
    );
    assert_eq!(r.err().unwrap().message(), "Turso API error (500): boom");
}

#[test]
fn test_create_fork_storage_failure_propagates_without_rollback() {
    let config = one_bucket_config();
    let r = create_fork(
        &config,
        Some("x".to_string()),
        "g".to_string(),
        0,
        db_ok("abc.turso.io"),
        vec![Err(ForkError::StorageCopy { key: "a.txt".to_string() })],
    );
    // The storage error surfaces unchanged; the database fork made by the
    // earlier call stays in place, as nothing here can undo it.
    assert_eq!(r.err().unwrap().message(), "Failed to copy object: a.txt");
}

#[test]
fn test_list_forks_filters_production() {
    let items = vec![
        DatabaseListItem { name: "my-db".to_string(), hostname: "prod.turso.io".to_string() },
        DatabaseListItem { name: "f1".to_string(), hostname: "f1.turso.io".to_string() },
        DatabaseListItem { name: "f2".to_string(), hostname: "f2.turso.io".to_string() },
    ];
    let forks = list_forks(&items, "my-db");
    assert_eq!(forks.len(), 2);
    assert_eq!(forks[0].name, "f1");
    assert_eq!(forks[0].database_url, "libsql://f1.turso.io");
    assert_eq!(forks[0].storage_url, "");
    assert_eq!(forks[0].created_at, 0);
    assert_eq!(forks[1].name, "f2");
    assert_eq!(forks[1].storage_url, "");
    assert_eq!(forks[1].created_at, 0);
}

#[test]
fn test_delete_fork_outcomes() {
    let config = one_bucket_config();
    assert!(delete_fork(&config, Ok(()), vec![Ok(())]).is_ok());
    let r = delete_fork(
        &config,
        Ok(()),
        vec![Err(ForkError::StorageDelete { key: "k".to_string() })],
    );
    assert_eq!(r.err().unwrap().message(), "Failed to delete object: k");
    let r = delete_fork(
        &config,
        Err(ForkError::Api { status: 404, body: "gone".to_string() }),
        vec![Ok(())],
    );
    assert_eq!(r.err().unwrap().message(), "Turso API error (404): gone");
}

#[test]
fn test_created_ago_renders_a_unit() {
    let fork = forkstack::Fork {
        name: "f".to_string(),
        database_url: String::new(),
        storage_url: String::new(),
        created_at: 0,
    };
    assert!(fork.created_ago().ends_with("ago"));
}
