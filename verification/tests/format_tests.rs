use forkstack::errors::ForkError;
use forkstack::{fork_name_from_hash, generate_fork_name, relative_age};

#[test]
fn test_relative_age_just_now() {
    assert_eq!(relative_age(1030, 1000), "just now");
}

#[test]
fn test_relative_age_minutes() {
    assert_eq!(relative_age(1125, 1000), "2 mins ago");
}

#[test]
fn test_relative_age_hours() {
    assert_eq!(relative_age(8300, 1000), "2 hours ago");
}

#[test]
fn test_relative_age_days() {
    assert_eq!(relative_age(173800, 1000), "2 days ago");
}

#[test]
fn test_relative_age_clock_behind_record() {
    assert_eq!(relative_age(500, 1000), "just now");
}

#[test]
fn test_fork_name_from_hash_zero() {
    assert_eq!(fork_name_from_hash(0), "swift-fork-0");
}

#[test]
fn test_fork_name_from_hash_mixed_indices() {
    // 197121 = 3 * 65536 + 2 * 256 + 1: adjective 197121 % 5 == 1,
    // noun 770 % 5 == 0, number 3.
    assert_eq!(fork_name_from_hash(197121), "bright-fork-3");
    // 263172 = 4 * 65536 + 4 * 256 + 4: adjective 263172 % 5 == 2,
    // noun 1028 % 5 == 3, number 4.
    assert_eq!(fork_name_from_hash(263172), "calm-wave-4");
}

#[test]
fn test_generate_fork_name_shape() {
    let name = generate_fork_name();
    let parts: Vec<&str> = name.split('-').collect();
    assert_eq!(parts.len(), 3);
    assert!(["swift", "bright", "calm", "bold", "keen"].contains(&parts[0]));
    assert!(["fork", "branch", "leaf", "wave", "spark"].contains(&parts[1]));
    assert!(parts[2].parse::<u64>().unwrap() < 1000);
}

#[test]
fn test_api_error_message() {
    let e = ForkError::Api { status: 404, body: "not found".to_string() };
    assert_eq!(e.message(), "Turso API error (404): not found");
}

#[test]
fn test_auth_missing_message() {
    assert_eq!(
        ForkError::AuthMissing.message(),
        "TURSO_API_TOKEN or TURSO_AUTH_TOKEN environment variable not set"
    );
}

#[test]
fn test_storage_error_messages() {
    let c = ForkError::StorageCopy { key: "a.txt".to_string() };
    assert_eq!(c.message(), "Failed to copy object: a.txt");
    let d = ForkError::StorageDelete { key: "b.txt".to_string() };
    assert_eq!(d.message(), "Failed to delete object: b.txt");
    let l = ForkError::StorageList { context: "Failed to list objects in source bucket".to_string() };
    assert_eq!(l.message(), "Failed to list objects in source bucket");
}

#[test]
fn test_config_error_messages() {
    let r = ForkError::ConfigRead { path: "/p/forkstack.toml".to_string() };
    assert_eq!(r.message(), "Failed to read config file: /p/forkstack.toml");
    let p = ForkError::ConfigParse { path: "/p/forkstack.toml".to_string() };
    assert_eq!(p.message(), "Failed to parse config file: /p/forkstack.toml");
}

#[test]
fn test_create_database_body_escapes() {
    let body = forkstack::turso::create_database_body("a\"b", "g\\h", "line\nbreak");
    assert_eq!(
        body,
        "{\"name\":\"a\\\"b\",\"group\":\"g\\\\h\",\"seed\":{\"type\":\"database\",\"name\":\"line\\u000abreak\"}}"
    );
}

#[test]
fn test_create_database_body_plain() {
    let body = forkstack::turso::create_database_body("my-fork", "default", "my-db");
    assert_eq!(
        body,
        "{\"name\":\"my-fork\",\"group\":\"default\",\"seed\":{\"type\":\"database\",\"name\":\"my-db\"}}"
    );
}

#[test]
fn test_database_urls() {
    assert_eq!(
        forkstack::turso::databases_url("my-org"),
        "https://api.turso.tech/v1/organizations/my-org/databases"
    );
    assert_eq!(
        forkstack::turso::database_item_url("my-org", "my-fork"),
        "https://api.turso.tech/v1/organizations/my-org/databases/my-fork"
    );
    assert_eq!(forkstack::turso::database_url("abc.turso.io"), "libsql://abc.turso.io");
}

#[test]
fn test_api_outcome_statuses() {
    assert!(forkstack::turso::api_outcome(200, String::new()).is_ok());
    assert!(forkstack::turso::api_outcome(299, String::new()).is_ok());
    let e = forkstack::turso::api_outcome(500, "boom".to_string()).err().unwrap();
    assert_eq!(e.message(), "Turso API error (500): boom");
}
