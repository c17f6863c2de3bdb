use forkstack::config::{select_config_file, Config, DirProbe};

fn parse(text: &str) -> Config {
    Config::from_toml_str(text, "test.toml").unwrap()
}

fn storage_of<'a>(
    config: &'a Config,
    label: &str,
) -> Option<&'a forkstack::config::StorageConfig> {
    config.storage.iter().find(|(l, _)| l == label).map(|(_, c)| c)
}

#[test]
fn test_parse_minimal_config() {
    let config_str = r#"
[database]
provider = "turso"
organization = "my-org"
production = "my-db"
"#;
    let config = parse(config_str);

    assert_eq!(config.database.provider, "turso");
    assert_eq!(config.database.organization, "my-org");
    assert_eq!(config.database.production, "my-db");
    assert_eq!(config.database.group, None);
    assert!(config.storage.is_empty());
}

#[test]
fn test_parse_full_config() {
    let config_str = r#"
[database]
provider = "turso"
organization = "my-org"
production = "my-db"
group = "default"

[storage.uploads]
provider = "tigris"
bucket = "my-uploads"
endpoint = "https://fly.storage.tigris.dev"
prefix = "forks/"

[storage.assets]
provider = "s3"
bucket = "my-assets"
region = "us-east-1"
"#;
    let config = parse(config_str);

    assert_eq!(config.database.group, Some("default".to_string()));
    assert_eq!(config.storage.len(), 2);

    let uploads = storage_of(&config, "uploads").unwrap();
    assert_eq!(uploads.provider, "tigris");
    assert_eq!(uploads.bucket, "my-uploads");
    assert_eq!(
        uploads.endpoint,
        Some("https://fly.storage.tigris.dev".to_string())
    );

    let assets = storage_of(&config, "assets").unwrap();
    assert_eq!(assets.provider, "s3");
    assert_eq!(assets.bucket, "my-assets");
    assert_eq!(assets.region, Some("us-east-1".to_string()));
}

#[test]
fn test_database_group_default() {
    let config_str = r#"
[database]
provider = "turso"
organization = "my-org"
production = "my-db"
"#;
    let config = parse(config_str);
    assert_eq!(config.database_group(), "default");
}

#[test]
fn test_storage_fork_prefix_default() {
    let config_str = r#"
[database]
provider = "turso"
organization = "my-org"
production = "my-db"

[storage.uploads]
provider = "tigris"
bucket = "my-bucket"
"#;
    let config = parse(config_str);
    let uploads = storage_of(&config, "uploads").unwrap();
    assert_eq!(uploads.fork_prefix(), "forks/");
}

#[test]
fn test_storage_fork_prefix_custom() {
    let config_str = r#"
[database]
provider = "turso"
organization = "my-org"
production = "my-db"

[storage.uploads]
provider = "tigris"
bucket = "my-bucket"
prefix = "dev-forks/"
"#;
    let config = parse(config_str);
    let uploads = storage_of(&config, "uploads").unwrap();
    assert_eq!(uploads.fork_prefix(), "dev-forks/");
}

#[test]
fn test_parse_rejects_missing_database_section() {
    let r = Config::from_toml_str("[storage.a]\nprovider = \"s3\"\nbucket = \"b\"\n", "x.toml");
    let e = r.err().unwrap();
    assert_eq!(e.message(), "Failed to parse config file: x.toml");
}

#[test]
fn test_parse_rejects_missing_required_field() {
    let r = Config::from_toml_str(
        "[database]\nprovider = \"turso\"\norganization = \"my-org\"\n",
        "x.toml",
    );
    assert!(r.is_err());
}

#[test]
fn test_parse_rejects_malformed_syntax() {
    let r = Config::from_toml_str("[database\nprovider = ", "x.toml");
    assert!(r.is_err());
}

#[test]
fn test_parse_rejects_non_string_field() {
    let r = Config::from_toml_str(
        "[database]\nprovider = 7\norganization = \"o\"\nproduction = \"p\"\n",
        "x.toml",
    );
    assert!(r.is_err());
}

#[test]
fn test_parse_rejects_bad_storage_entry() {
    let r = Config::from_toml_str(
        "[database]\nprovider = \"turso\"\norganization = \"o\"\nproduction = \"p\"\n\n[storage.a]\nprovider = \"s3\"\n",
        "x.toml",
    );
    assert!(r.is_err());
}

#[test]
fn test_discovery_picks_dotted_before_plain() {
    let probes = vec![
        DirProbe {
            dotted_path: "/a/b/.forkstack.toml".to_string(),
            dotted_exists: false,
            plain_path: "/a/b/forkstack.toml".to_string(),
            plain_exists: true,
        },
        DirProbe {
            dotted_path: "/a/.forkstack.toml".to_string(),
            dotted_exists: true,
            plain_path: "/a/forkstack.toml".to_string(),
            plain_exists: false,
        },
    ];
    assert_eq!(select_config_file(&probes).unwrap(), "/a/b/forkstack.toml");
}

#[test]
fn test_discovery_failure_message_names_required_fields() {
    let probes = vec![
        DirProbe {
            dotted_path: "/a/b/.forkstack.toml".to_string(),
            dotted_exists: false,
            plain_path: "/a/b/forkstack.toml".to_string(),
            plain_exists: false,
        },
        DirProbe {
            dotted_path: "/a/.forkstack.toml".to_string(),
            dotted_exists: false,
            plain_path: "/a/forkstack.toml".to_string(),
            plain_exists: false,
        },
    ];
    let e = select_config_file(&probes).err().unwrap();
    let msg = e.message();
    assert!(msg.contains("database"));
    assert!(msg.contains("provider"));
    assert!(msg.contains("organization"));
}

#[test]
fn test_example_config_describes_sections() {
    let text = forkstack::config::example_config();
    assert!(text.contains("[database]"));
    assert!(text.contains("provider"));
    assert!(text.contains("[storage.uploads]"));
}
