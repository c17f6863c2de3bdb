use forkstack::storage::{collect_listed_keys, ListPage, StorageTarget};

fn page(keys: &[&str], truncated: bool, token: Option<&str>) -> ListPage {
    ListPage {
        keys: keys.iter().map(|k| k.to_string()).collect(),
        is_truncated: truncated,
        next_continuation_token: token.map(|t| t.to_string()),
    }
}

fn target(bucket: &str, prefix: &str) -> StorageTarget {
    StorageTarget { bucket: bucket.to_string(), prefix: prefix.to_string() }
}

#[test]
fn test_copy_key_remapping() {
    let t = target("bucket", "forks/");
    let pages = vec![page(&["a.txt", "sub/b.txt"], false, None)];
    let (pairs, calls, location) = t.copy_to_fork("", "f1", &pages);
    assert_eq!(calls, 1);
    assert_eq!(location, "s3://bucket/forks/f1/");
    assert_eq!(pairs.len(), 2);
    assert_eq!(pairs[0], ("bucket/a.txt".to_string(), "forks/f1/a.txt".to_string()));
    assert_eq!(pairs[1], ("bucket/sub/b.txt".to_string(), "forks/f1/sub/b.txt".to_string()));
}

#[test]
fn test_copy_key_remapping_strips_source_prefix() {
    let t = target("bucket", "forks/");
    let pages = vec![page(&["data/a.txt", "other/c.txt"], false, None)];
    let (pairs, _, _) = t.copy_to_fork("data/", "f1", &pages);
    assert_eq!(pairs[0].1, "forks/f1/a.txt");
    // A key the source prefix does not lead is used whole.
    assert_eq!(pairs[1].1, "forks/f1/other/c.txt");
}

#[test]
fn test_pagination_two_pages_copy() {
    let t = target("bucket", "forks/");
    let pages = vec![
        page(&["a.txt"], true, Some("token-1")),
        page(&["b.txt"], false, None),
    ];
    let (pairs, calls, _) = t.copy_to_fork("", "f1", &pages);
    assert_eq!(calls, 2);
    assert_eq!(pairs.len(), 2);
    assert_eq!(pairs[0].1, "forks/f1/a.txt");
    assert_eq!(pairs[1].1, "forks/f1/b.txt");
}

#[test]
fn test_pagination_two_pages_delete() {
    let t = target("bucket", "forks/");
    let pages = vec![
        page(&["forks/f1/a.txt"], true, Some("token-1")),
        page(&["forks/f1/b.txt"], false, None),
    ];
    let (root, keys, calls) = t.delete_fork("f1", &pages);
    assert_eq!(root, "forks/f1/");
    assert_eq!(calls, 2);
    assert_eq!(keys, vec!["forks/f1/a.txt".to_string(), "forks/f1/b.txt".to_string()]);
}

#[test]
fn test_pagination_stops_at_untruncated_page() {
    let pages = vec![
        page(&["a"], false, None),
        page(&["b"], false, None),
    ];
    let (keys, calls) = collect_listed_keys(&pages);
    assert_eq!(calls, 1);
    assert_eq!(keys, vec!["a".to_string()]);
}

#[test]
fn test_fork_prefix_extraction() {
    let t = target("bucket", "forks/");
    let prefixes = vec!["forks/alpha/".to_string(), "forks/beta/".to_string()];
    let names = t.list_forks(&prefixes);
    assert_eq!(names, vec!["alpha".to_string(), "beta".to_string()]);
}

#[test]
fn test_fork_prefix_extraction_discards_empty() {
    let t = target("bucket", "forks/");
    let prefixes = vec!["forks/".to_string(), "forks/gamma/".to_string()];
    let names = t.list_forks(&prefixes);
    assert_eq!(names, vec!["gamma".to_string()]);
}

#[test]
fn test_fork_prefix_extraction_foreign_prefix_used_whole() {
    let t = target("bucket", "forks/");
    let prefixes = vec!["other/delta/".to_string()];
    let names = t.list_forks(&prefixes);
    assert_eq!(names, vec!["other/delta".to_string()]);
}
