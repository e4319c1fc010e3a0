use files::resolve::{resolve_sources, ProvisionError, RootCandidate};

fn candidate(path: &str, exists: bool, is_dir: bool, listable: bool) -> RootCandidate {
    RootCandidate { path: path.to_string(), exists, is_dir, listable }
}

#[test]
fn missing_source_everywhere_is_not_found() {
    let candidates = vec![
        candidate("/a/conf", false, false, false),
        candidate("/b/conf", false, false, false),
    ];
    match resolve_sources("conf", &candidates) {
        Err(ProvisionError::NotFound { source }) => {
            assert_eq!(source, "conf".to_string());
        }
        other => panic!("expected NotFound, got {:?}", other.is_ok()),
    }
}

#[test]
fn not_found_message_names_the_source() {
    let e = ProvisionError::NotFound { source: "bin/tool".to_string() };
    assert_eq!(e.message(), "bin/tool: does not exist".to_string());
}

#[test]
fn existing_candidates_kept_in_priority_order() {
    let candidates = vec![
        candidate("/a/conf", false, false, false),
        candidate("/b/conf", true, true, true),
        candidate("/c/conf", true, false, false),
    ];
    let found = resolve_sources("conf", &candidates).unwrap();
    assert_eq!(found, vec!["/b/conf".to_string(), "/c/conf".to_string()]);
}

#[test]
fn unlistable_directory_is_rejected() {
    let candidates = vec![
        candidate("/a/conf", true, true, true),
        candidate("/b/conf", true, true, false),
        candidate("/c/conf", true, true, false),
    ];
    match resolve_sources("conf", &candidates) {
        Err(ProvisionError::NotListable { path }) => {
            // the first offending candidate, in priority order
            assert_eq!(path, "/b/conf".to_string());
        }
        other => panic!("expected NotListable, got {:?}", other.is_ok()),
    }
}

#[test]
fn not_listable_message_names_the_path() {
    let e = ProvisionError::NotListable { path: "/b/conf".to_string() };
    assert_eq!(e.message(), "/b/conf: is not listable".to_string());
}

#[test]
fn unlistable_plain_file_is_fine() {
    // only directory candidates need list permission
    let candidates = vec![candidate("/a/tool", true, false, false)];
    let found = resolve_sources("tool", &candidates).unwrap();
    assert_eq!(found, vec!["/a/tool".to_string()]);
}

#[test]
fn prefix_violation_message() {
    assert_eq!(ProvisionError::PathPrefix.message(), "prefix not found".to_string());
}
