use files::fsmodel::{DestKind, DestNode, EntryFs, ParentDir, Platform, SourceKind, SourceNode};
use files::resolve::{ProvisionError, RootCandidate};
use files::result::NkProvisionStateStatus;
use files::walk::{provision_file, provision_walk, RootWalk, WalkedEntry};

fn unix() -> Platform {
    Platform {
        perm_bits: true,
        hidden_attr: false,
        process_is_root: false,
        fresh_dir_mode: 0o755,
        fresh_file_id: 9000,
    }
}

fn missing() -> DestNode {
    DestNode { kind: DestKind::Missing, id: 0, content: Vec::new(), mode: 0, hidden: false }
}

fn absent_parent() -> ParentDir {
    ParentDir { exists: false, mode: 0, owner_is_root: false, hidden: false }
}

#[test]
fn executable_linked_into_home() {
    // sources=["/pkg"], entry {source: "bin/tool", destination: "~/bin/tool",
    // link_files: true}: the resolved root /pkg/bin/tool is an executable
    // file and ~/bin/tool is absent
    let source = SourceNode {
        kind: SourceKind::File,
        id: 7,
        content: b"#!/bin/sh\n".to_vec(),
        executable: true,
        mode: 0o755,
    };
    let entries = vec![WalkedEntry {
        path: "/pkg/bin/tool".to_string(),
        source,
        fs: EntryFs { parent: absent_parent(), dest: missing() },
    }];
    let home = Some("/home/u".to_string());
    let outcome = provision_walk(
        "/pkg/bin/tool",
        "/home/u/bin/tool",
        true,
        entries,
        &unix(),
        &home,
    );
    assert!(outcome.error.is_none());
    assert_eq!(outcome.results.len(), 1);
    let r = &outcome.results[0];
    assert_eq!(r.status, NkProvisionStateStatus::Success);
    assert!(r.changed);
    assert_eq!(r.description, "link ~/bin/tool".to_string());
    assert_eq!(r.output, String::new());
}

#[test]
fn directory_walk_yields_results_in_walk_order() {
    // entry {source: "conf", destination: "~/.conf"} in copy mode, where
    // /pkg/conf is a directory containing a.txt: first the root directory
    // creation at ~/.conf, then the file creation at ~/.conf/a.txt
    let root_entry = WalkedEntry {
        path: "/pkg/conf".to_string(),
        source: SourceNode {
            kind: SourceKind::Dir,
            id: 1,
            content: Vec::new(),
            executable: true,
            mode: 0o755,
        },
        fs: EntryFs { parent: absent_parent(), dest: missing() },
    };
    let child_entry = WalkedEntry {
        path: "/pkg/conf/a.txt".to_string(),
        source: SourceNode {
            kind: SourceKind::File,
            id: 2,
            content: b"a\n".to_vec(),
            executable: false,
            mode: 0o644,
        },
        fs: EntryFs {
            // the walk just created ~/.conf with a normalized mode
            parent: ParentDir { exists: true, mode: 0o700, owner_is_root: false, hidden: false },
            dest: missing(),
        },
    };
    let home = Some("/home/u".to_string());
    let outcome = provision_walk(
        "/pkg/conf",
        "/home/u/.conf",
        false,
        vec![root_entry, child_entry],
        &unix(),
        &home,
    );
    assert!(outcome.error.is_none());
    assert_eq!(outcome.results.len(), 2);
    assert_eq!(outcome.results[0].description, "create ~/.conf".to_string());
    assert!(outcome.results[0].changed);
    assert_eq!(outcome.results[1].description, "create ~/.conf/a.txt".to_string());
    assert!(outcome.results[1].changed);
}

fn file_entry(root: &str, name: &str, content: &[u8], id: u128) -> WalkedEntry {
    WalkedEntry {
        path: format!("{root}/{name}"),
        source: SourceNode {
            kind: SourceKind::File,
            id,
            content: content.to_vec(),
            executable: false,
            mode: 0o644,
        },
        fs: EntryFs {
            parent: ParentDir { exists: true, mode: 0o700, owner_is_root: false, hidden: false },
            dest: missing(),
        },
    }
}

#[test]
fn missing_source_yields_no_outcome_at_all() {
    let candidates = vec![RootCandidate {
        path: "/pkg/conf".to_string(),
        exists: false,
        is_dir: false,
        listable: false,
    }];
    let outcome = provision_file(
        "conf",
        &candidates,
        "/home/u/.conf",
        false,
        Vec::new(),
        &unix(),
        &None,
    );
    // nothing was reconciled: no result, hence no mutation, was produced
    assert!(outcome.outcomes.is_empty());
    match outcome.error {
        Some(ProvisionError::NotFound { source }) => assert_eq!(source, "conf".to_string()),
        _ => panic!("expected NotFound"),
    }
}

#[test]
fn unlistable_source_yields_no_outcome_at_all() {
    let candidates = vec![RootCandidate {
        path: "/pkg/conf".to_string(),
        exists: true,
        is_dir: true,
        listable: false,
    }];
    let walks = vec![RootWalk { root: "/pkg/conf".to_string(), entries: Vec::new() }];
    let outcome =
        provision_file("conf", &candidates, "/home/u/.conf", false, walks, &unix(), &None);
    assert!(outcome.outcomes.is_empty());
    match outcome.error {
        Some(ProvisionError::NotListable { path }) => assert_eq!(path, "/pkg/conf".to_string()),
        _ => panic!("expected NotListable"),
    }
}

#[test]
fn all_resolved_roots_are_walked_in_priority_order() {
    // two roots contain the relative source: both are walked into the same
    // destination, the later one after (overlaying) the earlier one
    let candidates = vec![
        RootCandidate { path: "/a/x".to_string(), exists: true, is_dir: false, listable: false },
        RootCandidate { path: "/b/x".to_string(), exists: true, is_dir: false, listable: false },
    ];
    let walks = vec![
        RootWalk { root: "/a/x".to_string(), entries: vec![file_entry("/a", "x", b"first", 1)] },
        RootWalk { root: "/b/x".to_string(), entries: vec![file_entry("/b", "x", b"second", 2)] },
    ];
    let outcome = provision_file("x", &candidates, "/home/u/x", false, walks, &unix(), &None);
    assert!(outcome.error.is_none());
    assert_eq!(outcome.outcomes.len(), 2);
    for walked in &outcome.outcomes {
        assert!(walked.error.is_none());
        assert_eq!(walked.results.len(), 1);
        assert_eq!(walked.results[0].description, "create /home/u/x".to_string());
    }
}

#[test]
fn aborted_walk_stops_the_remaining_roots() {
    let candidates = vec![
        RootCandidate { path: "/a/x".to_string(), exists: true, is_dir: false, listable: false },
        RootCandidate { path: "/b/x".to_string(), exists: true, is_dir: false, listable: false },
    ];
    let walks = vec![
        RootWalk {
            root: "/a/x".to_string(),
            entries: vec![
                file_entry("/a", "x", b"ok", 1),
                file_entry("/elsewhere", "stray", b"", 2),
            ],
        },
        RootWalk { root: "/b/x".to_string(), entries: vec![file_entry("/b", "x", b"later", 3)] },
    ];
    let outcome = provision_file("x", &candidates, "/home/u/x", false, walks, &unix(), &None);
    match outcome.error {
        Some(ProvisionError::PathPrefix) => {}
        _ => panic!("expected a prefix violation"),
    }
    // the first root's results stand; the second root was never processed
    assert_eq!(outcome.outcomes.len(), 1);
    assert_eq!(outcome.outcomes[0].results.len(), 1);
    assert!(outcome.outcomes[0].error.is_some());
}

#[test]
fn entry_outside_root_aborts_the_walk() {
    let good = WalkedEntry {
        path: "/pkg/conf".to_string(),
        source: SourceNode {
            kind: SourceKind::Dir,
            id: 1,
            content: Vec::new(),
            executable: true,
            mode: 0o755,
        },
        fs: EntryFs { parent: absent_parent(), dest: missing() },
    };
    let stray = WalkedEntry {
        path: "/elsewhere/b.txt".to_string(),
        source: SourceNode {
            kind: SourceKind::File,
            id: 2,
            content: Vec::new(),
            executable: false,
            mode: 0o644,
        },
        fs: EntryFs { parent: absent_parent(), dest: missing() },
    };
    let outcome = provision_walk(
        "/pkg/conf",
        "/home/u/.conf",
        false,
        vec![good, stray],
        &unix(),
        &None,
    );
    // the result already produced stands; the violation aborts the rest
    assert_eq!(outcome.results.len(), 1);
    assert_eq!(outcome.results[0].description, "create /home/u/.conf".to_string());
    match outcome.error {
        Some(ProvisionError::PathPrefix) => {}
        _ => panic!("expected a prefix violation"),
    }
}
