//! Provisioning one resolved source root: each walked entry is mapped to its
//! destination, labelled, and reconciled, yielding one result per entry in
//! walk order.
//!
//! The walked entries arrive as data: the tree walker that produces them
//! reads real directory entries (not link targets) in ascending path order,
//! and a walk that fails to read a directory aborts provisioning of its whole
//! desired-state entry.

use vstd::prelude::*;
use crate::fsmodel::{EntryFs, EntryFsView, Platform, SourceNode, SourceNodeView};
use crate::paths::{
    display_path_with_tilde, map_destination, spec_display_tilde, spec_map_destination,
};
use crate::reconcile::{
    entry_action, provision_sub_file, spec_entry_action, spec_entry_settled, spec_reconcile_entry,
};
use crate::resolve::{
    resolve_sources, spec_no_source_exists, spec_unlistable_at, ProvisionError, RootCandidate,
};
use crate::result::{NkProvisionStateResult, NkProvisionStateStatus, StateResultView};

verus! {

/// One entry of a source-root walk: its full path and the observed state of
/// the source and of its mapped destination.
pub struct WalkedEntry {
    pub path: String,
    pub source: SourceNode,
    pub fs: EntryFs,
}

#[verifier::ext_equal]
pub struct WalkedEntryView {
    pub path: Seq<char>,
    pub source: SourceNodeView,
    pub fs: EntryFsView,
}

impl View for WalkedEntry {
    type V = WalkedEntryView;

    open spec fn view(&self) -> WalkedEntryView {
        WalkedEntryView { path: self.path@, source: self.source@, fs: self.fs@ }
    }
}

impl DeepView for WalkedEntry {
    type V = WalkedEntryView;

    open spec fn deep_view(&self) -> WalkedEntryView {
        self@
    }
}

/// Whether a walked path lies under (or is) its claimed root, so that a
/// destination can be mapped for it.
pub open spec fn spec_entry_mappable(
    e: WalkedEntryView,
    root: Seq<char>,
    destination: Seq<char>,
) -> bool {
    spec_map_destination(e.path, root, destination) is Some
}

/// The result one walked entry is reported with.
pub open spec fn spec_walk_entry_result(
    e: WalkedEntryView,
    root: Seq<char>,
    destination: Seq<char>,
    link_files: bool,
    p: Platform,
    home: Option<Seq<char>>,
) -> StateResultView {
    let dest_path = spec_map_destination(e.path, root, destination).unwrap();
    StateResultView {
        status: NkProvisionStateStatus::Success,
        changed: !spec_entry_settled(e.fs, e.source, dest_path, link_files, p),
        description: spec_entry_action(link_files, e.source.kind) + seq![' '] + spec_display_tilde(
            dest_path,
            home,
        ),
        output: Seq::<char>::empty(),
    }
}

/// Reconcile one walked source entry: the source root itself lands on the
/// configured destination, a child is rebased under it. An entry not prefixed
/// by its claimed root is the prefix-stripping invariant violation, which
/// aborts the walk.
pub fn provision_entry(
    root: &str,
    destination: &str,
    source_path: &str,
    source_file: &SourceNode,
    fs: &mut EntryFs,
    link_files: bool,
    platform: &Platform,
    home_dir: &Option<String>,
) -> (r: Result<NkProvisionStateResult, ProvisionError>)
    ensures
        ({
            let md = spec_map_destination(source_path@, root@, destination@);
            match r {
                Ok(res) => {
                    &&& md is Some
                    &&& final(fs)@ == spec_reconcile_entry(
                        old(fs)@,
                        source_file@,
                        md.unwrap(),
                        link_files,
                        *platform,
                    )
                    &&& res@.status == NkProvisionStateStatus::Success
                    &&& res@.changed == !spec_entry_settled(
                        old(fs)@,
                        source_file@,
                        md.unwrap(),
                        link_files,
                        *platform,
                    )
                    &&& res@.description == spec_entry_action(link_files, source_file@.kind)
                        + seq![' '] + spec_display_tilde(md.unwrap(), home_dir.deep_view())
                    &&& res@.output == Seq::<char>::empty()
                },
                Err(e) => {
                    &&& md is None
                    &&& e is PathPrefix
                    &&& *final(fs) == *old(fs)
                },
            }
        }),
{
    let destination_file = match map_destination(source_path, root, destination) {
        Some(d) => d,
        None => {
            return Err(ProvisionError::PathPrefix);
        },
    };
    let action = entry_action(link_files, source_file.kind);
    let shown = display_path_with_tilde(destination_file.as_str(), home_dir);
    proof {
        reveal_strlit(" ");
    }
    let mut description = String::from_str(action);
    description.append(" ");
    description.append(shown.as_str());
    let mut result = NkProvisionStateResult::new_success(description);
    let _ = provision_sub_file(
        &mut result,
        source_file,
        destination_file.as_str(),
        fs,
        link_files,
        platform,
    );
    Ok(result)
}

/// What provisioning one resolved root yields: the results emitted so far, in
/// walk order, and the violation that aborted the walk, if one did.
pub struct WalkOutcome {
    pub results: Vec<NkProvisionStateResult>,
    pub error: Option<ProvisionError>,
}

/// `results` are exactly the outcomes of the leading walked entries, and the
/// walk stopped early precisely at an entry outside its claimed root.
pub open spec fn spec_walk_outcome_matches(
    results: Seq<StateResultView>,
    aborted: bool,
    root: Seq<char>,
    destination: Seq<char>,
    entries: Seq<WalkedEntryView>,
    link_files: bool,
    p: Platform,
    home: Option<Seq<char>>,
) -> bool {
    &&& results.len() <= entries.len()
    &&& forall|i: int|
        0 <= i < results.len() ==> #[trigger] spec_entry_mappable(entries[i], root, destination)
            && results[i] == spec_walk_entry_result(entries[i], root, destination, link_files, p, home)
    &&& if aborted {
        results.len() < entries.len() && !spec_entry_mappable(
            entries[results.len() as int],
            root,
            destination,
        )
    } else {
        results.len() == entries.len()
    }
}

/// Provision every walked entry of one resolved source root, in walk order.
/// Results already produced stand even when a later entry aborts the walk.
#[verifier::loop_isolation(false)]
pub fn provision_walk(
    root: &str,
    destination: &str,
    link_files: bool,
    entries: Vec<WalkedEntry>,
    platform: &Platform,
    home_dir: &Option<String>,
) -> (r: WalkOutcome)
    ensures
        spec_walk_outcome_matches(
            r.results.deep_view(),
            r.error is Some,
            root@,
            destination@,
            entries.deep_view(),
            link_files,
            *platform,
            home_dir.deep_view(),
        ),
        r.error matches Some(e) ==> e is PathPrefix,
{
    let ghost evs = entries.deep_view();
    let mut rest = entries;
    let mut results: Vec<NkProvisionStateResult> = Vec::new();
    while rest.len() > 0
        invariant
            results.len() + rest.len() == evs.len(),
            rest.deep_view() == evs.skip(results.len() as int),
            forall|i: int|
                0 <= i < results.len() ==> #[trigger] spec_entry_mappable(
                    evs[i],
                    root@,
                    destination@,
                ) && results@[i]@ == spec_walk_entry_result(
                    evs[i],
                    root@,
                    destination@,
                    link_files,
                    *platform,
                    home_dir.deep_view(),
                ),
        decreases rest.len(),
    {
        let ghost k = results.len() as int;
        let ghost pre = rest@;
        proof {
            assert(rest.deep_view()[0] == evs[k]);
        }
        let mut entry = rest.remove(0);
        proof {
            assert(entry == pre[0]);
            assert(entry@ == evs[k]);
            assert forall|j: int| 0 <= j < rest@.len() implies rest.deep_view()[j] == evs.skip(
                k + 1,
            )[j] by {
                assert(rest@[j] == pre.remove(0)[j]);
                assert(pre.remove(0)[j] == pre[j + 1]);
                assert(rest.deep_view()[j] == rest@[j].deep_view());
                assert(pre[j + 1].deep_view() == evs.skip(k)[j + 1]);
            }
            assert(rest.deep_view() =~= evs.skip(k + 1));
        }
        match provision_entry(
            root,
            destination,
            entry.path.as_str(),
            &entry.source,
            &mut entry.fs,
            link_files,
            platform,
            home_dir,
        ) {
            Ok(res) => {
                results.push(res);
            },
            Err(err) => {
                proof {
                    assert(!spec_entry_mappable(evs[k], root@, destination@));
                    assert(spec_walk_outcome_matches(
                        results.deep_view(),
                        true,
                        root@,
                        destination@,
                        evs,
                        link_files,
                        *platform,
                        home_dir.deep_view(),
                    ));
                }
                return WalkOutcome { results, error: Some(err) };
            },
        }
    }
    proof {
        assert(results.len() == evs.len());
        assert(spec_walk_outcome_matches(
            results.deep_view(),
            false,
            root@,
            destination@,
            evs,
            link_files,
            *platform,
            home_dir.deep_view(),
        ));
    }
    WalkOutcome { results, error: None }
}

/// The observed walk of one resolved source root.
pub struct RootWalk {
    pub root: String,
    pub entries: Vec<WalkedEntry>,
}

#[verifier::ext_equal]
pub struct RootWalkView {
    pub root: Seq<char>,
    pub entries: Seq<WalkedEntryView>,
}

impl View for RootWalk {
    type V = RootWalkView;

    open spec fn view(&self) -> RootWalkView {
        RootWalkView { root: self.root@, entries: self.entries.deep_view() }
    }
}

impl DeepView for RootWalk {
    type V = RootWalkView;

    open spec fn deep_view(&self) -> RootWalkView {
        self@
    }
}

/// What provisioning one desired file state yields: one outcome per processed
/// root, in priority order, and the failure that stopped processing, if one
/// did — before any outcome when no source resolves, or inside the last
/// outcome when its walk met an entry outside its root.
pub struct FileOutcome {
    pub outcomes: Vec<WalkOutcome>,
    pub error: Option<ProvisionError>,
}

/// The outcome at `i` is that of walk `i`, and it aborted exactly when it is
/// the last one under a prefix violation.
pub open spec fn spec_file_outcome_at(
    outcomes: Seq<WalkOutcome>,
    ws: Seq<RootWalkView>,
    i: int,
    destination: Seq<char>,
    link_files: bool,
    p: Platform,
    home: Option<Seq<char>>,
) -> bool {
    spec_walk_outcome_matches(
        outcomes[i].results.deep_view(),
        outcomes[i].error is Some,
        ws[i].root,
        destination,
        ws[i].entries,
        link_files,
        p,
        home,
    )
}

/// Provision one desired file state: resolve the source against the candidate
/// roots, then walk each resolved root into the destination in priority
/// order. Later roots overlay earlier ones for overlapping relative paths;
/// there is no cross-root deduplication. A failed resolve yields no outcome
/// at all; a walk aborted by a prefix violation stops the remaining roots,
/// and the outcomes already produced stand.
#[verifier::loop_isolation(false)]
pub fn provision_file(
    source: &str,
    candidates: &Vec<RootCandidate>,
    destination: &str,
    link_files: bool,
    walks: Vec<RootWalk>,
    platform: &Platform,
    home_dir: &Option<String>,
) -> (r: FileOutcome)
    ensures
        ({
            let cs = candidates.deep_view();
            let ws = walks.deep_view();
            &&& r.outcomes.len() <= ws.len()
            &&& forall|i: int|
                0 <= i < r.outcomes.len() ==> #[trigger] spec_file_outcome_at(
                    r.outcomes@,
                    ws,
                    i,
                    destination@,
                    link_files,
                    *platform,
                    home_dir.deep_view(),
                )
            &&& forall|i: int| 0 <= i < r.outcomes.len() - 1 ==> r.outcomes@[i].error is None
            &&& match r.error {
                None => {
                    &&& r.outcomes.len() == ws.len()
                    &&& forall|i: int| 0 <= i < r.outcomes.len() ==> r.outcomes@[i].error is None
                },
                Some(e) => match e {
                    ProvisionError::NotFound { source: s } => {
                        &&& s@ == source@
                        &&& spec_no_source_exists(cs)
                        &&& r.outcomes.len() == 0
                    },
                    ProvisionError::NotListable { path } => {
                        &&& (exists|i: int|
                            #[trigger] spec_unlistable_at(cs, i) && path@ == cs[i].path)
                        &&& r.outcomes.len() == 0
                    },
                    ProvisionError::PathPrefix => {
                        &&& 0 < r.outcomes.len()
                        &&& r.outcomes@[r.outcomes.len() - 1].error is Some
                    },
                },
            }
        }),
{
    let ghost ws = walks.deep_view();
    if let Err(e) = resolve_sources(source, candidates) {
        return FileOutcome { outcomes: Vec::new(), error: Some(e) };
    }
    let mut rest = walks;
    let mut outcomes: Vec<WalkOutcome> = Vec::new();
    while rest.len() > 0
        invariant
            outcomes.len() + rest.len() == ws.len(),
            rest.deep_view() == ws.skip(outcomes.len() as int),
            forall|i: int|
                0 <= i < outcomes.len() ==> #[trigger] spec_file_outcome_at(
                    outcomes@,
                    ws,
                    i,
                    destination@,
                    link_files,
                    *platform,
                    home_dir.deep_view(),
                ),
            forall|i: int| 0 <= i < outcomes.len() ==> outcomes@[i].error is None,
        decreases rest.len(),
    {
        let ghost k = outcomes.len() as int;
        let ghost pre = rest@;
        proof {
            assert(rest.deep_view()[0] == ws[k]);
        }
        let walk = rest.remove(0);
        proof {
            assert(walk == pre[0]);
            assert(walk@ == ws[k]);
            assert forall|j: int| 0 <= j < rest@.len() implies rest.deep_view()[j] == ws.skip(
                k + 1,
            )[j] by {
                assert(rest@[j] == pre.remove(0)[j]);
                assert(pre.remove(0)[j] == pre[j + 1]);
                assert(rest.deep_view()[j] == rest@[j].deep_view());
                assert(pre[j + 1].deep_view() == ws.skip(k)[j + 1]);
            }
            assert(rest.deep_view() =~= ws.skip(k + 1));
        }
        let outcome = provision_walk(
            walk.root.as_str(),
            destination,
            link_files,
            walk.entries,
            platform,
            home_dir,
        );
        let aborted = outcome.error.is_some();
        let ghost prev = outcomes@;
        outcomes.push(outcome);
        proof {
            assert forall|i: int|
                0 <= i < outcomes@.len() implies #[trigger] spec_file_outcome_at(
                outcomes@,
                ws,
                i,
                destination@,
                link_files,
                *platform,
                home_dir.deep_view(),
            ) by {
                if i < prev.len() {
                    assert(outcomes@[i] == prev[i]);
                    assert(spec_file_outcome_at(
                        prev,
                        ws,
                        i,
                        destination@,
                        link_files,
                        *platform,
                        home_dir.deep_view(),
                    ));
                } else {
                    assert(outcomes@[i] == outcome);
                }
            }
        }
        if aborted {
            proof {
                assert(outcomes@[outcomes.len() - 1] == outcome);
            }
            return FileOutcome { outcomes, error: Some(ProvisionError::PathPrefix) };
        }
        proof {
            assert forall|i: int| 0 <= i < outcomes@.len() implies outcomes@[i].error is None by {
                if i < prev.len() {
                    assert(outcomes@[i] == prev[i]);
                } else {
                    assert(outcomes@[i] == outcome);
                }
            }
        }
    }
    FileOutcome { outcomes, error: None }
}

} // verus!
