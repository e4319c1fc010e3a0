//! The per-entry reconciliation protocol.
//!
//! For one (source entry, destination path, link-vs-copy) triple the protocol
//! runs three steps: ensure and normalize the destination's parent directory,
//! dispose of the destination by the source's kind (directory creation,
//! symlink identity, or whole-content copy with permission normalization),
//! and finally the hidden-attribute pass. Each step mutates only what differs
//! from the desired state, and every mutation is recorded on the entry's
//! result.
//!
//! The spec functions here state the protocol over the filesystem model:
//! `spec_reconcile_entry` gives the state an entry's reconciliation produces,
//! and `spec_entry_settled` says when it finds nothing to change.

use vstd::prelude::*;
use crate::fsmodel::{
    DestKind, DestNode, DestNodeView, EntryFs, EntryFsView, ParentDir, Platform, SourceKind,
    SourceNode, SourceNodeView, copy_bytes, file_contents_match, is_linked_to, spec_contents_match,
    spec_linked,
};
use crate::paths::{
    display_path_with_tilde, name_is_dotted, parent_of, spec_display_tilde, spec_dotted,
    spec_file_name, spec_parent_of,
};
use crate::result::{NkProvisionStateResult, NkProvisionStateStatus, StateResultView};

verus! {

/// The owner-only access mode every provisioned directory is normalized to.
pub const DIR_MODE: u32 = 0o700;

/// The mode a copied file is normalized to: owner read/write/execute when the
/// source is executable, owner read/write otherwise.
pub open spec fn spec_desired_file_mode(executable: bool) -> u32 {
    if executable {
        0o700
    } else {
        0o600
    }
}

pub fn desired_file_mode(executable: bool) -> (m: u32)
    ensures
        m == spec_desired_file_mode(executable),
{
    if executable {
        0o700
    } else {
        0o600
    }
}

/// Step 1a: a missing parent directory is created; the platform assigns its
/// mode, the creating process owns it.
pub open spec fn spec_parent_create(par: ParentDir, p: Platform) -> ParentDir {
    if par.exists {
        par
    } else {
        ParentDir {
            exists: true,
            mode: p.fresh_dir_mode,
            owner_is_root: p.process_is_root,
            hidden: false,
        }
    }
}

/// Step 1b: the parent's mode is normalized to owner-only access, unless the
/// parent is owned by the privileged root account.
pub open spec fn spec_parent_chmod(par: ParentDir, p: Platform) -> ParentDir {
    if p.perm_bits && par.mode != DIR_MODE && !par.owner_is_root {
        ParentDir { mode: DIR_MODE, ..par }
    } else {
        par
    }
}

/// Step 1c: a dotted parent gets the platform hidden attribute.
pub open spec fn spec_parent_hide(par: ParentDir, dotted: bool, p: Platform) -> ParentDir {
    if p.hidden_attr && dotted && !par.hidden {
        ParentDir { hidden: true, ..par }
    } else {
        par
    }
}

pub open spec fn spec_parent_pass(par: ParentDir, dotted: bool, p: Platform) -> ParentDir {
    spec_parent_hide(spec_parent_chmod(spec_parent_create(par, p), p), dotted, p)
}

/// The parent needs no mutation: it exists, its mode is normalized (or it is
/// root-owned), and a dotted name already carries the hidden attribute.
pub open spec fn spec_parent_settled(par: ParentDir, dotted: bool, p: Platform) -> bool {
    &&& par.exists
    &&& (p.perm_bits ==> par.mode == DIR_MODE || par.owner_is_root)
    &&& (p.hidden_attr && dotted ==> par.hidden)
}

/// Directory disposition: a non-directory occupant is deleted and the
/// directory created in its place.
pub open spec fn spec_dir_create(d: DestNodeView, p: Platform) -> DestNodeView {
    if d.kind == DestKind::Dir {
        d
    } else {
        DestNodeView { kind: DestKind::Dir, mode: p.fresh_dir_mode, hidden: false, ..d }
    }
}

/// Directory disposition: the mode is normalized to owner-only access.
pub open spec fn spec_dir_chmod(d: DestNodeView, p: Platform) -> DestNodeView {
    if p.perm_bits && d.mode != DIR_MODE {
        DestNodeView { mode: DIR_MODE, ..d }
    } else {
        d
    }
}

pub open spec fn spec_dir_after(d: DestNodeView, p: Platform) -> DestNodeView {
    spec_dir_chmod(spec_dir_create(d, p), p)
}

/// The destination is already a directory with a normalized mode.
pub open spec fn spec_dir_settled(d: DestNodeView, p: Platform) -> bool {
    d.kind == DestKind::Dir && (p.perm_bits ==> d.mode == DIR_MODE)
}

/// Link disposition: unless the destination is already identity-linked to the
/// source, any occupant is deleted and a symlink to the source created; the
/// fresh link resolves to the source file.
pub open spec fn spec_link_after(d: DestNodeView, s: SourceNodeView, p: Platform) -> DestNodeView {
    if spec_linked(d, s) {
        d
    } else {
        DestNodeView {
            kind: DestKind::Symlink,
            id: s.id,
            content: s.content,
            mode: s.mode,
            hidden: false,
        }
    }
}

/// Copy disposition: unless the destination's content already matches, a
/// directory or symlink occupant is deleted first, and a whole-content copy
/// is made. A plain-file occupant is overwritten in place, keeping its
/// identity and its hidden attribute; otherwise the copy creates a new file.
/// The copy carries the source's permission bits along.
pub open spec fn spec_copy_file(d: DestNodeView, s: SourceNodeView, p: Platform) -> DestNodeView {
    if spec_contents_match(s, d) {
        d
    } else if d.kind == DestKind::File {
        DestNodeView { content: s.content, mode: s.mode, ..d }
    } else {
        DestNodeView {
            kind: DestKind::File,
            id: p.fresh_file_id,
            content: s.content,
            mode: s.mode,
            hidden: false,
        }
    }
}

/// After a copy disposition the mode is normalized by the source's
/// executable bit.
pub open spec fn spec_copy_chmod(d: DestNodeView, s: SourceNodeView, p: Platform) -> DestNodeView {
    if p.perm_bits && d.mode != spec_desired_file_mode(s.executable) {
        DestNodeView { mode: spec_desired_file_mode(s.executable), ..d }
    } else {
        d
    }
}

pub open spec fn spec_copy_pass(d: DestNodeView, s: SourceNodeView, p: Platform) -> DestNodeView {
    spec_copy_chmod(spec_copy_file(d, s, p), s, p)
}

/// The destination's content already matches and its mode is normalized.
pub open spec fn spec_copy_settled(d: DestNodeView, s: SourceNodeView, p: Platform) -> bool {
    spec_contents_match(s, d) && (p.perm_bits ==> d.mode == spec_desired_file_mode(s.executable))
}

/// Step 2, by the source's kind.
pub open spec fn spec_dispose(
    d: DestNodeView,
    s: SourceNodeView,
    link_files: bool,
    p: Platform,
) -> DestNodeView {
    if s.kind == SourceKind::Dir {
        spec_dir_after(d, p)
    } else if link_files {
        spec_link_after(d, s, p)
    } else {
        spec_copy_pass(d, s, p)
    }
}

pub open spec fn spec_dispose_settled(
    d: DestNodeView,
    s: SourceNodeView,
    link_files: bool,
    p: Platform,
) -> bool {
    if s.kind == SourceKind::Dir {
        spec_dir_settled(d, p)
    } else if link_files {
        spec_linked(d, s)
    } else {
        spec_copy_settled(d, s, p)
    }
}

/// Step 3: a dotted destination gets the platform hidden attribute.
pub open spec fn spec_dest_hide(d: DestNodeView, dotted: bool, p: Platform) -> DestNodeView {
    if p.hidden_attr && dotted && !d.hidden {
        DestNodeView { hidden: true, ..d }
    } else {
        d
    }
}

/// The state one entry's reconciliation produces: the parent pass where the
/// destination has a parent, the disposition, and the hidden pass.
pub open spec fn spec_reconcile_entry(
    fs: EntryFsView,
    s: SourceNodeView,
    dest_path: Seq<char>,
    link_files: bool,
    p: Platform,
) -> EntryFsView {
    let parent = match spec_parent_of(dest_path) {
        Some(pp) => spec_parent_pass(fs.parent, spec_dotted(spec_file_name(pp)), p),
        None => fs.parent,
    };
    let dest = spec_dest_hide(
        spec_dispose(fs.dest, s, link_files, p),
        spec_dotted(spec_file_name(dest_path)),
        p,
    );
    EntryFsView { parent, dest }
}

/// Reconciling this entry performs no mutation at all: exactly then does a
/// run report `changed == false` for it.
pub open spec fn spec_entry_settled(
    fs: EntryFsView,
    s: SourceNodeView,
    dest_path: Seq<char>,
    link_files: bool,
    p: Platform,
) -> bool {
    &&& match spec_parent_of(dest_path) {
        Some(pp) => spec_parent_settled(fs.parent, spec_dotted(spec_file_name(pp)), p),
        None => true,
    }
    &&& spec_dispose_settled(fs.dest, s, link_files, p)
    &&& (p.hidden_attr && spec_dotted(spec_file_name(dest_path)) ==> spec_dispose(
        fs.dest,
        s,
        link_files,
        p,
    ).hidden)
}

/// Record one performed mutation on the entry's result. In the model every
/// primitive mutation succeeds; the real process routes each operation's
/// outcome through [`NkProvisionStateResult::append_change`], whose contract
/// also covers the failing case.
fn record_change(result: &mut NkProvisionStateResult)
    ensures
        final(result)@ == (StateResultView { changed: true, ..old(result)@ }),
{
    let _ = result.append_change(Ok::<(), String>(()));
}

/// Directory disposition against one destination: delete a non-directory
/// occupant, create the directory, normalize its mode. Used both for a
/// source directory met during a walk and for a bare directory declaration.
pub fn provision_directory_impl(
    result: &mut NkProvisionStateResult,
    destination: &mut DestNode,
    platform: &Platform,
) -> (r: Result<(), ()>)
    ensures
        r is Ok,
        final(destination)@ == spec_dir_after(old(destination)@, *platform),
        final(result)@.status == old(result)@.status,
        final(result)@.description == old(result)@.description,
        final(result)@.output == old(result)@.output,
        final(result)@.changed == (old(result)@.changed || !spec_dir_settled(
            old(destination)@,
            *platform,
        )),
{
    if !destination.is_dir() {
        if destination.present() {
            // delete the occupant
            record_change(result);
        }
        // create the directory
        destination.kind = DestKind::Dir;
        destination.mode = platform.fresh_dir_mode;
        destination.hidden = false;
        record_change(result);
    }
    if platform.perm_bits && destination.mode != DIR_MODE {
        destination.mode = DIR_MODE;
        record_change(result);
    }
    proof {
        assert(destination@ =~= spec_dir_after(old(destination)@, *platform));
    }
    Ok(())
}

/// The reconciliation protocol for one walked source entry, in order: parent
/// ensure and normalization, disposition by source kind, hidden-attribute
/// pass. The result's changed flag is raised exactly when the entry was not
/// already settled.
pub fn provision_sub_file(
    result: &mut NkProvisionStateResult,
    source_file: &SourceNode,
    destination_file: &str,
    fs: &mut EntryFs,
    link_files: bool,
    platform: &Platform,
) -> (r: Result<(), ()>)
    ensures
        r is Ok,
        final(fs)@ == spec_reconcile_entry(
            old(fs)@,
            source_file@,
            destination_file@,
            link_files,
            *platform,
        ),
        final(result)@.status == old(result)@.status,
        final(result)@.description == old(result)@.description,
        final(result)@.output == old(result)@.output,
        final(result)@.changed == (old(result)@.changed || !spec_entry_settled(
            old(fs)@,
            source_file@,
            destination_file@,
            link_files,
            *platform,
        )),
{
    // create the parent directory, normalize its mode, hide a dotted one
    match parent_of(destination_file) {
        Some(destination_parent) => {
            if !fs.parent.exists {
                fs.parent.exists = true;
                fs.parent.mode = platform.fresh_dir_mode;
                fs.parent.owner_is_root = platform.process_is_root;
                fs.parent.hidden = false;
                record_change(result);
            }
            if platform.perm_bits && fs.parent.mode != DIR_MODE && !fs.parent.owner_is_root {
                fs.parent.mode = DIR_MODE;
                record_change(result);
            }
            if platform.hidden_attr {
                if name_is_dotted(destination_parent.as_str()) && !fs.parent.hidden {
                    fs.parent.hidden = true;
                    record_change(result);
                }
            }
        },
        None => {},
    }
    // disposition by source kind
    if source_file.kind == SourceKind::Dir {
        // create the directory
        let _ = provision_directory_impl(result, &mut fs.dest, platform);
    } else if link_files {
        // link the file
        if !is_linked_to(&fs.dest, source_file) {
            if fs.dest.is_dir() {
                // delete the existing directory
                record_change(result);
            } else if fs.dest.is_symlink() || fs.dest.present() {
                // delete the existing file
                record_change(result);
            }
            // link the file; the fresh link resolves to the source
            fs.dest.kind = DestKind::Symlink;
            fs.dest.id = source_file.id;
            fs.dest.content = copy_bytes(&source_file.content);
            fs.dest.mode = source_file.mode;
            fs.dest.hidden = false;
            record_change(result);
        }
    } else {
        // create the file
        let file_matches = file_contents_match(source_file, &fs.dest);
        if !file_matches {
            if fs.dest.is_dir() || fs.dest.is_symlink() {
                // delete the existing directory or symlink; the copy then
                // creates a new file
                record_change(result);
                fs.dest.kind = DestKind::File;
                fs.dest.id = platform.fresh_file_id;
                fs.dest.hidden = false;
            } else if !fs.dest.present() {
                // nothing to delete: the copy creates the file
                fs.dest.kind = DestKind::File;
                fs.dest.id = platform.fresh_file_id;
                fs.dest.hidden = false;
            }
            // copy the content; a plain-file occupant is overwritten in place
            fs.dest.content = copy_bytes(&source_file.content);
            fs.dest.mode = source_file.mode;
            record_change(result);
        }
        if platform.perm_bits {
            // normalize the mode by the source's executable bit
            let want = desired_file_mode(source_file.executable);
            if fs.dest.mode != want {
                fs.dest.mode = want;
                record_change(result);
            }
        }
    }
    // hide a dotted destination
    if platform.hidden_attr {
        if name_is_dotted(destination_file) && !fs.dest.hidden {
            fs.dest.hidden = true;
            record_change(result);
        }
    }
    proof {
        assert(fs@ =~= spec_reconcile_entry(
            old(fs)@,
            source_file@,
            destination_file@,
            link_files,
            *platform,
        ));
    }
    Ok(())
}

/// Reconcile a bare directory declaration: only the directory disposition,
/// against the declared destination, reported under `create <destination>`.
pub fn provision_directory(
    destination: &str,
    dest: &mut DestNode,
    platform: &Platform,
    home_dir: &Option<String>,
) -> (r: NkProvisionStateResult)
    ensures
        final(dest)@ == spec_dir_after(old(dest)@, *platform),
        r@.status == NkProvisionStateStatus::Success,
        r@.changed == !spec_dir_settled(old(dest)@, *platform),
        r@.description == "create "@ + spec_display_tilde(destination@, home_dir.deep_view()),
        r@.output == Seq::<char>::empty(),
{
    let shown = display_path_with_tilde(destination, home_dir);
    let mut description = String::from_str("create ");
    description.append(shown.as_str());
    let mut result = NkProvisionStateResult::new_success(description);
    let _ = provision_directory_impl(&mut result, dest, platform);
    result
}

/// The action label an entry is reported under, decided purely from the
/// link-mode flag and the source's kind, never from what actually changed.
pub open spec fn spec_entry_action(link_files: bool, source_kind: SourceKind) -> Seq<char> {
    if !link_files || source_kind == SourceKind::Dir {
        "create"@
    } else {
        "link"@
    }
}

pub fn entry_action(link_files: bool, source_kind: SourceKind) -> (r: &'static str)
    ensures
        r@ == spec_entry_action(link_files, source_kind),
{
    if !link_files || source_kind == SourceKind::Dir {
        "create"
    } else {
        "link"
    }
}

} // verus!
