//! Laws of the reconciliation protocol, stated over the same spec functions
//! the executable functions' contracts use.

use vstd::prelude::*;
use crate::fsmodel::{
    DestKind, DestNodeView, EntryFsView, Platform, SourceKind, SourceNodeView, spec_dest_exists,
};
use crate::reconcile::{
    spec_desired_file_mode, spec_dir_after, spec_dir_settled, spec_entry_settled,
    spec_reconcile_entry,
};

verus! {

/// Law: reconciliation is idempotent. Over the state one reconciliation of an
/// entry produced, the same entry is settled, so a second run performs no
/// mutation and reports `changed == false` for it.
pub proof fn lemma_reconcile_idempotent(
    fs: EntryFsView,
    s: SourceNodeView,
    dest_path: Seq<char>,
    link_files: bool,
    p: Platform,
)
    ensures
        spec_entry_settled(
            spec_reconcile_entry(fs, s, dest_path, link_files, p),
            s,
            dest_path,
            link_files,
            p,
        ),
{
}

/// Law: a bare directory declaration is idempotent as well.
pub proof fn lemma_directory_idempotent(d: DestNodeView, p: Platform)
    ensures
        spec_dir_settled(spec_dir_after(d, p), p),
{
}

/// Law: minimal change. A settled entry — one whose reconciliation reports
/// `changed == false` — is left exactly as it is.
pub proof fn lemma_settled_entry_unchanged(
    fs: EntryFsView,
    s: SourceNodeView,
    dest_path: Seq<char>,
    link_files: bool,
    p: Platform,
)
    requires
        spec_entry_settled(fs, s, dest_path, link_files, p),
    ensures
        spec_reconcile_entry(fs, s, dest_path, link_files, p) == fs,
{
    assert(spec_reconcile_entry(fs, s, dest_path, link_files, p) =~= fs);
}

/// Law: minimal change for a bare directory declaration as well.
pub proof fn lemma_settled_directory_unchanged(d: DestNodeView, p: Platform)
    requires
        spec_dir_settled(d, p),
    ensures
        spec_dir_after(d, p) == d,
{
    assert(spec_dir_after(d, p) =~= d);
}

/// Law: copy-mode round trip. After one reconciliation in copy mode the
/// destination's content equals the source's content, and on a platform that
/// normalizes permission bits its mode reflects the source's executable bit.
pub proof fn lemma_copy_round_trip(
    fs: EntryFsView,
    s: SourceNodeView,
    dest_path: Seq<char>,
    p: Platform,
)
    requires
        s.kind == SourceKind::File,
    ensures
        spec_reconcile_entry(fs, s, dest_path, false, p).dest.content == s.content,
        p.perm_bits ==> spec_reconcile_entry(fs, s, dest_path, false, p).dest.mode
            == spec_desired_file_mode(s.executable),
{
}

/// Law: link-mode identity. After one reconciliation in link mode the
/// destination exists and resolves to the same underlying file as the source.
pub proof fn lemma_link_identity(
    fs: EntryFsView,
    s: SourceNodeView,
    dest_path: Seq<char>,
    p: Platform,
)
    requires
        s.kind == SourceKind::File,
    ensures
        spec_dest_exists(spec_reconcile_entry(fs, s, dest_path, true, p).dest),
        spec_reconcile_entry(fs, s, dest_path, true, p).dest.id == s.id,
{
}

/// Law: a content mismatch triggers a rewrite. A destination that pre-exists
/// with content different from the source's leaves the entry unsettled (the
/// run reports `changed == true`), and the destination ends byte-identical to
/// the source.
pub proof fn lemma_content_mismatch_rewrites(
    fs: EntryFsView,
    s: SourceNodeView,
    dest_path: Seq<char>,
    p: Platform,
)
    requires
        s.kind == SourceKind::File,
        fs.dest.content != s.content,
    ensures
        !spec_entry_settled(fs, s, dest_path, false, p),
        spec_reconcile_entry(fs, s, dest_path, false, p).dest.content == s.content,
{
}

/// Law: directory-over-file correction. A plain file occupying the
/// destination of a directory disposition is deleted and the directory
/// created in its place; the run reports `changed == true`.
pub proof fn lemma_directory_over_file(d: DestNodeView, p: Platform)
    requires
        d.kind == DestKind::File,
    ensures
        !spec_dir_settled(d, p),
        spec_dir_after(d, p).kind == DestKind::Dir,
{
}

/// Law: reconciliation keeps permission bits within the nine-bit access mask.
/// Over a well-formed state, source and platform, the state it produces is
/// well formed again.
pub proof fn lemma_reconcile_preserves_wf(
    fs: EntryFsView,
    s: SourceNodeView,
    dest_path: Seq<char>,
    link_files: bool,
    p: Platform,
)
    requires
        fs.wf(),
        s.wf(),
        p.wf(),
    ensures
        spec_reconcile_entry(fs, s, dest_path, link_files, p).wf(),
{
}

/// Law: a bare directory declaration keeps permission bits within the
/// nine-bit access mask as well.
pub proof fn lemma_directory_preserves_wf(d: DestNodeView, p: Platform)
    requires
        d.wf(),
        p.wf(),
    ensures
        spec_dir_after(d, p).wf(),
{
}

} // verus!
