//! The model of the filesystem entities one reconciled entry touches.
//!
//! A source entry is read-only: its kind, platform file identity, content,
//! permission bits and the access probe's executable verdict. The destination
//! and its parent directory are the mutable state the reconciler drives
//! toward the desired shape. Platform-specific behaviour (permission-bit
//! normalization, the hidden attribute, what a fresh directory or file gets
//! from the platform) is captured by [`Platform`], so the protocol itself
//! never branches on a platform.

use vstd::prelude::*;

verus! {

#[derive(Clone, Copy, Debug, PartialEq, Eq, Structural)]
pub enum SourceKind {
    File,
    Dir,
}

/// A walked source entry, as the probes report it.
pub struct SourceNode {
    pub kind: SourceKind,
    /// Platform file identity (stable across renames, shared by links).
    pub id: u128,
    /// Whole-file content; empty for a directory.
    pub content: Vec<u8>,
    /// Whether the access probe reports the entry executable.
    pub executable: bool,
    /// Permission bits, carried along by a plain file copy.
    pub mode: u32,
}

#[verifier::ext_equal]
pub struct SourceNodeView {
    pub kind: SourceKind,
    pub id: u128,
    pub content: Seq<u8>,
    pub executable: bool,
    pub mode: u32,
}

impl View for SourceNode {
    type V = SourceNodeView;

    open spec fn view(&self) -> SourceNodeView {
        SourceNodeView {
            kind: self.kind,
            id: self.id,
            content: self.content@,
            executable: self.executable,
            mode: self.mode,
        }
    }
}

/// What occupies the destination path. A `Symlink` resolves to a regular
/// file; a `BrokenSymlink` resolves to nothing.
#[derive(Clone, Copy, Debug, PartialEq, Eq, Structural)]
pub enum DestKind {
    Missing,
    File,
    Dir,
    Symlink,
    BrokenSymlink,
}

/// The state at the destination path. `id`, `content` and `mode` describe the
/// resolved target and are meaningful only for kinds that resolve to a file;
/// `hidden` is the platform hidden attribute of the entry itself.
pub struct DestNode {
    pub kind: DestKind,
    pub id: u128,
    pub content: Vec<u8>,
    pub mode: u32,
    pub hidden: bool,
}

#[verifier::ext_equal]
pub struct DestNodeView {
    pub kind: DestKind,
    pub id: u128,
    pub content: Seq<u8>,
    pub mode: u32,
    pub hidden: bool,
}

impl View for DestNode {
    type V = DestNodeView;

    open spec fn view(&self) -> DestNodeView {
        DestNodeView {
            kind: self.kind,
            id: self.id,
            content: self.content@,
            mode: self.mode,
            hidden: self.hidden,
        }
    }
}

/// The destination's parent directory. The protocol treats an existing
/// parent as a directory; any other occupant surfaces as a failed step when
/// the run performs the real operations.
#[derive(Clone, Copy, Debug, PartialEq, Eq, Structural)]
pub struct ParentDir {
    pub exists: bool,
    pub mode: u32,
    /// Whether the directory is owned by the privileged root account (its
    /// mode is then left alone, to avoid mutating shared system directories).
    pub owner_is_root: bool,
    pub hidden: bool,
}

/// The filesystem state one entry's reconciliation reads and mutates.
pub struct EntryFs {
    pub parent: ParentDir,
    pub dest: DestNode,
}

#[verifier::ext_equal]
pub struct EntryFsView {
    pub parent: ParentDir,
    pub dest: DestNodeView,
}

impl View for EntryFs {
    type V = EntryFsView;

    open spec fn view(&self) -> EntryFsView {
        EntryFsView { parent: self.parent, dest: self.dest@ }
    }
}

/// The platform family's behaviour, fixed for a whole run.
#[derive(Clone, Copy, Debug, PartialEq, Eq, Structural)]
pub struct Platform {
    /// The platform normalizes permission bits (the Unix family).
    pub perm_bits: bool,
    /// The platform has a hidden attribute distinct from permission bits.
    pub hidden_attr: bool,
    /// Whether this run's process is the privileged root account; a parent
    /// directory the run itself creates is owned by the process.
    pub process_is_root: bool,
    /// The mode a directory created this run receives from the platform.
    pub fresh_dir_mode: u32,
    /// The identity a file created this run receives from the platform.
    pub fresh_file_id: u128,
}

/// Permission bits fit the nine-bit access mask.
pub open spec fn spec_mode_valid(m: u32) -> bool {
    m <= 0o777
}

impl SourceNodeView {
    pub open spec fn wf(self) -> bool {
        spec_mode_valid(self.mode)
    }
}

impl DestNodeView {
    pub open spec fn wf(self) -> bool {
        spec_mode_valid(self.mode)
    }
}

impl ParentDir {
    pub open spec fn wf(self) -> bool {
        spec_mode_valid(self.mode)
    }
}

impl Platform {
    pub open spec fn wf(self) -> bool {
        spec_mode_valid(self.fresh_dir_mode)
    }
}

impl EntryFsView {
    pub open spec fn wf(self) -> bool {
        self.parent.wf() && self.dest.wf()
    }
}

/// Whether an existence probe of the destination succeeds: a broken symlink
/// fails it just like an absent path.
pub open spec fn spec_dest_exists(d: DestNodeView) -> bool {
    d.kind == DestKind::File || d.kind == DestKind::Dir || d.kind == DestKind::Symlink
}

pub open spec fn spec_dest_is_dir(d: DestNodeView) -> bool {
    d.kind == DestKind::Dir
}

pub open spec fn spec_dest_is_symlink(d: DestNodeView) -> bool {
    d.kind == DestKind::Symlink || d.kind == DestKind::BrokenSymlink
}

impl DestNode {
    pub fn present(&self) -> (r: bool)
        ensures
            r == spec_dest_exists(self@),
    {
        match self.kind {
            DestKind::Missing => false,
            DestKind::BrokenSymlink => false,
            _ => true,
        }
    }

    pub fn is_dir(&self) -> (r: bool)
        ensures
            r == spec_dest_is_dir(self@),
    {
        self.kind == DestKind::Dir
    }

    pub fn is_symlink(&self) -> (r: bool)
        ensures
            r == spec_dest_is_symlink(self@),
    {
        self.kind == DestKind::Symlink || self.kind == DestKind::BrokenSymlink
    }
}

/// Link identity: the destination exists and resolves to the same underlying
/// file object as the source.
pub open spec fn spec_linked(d: DestNodeView, s: SourceNodeView) -> bool {
    spec_dest_exists(d) && d.id == s.id
}

/// Whether a destination that is already linked to the source is in place;
/// anything that fails the existence probe (a dangling link) is not.
pub fn is_linked_to(destination_file: &DestNode, source_file: &SourceNode) -> (r: bool)
    ensures
        r == spec_linked(destination_file@, source_file@),
{
    if !destination_file.present() {
        return false;
    }
    destination_file.id == source_file.id
}

/// Content equality: the destination exists, is not a directory, and its
/// resolved content equals the source's byte for byte.
pub open spec fn spec_contents_match(s: SourceNodeView, d: DestNodeView) -> bool {
    spec_dest_exists(d) && d.kind != DestKind::Dir && d.content == s.content
}

fn bytes_equal(a: &Vec<u8>, b: &Vec<u8>) -> (r: bool)
    ensures
        r == (a@ == b@),
{
    if a.len() != b.len() {
        return false;
    }
    let n = a.len();
    let mut i: usize = 0;
    while i < n
        invariant
            i <= n,
            n == a.len() == b.len(),
            forall|j: int| 0 <= j < i ==> a@[j] == b@[j],
        decreases n - i,
    {
        if a[i] != b[i] {
            return false;
        }
        i = i + 1;
    }
    proof {
        assert(a@ =~= b@);
    }
    true
}

/// Whole-content comparison between source and destination, with the size
/// check as a short circuit.
pub fn file_contents_match(source: &SourceNode, destination: &DestNode) -> (r: bool)
    ensures
        r == spec_contents_match(source@, destination@),
{
    if !destination.present() || destination.is_dir() {
        return false;
    }
    if source.content.len() != destination.content.len() {
        return false;
    }
    bytes_equal(&source.content, &destination.content)
}

/// A fresh byte-for-byte copy of `src`.
pub fn copy_bytes(src: &Vec<u8>) -> (r: Vec<u8>)
    ensures
        r@ == src@,
{
    let n = src.len();
    let mut r: Vec<u8> = Vec::new();
    let mut i: usize = 0;
    while i < n
        invariant
            i <= n,
            n == src.len(),
            r@ == src@.take(i as int),
        decreases n - i,
    {
        r.push(src[i]);
        proof {
            assert(r@ =~= src@.take(i as int + 1));
        }
        i = i + 1;
    }
    proof {
        assert(src@.take(n as int) =~= src@);
    }
    r
}

} // verus!
