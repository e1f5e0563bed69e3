//! Version gate and directory synchronizer: mirrors the source installation
//! into the sandbox, wholesale, exactly when the version descriptor changed.
//!
//! A directory tree is modelled by the listing of its regular files, each
//! with its separator-joined relative path and its content.  The shell walks
//! the real source directory to produce the listing, and writes the copied
//! listing back out; every decision and the copy itself happen here.

use vstd::prelude::*;
use crate::bytes::bytes_eq;
use crate::bytes::clone_bytes;

verus! {

/// One regular file of a directory tree: its relative path below the tree's
/// root and its content, both as plain bytes.
pub struct FileEntry {
    pub rel_path: Vec<u8>,
    pub data: Vec<u8>,
}

impl FileEntry {
    pub open spec fn path_spec(self) -> Seq<u8> {
        self.rel_path@
    }

    pub open spec fn data_spec(self) -> Seq<u8> {
        self.data@
    }
}

/// A directory tree flattened to the listing of its regular files; nested
/// subdirectories appear as path components inside `rel_path`.
pub struct DirTree {
    pub files: Vec<FileEntry>,
}

/// The map from relative path to file content that a listing describes; a
/// later entry for the same path overrides an earlier one.
pub open spec fn tree_contents(files: Seq<FileEntry>) -> Map<Seq<u8>, Seq<u8>>
    decreases files.len(),
{
    if files.len() == 0 {
        Map::empty()
    } else {
        tree_contents(files.drop_last()).insert(
            files.last().path_spec(),
            files.last().data_spec(),
        )
    }
}

impl DirTree {
    pub open spec fn contents(self) -> Map<Seq<u8>, Seq<u8>> {
        tree_contents(self.files@)
    }
}

/// Listings equal entry by entry describe the same contents.
pub proof fn lemma_tree_contents_congruence(a: Seq<FileEntry>, b: Seq<FileEntry>)
    requires
        a.len() == b.len(),
        forall|i: int|
            0 <= i < a.len() ==> a[i].path_spec() == b[i].path_spec() && a[i].data_spec()
                == b[i].data_spec(),
    ensures
        tree_contents(a) == tree_contents(b),
    decreases a.len(),
{
    if a.len() > 0 {
        lemma_tree_contents_congruence(a.drop_last(), b.drop_last());
        assert(a.last().path_spec() == b.last().path_spec());
        assert(tree_contents(a) =~= tree_contents(b));
    } else {
        assert(tree_contents(a) =~= tree_contents(b));
    }
}

/// A fresh entry with the same relative path and content.
fn clone_entry(e: &FileEntry) -> (r: FileEntry)
    ensures
        r.path_spec() == e.path_spec(),
        r.data_spec() == e.data_spec(),
{
    let rel_path = clone_bytes(&e.rel_path);
    let data = clone_bytes(&e.data);
    FileEntry { rel_path, data }
}

/// Recreates a directory tree by copying every file and preserving relative
/// structure: the copy holds exactly the source's paths and contents.
pub fn copy_dir_all(from: &DirTree) -> (to: DirTree)
    ensures
        to.files@.len() == from.files@.len(),
        forall|i: int|
            0 <= i < from.files@.len() ==> to.files@[i].path_spec() == from.files@[i].path_spec()
                && to.files@[i].data_spec() == from.files@[i].data_spec(),
        to.contents() == from.contents(),
{
    let mut files: Vec<FileEntry> = Vec::new();
    let mut i: usize = 0;
    while i < from.files.len()
        invariant
            i <= from.files.len(),
            files@.len() == i,
            forall|j: int|
                0 <= j < i ==> files@[j].path_spec() == from.files@[j].path_spec()
                    && files@[j].data_spec() == from.files@[j].data_spec(),
        decreases from.files.len() - i,
    {
        let e = clone_entry(&from.files[i]);
        files.push(e);
        i += 1;
    }
    let to = DirTree { files };
    proof {
        lemma_tree_contents_congruence(to.files@, from.files@);
    }
    to
}

/// Spec-level picture of the sandbox: the recorded version descriptor (empty
/// when none was ever recorded) and the mirror's contents.
#[verifier::ext_equal]
pub struct MirrorModel {
    pub stored_version: Seq<u8>,
    pub mirror: Map<Seq<u8>, Seq<u8>>,
}

/// The sandbox state a launch works on: the last-synchronized version
/// descriptor and the mirrored tree.
pub struct MirrorState {
    pub stored_version: Vec<u8>,
    pub mirror: DirTree,
}

impl View for MirrorState {
    type V = MirrorModel;

    open spec fn view(&self) -> MirrorModel {
        MirrorModel { stored_version: self.stored_version@, mirror: self.mirror.contents() }
    }
}

impl MirrorState {
    /// State before any synchronization: an absent descriptor file reads as
    /// the empty descriptor, which never equals a real one, and the mirror is
    /// empty.
    pub fn new() -> (s: Self)
        ensures
            s@.stored_version == Seq::<u8>::empty(),
            s@.mirror == Map::<Seq<u8>, Seq<u8>>::empty(),
    {
        MirrorState { stored_version: Vec::new(), mirror: DirTree { files: Vec::new() } }
    }
}

/// The version gate: resynchronize exactly when the source's descriptor
/// differs from the recorded one.
pub open spec fn spec_needs_sync(stored: Seq<u8>, source_version: Seq<u8>) -> bool {
    stored != source_version
}

/// Decides the version gate over the raw descriptor bytes; the descriptors
/// are compared for byte equality only, never parsed.
pub fn needs_sync(stored: &Vec<u8>, source_version: &Vec<u8>) -> (r: bool)
    ensures
        r == spec_needs_sync(stored@, source_version@),
{
    !bytes_eq(stored, source_version)
}

/// Effect of one version-gated synchronization on the sandbox: a wholesale
/// replacement of the mirror, with the source's descriptor recorded, when the
/// descriptors differ, and no change at all otherwise.
pub open spec fn spec_sync(
    m: MirrorModel,
    source: Map<Seq<u8>, Seq<u8>>,
    version: Seq<u8>,
) -> MirrorModel {
    if spec_needs_sync(m.stored_version, version) {
        MirrorModel { stored_version: version, mirror: source }
    } else {
        m
    }
}

/// Replaces the mirror wholesale: the prior mirror is discarded entirely and
/// the whole source tree is copied over.  The recorded descriptor is not
/// touched here; when the shell's real copy fails part-way it reports
/// `SyncFailed` and the stale descriptor makes the next launch retry a full
/// sync rather than trust a partial mirror.
pub fn copy_nt_dir(state: &mut MirrorState, source: &DirTree)
    ensures
        final(state)@.mirror == source.contents(),
        final(state)@.stored_version == old(state)@.stored_version,
{
    let copied = copy_dir_all(source);
    state.mirror = copied;
}

/// One version-gated synchronization step: replaces the mirror and records
/// the source's descriptor exactly when the descriptors differ, and reports
/// whether a real copy was performed.
pub fn sync_if_needed(
    state: &mut MirrorState,
    source: &DirTree,
    source_version: &Vec<u8>,
) -> (performed: bool)
    ensures
        performed == spec_needs_sync(old(state)@.stored_version, source_version@),
        final(state)@ =~= spec_sync(old(state)@, source.contents(), source_version@),
        !performed ==> *final(state) == *old(state),
{
    if needs_sync(&state.stored_version, source_version) {
        copy_nt_dir(state, source);
        let v = clone_bytes(source_version);
        state.stored_version = v;
        true
    } else {
        false
    }
}

/// Version-gate idempotence: one synchronization records the source's
/// descriptor, so a second one with an unchanged source performs no copy and
/// changes nothing.
pub proof fn lemma_version_gate_idempotent(
    m: MirrorModel,
    source: Map<Seq<u8>, Seq<u8>>,
    version: Seq<u8>,
)
    ensures
        !spec_needs_sync(spec_sync(m, source, version).stored_version, version),
        spec_sync(spec_sync(m, source, version), source, version) == spec_sync(m, source, version),
{
}

/// Sync completeness: whenever a synchronization is performed, the mirror's
/// set of relative paths and each file's content afterwards equal the
/// source's exactly.
pub proof fn lemma_sync_completeness(
    m: MirrorModel,
    source: Map<Seq<u8>, Seq<u8>>,
    version: Seq<u8>,
)
    ensures
        spec_needs_sync(m.stored_version, version) ==> spec_sync(m, source, version).mirror
            == source,
        !spec_needs_sync(m.stored_version, version) ==> spec_sync(m, source, version) == m,
{
}

/// Spec-level lookup of one path in a listing's contents.
pub open spec fn tree_lookup(files: Seq<FileEntry>, path: Seq<u8>) -> Option<Seq<u8>> {
    if tree_contents(files).contains_key(path) {
        Some(tree_contents(files)[path])
    } else {
        None
    }
}

/// Looks a file up in a tree by its relative path and hands back a copy of
/// its content; as in the contents map, the latest entry for the path wins.
pub fn find_file(tree: &DirTree, path: &Vec<u8>) -> (r: Option<Vec<u8>>)
    ensures
        match r {
            Some(d) => tree_lookup(tree.files@, path@) == Some(d@),
            None => tree_lookup(tree.files@, path@) is None,
        },
{
    let mut i: usize = tree.files.len();
    proof {
        assert(tree.files@.subrange(0, tree.files@.len() as int) =~= tree.files@);
    }
    while i > 0
        invariant
            i <= tree.files.len(),
            tree_lookup(tree.files@, path@) == tree_lookup(
                tree.files@.subrange(0, i as int),
                path@,
            ),
        decreases i,
    {
        let e = &tree.files[i - 1];
        proof {
            let pre = tree.files@.subrange(0, i as int);
            assert(pre.last() == tree.files@[i - 1]);
            assert(pre.drop_last() =~= tree.files@.subrange(0, i - 1 as int));
        }
        if bytes_eq(&e.rel_path, path) {
            return Some(clone_bytes(&e.data));
        }
        i -= 1;
    }
    proof {
        assert(tree.files@.subrange(0, 0) =~= Seq::<FileEntry>::empty());
    }
    None
}

} // verus!
