//! Script patcher: builds the patched variant of the launcher script and
//! models the script file on disk, which alternates between exactly two
//! variants, original and patched.

use vstd::prelude::*;
use crate::bytes::clone_bytes;
use crate::bytes::push_all;

verus! {

/// The patched variant: the bootstrap payload prefixed onto the original
/// script content.
pub open spec fn spec_patched(payload: Seq<u8>, original: Seq<u8>) -> Seq<u8> {
    payload + original
}

/// The two in-memory variants of the one launcher script that is mutated in
/// place during a launch.
pub struct NtJsData {
    /// Script content as read from the mirror, byte for byte.
    pub original: Vec<u8>,
    /// The bootstrap payload followed by `original`.
    pub patched: Vec<u8>,
}

impl NtJsData {
    /// Both variants are coherent: `patched` is `payload ++ original` for
    /// some payload, witnessed by the constructor's contract.
    pub open spec fn wf_for(self, payload: Seq<u8>) -> bool {
        self.patched@ == spec_patched(payload, self.original@)
    }
}

/// Synthesizes the two script variants from the bootstrap payload and the
/// original content read from the mirrored launcher script.
pub fn patch_nt(payload: &Vec<u8>, original: Vec<u8>) -> (r: NtJsData)
    ensures
        r.original@ == original@,
        r.patched@ == spec_patched(payload@, original@),
        r.wf_for(payload@),
{
    let mut patched: Vec<u8> = Vec::new();
    push_all(&mut patched, payload);
    push_all(&mut patched, &original);
    proof {
        assert(Seq::<u8>::empty() + payload@ =~= payload@);
    }
    NtJsData { original, patched }
}

/// Spec-level picture of the script file: its two variants and the bytes
/// currently on disk.
#[verifier::ext_equal]
pub struct ScriptFileModel {
    pub original: Seq<u8>,
    pub patched: Seq<u8>,
    pub on_disk: Seq<u8>,
}

/// Effect of a wholesale `write_patched` on the file model.
pub open spec fn spec_write_patched(m: ScriptFileModel) -> ScriptFileModel {
    ScriptFileModel { on_disk: m.patched, ..m }
}

/// Effect of a wholesale `write_original` on the file model.
pub open spec fn spec_write_original(m: ScriptFileModel) -> ScriptFileModel {
    ScriptFileModel { on_disk: m.original, ..m }
}

/// The launcher script together with the bytes this launch last put on disk.
/// The shell mirrors every change of `on_disk` to the real file before acting
/// on any further output of the child.
pub struct ScriptFile {
    pub data: NtJsData,
    pub on_disk: Vec<u8>,
}

impl View for ScriptFile {
    type V = ScriptFileModel;

    open spec fn view(&self) -> ScriptFileModel {
        ScriptFileModel {
            original: self.data.original@,
            patched: self.data.patched@,
            on_disk: self.on_disk@,
        }
    }
}

impl ScriptFile {
    /// The on-disk bytes are exactly one of the two variants; no third state
    /// is ever persisted.
    pub open spec fn wf(self) -> bool {
        self@.on_disk == self@.original || self@.on_disk == self@.patched
    }

    /// Adopts freshly read script content; the file on disk still holds the
    /// original bytes.
    pub fn new(data: NtJsData) -> (f: Self)
        ensures
            f@.original == data.original@,
            f@.patched == data.patched@,
            f@.on_disk == data.original@,
            f.wf(),
    {
        let on_disk = clone_bytes(&data.original);
        ScriptFile { data, on_disk }
    }

    /// Overwrites the file wholesale with the patched variant.  Idempotent:
    /// only the last write before the child reads the file matters.
    pub fn write_patched(&mut self)
        ensures
            final(self)@ =~= spec_write_patched(old(self)@),
            final(self).wf(),
    {
        let c = clone_bytes(&self.data.patched);
        self.on_disk = c;
    }

    /// Overwrites the file wholesale with the original variant.  Idempotent.
    pub fn write_original(&mut self)
        ensures
            final(self)@ =~= spec_write_original(old(self)@),
            final(self).wf(),
    {
        let c = clone_bytes(&self.data.original);
        self.on_disk = c;
    }
}

/// Patch/restore round-trip: restoring the original after writing the
/// patched variant leaves the file byte-identical to the pre-patch original,
/// for any original content, including empty content.
pub proof fn lemma_patch_restore_round_trip(m: ScriptFileModel)
    ensures
        spec_write_original(spec_write_patched(m)).on_disk == m.original,
        spec_write_original(spec_write_patched(m)) =~= spec_write_original(m),
{
}

} // verus!
