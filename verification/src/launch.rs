//! The full launch orchestration over plain values: locate the install,
//! run the version gate and synchronizer, build the patched script, and scan
//! the child's output for the announced port.
//!
//! The shell around the library supplies the inputs (the configuration-store
//! record, the source tree listing and descriptor, the bundled payload, the
//! child's output lines) and mirrors the decided writes to the real
//! filesystem and process.

use vstd::prelude::*;
use crate::LaunchError;
use crate::locate::get_nt_dir;
use crate::locate::spec_parent_dir;
use crate::mirror::DirTree;
use crate::mirror::MirrorModel;
use crate::mirror::MirrorState;
use crate::mirror::find_file;
use crate::mirror::spec_sync;
use crate::mirror::sync_if_needed;
use crate::patch::ScriptFile;
use crate::patch::ScriptFileModel;
use crate::patch::patch_nt;
use crate::patch::spec_patched;
use crate::scan::ScanModel;
use crate::scan::ScanState;
use crate::scan::Scanner;
use crate::scan::lines_view;
use crate::scan::run_scan;
use crate::scan::scan_result;
use crate::scan::spec_scan;

verus! {

/// The record's bytes, if the configuration store had one.
pub open spec fn record_view(record: Option<Vec<u8>>) -> Option<Seq<u8>> {
    match record {
        Some(p) => Some(p@),
        None => None,
    }
}

/// The sandbox state and result of one whole launch attempt:
/// a missing install record or one without a directory component is terminal
/// before anything is touched; otherwise the mirror is resynchronized behind
/// the version gate, the launcher script is read from the mirror, and the
/// scan decides the port.
pub open spec fn spec_launch(
    state: MirrorModel,
    record: Option<Seq<u8>>,
    source: Map<Seq<u8>, Seq<u8>>,
    source_version: Seq<u8>,
    payload: Seq<u8>,
    js_rel_path: Seq<u8>,
    lines: Seq<Seq<u8>>,
) -> (MirrorModel, Result<u16, LaunchError>) {
    match record {
        None => (state, Err(LaunchError::NotFound)),
        Some(p) => match spec_parent_dir(p) {
            None => (state, Err(LaunchError::ConfigStoreError)),
            Some(_) => {
                let synced = spec_sync(state, source, source_version);
                if !synced.mirror.contains_key(js_rel_path) {
                    (synced, Err(LaunchError::ReadFailed))
                } else {
                    let original = synced.mirror[js_rel_path];
                    let m0 = ScanModel {
                        state: ScanState::AwaitingInjection,
                        file: ScriptFileModel {
                            original: original,
                            patched: spec_patched(payload, original),
                            on_disk: original,
                        },
                    };
                    (synced, scan_result(spec_scan(m0, lines).1))
                }
            },
        },
    }
}

/// One launch attempt.  `record` is what the configuration store held for
/// the application, `source` and `source_version` are the installed tree's
/// listing and version descriptor, `payload` the bundled bootstrap text,
/// `js_rel_path` the launcher script's relative path inside the mirror, and
/// `lines` the child's output.  The sandbox state is only changed by the
/// version-gated synchronization; every failure is reported as a tagged
/// value.
pub fn launch_nt(
    state: &mut MirrorState,
    record: Option<Vec<u8>>,
    source: &DirTree,
    source_version: &Vec<u8>,
    payload: &Vec<u8>,
    js_rel_path: &Vec<u8>,
    lines: &Vec<Vec<u8>>,
) -> (r: Result<u16, LaunchError>)
    ensures
        final(state)@ =~= spec_launch(
            old(state)@,
            record_view(record),
            source.contents(),
            source_version@,
            payload@,
            js_rel_path@,
            lines_view(lines@),
        ).0,
        r == spec_launch(
            old(state)@,
            record_view(record),
            source.contents(),
            source_version@,
            payload@,
            js_rel_path@,
            lines_view(lines@),
        ).1,
{
    match get_nt_dir(record) {
        Err(e) => {
            return Err(e);
        },
        Ok(_) => {},
    }
    sync_if_needed(state, source, source_version);
    let original = match find_file(&state.mirror, js_rel_path) {
        None => {
            return Err(LaunchError::ReadFailed);
        },
        Some(d) => d,
    };
    let data = patch_nt(payload, original);
    let file = ScriptFile::new(data);
    let mut scanner = Scanner::new(file);
    run_scan(&mut scanner, lines)
}

} // verus!
