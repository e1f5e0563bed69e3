//! Locator, version gate, synchronizer, launch guard and whole-launch
//! behaviour, observed from outside.

use qplugged::guard::NTState;
use qplugged::guard::initialize_nt;
use qplugged::launch::launch_nt;
use qplugged::locate::get_nt_dir;
use qplugged::mirror::DirTree;
use qplugged::mirror::FileEntry;
use qplugged::mirror::MirrorState;
use qplugged::mirror::copy_dir_all;
use qplugged::mirror::find_file;
use qplugged::mirror::needs_sync;
use qplugged::mirror::sync_if_needed;
use qplugged::LaunchError;

fn bv(s: &str) -> Vec<u8> {
    s.as_bytes().to_vec()
}

fn entry(path: &str, data: &str) -> FileEntry {
    FileEntry { rel_path: bv(path), data: bv(data) }
}

fn sample_tree() -> DirTree {
    DirTree {
        files: vec![
            entry("QQ.exe", "binary-bytes"),
            entry("resources/app/versions/config.json", "{\"version\":\"1.2.3\"}"),
            entry("resources/app/app_launcher/index.js", "boot();"),
            entry("resources/app/deep/nested/dir/file.txt", "deep"),
        ],
    }
}

#[test]
fn guard_first_call_false_rest_true() {
    let mut state = NTState::new();
    assert_eq!(initialize_nt(&mut state), false);
    assert_eq!(initialize_nt(&mut state), true);
    assert_eq!(initialize_nt(&mut state), true);
}

#[test]
fn missing_record_is_not_found() {
    assert_eq!(get_nt_dir(None), Err(LaunchError::NotFound));
}

#[test]
fn record_resolves_to_parent_directory() {
    let r = get_nt_dir(Some(bv("C:\\Apps\\QQ\\QQUninstall.exe")));
    assert_eq!(r, Ok(bv("C:\\Apps\\QQ")));
    let r2 = get_nt_dir(Some(bv("opt/qq/uninstall")));
    assert_eq!(r2, Ok(bv("opt/qq")));
}

#[test]
fn record_without_directory_is_malformed() {
    assert_eq!(get_nt_dir(Some(bv("QQUninstall.exe"))), Err(LaunchError::ConfigStoreError));
    assert_eq!(get_nt_dir(Some(bv(""))), Err(LaunchError::ConfigStoreError));
}

#[test]
fn gate_compares_descriptors_bytewise() {
    assert!(needs_sync(&bv(""), &bv("{\"version\":\"1\"}")));
    assert!(needs_sync(&bv("{\"version\":\"1\"}"), &bv("{\"version\":\"2\"}")));
    assert!(!needs_sync(&bv("{\"version\":\"1\"}"), &bv("{\"version\":\"1\"}")));
}

#[test]
fn version_gate_second_sync_is_noop() {
    let source = sample_tree();
    let version = bv("{\"version\":\"1.2.3\"}");
    let mut state = MirrorState::new();

    assert!(sync_if_needed(&mut state, &source, &version));
    let snapshot: Vec<(Vec<u8>, Vec<u8>)> = state
        .mirror
        .files
        .iter()
        .map(|f| (f.rel_path.clone(), f.data.clone()))
        .collect();

    assert!(!sync_if_needed(&mut state, &source, &version));
    let after: Vec<(Vec<u8>, Vec<u8>)> = state
        .mirror
        .files
        .iter()
        .map(|f| (f.rel_path.clone(), f.data.clone()))
        .collect();
    assert_eq!(snapshot, after);
    assert_eq!(state.stored_version, version);
}

#[test]
fn changed_descriptor_resynchronizes() {
    let mut state = MirrorState::new();
    let old_tree = DirTree { files: vec![entry("a.txt", "old")] };
    assert!(sync_if_needed(&mut state, &old_tree, &bv("v1")));
    assert_eq!(find_file(&state.mirror, &bv("a.txt")), Some(bv("old")));

    let new_tree = DirTree { files: vec![entry("b.txt", "new")] };
    assert!(sync_if_needed(&mut state, &new_tree, &bv("v2")));
    assert_eq!(find_file(&state.mirror, &bv("a.txt")), None);
    assert_eq!(find_file(&state.mirror, &bv("b.txt")), Some(bv("new")));
    assert_eq!(state.stored_version, bv("v2"));
}

#[test]
fn sync_copies_all_paths_and_contents() {
    let source = sample_tree();
    let copy = copy_dir_all(&source);
    assert_eq!(copy.files.len(), source.files.len());
    for f in &source.files {
        assert_eq!(find_file(&copy, &f.rel_path), Some(f.data.clone()));
    }
}

#[test]
fn find_file_latest_entry_wins() {
    let tree = DirTree {
        files: vec![entry("dup.txt", "first"), entry("dup.txt", "second")],
    };
    assert_eq!(find_file(&tree, &bv("dup.txt")), Some(bv("second")));
    assert_eq!(find_file(&tree, &bv("absent")), None);
}

#[test]
fn empty_source_tree_syncs_to_empty_mirror() {
    let mut state = MirrorState::new();
    let old_tree = DirTree { files: vec![entry("a.txt", "old")] };
    assert!(sync_if_needed(&mut state, &old_tree, &bv("v1")));
    let empty_tree = DirTree { files: Vec::new() };
    assert!(sync_if_needed(&mut state, &empty_tree, &bv("v2")));
    assert_eq!(state.mirror.files.len(), 0);
}

#[test]
fn launch_returns_port_and_syncs() {
    let mut state = MirrorState::new();
    let source = sample_tree();
    let lines = vec![
        bv("starting up"),
        bv("...[preload]..."),
        bv("listening [QPLUGGED_INIT_PORT]54321[/] ok"),
    ];
    let r = launch_nt(
        &mut state,
        Some(bv("C:\\Apps\\QQ\\QQUninstall.exe")),
        &source,
        &bv("{\"version\":\"1.2.3\"}"),
        &bv("serve();"),
        &bv("resources/app/app_launcher/index.js"),
        &lines,
    );
    assert_eq!(r, Ok(54321));
    assert_eq!(state.stored_version, bv("{\"version\":\"1.2.3\"}"));
    assert_eq!(
        find_file(&state.mirror, &bv("resources/app/app_launcher/index.js")),
        Some(bv("boot();"))
    );
}

#[test]
fn launch_with_missing_record_touches_nothing() {
    let mut state = MirrorState::new();
    let source = sample_tree();
    let lines = vec![bv("[preload]"), bv("[QPLUGGED_INIT_PORT]1[/]")];
    let r = launch_nt(
        &mut state,
        None,
        &source,
        &bv("v"),
        &bv("serve();"),
        &bv("resources/app/app_launcher/index.js"),
        &lines,
    );
    assert_eq!(r, Err(LaunchError::NotFound));
    assert_eq!(state.mirror.files.len(), 0);
    assert_eq!(state.stored_version, bv(""));
}

#[test]
fn launch_without_script_in_mirror_fails_to_read() {
    let mut state = MirrorState::new();
    let source = DirTree { files: vec![entry("QQ.exe", "binary")] };
    let r = launch_nt(
        &mut state,
        Some(bv("C:\\Apps\\QQ\\QQUninstall.exe")),
        &source,
        &bv("v"),
        &bv("serve();"),
        &bv("resources/app/app_launcher/index.js"),
        &vec![],
    );
    assert_eq!(r, Err(LaunchError::ReadFailed));
    assert_eq!(state.stored_version, bv("v"));
}

#[test]
fn launch_reports_malformed_port() {
    let mut state = MirrorState::new();
    let source = sample_tree();
    let lines = vec![bv("[preload]"), bv("[QPLUGGED_INIT_PORT]abc[/]")];
    let r = launch_nt(
        &mut state,
        Some(bv("C:\\Apps\\QQ\\QQUninstall.exe")),
        &source,
        &bv("v"),
        &bv("serve();"),
        &bv("resources/app/app_launcher/index.js"),
        &lines,
    );
    assert_eq!(r, Err(LaunchError::PortParseFailed));
}

#[test]
fn launch_reports_early_child_exit() {
    let mut state = MirrorState::new();
    let source = sample_tree();
    let lines = vec![bv("[preload]")];
    let r = launch_nt(
        &mut state,
        Some(bv("C:\\Apps\\QQ\\QQUninstall.exe")),
        &source,
        &bv("v"),
        &bv("serve();"),
        &bv("resources/app/app_launcher/index.js"),
        &lines,
    );
    assert_eq!(r, Err(LaunchError::ChildExitedEarly));
}
