//! Scan-loop, patching and port-parsing behaviour, observed from outside.

use qplugged::patch::NtJsData;
use qplugged::patch::ScriptFile;
use qplugged::patch::patch_nt;
use qplugged::scan::Scanner;
use qplugged::scan::StepResult;
use qplugged::scan::extract_port;
use qplugged::scan::find_first;
use qplugged::scan::parse_port;
use qplugged::scan::run_scan;
use qplugged::LaunchError;

fn by(s: &str) -> Vec<u8> {
    s.as_bytes().to_vec()
}

fn script(payload: &str, original: &str) -> (Vec<u8>, Vec<u8>, ScriptFile) {
    let data: NtJsData = patch_nt(&by(payload), by(original));
    let orig = data.original.clone();
    let patched = data.patched.clone();
    (orig, patched, ScriptFile::new(data))
}

#[test]
fn patched_is_payload_before_original() {
    let data = patch_nt(&by("PAY;"), by("load();"));
    assert_eq!(data.original, by("load();"));
    assert_eq!(data.patched, by("PAY;load();"));
}

#[test]
fn patch_restore_round_trip() {
    for original in ["", "x", "const a = 1;\nrun(a);\n"] {
        let (orig, patched, mut file) = script("payload();", original);
        assert_eq!(file.on_disk, orig);
        file.write_patched();
        assert_eq!(file.on_disk, patched);
        file.write_original();
        assert_eq!(file.on_disk, orig);
    }
}

#[test]
fn write_operations_are_idempotent() {
    let (orig, patched, mut file) = script("p", "o");
    file.write_patched();
    file.write_patched();
    assert_eq!(file.on_disk, patched);
    file.write_original();
    file.write_original();
    assert_eq!(file.on_disk, orig);
}

#[test]
fn scan_loop_injects_and_finds_port() {
    let (orig, patched, file) = script("serve();", "boot();");
    let mut scanner = Scanner::new(file);

    assert_eq!(scanner.step(&by("starting up")), StepResult::Ignored);
    assert_eq!(scanner.file.on_disk, orig);

    assert_eq!(scanner.step(&by("...[preload]... ")), StepResult::Injected);
    assert_eq!(scanner.file.on_disk, patched);

    assert_eq!(
        scanner.step(&by("listening [QPLUGGED_INIT_PORT]54321[/] ok")),
        StepResult::PortFound(54321)
    );
    assert_eq!(scanner.file.on_disk, orig);
}

#[test]
fn scan_whole_sequence_returns_port() {
    let (orig, _, file) = script("serve();", "boot();");
    let mut scanner = Scanner::new(file);
    let lines = vec![
        by("starting up"),
        by("...[preload]... "),
        by("listening [QPLUGGED_INIT_PORT]54321[/] ok"),
    ];
    assert_eq!(run_scan(&mut scanner, &lines), Ok(54321));
    assert_eq!(scanner.file.on_disk, orig);
}

#[test]
fn malformed_port_fails_after_restore() {
    let (orig, _, file) = script("serve();", "boot();");
    let mut scanner = Scanner::new(file);
    let lines = vec![by("...[preload]..."), by("[QPLUGGED_INIT_PORT]abc[/]")];
    assert_eq!(run_scan(&mut scanner, &lines), Err(LaunchError::PortParseFailed));
    assert_eq!(scanner.file.on_disk, orig);
}

#[test]
fn malformed_port_step_restores_before_failing() {
    let (orig, _, file) = script("serve();", "boot();");
    let mut scanner = Scanner::new(file);
    assert_eq!(scanner.step(&by("[preload]")), StepResult::Injected);
    assert_eq!(scanner.step(&by("[QPLUGGED_INIT_PORT]abc[/]")), StepResult::PortMalformed);
    assert_eq!(scanner.file.on_disk, orig);
}

#[test]
fn early_end_of_output_restores_original() {
    let (orig, _, file) = script("serve();", "boot();");
    let mut scanner = Scanner::new(file);
    let lines = vec![by("starting up"), by("...[preload]...")];
    assert_eq!(run_scan(&mut scanner, &lines), Err(LaunchError::ChildExitedEarly));
    assert_eq!(scanner.file.on_disk, orig);
}

#[test]
fn empty_output_restores_original_and_exits_early() {
    let (orig, _, file) = script("serve();", "boot();");
    let mut scanner = Scanner::new(file);
    let lines: Vec<Vec<u8>> = vec![];
    assert_eq!(run_scan(&mut scanner, &lines), Err(LaunchError::ChildExitedEarly));
    assert_eq!(scanner.file.on_disk, orig);
}

#[test]
fn port_line_before_injection_is_ignored() {
    let (orig, _, file) = script("serve();", "boot();");
    let mut scanner = Scanner::new(file);
    assert_eq!(scanner.step(&by("[QPLUGGED_INIT_PORT]80[/]")), StepResult::Ignored);
    assert_eq!(scanner.file.on_disk, orig);
}

#[test]
fn second_preload_line_is_ignored() {
    let (_, patched, file) = script("serve();", "boot();");
    let mut scanner = Scanner::new(file);
    assert_eq!(scanner.step(&by("[preload]")), StepResult::Injected);
    assert_eq!(scanner.step(&by("[preload] again")), StepResult::Ignored);
    assert_eq!(scanner.file.on_disk, patched);
}

#[test]
fn extract_port_reads_between_markers() {
    assert_eq!(extract_port(&by("x[QPLUGGED_INIT_PORT]65535[/]y")), Some(65535));
    assert_eq!(extract_port(&by("[QPLUGGED_INIT_PORT]0[/]")), Some(0));
    assert_eq!(extract_port(&by("[QPLUGGED_INIT_PORT]65536[/]")), None);
    assert_eq!(extract_port(&by("[QPLUGGED_INIT_PORT][/]")), None);
    assert_eq!(extract_port(&by("no markers at all")), None);
}

#[test]
fn end_marker_only_before_start_marker_is_malformed() {
    let line = by("[/]x[QPLUGGED_INIT_PORT]1");
    assert_eq!(extract_port(&line), None);
    let (orig, _, file) = script("serve();", "boot();");
    let mut scanner = Scanner::new(file);
    assert_eq!(scanner.step(&by("[preload]")), StepResult::Injected);
    assert_eq!(scanner.step(&line), StepResult::PortMalformed);
    assert_eq!(scanner.file.on_disk, orig);
}

#[test]
fn parse_port_handles_digits_only() {
    assert_eq!(parse_port(&by("54321")), Some(54321));
    assert_eq!(parse_port(&by("00054321")), Some(54321));
    assert_eq!(parse_port(&by("12a3")), None);
    assert_eq!(parse_port(&by("")), None);
    assert_eq!(parse_port(&by("+80")), None);
    assert_eq!(parse_port(&by("99999999999999999999")), None);
}

#[test]
fn line_with_both_markers_before_injection_injects_first() {
    // Before injection only the injection-point marker matters, even when
    // the same line also carries a port announcement.
    let (_, patched, file) = script("serve();", "boot();");
    let mut scanner = Scanner::new(file);
    assert_eq!(
        scanner.step(&by("[preload] [QPLUGGED_INIT_PORT]80[/]")),
        StepResult::Injected
    );
    assert_eq!(scanner.file.on_disk, patched);
}

#[test]
fn empty_payload_patches_to_original() {
    let (orig, patched, mut file) = script("", "boot();");
    assert_eq!(patched, orig);
    file.write_patched();
    assert_eq!(file.on_disk, orig);
}

#[test]
fn find_first_returns_first_occurrence() {
    assert_eq!(find_first(&by("abcabc"), &by("bc"), 0), Some(1));
    assert_eq!(find_first(&by("abcabc"), &by("bc"), 2), Some(4));
    assert_eq!(find_first(&by("abcabc"), &by("xy"), 0), None);
    assert_eq!(find_first(&by("abc"), &by(""), 0), Some(0));
}
