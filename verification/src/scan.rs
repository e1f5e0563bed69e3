//! Process supervisor's scan state machine: reads the child's output one
//! line at a time, writes the patched script when the injection-point marker
//! appears, and restores the original and parses the announced port when the
//! port markers appear.

use vstd::prelude::*;
use crate::LaunchError;
use crate::patch::ScriptFile;
use crate::patch::ScriptFileModel;
use crate::patch::spec_write_original;
use crate::patch::spec_write_patched;

verus! {

// ------------------------------------------------------------------
// Byte-sequence search
// ------------------------------------------------------------------

/// `n` occurs in `h` starting at index `i`.
pub open spec fn matches_at(h: Seq<u8>, n: Seq<u8>, i: int) -> bool {
    &&& 0 <= i
    &&& i + n.len() <= h.len()
    &&& forall|k: int| 0 <= k < n.len() ==> h[i + k] == n[k]
}

/// `n` occurs somewhere in `h`.
pub open spec fn contains_seq(h: Seq<u8>, n: Seq<u8>) -> bool {
    exists|i: int| matches_at(h, n, i)
}

/// Index of the first occurrence of `n` in `h` at or after `from`.
pub open spec fn spec_find(h: Seq<u8>, n: Seq<u8>, from: int) -> Option<int>
    decreases h.len() - from,
{
    if from < 0 || from + n.len() > h.len() {
        None
    } else if matches_at(h, n, from) {
        Some(from)
    } else {
        spec_find(h, n, from + 1)
    }
}

/// What `spec_find` returns: the first match at or after `from`, or nothing
/// when there is no match there.
pub proof fn lemma_find_characterization(h: Seq<u8>, n: Seq<u8>, from: int)
    requires
        0 <= from <= h.len(),
    ensures
        match spec_find(h, n, from) {
            Some(i) => from <= i && matches_at(h, n, i) && forall|j: int|
                from <= j < i ==> !matches_at(h, n, j),
            None => forall|j: int| j >= from ==> !matches_at(h, n, j),
        },
    decreases h.len() - from,
{
    if from + n.len() > h.len() {
    } else if matches_at(h, n, from) {
    } else {
        lemma_find_characterization(h, n, from + 1);
    }
}

/// A sequence contains `n` exactly when a search from the start finds it.
pub proof fn lemma_contains_iff_found(h: Seq<u8>, n: Seq<u8>)
    ensures
        contains_seq(h, n) <==> (spec_find(h, n, 0) is Some),
{
    lemma_find_characterization(h, n, 0);
    if spec_find(h, n, 0) is None {
        assert(forall|i: int| matches_at(h, n, i) ==> i >= 0);
    }
}

/// Whether `n` occurs in `h` at exactly index `i`.
fn match_at(h: &Vec<u8>, n: &Vec<u8>, i: usize) -> (r: bool)
    requires
        i + n.len() <= h.len(),
    ensures
        r == matches_at(h@, n@, i as int),
{
    let mut k: usize = 0;
    while k < n.len()
        invariant
            k <= n.len(),
            i + n.len() <= h.len(),
            forall|t: int| 0 <= t < k ==> h@[i + t] == n@[t],
        decreases n.len() - k,
    {
        if h[i + k] != n[k] {
            return false;
        }
        k += 1;
    }
    true
}

/// Finds the first occurrence of `n` in `h` at or after `from`.
pub fn find_first(h: &Vec<u8>, n: &Vec<u8>, from: usize) -> (r: Option<usize>)
    requires
        from <= h.len(),
    ensures
        match r {
            Some(i) => from <= i && i + n@.len() <= h@.len() && spec_find(h@, n@, from as int)
                == Some(i as int),
            None => spec_find(h@, n@, from as int) is None,
        },
{
    let mut i: usize = from;
    while h.len() - i >= n.len()
        invariant
            from <= i,
            i <= h.len(),
            spec_find(h@, n@, from as int) == spec_find(h@, n@, i as int),
        decreases h.len() - i,
    {
        if match_at(h, n, i) {
            return Some(i);
        }
        i += 1;
    }
    None
}

// ------------------------------------------------------------------
// Port parsing
// ------------------------------------------------------------------

/// An ASCII decimal digit.
pub open spec fn is_digit(b: u8) -> bool {
    0x30 <= b <= 0x39
}

pub open spec fn all_digits(s: Seq<u8>) -> bool {
    forall|i: int| 0 <= i < s.len() ==> is_digit(s[i])
}

/// The number a digit string denotes in decimal.
pub open spec fn dec_value(s: Seq<u8>) -> int
    decreases s.len(),
{
    if s.len() == 0 {
        0
    } else {
        dec_value(s.drop_last()) * 10 + (s.last() - 0x30)
    }
}

/// A port announcement parses exactly when it is one or more decimal digits
/// denoting a value that fits in 16 bits.
pub open spec fn spec_parse_port(s: Seq<u8>) -> Option<u16> {
    if s.len() > 0 && all_digits(s) && dec_value(s) <= 0xffff {
        Some(dec_value(s) as u16)
    } else {
        None
    }
}

proof fn lemma_dec_value_nonneg(s: Seq<u8>)
    requires
        all_digits(s),
    ensures
        dec_value(s) >= 0,
    decreases s.len(),
{
    if s.len() > 0 {
        assert(all_digits(s.drop_last()));
        lemma_dec_value_nonneg(s.drop_last());
    }
}

/// A digit string denotes at least as much as any of its prefixes.
proof fn lemma_dec_value_prefix_le(s: Seq<u8>, i: int)
    requires
        all_digits(s),
        0 <= i <= s.len(),
    ensures
        dec_value(s.subrange(0, i)) <= dec_value(s),
    decreases s.len() - i,
{
    if i == s.len() {
        assert(s.subrange(0, i) =~= s);
    } else {
        lemma_dec_value_prefix_le(s, i + 1);
        assert(s.subrange(0, i + 1).drop_last() =~= s.subrange(0, i));
        assert(all_digits(s.subrange(0, i)));
        lemma_dec_value_nonneg(s.subrange(0, i));
        assert(is_digit(s[i]));
        assert(dec_value(s.subrange(0, i + 1)) >= dec_value(s.subrange(0, i)));
    }
}

/// Parses a decimal 16-bit value, rejecting anything else.
pub fn parse_port(s: &Vec<u8>) -> (r: Option<u16>)
    ensures
        r == spec_parse_port(s@),
{
    if s.len() == 0 {
        return None;
    }
    let mut v: u32 = 0;
    let mut i: usize = 0;
    while i < s.len()
        invariant
            i <= s.len(),
            s.len() > 0,
            all_digits(s@.subrange(0, i as int)),
            v == dec_value(s@.subrange(0, i as int)),
            v <= 0xffff,
        decreases s.len() - i,
    {
        let b = s[i];
        if b < 0x30 || b > 0x39 {
            assert(!all_digits(s@));
            return None;
        }
        let nv: u32 = v * 10 + ((b - 0x30) as u32);
        proof {
            assert(s@.subrange(0, i + 1).drop_last() =~= s@.subrange(0, i as int));
            assert(forall|t: int|
                0 <= t < i + 1 ==> is_digit(#[trigger] s@.subrange(0, i + 1)[t]));
        }
        if nv > 0xffff {
            proof {
                if all_digits(s@) {
                    lemma_dec_value_prefix_le(s@, i + 1);
                }
            }
            return None;
        }
        v = nv;
        i += 1;
    }
    proof {
        assert(s@.subrange(0, s@.len() as int) =~= s@);
    }
    Some(v as u16)
}

// ------------------------------------------------------------------
// The markers of the bootstrap payload's protocol
// ------------------------------------------------------------------

/// Marker A, `[preload]`: the child is about to read the launcher script.
pub open spec fn spec_preload_flag() -> Seq<u8> {
    seq![0x5bu8, 0x70, 0x72, 0x65, 0x6c, 0x6f, 0x61, 0x64, 0x5d]
}

/// Start of marker B, `[QPLUGGED_INIT_PORT]`: the bound port follows.
pub open spec fn spec_port_start_flag() -> Seq<u8> {
    seq![
        0x5bu8, 0x51, 0x50, 0x4c, 0x55, 0x47, 0x47, 0x45, 0x44, 0x5f, 0x49, 0x4e, 0x49, 0x54,
        0x5f, 0x50, 0x4f, 0x52, 0x54, 0x5d,
    ]
}

/// End of marker B, `[/]`: the bound port precedes.
pub open spec fn spec_port_end_flag() -> Seq<u8> {
    seq![0x5bu8, 0x2f, 0x5d]
}

/// Marker A as a byte vector.
pub fn preload_flag() -> (v: Vec<u8>)
    ensures
        v@ == spec_preload_flag(),
{
    let mut v: Vec<u8> = Vec::new();
    v.push(0x5b);
    v.push(0x70);
    v.push(0x72);
    v.push(0x65);
    v.push(0x6c);
    v.push(0x6f);
    v.push(0x61);
    v.push(0x64);
    v.push(0x5d);
    proof {
        assert(v@ =~= spec_preload_flag());
    }
    v
}

/// Start of marker B as a byte vector.
pub fn port_start_flag() -> (v: Vec<u8>)
    ensures
        v@ == spec_port_start_flag(),
{
    let mut v: Vec<u8> = Vec::new();
    v.push(0x5b);
    v.push(0x51);
    v.push(0x50);
    v.push(0x4c);
    v.push(0x55);
    v.push(0x47);
    v.push(0x47);
    v.push(0x45);
    v.push(0x44);
    v.push(0x5f);
    v.push(0x49);
    v.push(0x4e);
    v.push(0x49);
    v.push(0x54);
    v.push(0x5f);
    v.push(0x50);
    v.push(0x4f);
    v.push(0x52);
    v.push(0x54);
    v.push(0x5d);
    proof {
        assert(v@ =~= spec_port_start_flag());
    }
    v
}

/// End of marker B as a byte vector.
pub fn port_end_flag() -> (v: Vec<u8>)
    ensures
        v@ == spec_port_end_flag(),
{
    let mut v: Vec<u8> = Vec::new();
    v.push(0x5b);
    v.push(0x2f);
    v.push(0x5d);
    proof {
        assert(v@ =~= spec_port_end_flag());
    }
    v
}

// ------------------------------------------------------------------
// Lines and port extraction
// ------------------------------------------------------------------

/// The line signals that the child is about to read the launcher script.
pub open spec fn line_triggers_injection(l: Seq<u8>) -> bool {
    contains_seq(l, spec_preload_flag())
}

/// The line carries both halves of the port announcement marker.
pub open spec fn line_announces_port(l: Seq<u8>) -> bool {
    contains_seq(l, spec_port_start_flag()) && contains_seq(l, spec_port_end_flag())
}

/// The text strictly between the end of the first start marker and the next
/// end marker after it, when the line holds them in that order.
pub open spec fn spec_port_text(l: Seq<u8>) -> Option<Seq<u8>> {
    match spec_find(l, spec_port_start_flag(), 0) {
        Some(s) => match spec_find(l, spec_port_end_flag(), s + spec_port_start_flag().len()) {
            Some(e) => Some(l.subrange(s + spec_port_start_flag().len(), e)),
            None => None,
        },
        None => None,
    }
}

/// The port a line announces, if its marked region parses as one.
pub open spec fn spec_port_of_line(l: Seq<u8>) -> Option<u16> {
    match spec_port_text(l) {
        Some(t) => spec_parse_port(t),
        None => None,
    }
}

/// Extracts and parses the announced port from a line of child output.
pub fn extract_port(line: &Vec<u8>) -> (r: Option<u16>)
    ensures
        r == spec_port_of_line(line@),
{
    let start_flag = port_start_flag();
    let end_flag = port_end_flag();
    match find_first(line, &start_flag, 0) {
        None => None,
        Some(s) => {
            // The found marker ends inside the line, so the sum fits.
            let total = line.len();
            proof {
                assert(s + start_flag@.len() <= total);
            }
            let s2 = s + start_flag.len();
            match find_first(line, &end_flag, s2) {
                None => None,
                Some(e) => {
                    let mut t: Vec<u8> = Vec::new();
                    let mut j: usize = s2;
                    while j < e
                        invariant
                            s2 <= j <= e,
                            e <= line.len(),
                            t@ == line@.subrange(s2 as int, j as int),
                        decreases e - j,
                    {
                        t.push(line[j]);
                        proof {
                            assert(t@ =~= line@.subrange(s2 as int, j + 1));
                        }
                        j += 1;
                    }
                    parse_port(&t)
                },
            }
        },
    }
}

// ------------------------------------------------------------------
// The scan state machine
// ------------------------------------------------------------------

/// Protocol state of one scan.
#[derive(Clone, Copy, Debug, PartialEq, Eq, Structural)]
pub enum ScanState {
    /// Waiting for the child to reach the point where it reads the script.
    AwaitingInjection,
    /// Payload written; waiting for the child to announce its port.
    AwaitingPort,
}

/// What one scan step did, and hence which write the shell must mirror to
/// the real script file before reading further output.
#[derive(Clone, Copy, Debug, PartialEq, Eq, Structural)]
pub enum StepResult {
    /// The line carried no relevant marker; nothing to do.
    Ignored,
    /// The patched variant was just put on disk.
    Injected,
    /// The original variant was restored and the announced port parsed; the
    /// scan is finished.
    PortFound(u16),
    /// The original variant was restored, but the marked region is no 16-bit
    /// port: a protocol mismatch between payload and supervisor.
    PortMalformed,
}

/// Spec-level picture of one running scan.
#[verifier::ext_equal]
pub struct ScanModel {
    pub state: ScanState,
    pub file: ScriptFileModel,
}

/// One transition of the scan state machine on one line of output.
pub open spec fn spec_step(m: ScanModel, l: Seq<u8>) -> (ScanModel, StepResult) {
    match m.state {
        ScanState::AwaitingInjection => if line_triggers_injection(l) {
            (
                ScanModel { state: ScanState::AwaitingPort, file: spec_write_patched(m.file) },
                StepResult::Injected,
            )
        } else {
            (m, StepResult::Ignored)
        },
        ScanState::AwaitingPort => if line_announces_port(l) {
            let f = spec_write_original(m.file);
            match spec_port_of_line(l) {
                Some(p) => (ScanModel { state: m.state, file: f }, StepResult::PortFound(p)),
                None => (ScanModel { state: m.state, file: f }, StepResult::PortMalformed),
            }
        } else {
            (m, StepResult::Ignored)
        },
    }
}

/// One scan over the child's output: the protocol state and the script file,
/// which the scan owns exclusively for the launch's lifetime.
pub struct Scanner {
    pub state: ScanState,
    pub file: ScriptFile,
}

impl View for Scanner {
    type V = ScanModel;

    open spec fn view(&self) -> ScanModel {
        ScanModel { state: self.state, file: self.file@ }
    }
}

impl Scanner {
    /// A scan that has seen no output yet.
    pub fn new(file: ScriptFile) -> (s: Self)
        ensures
            s@.state == ScanState::AwaitingInjection,
            s@.file == file@,
    {
        Scanner { state: ScanState::AwaitingInjection, file }
    }

    /// Feeds one line of child output through the state machine.
    pub fn step(&mut self, line: &Vec<u8>) -> (r: StepResult)
        ensures
            final(self)@ =~= spec_step(old(self)@, line@).0,
            r == spec_step(old(self)@, line@).1,
            old(self).file.wf() ==> final(self).file.wf(),
    {
        match self.state {
            ScanState::AwaitingInjection => {
                let flag = preload_flag();
                let found = find_first(line, &flag, 0);
                proof {
                    lemma_contains_iff_found(line@, spec_preload_flag());
                }
                match found {
                    Some(_) => {
                        self.file.write_patched();
                        self.state = ScanState::AwaitingPort;
                        StepResult::Injected
                    },
                    None => StepResult::Ignored,
                }
            },
            ScanState::AwaitingPort => {
                let sflag = port_start_flag();
                let eflag = port_end_flag();
                let fs = find_first(line, &sflag, 0);
                let fe = find_first(line, &eflag, 0);
                proof {
                    lemma_contains_iff_found(line@, spec_port_start_flag());
                    lemma_contains_iff_found(line@, spec_port_end_flag());
                }
                if fs.is_some() && fe.is_some() {
                    self.file.write_original();
                    match extract_port(line) {
                        Some(p) => StepResult::PortFound(p),
                        None => StepResult::PortMalformed,
                    }
                } else {
                    StepResult::Ignored
                }
            },
        }
    }
}

/// Outcome of scanning a whole line sequence.
pub enum ScanOutcome {
    /// The port was announced and parsed.
    GotPort(u16),
    /// The port announcement did not parse; the script was restored first.
    BadPort,
    /// The lines ran out before the port was announced; the original script
    /// content was restored best-effort.
    Incomplete,
}

/// The line sequence a vector of lines stands for.
pub open spec fn lines_view(lines: Seq<Vec<u8>>) -> Seq<Seq<u8>> {
    lines.map_values(|l: Vec<u8>| l@)
}

/// Scanning a whole line sequence: steps until the first terminal result,
/// restoring the original script when the lines end first.
pub open spec fn spec_scan(m: ScanModel, lines: Seq<Seq<u8>>) -> (ScanModel, ScanOutcome)
    decreases lines.len(),
{
    if lines.len() == 0 {
        (
            ScanModel { state: m.state, file: spec_write_original(m.file) },
            ScanOutcome::Incomplete,
        )
    } else {
        let stepped = spec_step(m, lines[0]);
        match stepped.1 {
            StepResult::Ignored => spec_scan(stepped.0, lines.subrange(1, lines.len() as int)),
            StepResult::Injected => spec_scan(stepped.0, lines.subrange(1, lines.len() as int)),
            StepResult::PortFound(p) => (stepped.0, ScanOutcome::GotPort(p)),
            StepResult::PortMalformed => (stepped.0, ScanOutcome::BadPort),
        }
    }
}

/// How each scan outcome is reported to the caller.
pub open spec fn scan_result(o: ScanOutcome) -> Result<u16, LaunchError> {
    match o {
        ScanOutcome::GotPort(p) => Ok(p),
        ScanOutcome::BadPort => Err(LaunchError::PortParseFailed),
        ScanOutcome::Incomplete => Err(LaunchError::ChildExitedEarly),
    }
}

/// Whatever the lines hold, a completed scan leaves the original bytes on
/// disk and never changes the two script variants themselves: on no reported
/// outcome does the file stay patched.
pub proof fn lemma_scan_leaves_original(m: ScanModel, lines: Seq<Seq<u8>>)
    ensures
        spec_scan(m, lines).0.file.original == m.file.original,
        spec_scan(m, lines).0.file.patched == m.file.patched,
        spec_scan(m, lines).0.file.on_disk == m.file.original,
    decreases lines.len(),
{
    if lines.len() > 0 {
        let stepped = spec_step(m, lines[0]);
        match stepped.1 {
            StepResult::Ignored => {
                lemma_scan_leaves_original(stepped.0, lines.subrange(1, lines.len() as int));
            },
            StepResult::Injected => {
                lemma_scan_leaves_original(stepped.0, lines.subrange(1, lines.len() as int));
            },
            StepResult::PortFound(_) => {},
            StepResult::PortMalformed => {},
        }
    }
}

/// Drives the scan over a complete sequence of output lines.  The first
/// terminal step decides the result; if the lines end before the port is
/// announced the original script is restored and the early exit reported.
pub fn run_scan(scanner: &mut Scanner, lines: &Vec<Vec<u8>>) -> (r: Result<u16, LaunchError>)
    ensures
        final(scanner)@ =~= spec_scan(old(scanner)@, lines_view(lines@)).0,
        r == scan_result(spec_scan(old(scanner)@, lines_view(lines@)).1),
        final(scanner)@.file.on_disk == old(scanner)@.file.original,
        final(scanner).file.wf(),
{
    proof {
        lemma_scan_leaves_original(old(scanner)@, lines_view(lines@));
    }
    let ghost all = lines_view(lines@);
    let mut i: usize = 0;
    proof {
        assert(all.subrange(0, all.len() as int) =~= all);
    }
    while i < lines.len()
        invariant
            i <= lines.len(),
            spec_scan(old(scanner)@, all) == spec_scan(
                scanner@,
                all.subrange(i as int, all.len() as int),
            ),
            all == lines_view(lines@),
        decreases lines.len() - i,
    {
        let line = &lines[i];
        let ghost pre = scanner@;
        let res = scanner.step(line);
        proof {
            let rest = all.subrange(i as int, all.len() as int);
            assert(rest[0] == line@);
            assert(rest.subrange(1, rest.len() as int) =~= all.subrange(
                i + 1,
                all.len() as int,
            ));
            assert(scanner@ =~= spec_step(pre, rest[0]).0);
        }
        match res {
            StepResult::Ignored => {},
            StepResult::Injected => {},
            StepResult::PortFound(p) => {
                proof {
                    lemma_scan_leaves_original(old(scanner)@, all);
                    assert(scanner@ =~= spec_scan(old(scanner)@, all).0);
                }
                return Ok(p);
            },
            StepResult::PortMalformed => {
                proof {
                    lemma_scan_leaves_original(old(scanner)@, all);
                    assert(scanner@ =~= spec_scan(old(scanner)@, all).0);
                }
                return Err(LaunchError::PortParseFailed);
            },
        }
        i += 1;
    }
    proof {
        assert(all.subrange(lines@.len() as int, all.len() as int) =~= Seq::<Seq<u8>>::empty());
    }
    scanner.file.write_original();
    Err(LaunchError::ChildExitedEarly)
}

} // verus!
