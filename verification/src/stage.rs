//! Stage builds: the names of run directories, the leases on them, the command
//! that builds, and what a finished build is told to be.
//!
//! `cargo install --root <stage>` runs as the invoking user. The stage's
//! `.crates2.json` is then the source of truth for what was actually built
//! (version and binary names), regardless of what the index promised earlier.
use crate::decimal::{
    all_digits, decimal, decimal_of, digit, hex, hex_byte, hex_of, is_digit, is_hex, value,
};
use crate::text::{
    cat, cat3, cat4, cat6, chars_of, contains, copied, holds_part, join, joined, same, texts,
    words, words_of,
};
use crate::validate::{refuses_bins, valid_bins, validate_bin_list, Invalid};
use crate::version::{is_semver, semver_error, semver_greater, Version};
use vstd::prelude::*;
use vstd::utf8::{decode_utf8, valid_utf8};

verus! {

/// The source that the bookkeeping of a crates.io install names.
pub const CRATES_IO_SOURCE: &'static str = "registry+https://github.com/rust-lang/crates.io-index";

/// The directory under the cache where leased runs live: a namespace that a
/// binary without leases does not know and therefore cannot sweep.
pub const RUN_NAMESPACE: &'static str = "stage-v2";

/// Name of the lease file inside a leased run directory.
pub const LEASE_FILE: &'static str = ".lease";

/// The lease's name while it is being prepared: the probe does not know this
/// name, so a lease in preparation reads as absent, never as released.
pub const LEASE_PENDING: &'static str = ".lease.pending";

/// Nonce width in hex digits: 8 random bytes.
pub const NONCE_HEX_LEN: usize = 16;

/// Output lines that a captured failure quotes.
pub const TAIL_LINES: usize = 12;

/// A directory name in a stage namespace under the cache, as the scanners read
/// it.
///
/// Two layouts coexist. `<pid>` is the layout without leases: the PID is the
/// only identity there is. `<pid>-<nonce>` is the lease-aware layout: the nonce
/// makes the name unique across PID reuse, and ownership is whatever holds the
/// run's lease.
#[derive(Debug, Clone, Copy, PartialEq, Eq, Structural)]
pub enum StageRun {
    /// `<pid>`: liveness by `/proc`.
    LegacyPid(u32),
    /// `<pid>-<nonce>`: ownership by lease; the PID is diagnostics only.
    LeasedRun { pid: u32 },
}

/// The process id that a text spells: decimal digits and nothing else, within
/// 32 bits.
pub open spec fn pid_of(text: Seq<char>) -> Option<u32> {
    if all_digits(text) && value(text) <= u32::MAX {
        Some(value(text) as u32)
    } else {
        None
    }
}

/// Whether a text is a nonce: exactly [`NONCE_HEX_LEN`] lowercase hex digits.
pub open spec fn is_nonce(text: Seq<char>) -> bool {
    &&& text.len() == NONCE_HEX_LEN
    &&& forall|i: int| 0 <= i < text.len() ==> is_hex(#[trigger] text[i])
}

/// The run that a directory name stands for.
pub open spec fn run_of(name: Seq<char>) -> Option<StageRun> {
    let dash = crate::validate::first_of(name, '-');
    if pid_of(name) is Some {
        Some(StageRun::LegacyPid(pid_of(name)->0))
    } else if name.contains('-') && pid_of(name.take(dash)) is Some && is_nonce(
        name.skip(dash + 1),
    ) {
        Some(StageRun::LeasedRun { pid: pid_of(name.take(dash))->0 })
    } else {
        None
    }
}

/// The name of a leased run.
pub open spec fn run_name(pid: u32, nonce: Seq<u8>) -> Seq<char> {
    decimal(pid as nat) + "-"@ + hex(nonce)
}

proof fn lemma_value_grows(text: Seq<char>, k: int)
    requires
        0 <= k <= text.len(),
        forall|i: int| 0 <= i < text.len() ==> is_digit(#[trigger] text[i]),
    ensures
        value(text.take(k)) <= value(text),
    decreases text.len(),
{
    if k < text.len() {
        let front = text.drop_last();
        assert forall|i: int| 0 <= i < front.len() implies is_digit(#[trigger] front[i]) by {
            assert(is_digit(text[i]));
        }
        lemma_value_grows(front, k);
        assert(front.take(k) =~= text.take(k));
        assert(is_digit(text.last()));
    } else {
        assert(text.take(k) =~= text);
    }
}

/// The process id that the characters up to `to` spell.
fn parse_pid(text: &Vec<char>, to: usize) -> (r: Option<u32>)
    requires
        to <= text.len(),
    ensures
        r == pid_of(text@.take(to as int)),
{
    let ghost part = text@.take(to as int);
    if to == 0 {
        return None;
    }
    let mut n: u64 = 0;
    let mut fits = true;
    let mut i: usize = 0;
    assert(part.take(0) =~= Seq::<char>::empty());
    while i < to
        invariant
            0 < to <= text.len(),
            i <= to,
            part == text@.take(to as int),
            forall|j: int| 0 <= j < i ==> is_digit(#[trigger] part[j]),
            fits ==> n == value(part.take(i as int)) && n <= u32::MAX,
            !fits ==> value(part.take(i as int)) > u32::MAX,
        decreases to - i,
    {
        let c = text[i];
        assert(part[i as int] == c);
        if !('0' <= c && c <= '9') {
            assert(!is_digit(part[i as int]));
            return None;
        }
        assert(part.take(i + 1).drop_last() =~= part.take(i as int));
        assert(part.take(i + 1).last() == c);
        if fits {
            n = n * 10 + (c as u32 - '0' as u32) as u64;
            if n > u32::MAX as u64 {
                fits = false;
            }
        }
        i = i + 1;
    }
    assert(part.take(i as int) =~= part);
    if fits {
        Some(n as u32)
    } else {
        None
    }
}

/// Classify a stage-namespace entry name. Strict on purpose: a legacy name is
/// ASCII digits and nothing else, a leased name is digits, one dash, and
/// exactly [`NONCE_HEX_LEN`] lowercase hex digits. Anything looser would
/// promote debris into a run and buy it protection it never earned.
#[must_use]
pub fn parse_run_dir(name: &str) -> (r: Option<StageRun>)
    ensures
        r == run_of(name@),
{
    let chars = chars_of(name);
    assert(chars@.take(chars.len() as int) =~= name@);
    match parse_pid(&chars, chars.len()) {
        Some(pid) => {
            return Some(StageRun::LegacyPid(pid));
        },
        None => {},
    }
    let dash = crate::validate::position(&chars, '-');
    if dash == chars.len() {
        return None;
    }
    let pid = match parse_pid(&chars, dash) {
        Some(pid) => pid,
        None => {
            return None;
        },
    };
    let ghost nonce = name@.skip(dash + 1);
    if chars.len() - dash - 1 != NONCE_HEX_LEN {
        return None;
    }
    let mut i: usize = dash + 1;
    while i < chars.len()
        invariant
            chars@ == name@,
            dash + 1 <= i <= chars.len(),
            dash == crate::validate::first_of(name@, '-'),
            pid_of(name@) is None,
            nonce == name@.skip(dash + 1),
            forall|j: int| 0 <= j < i - dash - 1 ==> is_hex(#[trigger] nonce[j]),
        decreases chars.len() - i,
    {
        let c = chars[i];
        assert(nonce[i - dash - 1] == c);
        if !(('0' <= c && c <= '9') || ('a' <= c && c <= 'f')) {
            assert(!is_hex(nonce[i - dash - 1]));
            return None;
        }
        i = i + 1;
    }
    Some(StageRun::LeasedRun { pid })
}

/// The `<pid>-<nonce>` name of a run, from the process id and the random bytes
/// of its nonce.
pub fn run_dir_name(pid: u32, nonce: &Vec<u8>) -> (r: String)
    ensures
        r@ == run_name(pid, nonce@),
{
    cat3(decimal_of(pid as u64).as_str(), "-", hex_of(nonce).as_str())
}

/// The name of a leased run reads back as that run: its process id, and the
/// lease-aware layout.
pub proof fn law_run_names_round_trip(pid: u32, nonce: Seq<u8>)
    requires
        2 * nonce.len() == NONCE_HEX_LEN,
    ensures
        run_of(run_name(pid, nonce)) == Some(StageRun::LeasedRun { pid }),
{
    let head = decimal(pid as nat);
    let name = run_name(pid, nonce);
    reveal_strlit("-");
    crate::decimal::law_decimal_round_trips(pid as nat);
    crate::decimal::law_hex_is_hex(nonce);
    assert(name[head.len() as int] == '-');
    assert forall|i: int| 0 <= i < head.len() implies name[i] != '-' by {
        assert(is_digit(head[i]));
    }
    crate::validate::lemma_first_at(name, '-', head.len() as int);
    assert(!is_digit(name[head.len() as int]));
    assert(name.take(head.len() as int) =~= head);
    assert(name.skip(head.len() as int + 1) =~= hex(nonce));
    assert(name.contains('-'));
}

proof fn lemma_hex_byte_injective(a: u8, b: u8)
    requires
        hex_byte(a) == hex_byte(b),
    ensures
        a == b,
{
    assert(hex_byte(a)[0] == hex_byte(b)[0]);
    assert(hex_byte(a)[1] == hex_byte(b)[1]);
    let (h, l) = (a as int / 16, a as int % 16);
    let (g, m) = (b as int / 16, b as int % 16);
    assert(0 <= h < 16 && 0 <= g < 16 && 0 <= l < 16 && 0 <= m < 16);
    assert(digit(h) == digit(g) ==> h == g);
    assert(digit(l) == digit(m) ==> l == m);
}

proof fn lemma_hex_injective(a: Seq<u8>, b: Seq<u8>)
    requires
        hex(a) == hex(b),
    ensures
        a == b,
    decreases a.len(),
{
    crate::decimal::law_hex_is_hex(a);
    crate::decimal::law_hex_is_hex(b);
    if a.len() > 0 {
        let n = hex(a).len() as int;
        assert(hex(a).subrange(n - 2, n) =~= hex_byte(a.last()));
        assert(hex(b).subrange(n - 2, n) =~= hex_byte(b.last()));
        lemma_hex_byte_injective(a.last(), b.last());
        crate::decimal::law_hex_is_hex(a.drop_last());
        crate::decimal::law_hex_is_hex(b.drop_last());
        assert(hex(a).take(n - 2) =~= hex(a.drop_last()));
        assert(hex(b).take(n - 2) =~= hex(b.drop_last()));
        lemma_hex_injective(a.drop_last(), b.drop_last());
        assert(a =~= a.drop_last().push(a.last()));
        assert(b =~= b.drop_last().push(b.last()));
    } else {
        assert(a =~= b);
    }
}

/// Two runs have one name only where both the process id and the nonce agree.
pub proof fn law_run_names_differ(pid: u32, nonce: Seq<u8>, other_pid: u32, other: Seq<u8>)
    requires
        2 * nonce.len() == NONCE_HEX_LEN,
        2 * other.len() == NONCE_HEX_LEN,
        run_name(pid, nonce) == run_name(other_pid, other),
    ensures
        pid == other_pid,
        nonce == other,
{
    law_run_names_round_trip(pid, nonce);
    law_run_names_round_trip(other_pid, other);
    let head = decimal(pid as nat);
    reveal_strlit("-");
    assert(run_name(pid, nonce).skip(head.len() as int + 1) =~= hex(nonce));
    assert(run_name(other_pid, other).skip(head.len() as int + 1) =~= hex(other));
    lemma_hex_injective(nonce, other);
}

/// What a shared, non-blocking probe of a run's lease learned.
///
/// Three answers, not two: creation is not atomic, so a missing or unopenable
/// lease proves nothing about liveness, and unknown must be spared exactly like
/// held. Only a lease that was there and takeable convicts.
#[derive(Debug, Clone, Copy, PartialEq, Eq, Structural)]
pub enum LeaseState {
    /// The lease is held: a writer, or something it spawned, is alive.
    Held,
    /// The lease was takeable: no writer remains.
    Released,
    /// No lease, or one that would not open or lock: not evidence.
    Unknown,
}

/// What a non-blocking lock attempt answered.
#[derive(Debug, Clone, Copy, PartialEq, Eq, Structural)]
pub enum LockAnswer {
    Taken,
    WouldBlock,
    Failed,
}

/// What a probe learned: `lock` is the answer of the lock attempt, or `None`
/// where the run path is no real directory or the lease would not open.
pub fn lease_state(lock: Option<LockAnswer>) -> (r: LeaseState)
    ensures
        r == LeaseState::Released <==> lock == Some(LockAnswer::Taken),
        r == LeaseState::Held <==> lock == Some(LockAnswer::WouldBlock),
{
    match lock {
        None => LeaseState::Unknown,
        Some(LockAnswer::Taken) => LeaseState::Released,
        Some(LockAnswer::WouldBlock) => LeaseState::Held,
        Some(LockAnswer::Failed) => LeaseState::Unknown,
    }
}

/// How one entry of a leased run's directory is treated by the removal.
#[derive(Debug, Clone, Copy, PartialEq, Eq, Structural)]
pub enum Removal {
    /// The proof of ownership, which goes last.
    Keep,
    /// A real directory, with everything in it.
    Tree,
    /// A file, or a link: unlinked, never followed.
    Unlink,
}

/// How the payload walk treats an entry: everything goes but the lease.
pub fn payload_removal(name: &str, is_dir: bool) -> (r: Removal)
    ensures
        r == Removal::Keep <==> name@ == LEASE_FILE@,
        r == Removal::Tree ==> is_dir,
        r == Removal::Unlink ==> !is_dir,
{
    if same(name, LEASE_FILE) {
        Removal::Keep
    } else if is_dir {
        Removal::Tree
    } else {
        Removal::Unlink
    }
}

/// The arguments of the command that builds `name` into a stage.
pub open spec fn install_args(
    name: Seq<char>,
    version: Option<Seq<char>>,
    locked: bool,
    stage: Seq<char>,
) -> Seq<Seq<char>> {
    seq!["install"@, name, "--root"@, stage] + match version {
        Some(v) => seq!["--version"@, "="@ + v],
        None => Seq::empty(),
    } + if locked {
        seq!["--locked"@]
    } else {
        Seq::empty()
    }
}

/// The version of an option, as text.
pub open spec fn version_text(version: Option<&Version>) -> Option<Seq<char>> {
    match version {
        Some(v) => Some(v@),
        None => None,
    }
}

/// The arguments of the command that builds `name` into the stage: exactly
/// `version` when given, otherwise the newest version cargo picks. The exact
/// form is spelled (`--version =1.2.3`): the intent belongs in the command
/// line, not a default.
pub fn command(name: &str, version: Option<&Version>, locked: bool, stage: &str) -> (r: Vec<String>)
    ensures
        texts(r@) == install_args(name@, version_text(version), locked, stage@),
{
    let mut args: Vec<String> = Vec::new();
    args.push("install".to_owned());
    args.push(name.to_owned());
    args.push("--root".to_owned());
    args.push(stage.to_owned());
    assert(texts(args@) =~= seq!["install"@, name@, "--root"@, stage@]);
    match version {
        Some(v) => {
            args.push("--version".to_owned());
            args.push(cat("=", v.as_str()));
        },
        None => {},
    }
    if locked {
        args.push("--locked".to_owned());
    }
    assert(texts(args@) =~= install_args(name@, version_text(version), locked, stage@));
    args
}

/// What a build is told to have failed with.
pub open spec fn failed_with(name: Seq<char>, status: Seq<char>) -> Seq<char> {
    "cargo install "@ + name + " failed with "@ + status
}

/// The end of a line read from a pipe, dropped: every line feed and carriage
/// return at the end of the bytes.
pub open spec fn trimmed(bytes: Seq<u8>) -> Seq<u8>
    decreases bytes.len(),
{
    if bytes.len() > 0 && (bytes.last() == 10 || bytes.last() == 13) {
        trimmed(bytes.drop_last())
    } else {
        bytes
    }
}

/// Drop the line end of a line read from a pipe.
pub fn trim_line_end(bytes: &mut Vec<u8>)
    ensures
        final(bytes)@ == trimmed(old(bytes)@),
{
    while bytes.len() > 0 && (bytes[bytes.len() - 1] == 10 || bytes[bytes.len() - 1] == 13)
        invariant
            trimmed(bytes@) == trimmed(old(bytes)@),
        decreases bytes.len(),
    {
        let ghost before = bytes@;
        let _ = bytes.pop();
        assert(bytes@ =~= before.drop_last());
    }
}

/// The text that `String::from_utf8_lossy` makes of bytes.
pub uninterp spec fn lossy_text(bytes: Seq<u8>) -> Seq<char>;

/// `String::from_utf8_lossy`: bytes that are UTF-8 decode as the text they
/// encode. What it puts in place of other bytes is named and not described.
#[verifier::external_body]
fn decoded(bytes: &Vec<u8>) -> (r: String)
    ensures
        r@ == lossy_text(bytes@),
        valid_utf8(bytes@) ==> r@ == decode_utf8(bytes@),
{
    String::from_utf8_lossy(bytes).into_owned()
}

/// Whether the leader's answer has the survivors swept.
pub open spec fn sweeps_now(swept: bool, gone: bool) -> bool {
    gone && !swept
}

/// How many sweeps a series of the leader's answers brings.
pub open spec fn sweeps(swept: bool, answers: Seq<bool>) -> nat
    decreases answers.len(),
{
    if answers.len() == 0 {
        0
    } else {
        (if sweeps_now(swept, answers.first()) {
            1nat
        } else {
            0nat
        }) + sweeps(answers.first() || swept, answers.drop_first())
    }
}

/// The survivors of a cancelled group are swept at most once, and they are
/// swept if the leader is ever found gone.
pub proof fn law_the_survivors_are_swept_once(answers: Seq<bool>)
    ensures
        sweeps(false, answers) == if answers.contains(true) {
            1nat
        } else {
            0nat
        },
    decreases answers.len(),
{
    if answers.len() > 0 {
        let rest = answers.drop_first();
        if answers.first() {
            assert(answers[0]);
            lemma_swept_stays_swept(rest);
        } else {
            law_the_survivors_are_swept_once(rest);
            assert(answers.contains(true) <==> rest.contains(true)) by {
                if answers.contains(true) {
                    let i = choose|i: int| 0 <= i < answers.len() && answers[i];
                    assert(rest[i - 1]);
                }
                if rest.contains(true) {
                    let i = choose|i: int| 0 <= i < rest.len() && rest[i];
                    assert(answers[i + 1]);
                }
            }
        }
    }
}

proof fn lemma_swept_stays_swept(answers: Seq<bool>)
    ensures
        sweeps(true, answers) == 0,
    decreases answers.len(),
{
    if answers.len() > 0 {
        lemma_swept_stays_swept(answers.drop_first());
    }
}

/// The captured read loop's own state: what was read, and whether the
/// survivors of a cancelled group were swept.
pub struct Drain {
    pub swept: bool,
    pub lines: Vec<String>,
}

impl Drain {
    /// Nothing read yet, nothing swept.
    pub fn new() -> (r: Drain)
        ensures
            !r.swept,
            r.lines@ == Seq::<String>::empty(),
    {
        Drain { swept: false, lines: Vec::new() }
    }

    /// Whether this turn has to ask if the group's leader is gone: only with a
    /// cancel in flight, and only until the sweep.
    pub fn asks_for_leader(&self, cancelled: bool) -> (r: bool)
        ensures
            r == (cancelled && !self.swept),
    {
        cancelled && !self.swept
    }

    /// The leader's answer: whether the survivors are to be swept now. The
    /// sweep happens once.
    pub fn leader_answered(&mut self, gone: bool) -> (r: bool)
        ensures
            r == sweeps_now(old(self).swept, gone),
            final(self).swept == (gone || old(self).swept),
            final(self).lines == old(self).lines,
    {
        let sweep = gone && !self.swept;
        if gone {
            self.swept = true;
        }
        sweep
    }

    /// A line as it was read from the pipe: its end dropped, its bytes decoded,
    /// and the text taken up. The line is handed back for the screen.
    pub fn read_bytes(&mut self, bytes: Vec<u8>) -> (r: String)
        ensures
            r@ == crate::text::sanitized(lossy_text(trimmed(bytes@))),
            valid_utf8(trimmed(bytes@)) ==> r@ == crate::text::sanitized(
                decode_utf8(trimmed(bytes@)),
            ),
            texts(final(self).lines@) == texts(old(self).lines@).push(r@),
            final(self).swept == old(self).swept,
    {
        let mut bytes = bytes;
        trim_line_end(&mut bytes);
        self.read_line(decoded(&bytes).as_str())
    }

    /// A line, its end dropped and its bytes decoded: sanitized once, for
    /// screen and log. The line is handed back for the screen.
    pub fn read_line(&mut self, decoded: &str) -> (r: String)
        ensures
            r@ == crate::text::sanitized(decoded@),
            texts(final(self).lines@) == texts(old(self).lines@).push(r@),
            final(self).swept == old(self).swept,
    {
        let line = crate::text::sanitize(decoded);
        self.lines.push(line.clone());
        assert(texts(self.lines@) =~= texts(old(self).lines@).push(line@));
        line
    }
}

/// The position of the first `true`, or `None`.
pub open spec fn first_true(marks: Seq<bool>) -> Option<int>
    decreases marks.len(),
{
    if marks.len() == 0 {
        None
    } else {
        match first_true(marks.drop_last()) {
            Some(i) => Some(i),
            None => if marks.last() {
                Some(marks.len() - 1)
            } else {
                None
            },
        }
    }
}

/// At most [`TAIL_LINES`] lines from `start` on.
pub open spec fn tail(lines: Seq<Seq<char>>, start: int) -> Seq<Seq<char>> {
    lines.skip(start).take(
        if lines.len() - start < TAIL_LINES {
            lines.len() - start
        } else {
            TAIL_LINES as int
        },
    )
}

/// Where the last [`TAIL_LINES`] lines start.
pub open spec fn last_start(lines: Seq<Seq<char>>) -> int {
    if lines.len() < TAIL_LINES {
        0
    } else {
        lines.len() - TAIL_LINES
    }
}

/// At most [`TAIL_LINES`] lines from `start` on.
pub fn tail_from(lines: &Vec<String>, start: usize) -> (r: Vec<String>)
    requires
        start <= lines.len(),
    ensures
        texts(r@) == tail(texts(lines@), start as int),
{
    let to: usize = if lines.len() - start < TAIL_LINES {
        lines.len()
    } else {
        start + TAIL_LINES
    };
    let mut out: Vec<String> = Vec::new();
    let mut i: usize = start;
    while i < to
        invariant
            start <= i <= to <= lines.len(),
            out@ == lines@.subrange(start as int, i as int),
        decreases to - i,
    {
        out.push(lines[i].clone());
        i = i + 1;
        assert(lines@.subrange(start as int, i as int) == lines@.subrange(start as int, i - 1).push(
            lines@[i - 1],
        ));
    }
    assert(texts(out@) =~= tail(texts(lines@), start as int));
    out
}

/// What became of writing a build's full log: where it is, or why it is not.
pub open spec fn log_note(log: Result<Seq<char>, Seq<char>>) -> Seq<char> {
    match log {
        Ok(path) => "\nfull log: "@ + path,
        Err(e) => "\n(could not write the full log: "@ + e + ")"@,
    }
}

/// The quoted lines of a failure, each on a line of its own, indented.
pub open spec fn quoted(tail: Seq<Seq<char>>) -> Seq<char>
    decreases tail.len(),
{
    if tail.len() == 0 {
        Seq::empty()
    } else {
        quoted(tail.drop_last()) + ("\n  "@ + tail.last())
    }
}

/// The views of what became of the log.
pub open spec fn log_view(log: Result<String, String>) -> Result<Seq<char>, Seq<char>> {
    match log {
        Ok(path) => Ok(path@),
        Err(e) => Err(e@),
    }
}

/// One shape for every captured failure: headline, log path right under it (a
/// shallow panel truncates from the bottom), then the tail.
pub fn failure_with_log(headline: &str, log: &Result<String, String>, tail: &Vec<String>) -> (r:
    String)
    ensures
        r@ == headline@ + log_note(log_view(*log)) + quoted(texts(tail@)),
{
    let note = match log {
        Ok(path) => cat("\nfull log: ", path),
        Err(e) => cat3("\n(could not write the full log: ", e, ")"),
    };
    let mut quote = String::new();
    let mut i: usize = 0;
    while i < tail.len()
        invariant
            i <= tail.len(),
            quote@ == quoted(texts(tail@).take(i as int)),
        decreases tail.len() - i,
    {
        quote.append(cat("\n  ", tail[i].as_str()).as_str());
        assert(texts(tail@).take(i + 1).drop_last() == texts(tail@).take(i as int));
        i = i + 1;
    }
    assert(texts(tail@).take(i as int) == texts(tail@));
    cat3(headline, note.as_str(), quote.as_str())
}

/// The name of a build's log file.
pub fn build_log_name(name: &str, pid: u32, stamp: &str) -> (r: String)
    ensures
        r@ == "build-"@ + name@ + "-"@ + decimal(pid as nat) + "-"@ + stamp@ + ".log"@,
{
    let mut out = cat6("build-", name, "-", decimal_of(pid as u64).as_str(), "-", stamp);
    out.append(".log");
    out
}

/// The text of a build's log file: the lines, and a line feed after the last.
pub fn build_log_body(lines: &Vec<String>) -> (r: String)
    ensures
        r@ == joined(texts(lines@), "\n"@).push('\n'),
{
    let mut body = join(lines, "\n");
    body.push('\n');
    body
}

/// How cargo ended, as far as the classification looks at it.
pub enum CargoEnd {
    /// The wait itself failed.
    Lost { cause: String },
    /// Exit status zero.
    Succeeded,
    /// Another status, in words, and whether a signal ended the process.
    Stopped { status: String, by_signal: bool },
}

/// What a captured build comes to, before the stage is looked at.
pub enum Captured {
    /// The wait failed; nothing is known.
    Lost(String),
    /// Ended by the cancel, not by cargo: no failure log.
    Cancelled,
    /// A failure: what to say, and the lines to quote under it.
    Failed { headline: String, tail: Vec<String> },
    /// Cargo says it succeeded; the stage decides.
    Built,
}

/// What a build says that cargo ended with another status than success.
pub fn build_failed(name: &str, status: &str) -> (r: String)
    ensures
        r@ == failed_with(name@, status@),
{
    cat4("cargo install ", name, " failed with ", status)
}

/// Where the quote of a failed build starts: at the first compiler error when
/// there is one, since the lines before it are successful units; else so that
/// the last lines are shown.
pub open spec fn quote_start(lines: Seq<Seq<char>>, errors: Seq<bool>) -> int {
    match first_true(errors) {
        Some(i) => i,
        None => last_start(lines),
    }
}

/// Whether `r` is what a captured build comes to.
pub open spec fn captured_as(
    name: Seq<char>,
    lines: Seq<Seq<char>>,
    errors: Seq<bool>,
    read_error: Option<Seq<char>>,
    end: CargoEnd,
    cancelled: bool,
    r: Captured,
) -> bool {
    match end {
        CargoEnd::Lost { cause } => r matches Captured::Lost(e) && e@ == "waiting for cargo: "@
            + cause@,
        _ => match read_error {
            Some(e) => r matches Captured::Failed { headline, tail: t } && headline@
                == "reading cargo output failed: "@ + e && texts(t@) == tail(
                lines,
                last_start(lines),
            ),
            None => match end {
                CargoEnd::Stopped { status, by_signal } => if cancelled && by_signal {
                    r is Cancelled
                } else {
                    r matches Captured::Failed { headline, tail: t } && headline@ == failed_with(
                        name,
                        status@,
                    ) && texts(t@) == tail(lines, quote_start(lines, errors))
                },
                _ => r is Built,
            },
        },
    }
}

proof fn lemma_first_true(marks: Seq<bool>)
    ensures
        match first_true(marks) {
            Some(i) => 0 <= i < marks.len() && marks[i] && forall|j: int|
                0 <= j < i ==> !marks[j],
            None => forall|j: int| 0 <= j < marks.len() ==> !marks[j],
        },
    decreases marks.len(),
{
    if marks.len() > 0 {
        lemma_first_true(marks.drop_last());
        assert forall|j: int| 0 <= j < marks.len() - 1 implies marks.drop_last()[j] == marks[j] by {}
    }
}

/// The position of the first `true`, or the given one where there is none.
fn first_mark(marks: &Vec<bool>, otherwise: usize) -> (r: usize)
    ensures
        r == match first_true(marks@) {
            Some(i) => i,
            None => otherwise as int,
        },
{
    let mut i: usize = 0;
    while i < marks.len()
        invariant
            i <= marks.len(),
            forall|j: int| 0 <= j < i ==> !marks@[j],
        decreases marks.len() - i,
    {
        if marks[i] {
            proof {
                lemma_first_true(marks@);
            }
            return i;
        }
        i = i + 1;
    }
    proof {
        lemma_first_true(marks@);
    }
    otherwise
}

/// What a captured build comes to, once the output is drained and the child is
/// reaped. `errors` says of each line whether it is a compiler error.
///
/// A cancellation needs both conditions: the phase alone loses the race where
/// cargo dies just before a late cancel, the signal alone would misfile an
/// external kill as a cancellation.
pub fn build_captured(
    name: &str,
    lines: &Vec<String>,
    errors: &Vec<bool>,
    read_error: Option<&String>,
    end: CargoEnd,
    cancelled: bool,
) -> (r: Captured)
    requires
        errors.len() == lines.len(),
    ensures
        captured_as(
            name@,
            texts(lines@),
            errors@,
            match read_error {
                Some(e) => Some(e@),
                None => None,
            },
            end,
            cancelled,
            r,
        ),
{
    let last: usize = if lines.len() < TAIL_LINES {
        0
    } else {
        lines.len() - TAIL_LINES
    };
    match end {
        CargoEnd::Lost { cause } => Captured::Lost(cat("waiting for cargo: ", cause.as_str())),
        CargoEnd::Succeeded => match read_error {
            Some(e) => Captured::Failed {
                headline: cat("reading cargo output failed: ", e.as_str()),
                tail: tail_from(lines, last),
            },
            None => Captured::Built,
        },
        CargoEnd::Stopped { status, by_signal } => match read_error {
            Some(e) => Captured::Failed {
                headline: cat("reading cargo output failed: ", e.as_str()),
                tail: tail_from(lines, last),
            },
            None => if cancelled && by_signal {
                Captured::Cancelled
            } else {
                proof {
                    lemma_first_true(errors@);
                }
                let start = first_mark(errors, last);
                Captured::Failed {
                    headline: build_failed(name, status.as_str()),
                    tail: tail_from(lines, start),
                }
            },
        },
    }
}

/// The failure of a build that cargo called a success and the stage does not
/// bear out: the failure contract holds past the exit code.
pub fn unverified_build(cause: &str, lines: &Vec<String>) -> (r: (String, Vec<String>))
    ensures
        r.0@ == "cargo exited successfully, but: "@ + cause@,
        texts(r.1@) == tail(texts(lines@), last_start(texts(lines@))),
{
    let last: usize = if lines.len() < TAIL_LINES {
        0
    } else {
        lines.len() - TAIL_LINES
    };
    (cat("cargo exited successfully, but: ", cause), tail_from(lines, last))
}

/// What a stage holds for a crate.
#[derive(Debug)]
pub struct Built {
    pub version: Version,
    pub bins: Vec<String>,
    pub bin_paths: Vec<String>,
}

/// One install that the stage's bookkeeping lists: its key, in the format
/// `name version (source)`, and its binaries.
pub struct Install {
    pub key: String,
    pub bins: Vec<String>,
}

/// A path below a directory: one separator between the two.
pub open spec fn below(dir: Seq<char>, leaf: Seq<char>) -> Seq<char> {
    if dir.len() == 0 {
        leaf
    } else if dir.last() == '/' {
        dir + leaf
    } else {
        dir + "/"@ + leaf
    }
}

/// A path below a directory.
fn path_below(dir: &str, leaf: &str) -> (r: String)
    ensures
        r@ == below(dir@, leaf@),
{
    let chars = chars_of(dir);
    if chars.len() == 0 {
        leaf.to_owned()
    } else if chars[chars.len() - 1] == '/' {
        cat(dir, leaf)
    } else {
        cat3(dir, "/", leaf)
    }
}

/// The version that a key names.
pub open spec fn key_version(key: Seq<char>) -> Seq<char> {
    words_of(key)[1]
}

/// Whether a key is about `name`, installed from crates.io.
pub open spec fn key_is_for(key: Seq<char>, name: Seq<char>) -> bool {
    &&& words_of(key).len() >= 3
    &&& words_of(key)[0] == name
    &&& holds_part(words_of(key)[2], CRATES_IO_SOURCE@)
}

/// What the bookkeeping says of a crate: nothing, the entry with the greatest
/// version, or the entry that cannot be used.
pub enum Staged {
    Missing,
    Best { at: int },
    BadVersion { at: int },
    BadBins { at: int },
}

/// What the bookkeeping says of `name`, entry by entry: an entry for another
/// crate or another source is passed over, one with the greater version (or the
/// first) is taken, and the first that cannot be used ends the reading.
pub open spec fn staged(name: Seq<char>, installs: Seq<Install>) -> Staged
    decreases installs.len(),
{
    if installs.len() == 0 {
        Staged::Missing
    } else {
        let at = installs.len() - 1;
        let (key, bins) = (installs[at].key@, texts(installs[at].bins@));
        let before = staged(name, installs.drop_last());
        if before is BadVersion || before is BadBins || !key_is_for(key, name) {
            before
        } else if !is_semver(key_version(key)) {
            Staged::BadVersion { at }
        } else if before is Missing || semver_greater(
            key_version(key),
            key_version(installs[before->Best_at].key@),
        ) {
            if valid_bins(bins) {
                Staged::Best { at }
            } else {
                Staged::BadBins { at }
            }
        } else {
            before
        }
    }
}

/// Whether `built` is the entry at `at`, with its binaries below the stage.
pub open spec fn built_from(built: Built, install: Install, stage: Seq<char>) -> bool {
    &&& built.version@ == key_version(install.key@)
    &&& texts(built.bins@) == texts(install.bins@)
    &&& valid_bins(texts(install.bins@))
    &&& built.bin_paths.len() == install.bins.len()
    &&& forall|i: int|
        0 <= i < built.bin_paths.len() ==> (#[trigger] built.bin_paths@[i])@ == below(
            below(stage, "bin"@),
            install.bins@[i]@,
        )
}

/// Whether `r` is what [`staged_info`] answers.
pub open spec fn staged_answer(
    name: Seq<char>,
    stage: Seq<char>,
    installs: Seq<Install>,
    r: Result<Built, String>,
) -> bool {
    match staged(name, installs) {
        Staged::Missing => r matches Err(e) && e@ == "`"@ + name
            + "` missing from stage bookkeeping after build"@,
        Staged::Best { at } => r matches Ok(built) && built_from(built, installs[at], stage),
        Staged::BadVersion { at } => r matches Err(e) && exists|cause: Seq<char>|
            semver_error(key_version(installs[at].key@)) == Some(cause) && e@ == (
            #[trigger] bad_version(key_version(installs[at].key@), cause)),
        Staged::BadBins { at } => r matches Err(e) && exists|why: Invalid|
            refuses_bins(texts(installs[at].bins@), why) && e@ == (#[trigger] bad_bins(name, why)),
    }
}

/// What is said of a staged version that does not parse.
pub open spec fn bad_version(version: Seq<char>, cause: Seq<char>) -> Seq<char> {
    "unparsable staged version `"@ + version + "`: "@ + cause
}

/// What is said of a staged list of binaries that is refused.
pub open spec fn bad_bins(name: Seq<char>, why: Invalid) -> Seq<char> {
    "stage bookkeeping for `"@ + name + "`: "@ + why.text()
}

proof fn lemma_staged_at(name: Seq<char>, installs: Seq<Install>)
    ensures
        match staged(name, installs) {
            Staged::Missing => true,
            Staged::Best { at } => 0 <= at < installs.len() && key_is_for(installs[at].key@, name)
                && is_semver(key_version(installs[at].key@)) && valid_bins(
                texts(installs[at].bins@),
            ),
            Staged::BadVersion { at } => 0 <= at < installs.len(),
            Staged::BadBins { at } => 0 <= at < installs.len(),
        },
    decreases installs.len(),
{
    if installs.len() > 0 {
        lemma_staged_at(name, installs.drop_last());
    }
}

proof fn lemma_staged_ends(name: Seq<char>, installs: Seq<Install>, k: int)
    requires
        0 <= k <= installs.len(),
        staged(name, installs.take(k)) is BadVersion || staged(name, installs.take(k)) is BadBins,
    ensures
        staged(name, installs) == staged(name, installs.take(k)),
    decreases installs.len(),
{
    if k < installs.len() {
        assert(installs.drop_last().take(k) =~= installs.take(k));
        lemma_staged_ends(name, installs.drop_last(), k);
    } else {
        assert(installs.take(k) =~= installs);
    }
}

/// The binaries below the stage.
fn bin_paths(bins: &Vec<String>, stage: &str) -> (r: Vec<String>)
    ensures
        r.len() == bins.len(),
        forall|i: int|
            0 <= i < r.len() ==> (#[trigger] r@[i])@ == below(
                below(stage@, "bin"@),
                bins@[i]@,
            ),
{
    let dir = path_below(stage, "bin");
    let mut out: Vec<String> = Vec::new();
    let mut i: usize = 0;
    while i < bins.len()
        invariant
            i <= bins.len(),
            out.len() == i,
            dir@ == below(stage@, "bin"@),
            forall|j: int|
                0 <= j < i ==> (#[trigger] out@[j])@ == below(
                    below(stage@, "bin"@),
                    bins@[j]@,
                ),
        decreases bins.len() - i,
    {
        out.push(path_below(dir.as_str(), bins[i].as_str()));
        i = i + 1;
    }
    out
}

/// What the stage actually contains for `name`, from its bookkeeping in the
/// order of its keys. One version per crate in practice; the greatest is taken
/// defensively. The bookkeeping is disk input steering placement, so it is held
/// to the manifest's standard here, before the prefix is touched.
pub fn staged_info(name: &str, stage: &str, installs: &Vec<Install>) -> (r: Result<Built, String>)
    ensures
        staged_answer(name@, stage@, installs@, r),
        r matches Ok(built) ==> forall|i: int|
            0 <= i < installs.len() && key_is_for((#[trigger] installs@[i]).key@, name@)
                ==> key_version(installs@[i].key@) == built.version@ || !semver_greater(
                key_version(installs@[i].key@),
                built.version@,
            ),
{
    let mut best: Option<Built> = None;
    let mut k: usize = 0;
    assert(installs@.take(0) =~= Seq::<Install>::empty());
    while k < installs.len()
        invariant
            k <= installs.len(),
            match staged(name@, installs@.take(k as int)) {
                Staged::Missing => best is None,
                Staged::Best { at } => best matches Some(built) && built_from(
                    built,
                    installs@[at],
                    stage@,
                ) && is_semver(built.version@),
                _ => false,
            },
            staged(name@, installs@.take(k as int)) is Missing ==> forall|i: int|
                0 <= i < k ==> !key_is_for((#[trigger] installs@[i]).key@, name@),
            best matches Some(built) ==> forall|i: int|
                0 <= i < k && key_is_for((#[trigger] installs@[i]).key@, name@) ==> is_semver(
                    key_version(installs@[i].key@),
                ) && (key_version(installs@[i].key@) == built.version@ || !semver_greater(
                    key_version(installs@[i].key@),
                    built.version@,
                )),
        decreases installs.len() - k,
    {
        let install = &installs[k];
        let ghost key = install.key@;
        proof {
            assert(installs@.take(k + 1).drop_last() =~= installs@.take(k as int));
            assert(installs@.take(k + 1)[k as int] == install);
            lemma_staged_at(name@, installs@.take(k as int));
        }
        let parts = words(install.key.as_str());
        k = k + 1;
        if parts.len() < 3 {
            continue ;
        }
        proof {
            assert(texts(parts@)[0] == parts@[0]@);
            assert(texts(parts@)[1] == parts@[1]@);
            assert(texts(parts@)[2] == parts@[2]@);
        }
        if !same(parts[0].as_str(), name) || !contains(parts[2].as_str(), CRATES_IO_SOURCE) {
            continue ;
        }
        let version = match Version::parse(parts[1].as_str()) {
            Ok(version) => version,
            Err(e) => {
                let r = cat4("unparsable staged version `", parts[1].as_str(), "`: ", e.as_str());
                proof {
                    assert(r@ == bad_version(key_version(key), e@));
                    lemma_staged_ends(name@, installs@, k as int);
                }
                return Err(r);
            },
        };
        let replace = match &best {
            Some(b) => version.exceeds(&b.version),
            None => true,
        };
        if replace {
            match validate_bin_list(&install.bins) {
                Ok(()) => {},
                Err(e) => {
                    let r = cat4("stage bookkeeping for `", name, "`: ", e.chain().as_str());
                    proof {
                        assert(r@ == bad_bins(name@, e));
                        lemma_staged_ends(name@, installs@, k as int);
                    }
                    return Err(r);
                },
            }
            let built = Built {
                bin_paths: bin_paths(&install.bins, stage),
                bins: copied(&install.bins),
                version,
            };
            best = Some(built);
        }
    }
    assert(installs@.take(k as int) =~= installs@);
    match best {
        Some(built) => Ok(built),
        None => Err(cat3("`", name, "` missing from stage bookkeeping after build")),
    }
}

/// What is said of a stage that holds another version than the one asked for.
pub open spec fn other_version(name: Seq<char>, asked: Seq<char>, held: Seq<char>) -> Seq<char> {
    "asked for "@ + name + " "@ + asked + " but the stage holds "@ + held
}

/// The stage verified to hold what was asked for: the stage is the truth about
/// what was built, checked against what was asked rather than assumed.
pub fn verified_info(
    name: &str,
    version: Option<&Version>,
    stage: &str,
    installs: &Vec<Install>,
) -> (r: Result<Built, String>)
    ensures
        match staged(name@, installs@) {
            Staged::Best { at } => {
                let held = key_version(installs@[at].key@);
                if version is Some && held != version->0@ {
                    r matches Err(e) && e@ == other_version(name@, version->0@, held)
                } else {
                    r matches Ok(built) && built_from(built, installs@[at], stage@)
                }
            },
            _ => r is Err && staged_answer(name@, stage@, installs@, r),
        },
{
    match staged_info(name, stage, installs) {
        Err(e) => Err(e),
        Ok(built) => match version {
            Some(version) => if built.version.same(version) {
                Ok(built)
            } else {
                Err(
                    cat6(
                        "asked for ",
                        name,
                        " ",
                        version.as_str(),
                        " but the stage holds ",
                        built.version.as_str(),
                    ),
                )
            },
            None => Ok(built),
        },
    }
}

/// What is verified is what was asked for: a stage is accepted under an exact
/// version only where the taken entry names that very version.
pub proof fn law_verified_version_is_the_one_asked_for(
    name: Seq<char>,
    asked: Seq<char>,
    installs: Seq<Install>,
    built: Built,
    stage: Seq<char>,
    at: int,
)
    requires
        staged(name, installs) == (Staged::Best { at }),
        key_version(installs[at].key@) == asked,
        built_from(built, installs[at], stage),
    ensures
        built.version@ == asked,
        key_is_for(installs[at].key@, name),
        valid_bins(texts(built.bins@)),
{
    lemma_staged_at(name, installs);
}

/// A build asks cargo for what was ordered: the crate into the stage, exactly the
/// version named and none where none is, and `--locked` exactly where it is set,
/// each of the two whatever the other is.
pub proof fn law_a_build_asks_for_what_was_ordered(
    name: &str,
    version: Option<&Version>,
    locked: bool,
    stage: &str,
    r: Vec<String>,
)
    requires
        call_ensures(command, (name, version, locked, stage), r),
    ensures
        r.len() == 4 + (if version is Some {
            2int
        } else {
            0
        }) + (if locked {
            1int
        } else {
            0
        }),
        r@[0]@ == "install"@,
        r@[1]@ == name@,
        r@[2]@ == "--root"@,
        r@[3]@ == stage@,
        version matches Some(v) ==> r@[4]@ == "--version"@ && r@[5]@ == "="@ + v@,
        version is None ==> forall|i: int|
            4 <= i < r.len() ==> (#[trigger] r@[i])@ != "--version"@,
        locked <==> exists|i: int| 4 <= i < r.len() && (#[trigger] r@[i])@ == "--locked"@,
{
    reveal_strlit("--version");
    reveal_strlit("--locked");
    reveal_strlit("=");
    let args = texts(r@);
    assert(args.len() == r.len());
    assert forall|i: int| 0 <= i < r.len() implies args[i] == (#[trigger] r@[i])@ by {}
    assert("--version"@[2] != "--locked"@[2]);
    if version is Some {
        let exact = "="@ + version->0@;
        assert(exact[0] == '=');
        assert("--locked"@[0] == '-');
    }
    if locked {
        let last = r.len() - 1;
        assert(args[last] == "--locked"@);
        assert(r@[last]@ == "--locked"@);
    }
}

/// A directory name is a run without a lease exactly where it is decimal digits
/// and nothing else, and a leased run only where it is decimal digits, one dash
/// and a nonce: every other character makes it neither.
pub proof fn law_run_names_are_strict(name: &str, r: Option<StageRun>)
    requires
        call_ensures(parse_run_dir, (name,), r),
    ensures
        r matches Some(StageRun::LegacyPid(pid)) ==> name@.len() > 0 && value(name@) == pid
            && forall|i: int| 0 <= i < name@.len() ==> '0' <= (#[trigger] name@[i]) <= '9',
        name@.len() > 0 && value(name@) <= u32::MAX && (forall|i: int|
            0 <= i < name@.len() ==> '0' <= (#[trigger] name@[i]) <= '9') ==> r == Some(
            StageRun::LegacyPid(value(name@) as u32),
        ),
        r matches Some(StageRun::LeasedRun { pid }) ==> exists|dash: int|
            {
                &&& 0 < dash
                &&& dash + 17 == name@.len()
                &&& #[trigger] name@[dash] == '-'
                &&& value(name@.take(dash)) == pid
                &&& forall|i: int| 0 <= i < dash ==> '0' <= (#[trigger] name@[i]) <= '9'
                &&& forall|i: int|
                    dash < i < name@.len() ==> '0' <= (#[trigger] name@[i]) <= '9' || 'a'
                        <= name@[i] <= 'f'
            },
{
    let text = name@;
    if text.len() > 0 && forall|i: int| 0 <= i < text.len() ==> '0' <= (#[trigger] text[i]) <= '9' {
        assert forall|i: int| 0 <= i < text.len() implies is_digit(#[trigger] text[i]) by {
            assert('0' <= text[i] <= '9');
        }
        assert(all_digits(text));
    }
    if r matches Some(StageRun::LegacyPid(_)) {
        assert forall|i: int| 0 <= i < text.len() implies '0' <= (#[trigger] text[i]) <= '9' by {
            assert(is_digit(text[i]));
        }
    }
    if r matches Some(StageRun::LeasedRun { .. }) {
        let dash = crate::validate::first_of(text, '-');
        crate::validate::lemma_first_of(text, '-');
        let (head, nonce) = (text.take(dash), text.skip(dash + 1));
        assert(text[dash] == '-');
        assert forall|i: int| 0 <= i < dash implies '0' <= (#[trigger] text[i]) <= '9' by {
            assert(is_digit(head[i]));
        }
        assert forall|i: int| dash < i < text.len() implies '0' <= (#[trigger] text[i]) <= '9'
            || 'a' <= text[i] <= 'f' by {
            assert(is_hex(nonce[i - dash - 1]));
        }
    }
}

/// The name given to a run is read back as that run, whatever its process id and
/// its nonce are.
pub proof fn law_a_run_is_found_under_its_name(
    pid: u32,
    nonce: Vec<u8>,
    given: String,
    name: &str,
    r: Option<StageRun>,
)
    requires
        nonce.len() == 8,
        call_ensures(run_dir_name, (pid, &nonce), given),
        name@ == given@,
        call_ensures(parse_run_dir, (name,), r),
    ensures
        r == Some(StageRun::LeasedRun { pid }),
{
    law_run_names_round_trip(pid, nonce@);
}

/// Only a lease that was there and could be taken convicts a run; only one that
/// is held clears it; anything else is no evidence.
pub proof fn law_only_a_taken_lease_convicts(lock: Option<LockAnswer>, r: LeaseState)
    requires
        call_ensures(lease_state, (lock,), r),
    ensures
        r is Released <==> lock == Some(LockAnswer::Taken),
        r is Held <==> lock == Some(LockAnswer::WouldBlock),
        r is Unknown <==> lock is None || lock == Some(LockAnswer::Failed),
{
    match lock {
        Some(LockAnswer::Taken) => {},
        Some(LockAnswer::WouldBlock) => {},
        Some(LockAnswer::Failed) => {},
        None => {},
    }
}

/// The removal keeps the lease and nothing else, and never treats what is no
/// directory as one.
pub proof fn law_the_lease_goes_last(name: &str, is_dir: bool, r: Removal)
    requires
        call_ensures(payload_removal, (name, is_dir), r),
    ensures
        r is Keep <==> name@ == ".lease"@,
        r is Tree <==> is_dir && name@ != ".lease"@,
        r is Unlink <==> !is_dir && name@ != ".lease"@,
{
}

/// Trimming a line drops line ends, all of those at the end of it, and nothing
/// else.
pub proof fn law_only_line_ends_are_trimmed(bytes: &mut Vec<u8>)
    requires
        call_ensures(trim_line_end, (bytes,), ()),
    ensures
        final(bytes).len() <= old(bytes).len(),
        final(bytes)@ == old(bytes)@.take(final(bytes).len() as int),
        forall|i: int|
            final(bytes).len() <= i < old(bytes).len() ==> (#[trigger] old(bytes)@[i]) == 10
                || old(bytes)@[i] == 13,
        final(bytes).len() > 0 ==> final(bytes)@.last() != 10 && final(bytes)@.last() != 13,
{
    lemma_trimmed(old(bytes)@);
}

proof fn lemma_trimmed(bytes: Seq<u8>)
    ensures
        trimmed(bytes).len() <= bytes.len(),
        trimmed(bytes) == bytes.take(trimmed(bytes).len() as int),
        forall|i: int|
            trimmed(bytes).len() <= i < bytes.len() ==> (#[trigger] bytes[i]) == 10 || bytes[i]
                == 13,
        trimmed(bytes).len() > 0 ==> trimmed(bytes).last() != 10 && trimmed(bytes).last() != 13,
    decreases bytes.len(),
{
    if bytes.len() > 0 && (bytes.last() == 10 || bytes.last() == 13) {
        let front = bytes.drop_last();
        lemma_trimmed(front);
        assert(front.take(trimmed(bytes).len() as int) =~= bytes.take(
            trimmed(bytes).len() as int,
        ));
        assert forall|i: int| trimmed(bytes).len() <= i < bytes.len() implies (#[trigger] bytes[i])
            == 10 || bytes[i] == 13 by {
            if i < front.len() {
                assert(front[i] == 10 || front[i] == 13);
            }
        }
    } else {
        assert(bytes.take(bytes.len() as int) =~= bytes);
    }
}

/// The read loop asks for the leader only under a cancel and only until the
/// sweep; it sweeps the first time that the leader is gone, and never again. What
/// was read is kept.
pub proof fn law_the_read_loop_sweeps_once(
    fresh: Drain,
    drain: &mut Drain,
    cancelled: bool,
    asks: bool,
    gone: bool,
    sweep: bool,
    after: bool,
)
    requires
        call_ensures(Drain::new, (), fresh),
        call_ensures(Drain::asks_for_leader, (old(drain), cancelled), asks),
        call_ensures(Drain::leader_answered, (drain, gone), sweep),
        call_ensures(Drain::asks_for_leader, (&*final(drain), cancelled), after),
    ensures
        !fresh.swept && fresh.lines.len() == 0,
        asks <==> cancelled && !old(drain).swept,
        sweep <==> gone && !old(drain).swept,
        sweep ==> final(drain).swept,
        !gone ==> final(drain).swept == old(drain).swept,
        gone ==> !after,
        final(drain).lines == old(drain).lines,
{
}

/// Every line that was read is kept, in order, as it went to the screen: the
/// same characters, with a space for each control character.
pub proof fn law_every_line_is_kept(drain: &mut Drain, line: &str, r: String)
    requires
        call_ensures(Drain::read_line, (drain, line), r),
    ensures
        r@.len() == line@.len(),
        forall|i: int|
            0 <= i < r@.len() ==> (#[trigger] r@[i]) == if line@[i] as u32 <= 0x1f || (0x7f
                <= line@[i] as u32 && line@[i] as u32 <= 0x9f) {
                ' '
            } else {
                line@[i]
            },
        final(drain).lines.len() == old(drain).lines.len() + 1,
        final(drain).lines@.last()@ == r@,
        forall|i: int|
            0 <= i < old(drain).lines.len() ==> (#[trigger] final(drain).lines@[i])@ == old(
                drain,
            ).lines@[i]@,
        final(drain).swept == old(drain).swept,
{
    let before = texts(old(drain).lines@);
    let after = texts(final(drain).lines@);
    assert(after == before.push(r@));
    assert(after.len() == final(drain).lines.len());
    assert forall|i: int| 0 <= i < old(drain).lines.len() implies (
    #[trigger] final(drain).lines@[i])@ == old(drain).lines@[i]@ by {
        assert(after[i] == before[i]);
    }
    assert(after[after.len() - 1] == r@);
}

/// Bytes that are text are read as that text.
pub proof fn law_text_is_read_as_itself(drain: &mut Drain, bytes: Vec<u8>, text: Seq<char>, r: String)
    requires
        call_ensures(Drain::read_bytes, (drain, bytes), r),
        bytes@ == vstd::utf8::encode_utf8(text),
        bytes.len() > 0 ==> bytes@.last() != 10 && bytes@.last() != 13,
        forall|i: int| 0 <= i < text.len() ==> !crate::text::control(#[trigger] text[i]),
    ensures
        r@ == text,
        final(drain).lines.len() == old(drain).lines.len() + 1,
        final(drain).lines@.last()@ == text,
{
    vstd::utf8::encode_utf8_valid_utf8(text);
    vstd::utf8::encode_utf8_decode_utf8(text);
    crate::text::law_sanitized_is_clean(text);
    let after = texts(final(drain).lines@);
    assert(after.len() == final(drain).lines.len());
    assert(after[after.len() - 1] == r@);
}

/// A quote is a run of the lines, from where it starts, twelve of them or all
/// that are left.
pub proof fn law_a_quote_is_a_run_of_lines(lines: Vec<String>, start: usize, r: Vec<String>)
    requires
        start <= lines.len(),
        call_ensures(tail_from, (&lines, start), r),
    ensures
        r.len() == if lines.len() - start < 12 {
            lines.len() - start
        } else {
            12
        },
        forall|i: int| 0 <= i < r.len() ==> (#[trigger] r@[i])@ == lines@[start + i]@,
{
    let quote = texts(r@);
    assert(quote.len() == r.len());
    assert forall|i: int| 0 <= i < r.len() implies (#[trigger] r@[i])@ == lines@[start + i]@ by {
        assert(quote[i] == texts(lines@)[start + i]);
    }
}

/// A captured build is built exactly where cargo succeeded and its output could
/// be read, cancelled exactly where a signal ended it under a cancel, lost
/// exactly where the wait failed, and a failure everywhere else.
pub proof fn law_a_build_is_classified_once(
    name: &str,
    lines: Vec<String>,
    errors: Vec<bool>,
    read_error: Option<&String>,
    end: CargoEnd,
    cancelled: bool,
    r: Captured,
)
    requires
        errors.len() == lines.len(),
        call_ensures(build_captured, (name, &lines, &errors, read_error, end, cancelled), r),
    ensures
        r is Lost <==> end is Lost,
        r is Built <==> end is Succeeded && read_error is None,
        r is Cancelled <==> read_error is None && cancelled && end is Stopped && end->by_signal,
        r is Failed <==> !(end is Lost) && (read_error is Some || (end is Stopped && !(cancelled
            && end->by_signal))),
        r is Lost ==> r->Lost_0@ == "waiting for cargo: "@ + end->cause@,
        r is Failed && read_error is None ==> r->headline@ == "cargo install "@ + name@
            + " failed with "@ + end->status@,
        r is Failed && read_error is Some ==> r->headline@ == "reading cargo output failed: "@
            + read_error->0@,
{
}

/// A failed build quotes from its first compiler error on, or its last lines
/// where there is none or where the reading failed; twelve lines at most.
pub proof fn law_a_failure_quotes_its_first_error(
    name: &str,
    lines: Vec<String>,
    errors: Vec<bool>,
    read_error: Option<&String>,
    end: CargoEnd,
    cancelled: bool,
    r: Captured,
    start: int,
)
    requires
        errors.len() == lines.len(),
        call_ensures(build_captured, (name, &lines, &errors, read_error, end, cancelled), r),
        r is Failed,
        0 <= start <= lines.len(),
        ({
            let last = if lines.len() < 12 {
                0
            } else {
                lines.len() - 12
            };
            if read_error is None && (exists|i: int| 0 <= i < errors.len() && errors@[i]) {
                start < errors.len() && errors@[start] && forall|i: int|
                    0 <= i < start ==> !errors@[i]
            } else {
                start == last
            }
        }),
    ensures
        r->tail.len() == if lines.len() - start < 12 {
            lines.len() - start
        } else {
            12
        },
        forall|i: int| 0 <= i < r->tail.len() ==> (#[trigger] r->tail@[i])@ == lines@[start + i]@,
{
    lemma_first_true(errors@);
    let quote = texts(r->tail@);
    assert(quote.len() == r->tail.len());
    assert forall|i: int| 0 <= i < r->tail.len() implies (#[trigger] r->tail@[i])@ == lines@[start
        + i]@ by {
        assert(quote[i] == texts(lines@)[start + i]);
    }
}

/// A captured failure reads headline, then what became of the log, then the
/// quoted lines, each indented on a line of its own.
pub proof fn law_a_failure_reads_from_the_top(
    headline: &str,
    log: Result<String, String>,
    tail: Vec<String>,
    r: String,
)
    requires
        call_ensures(failure_with_log, (headline, &log, &tail), r),
    ensures
        ({
            let note = match log {
                Ok(path) => "\nfull log: "@ + path@,
                Err(e) => "\n(could not write the full log: "@ + e@ + ")"@,
            };
            let head = headline@ + note;
            &&& head.len() <= r@.len()
            &&& r@.take(head.len() as int) == head
            &&& tail.len() == 0 ==> r@ == head
            &&& tail.len() > 0 ==> {
                let end = "\n  "@ + tail@.last()@;
                r@.len() >= head.len() + end.len() && r@.skip(r@.len() - end.len()) == end
            }
        }),
{
    let note = log_note(log_view(log));
    let head = headline@ + note;
    assert(r@.take(head.len() as int) =~= head);
    if tail.len() == 0 {
        assert(texts(tail@) =~= Seq::empty());
        assert(r@ =~= head);
    } else {
        assert(texts(tail@).last() == tail@.last()@);
        let end = "\n  "@ + tail@.last()@;
        assert(r@.skip(r@.len() - end.len()) =~= end);
    }
}

/// The quotes of two runs of lines in a row are the quote of the first, then
/// that of the second.
pub proof fn law_quotes_keep_their_order(a: Seq<Seq<char>>, b: Seq<Seq<char>>)
    ensures
        quoted(a + b) == quoted(a) + quoted(b),
    decreases b.len(),
{
    if b.len() == 0 {
        assert(a + b =~= a);
        assert(quoted(a) + quoted(b) =~= quoted(a));
    } else {
        assert((a + b).drop_last() =~= a + b.drop_last());
        law_quotes_keep_their_order(a, b.drop_last());
        assert(quoted(a + b) =~= quoted(a) + quoted(b));
    }
}

/// A build that cargo called a success and the stage does not bear out says so,
/// and quotes its last lines.
pub proof fn law_an_unverified_build_says_why(cause: &str, lines: Vec<String>, r: (String, Vec<String>))
    requires
        call_ensures(unverified_build, (cause, &lines), r),
    ensures
        r.0@ == "cargo exited successfully, but: "@ + cause@,
        r.1.len() == if lines.len() < 12 {
            lines.len() as int
        } else {
            12
        },
        forall|i: int|
            0 <= i < r.1.len() ==> (#[trigger] r.1@[i])@ == lines@[lines.len() - r.1.len() + i]@,
{
    let quote = texts(r.1@);
    assert(quote.len() == r.1.len());
    assert forall|i: int| 0 <= i < r.1.len() implies (#[trigger] r.1@[i])@ == lines@[lines.len()
        - r.1.len() + i]@ by {
        assert(quote[i] == texts(lines@)[lines.len() - r.1.len() + i]);
    }
}

/// The bookkeeping's key of an install reads as its name, its version and its
/// source: it counts for the crate that it names, and only where its source is
/// crates.io's.
pub proof fn law_keys_name_crate_version_and_source(
    name: Seq<char>,
    version: Seq<char>,
    source: Seq<char>,
    other: Seq<char>,
)
    requires
        crate::text::is_word(name),
        crate::text::is_word(version),
        crate::text::is_word(source),
    ensures
        ({
            let key = joined(seq![name, version, source], " "@);
            &&& key_version(key) == version
            &&& key_is_for(key, other) <==> other == name && holds_part(
                source,
                "registry+https://github.com/rust-lang/crates.io-index"@,
            )
        }),
{
    let parts = seq![name, version, source];
    assert forall|i: int| 0 <= i < parts.len() implies crate::text::is_word(#[trigger] parts[i]) by {
        assert(parts[0] == name && parts[1] == version && parts[2] == source);
    }
    crate::text::law_joined_words_read_back(parts);
}

/// What is taken from a stage is an install of that very crate from crates.io:
/// its version and its binaries as the bookkeeping lists them, each binary a
/// plain filename below the stage's `bin`, and no such install has a greater
/// version.
pub proof fn law_a_stage_yields_what_it_holds(
    name: &str,
    stage: &str,
    installs: Vec<Install>,
    r: Result<Built, String>,
)
    requires
        call_ensures(staged_info, (name, stage, &installs), r),
        r is Ok,
    ensures
        exists|at: int|
            0 <= at < installs.len() && holds_install(
                r->Ok_0,
                #[trigger] installs@[at],
                name@,
                stage@,
            ),
        forall|i: int|
            0 <= i < installs.len() && key_is_for((#[trigger] installs@[i]).key@, name@)
                ==> key_version(installs@[i].key@) == r->Ok_0.version@ || !semver_greater(
                key_version(installs@[i].key@),
                r->Ok_0.version@,
            ),
        r->Ok_0.bins.len() > 0,
        forall|i: int|
            0 <= i < r->Ok_0.bins.len() ==> crate::validate::valid_bin(
                (#[trigger] r->Ok_0.bins@[i])@,
            ),
        stage@.len() > 0 && stage@.last() != '/' ==> forall|i: int|
            0 <= i < r->Ok_0.bin_paths.len() ==> (#[trigger] r->Ok_0.bin_paths@[i])@ == stage@
                + "/bin/"@ + r->Ok_0.bins@[i]@,
{
    lemma_staged_at(name@, installs@);
    let at = staged(name@, installs@)->Best_at;
    let built = r->Ok_0;
    let install = installs@[at];
    assert(texts(built.bins@).len() == built.bins.len());
    assert(texts(install.bins@).len() == install.bins.len());
    assert forall|i: int| 0 <= i < built.bins.len() implies (#[trigger] built.bins@[i])@
        == install.bins@[i]@ by {
        assert(texts(built.bins@)[i] == texts(install.bins@)[i]);
    }
    assert(holds_install(built, install, name@, stage@));
    assert forall|i: int| 0 <= i < built.bins.len() implies crate::validate::valid_bin(
        (#[trigger] built.bins@[i])@,
    ) by {
        assert(crate::validate::valid_bin(texts(install.bins@)[i]));
    }
    if stage@.len() > 0 && stage@.last() != '/' {
        reveal_strlit("/");
        reveal_strlit("bin");
        reveal_strlit("/bin/");
        let dir = below(stage@, "bin"@);
        assert(dir.last() == 'n');
        assert forall|i: int| 0 <= i < built.bin_paths.len() implies (
        #[trigger] built.bin_paths@[i])@ == stage@ + "/bin/"@ + built.bins@[i]@ by {
            assert(built.bins@[i]@ == install.bins@[i]@);
            assert(dir + "/"@ + built.bins@[i]@ =~= stage@ + "/bin/"@ + built.bins@[i]@);
        }
    }
}

/// Whether what was built is this install of the crate, below the stage.
pub open spec fn holds_install(
    built: Built,
    install: Install,
    name: Seq<char>,
    stage: Seq<char>,
) -> bool {
    &&& words_of(install.key@).len() >= 3
    &&& words_of(install.key@)[0] == name
    &&& words_of(install.key@)[1] == built.version@
    &&& holds_part(
        words_of(install.key@)[2],
        "registry+https://github.com/rust-lang/crates.io-index"@,
    )
    &&& built.bins.len() == install.bins.len()
    &&& built.bin_paths.len() == install.bins.len()
    &&& forall|i: int| 0 <= i < built.bins.len() ==> (#[trigger] built.bins@[i])@
        == install.bins@[i]@
}

/// A stage that lists the crate, each time with a version and with binaries that
/// can be used, yields it; one that does not list it yields nothing.
pub proof fn law_a_usable_stage_is_used(
    name: &str,
    stage: &str,
    installs: Vec<Install>,
    r: Result<Built, String>,
)
    requires
        call_ensures(staged_info, (name, stage, &installs), r),
        forall|i: int|
            0 <= i < installs.len() && key_is_for((#[trigger] installs@[i]).key@, name@)
                ==> is_semver(key_version(installs@[i].key@)) && valid_bins(
                texts(installs@[i].bins@),
            ),
    ensures
        r is Ok <==> exists|i: int|
            0 <= i < installs.len() && key_is_for((#[trigger] installs@[i]).key@, name@),
{
    lemma_usable(name@, installs@);
}

proof fn lemma_usable(name: Seq<char>, installs: Seq<Install>)
    requires
        forall|i: int|
            0 <= i < installs.len() && key_is_for((#[trigger] installs[i]).key@, name)
                ==> is_semver(key_version(installs[i].key@)) && valid_bins(
                texts(installs[i].bins@),
            ),
    ensures
        staged(name, installs) is Best || staged(name, installs) is Missing,
        staged(name, installs) is Best <==> exists|i: int|
            0 <= i < installs.len() && key_is_for((#[trigger] installs[i]).key@, name),
    decreases installs.len(),
{
    if installs.len() > 0 {
        let front = installs.drop_last();
        assert forall|i: int|
            0 <= i < front.len() && key_is_for((#[trigger] front[i]).key@, name) implies is_semver(
            key_version(front[i].key@),
        ) && valid_bins(texts(front[i].bins@)) by {
            assert(installs[i] == front[i]);
        }
        lemma_usable(name, front);
        let at = installs.len() - 1;
        if staged(name, front) is Best {
            let i = choose|i: int|
                0 <= i < front.len() && key_is_for((#[trigger] front[i]).key@, name);
            assert(key_is_for(installs[i].key@, name));
        }
        if exists|i: int| 0 <= i < installs.len() && key_is_for((#[trigger] installs[i]).key@, name) {
            let i = choose|i: int|
                0 <= i < installs.len() && key_is_for((#[trigger] installs[i]).key@, name);
            if i < at {
                assert(key_is_for(front[i].key@, name));
            }
        }
        if key_is_for(installs[at].key@, name) {
            assert(is_semver(key_version(installs[at].key@)));
        }
    }
}

/// A stage whose listing of the crate cannot be used yields nothing.
pub proof fn law_an_unusable_version_is_refused(
    name: &str,
    stage: &str,
    installs: Vec<Install>,
    r: Result<Built, String>,
    i: int,
)
    requires
        call_ensures(staged_info, (name, stage, &installs), r),
        0 <= i < installs.len(),
        key_is_for(installs@[i].key@, name@),
        !is_semver(key_version(installs@[i].key@)),
    ensures
        r is Err,
{
    lemma_unusable(name@, installs@, i);
}

proof fn lemma_unusable(name: Seq<char>, installs: Seq<Install>, i: int)
    requires
        0 <= i < installs.len(),
        key_is_for(installs[i].key@, name),
        !is_semver(key_version(installs[i].key@)),
    ensures
        staged(name, installs) is BadVersion || staged(name, installs) is BadBins,
    decreases installs.len(),
{
    if i < installs.len() - 1 {
        lemma_unusable(name, installs.drop_last(), i);
    }
}

/// A stage is accepted exactly where it yields the crate at the version asked
/// for, or at any where none was; what is accepted is what it yields.
pub proof fn law_only_what_was_asked_for_is_accepted(
    name: &str,
    version: Option<&Version>,
    stage: &str,
    installs: Vec<Install>,
    held: Result<Built, String>,
    r: Result<Built, String>,
)
    requires
        call_ensures(staged_info, (name, stage, &installs), held),
        call_ensures(verified_info, (name, version, stage, &installs), r),
    ensures
        r is Ok <==> held is Ok && (version is None || version->0@ == held->Ok_0.version@),
        r is Ok ==> {
            &&& r->Ok_0.version@ == held->Ok_0.version@
            &&& version is Some ==> r->Ok_0.version@ == version->0@
            &&& texts(r->Ok_0.bins@) == texts(held->Ok_0.bins@)
            &&& texts(r->Ok_0.bin_paths@) == texts(held->Ok_0.bin_paths@)
        },
        r is Err && held is Ok ==> r->Err_0@ == "asked for "@ + name@ + " "@ + version->0@
            + " but the stage holds "@ + held->Ok_0.version@,
{
    if r is Ok {
        let (a, b) = (r->Ok_0.bin_paths@, held->Ok_0.bin_paths@);
        assert(a.len() == b.len());
        assert forall|i: int| 0 <= i < a.len() implies texts(a)[i] == texts(b)[i] by {
            assert(a[i]@ == b[i]@);
        }
        assert(texts(a) =~= texts(b));
    }
}

/// The log of a build is named after the crate, the process and the time, and
/// holds its lines with a line feed after the last.
pub proof fn law_a_log_is_named_after_its_build(
    name: &str,
    pid: u32,
    stamp: &str,
    file: String,
    lines: Vec<String>,
    body: String,
)
    requires
        call_ensures(build_log_name, (name, pid, stamp), file),
        call_ensures(build_log_body, (&lines,), body),
    ensures
        file@ == "build-"@ + name@ + "-"@ + decimal(pid as nat) + "-"@ + stamp@ + ".log"@,
        body@.len() > 0 && body@.last() == '\n',
        body@.drop_last() == joined(texts(lines@), "\n"@),
{
    assert(body@.drop_last() =~= joined(texts(lines@), "\n"@));
}

/// Below a directory with a separator at its end nothing is put between, and below
/// no directory there is nothing before.
pub proof fn law_paths_have_one_separator(dir: Seq<char>, leaf: Seq<char>)
    ensures
        dir.len() == 0 ==> below(dir, leaf) == leaf,
        dir.len() > 0 && dir.last() == '/' ==> below(dir, leaf) == dir + leaf,
        dir.len() > 0 && dir.last() != '/' ==> below(dir, leaf) == dir.push('/') + leaf,
{
    reveal_strlit("/");
    if dir.len() > 0 && dir.last() != '/' {
        assert(dir + "/"@ + leaf =~= dir.push('/') + leaf);
    }
}

/// What a stage is refused for is said: that the crate is not in it.
pub proof fn law_a_missing_crate_is_named(
    name: &str,
    stage: &str,
    installs: Vec<Install>,
    r: Result<Built, String>,
)
    requires
        call_ensures(staged_info, (name, stage, &installs), r),
        forall|i: int|
            0 <= i < installs.len() ==> !key_is_for((#[trigger] installs@[i]).key@, name@),
    ensures
        r is Err && r->Err_0@ == "`"@ + name@ + "` missing from stage bookkeeping after build"@,
{
    lemma_usable(name@, installs@);
}

/// A lease that is still being prepared is no lease: it goes with the payload.
pub proof fn law_a_pending_lease_is_payload(name: &str, is_dir: bool, r: Removal)
    requires
        name@ == LEASE_PENDING@,
        call_ensures(payload_removal, (name, is_dir), r),
    ensures
        !(r is Keep),
        LEASE_PENDING@ == ".lease.pending"@,
        RUN_NAMESPACE@ == "stage-v2"@,
{
    reveal_strlit(".lease");
    reveal_strlit(".lease.pending");
    assert(".lease.pending"@.len() != ".lease"@.len());
}

/// Every name of decimal digits, a dash and a nonce is a leased run, whatever the
/// digits and the nonce are.
pub proof fn law_every_leased_name_is_read(
    head: Seq<char>,
    nonce: Seq<char>,
    name: &str,
    r: Option<StageRun>,
)
    requires
        head.len() > 0 && value(head) <= u32::MAX,
        forall|i: int| 0 <= i < head.len() ==> '0' <= (#[trigger] head[i]) <= '9',
        nonce.len() == 16,
        forall|i: int|
            0 <= i < nonce.len() ==> '0' <= (#[trigger] nonce[i]) <= '9' || 'a' <= nonce[i] <= 'f',
        name@ == head.push('-') + nonce,
        call_ensures(parse_run_dir, (name,), r),
    ensures
        r == Some(StageRun::LeasedRun { pid: value(head) as u32 }),
{
    let text = name@;
    let at = head.len() as int;
    assert(text[at] == '-');
    assert forall|i: int| 0 <= i < at implies text[i] != '-' by {
        assert('0' <= head[i] <= '9');
    }
    crate::validate::lemma_first_at(text, '-', at);
    assert(text.contains(text[at]));
    assert(!is_digit(text[at]));
    assert(text.take(at) =~= head);
    assert(text.skip(at + 1) =~= nonce);
    assert forall|i: int| 0 <= i < head.len() implies is_digit(#[trigger] head[i]) by {
        assert('0' <= head[i] <= '9');
    }
    assert forall|i: int| 0 <= i < nonce.len() implies is_hex(#[trigger] nonce[i]) by {
        assert('0' <= nonce[i] <= '9' || 'a' <= nonce[i] <= 'f');
    }
}

} // verus!
