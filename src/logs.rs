//! Log rules: rotation at task start, tails, and following.
use vstd::prelude::*;
use crate::constants::MAX_LOG_SIZE;
use crate::error::{ErrorView, HyperVError};
use crate::text::{decimal_chars, push_decimal};

verus! {

/// Which log streams to show.
#[derive(Clone, Copy, Debug, PartialEq, Eq, Structural)]
pub enum LogType {
    Stdout,
    Stderr,
    Both,
}

/// The lower-case form of a text, as `str::to_lowercase` gives it.
pub uninterp spec fn lower_of(s: Seq<char>) -> Seq<char>;

/// Relies on `str::to_lowercase`: its result depends on the characters alone.
#[verifier::external_body]
fn lowercase(s: &str) -> (r: String)
    ensures
        r@ == lower_of(s@),
{
    s.to_lowercase()
}

/// The log type a lower-cased name selects.
pub open spec fn log_type_of(lower: Seq<char>) -> Option<LogType> {
    if lower == "stdout"@ {
        Some(LogType::Stdout)
    } else if lower == "stderr"@ {
        Some(LogType::Stderr)
    } else if lower == "both"@ {
        Some(LogType::Both)
    } else {
        None
    }
}

impl LogType {
    /// The log type named by `lower`, the lower-cased form of `given`;
    /// `InvalidLogType(given)` for any other name.
    pub fn from_lowercase(lower: &str, given: &str) -> (r: Result<LogType, HyperVError>)
        ensures
            match log_type_of(lower@) {
                Some(t) => r == Ok::<LogType, HyperVError>(t),
                None => r is Err && r->Err_0@ == ErrorView::InvalidLogType(given@),
            },
    {
        if crate::text::text_eq(lower, "stdout") {
            Ok(LogType::Stdout)
        } else if crate::text::text_eq(lower, "stderr") {
            Ok(LogType::Stderr)
        } else if crate::text::text_eq(lower, "both") {
            Ok(LogType::Both)
        } else {
            Err(HyperVError::InvalidLogType(String::from_str(given)))
        }
    }

    /// Parses a log type name, ignoring case.
    pub fn parse(s: &str) -> (r: Result<LogType, HyperVError>)
        ensures
            match log_type_of(lower_of(s@)) {
                Some(t) => r == Ok::<LogType, HyperVError>(t),
                None => r is Err && r->Err_0@ == ErrorView::InvalidLogType(s@),
            },
    {
        let lower = lowercase(s);
        LogType::from_lowercase(lower.as_str(), s)
    }
}

impl std::str::FromStr for LogType {
    type Err = HyperVError;

    fn from_str(s: &str) -> Result<LogType, HyperVError> {
        LogType::parse(s)
    }
}

/// A file operation of a log rotation.
#[derive(Debug)]
pub enum FsOp {
    /// Delete the file at this path.
    RemoveFile(String),
    /// Rename the first path to the second.
    Rename(String, String),
}

/// A file operation, with paths as characters.
pub enum FsOpView {
    RemoveFile(Seq<char>),
    Rename(Seq<char>, Seq<char>),
}

impl View for FsOp {
    type V = FsOpView;

    open spec fn view(&self) -> FsOpView {
        match self {
            FsOp::RemoveFile(p) => FsOpView::RemoveFile(p@),
            FsOp::Rename(a, b) => FsOpView::Rename(a@, b@),
        }
    }
}

/// The backup sibling of a log file.
pub open spec fn backup_of(log: Seq<char>) -> Seq<char> {
    log + ".old"@
}

/// The operations that rotate the log at `log`: when it exists and is
/// larger than the threshold, the backup is removed if present and the log
/// renamed to it; otherwise nothing.
pub open spec fn rotation_ops(log: Seq<char>, exists: bool, size: nat, backup_exists: bool) -> Seq<FsOpView> {
    if exists && size > MAX_LOG_SIZE {
        if backup_exists {
            seq![FsOpView::RemoveFile(backup_of(log)), FsOpView::Rename(log, backup_of(log))]
        } else {
            seq![FsOpView::Rename(log, backup_of(log))]
        }
    } else {
        Seq::empty()
    }
}

/// Files as a map from path to contents.
pub type Files = Map<Seq<char>, Seq<u8>>;

/// The effect of one operation on the files.
pub open spec fn apply_op(fs: Files, op: FsOpView) -> Files {
    match op {
        FsOpView::RemoveFile(p) => fs.remove(p),
        FsOpView::Rename(a, b) => if fs.contains_key(a) {
            fs.remove(a).insert(b, fs[a])
        } else {
            fs
        },
    }
}

/// The effect of operations, in order, on the files.
pub open spec fn apply_ops(fs: Files, ops: Seq<FsOpView>) -> Files
    decreases ops.len(),
{
    if ops.len() == 0 {
        fs
    } else {
        apply_op(apply_ops(fs, ops.drop_last()), ops.last())
    }
}

/// Rotation of the log at `log` as the files themselves decide it.
pub open spec fn rotate_files(fs: Files, log: Seq<char>) -> Files {
    apply_ops(fs, rotation_ops(log, fs.contains_key(log), fs[log].len(), fs.contains_key(backup_of(log))))
}

/// Opening a log for appending, creating it empty when it is missing.
pub open spec fn open_append(fs: Files, log: Seq<char>) -> Files {
    if fs.contains_key(log) { fs } else { fs.insert(log, Seq::empty()) }
}

/// Rotation keeps a single generation. Rotating a log larger than the
/// threshold moves its contents to the backup and leaves no active log, so
/// that the task's start opens an empty one, and touches no other file.
/// Rotating again at once changes nothing. When the new log has grown past
/// the threshold, the next rotation replaces the backup with the new
/// contents and leaves the same files as the first one did.
pub proof fn rotation_keeps_one_generation(fs: Files, log: Seq<char>, later: Seq<u8>)
    requires
        fs.contains_key(log),
        fs[log].len() > MAX_LOG_SIZE,
        later.len() > MAX_LOG_SIZE,
    ensures
        rotate_files(fs, log).contains_key(backup_of(log)),
        rotate_files(fs, log)[backup_of(log)] == fs[log],
        !rotate_files(fs, log).contains_key(log),
        open_append(rotate_files(fs, log), log)[log] == Seq::<u8>::empty(),
        forall|p: Seq<char>| p != log && p != backup_of(log) ==>
            (#[trigger] rotate_files(fs, log).contains_key(p) == fs.contains_key(p)
                && rotate_files(fs, log)[p] == fs[p]),
        rotate_files(open_append(rotate_files(fs, log), log), log)
            == open_append(rotate_files(fs, log), log),
        rotate_files(open_append(rotate_files(fs, log), log).insert(log, later), log)[backup_of(log)] == later,
        rotate_files(open_append(rotate_files(fs, log), log).insert(log, later), log).dom()
            == rotate_files(fs, log).dom(),
{
    reveal_with_fuel(apply_ops, 3);
    reveal_strlit(".old");
    let b = backup_of(log);
    assert(b.len() == log.len() + 4);
    assert(b != log);
    let fs1 = rotate_files(fs, log);
    if fs.contains_key(b) {
        assert(rotation_ops(log, true, fs[log].len(), true) =~= seq![FsOpView::RemoveFile(b), FsOpView::Rename(log, b)]);
        assert(seq![FsOpView::RemoveFile(b), FsOpView::Rename(log, b)].drop_last() =~= seq![FsOpView::RemoveFile(b)]);
        assert(seq![FsOpView::RemoveFile(b)].drop_last() =~= Seq::<FsOpView>::empty());
        assert(fs1 =~= fs.remove(b).remove(log).insert(b, fs[log]));
    } else {
        assert(seq![FsOpView::Rename(log, b)].drop_last() =~= Seq::<FsOpView>::empty());
        assert(fs1 =~= fs.remove(log).insert(b, fs[log]));
    }
    let fs2 = open_append(fs1, log);
    assert(fs2 =~= fs1.insert(log, Seq::empty()));
    assert(rotation_ops(log, true, 0, true) =~= Seq::<FsOpView>::empty());
    let fs3 = fs2.insert(log, later);
    assert(rotation_ops(log, true, later.len(), true) =~= seq![FsOpView::RemoveFile(b), FsOpView::Rename(log, b)]);
    assert(seq![FsOpView::RemoveFile(b), FsOpView::Rename(log, b)].drop_last() =~= seq![FsOpView::RemoveFile(b)]);
    assert(seq![FsOpView::RemoveFile(b)].drop_last() =~= Seq::<FsOpView>::empty());
    assert(rotate_files(fs3, log) =~= fs3.remove(b).remove(log).insert(b, later));
    assert(rotate_files(fs3, log).dom() =~= fs1.dom());
}

/// Tail of `lines`: its last `n` items, or all of them when there are fewer.
pub open spec fn last_n<T>(lines: Seq<T>, n: nat) -> Seq<T> {
    if lines.len() > n { lines.subrange(lines.len() - n, lines.len() as int) } else { lines }
}

/// The line shown in place of a missing log.
pub open spec fn missing_log_line() -> Seq<char> {
    "Log file not found or empty"@
}

/// The outcome of one attempt to read a new line of a followed log.
#[derive(Debug)]
pub enum PollRead {
    /// A complete new line, with its line ending.
    Line(String),
    /// Nothing new yet.
    NoData,
    /// The read failed.
    Failed,
}

/// What following a single log does after one read.
#[derive(Debug)]
pub enum FollowAction {
    /// Print this text.
    Print(String),
    /// Wait one poll interval, then read again.
    Sleep,
    /// Stop following.
    Stop,
}

/// What one tick of following both logs does.
#[derive(Debug)]
pub struct FollowTick {
    /// Text to print, in order.
    pub output: Vec<String>,
    /// Whether to wait one poll interval before the next tick.
    pub sleep: bool,
}

/// A labelled line of one stream.
pub open spec fn labelled(label: Seq<char>, read: PollRead) -> Seq<Seq<char>> {
    match read {
        PollRead::Line(l) => seq![label + l@],
        _ => Seq::empty(),
    }
}

fn prefixed(label: &str, line: String) -> (r: String)
    ensures
        r@ == label@ + line@,
{
    let mut r = String::from_str(label);
    r.append(line.as_str());
    r
}

/// Log manager: the rules by which logs are rotated, tailed and followed.
pub struct LogManager;

impl LogManager {
    /// The backup path of a log file: the same path with `.old` appended.
    pub fn backup_path(log_path: &str) -> (r: String)
        ensures
            r@ == backup_of(log_path@),
    {
        let mut r = String::from_str(log_path);
        r.append(".old");
        r
    }

    /// The file operations that rotate a log at task start, given whether
    /// the log exists, its size, and whether its backup exists.
    pub fn rotation_plan(log_path: &str, exists: bool, size: u64, backup_exists: bool) -> (r: Vec<FsOp>)
        ensures
            r@.map_values(|o: FsOp| o@) == rotation_ops(log_path@, exists, size as nat, backup_exists),
    {
        let mut ops: Vec<FsOp> = Vec::new();
        if exists && size > MAX_LOG_SIZE {
            if backup_exists {
                ops.push(FsOp::RemoveFile(LogManager::backup_path(log_path)));
            }
            ops.push(FsOp::Rename(String::from_str(log_path), LogManager::backup_path(log_path)));
        }
        assert(ops@.map_values(|o: FsOp| o@) =~= rotation_ops(log_path@, exists, size as nat, backup_exists));
        ops
    }

    /// The lines to show of a log: its last `n` lines, or, when the log file
    /// does not exist (`None`), the single line saying so.
    pub fn tail_of(lines: Option<Vec<String>>, n: usize) -> (r: Vec<String>)
        ensures
            match lines {
                None => r@.map_values(|l: String| l@) == seq![missing_log_line()],
                Some(ls) => r@ == last_n(ls@, n as nat),
            },
    {
        match lines {
            None => {
                let v = vec![String::from_str("Log file not found or empty")];
                assert(v@.map_values(|l: String| l@) =~= seq![missing_log_line()]);
                v
            }
            Some(mut ls) => {
                let len = ls.len();
                if len > n {
                    let tail = ls.split_off(len - n);
                    assert(tail@ =~= last_n(ls@ + tail@, n as nat));
                    tail
                } else {
                    ls
                }
            }
        }
    }

    /// How many lines to show of each stream: all of them for one stream,
    /// half of them each when both are shown.
    pub fn lines_per_stream(log_type: LogType, lines: usize) -> (r: usize)
        ensures
            r == if log_type == LogType::Both { lines / 2 } else { lines },
    {
        match log_type {
            LogType::Both => lines / 2,
            _ => lines,
        }
    }

    /// Following one log: a new line is printed, no data waits one interval,
    /// a failed read stops.
    pub fn follow_single_step(read: PollRead) -> (r: FollowAction)
        ensures
            match read {
                PollRead::Line(l) => r == FollowAction::Print(l),
                PollRead::NoData => r is Sleep,
                PollRead::Failed => r is Stop,
            },
    {
        match read {
            PollRead::Line(l) => FollowAction::Print(l),
            PollRead::NoData => FollowAction::Sleep,
            PollRead::Failed => FollowAction::Stop,
        }
    }

    /// One tick of following both logs: each stream that produced a line is
    /// printed with its label, standard output first; when neither did, the
    /// tick waits one interval.
    pub fn follow_both_tick(out: PollRead, err: PollRead) -> (r: FollowTick)
        ensures
            r.output@.map_values(|l: String| l@) == labelled("[OUT] "@, out) + labelled("[ERR] "@, err),
            r.sleep == (labelled("[OUT] "@, out).len() == 0 && labelled("[ERR] "@, err).len() == 0),
    {
        let ghost go = out;
        let ghost ge = err;
        let mut output: Vec<String> = Vec::new();
        match out {
            PollRead::Line(l) => output.push(prefixed("[OUT] ", l)),
            _ => {}
        }
        match err {
            PollRead::Line(l) => output.push(prefixed("[ERR] ", l)),
            _ => {}
        }
        let sleep = output.len() == 0;
        assert(output@.map_values(|l: String| l@) =~= labelled("[OUT] "@, go) + labelled("[ERR] "@, ge));
        FollowTick { output, sleep }
    }
}

/// Information about a log file.
#[derive(Debug)]
pub struct LogInfo {
    pub exists: bool,
    pub size: u64,
    pub line_count: usize,
}

/// `n / d` rounded to the nearest integer, ties to the even one.
pub open spec fn div_round_even(n: nat, d: nat) -> nat
    recommends
        d > 0,
{
    let q = n / d;
    let r = n % d;
    if 2 * r > d || (2 * r == d && q % 2 == 1) { q + 1 } else { q }
}

/// `size / unit` with one decimal, then `suffix`.
pub open spec fn one_decimal(size: nat, unit: nat, suffix: Seq<char>) -> Seq<char> {
    let t = div_round_even(size * 10, unit);
    decimal_chars(t / 10) + "."@ + decimal_chars(t % 10) + suffix
}

/// A byte count in human-readable form.
pub open spec fn size_text(size: nat) -> Seq<char> {
    if size < 1024 {
        decimal_chars(size) + " B"@
    } else if size < 1048576 {
        one_decimal(size, 1024, " KB"@)
    } else {
        one_decimal(size, 1048576, " MB"@)
    }
}

fn push_one_decimal(out: &mut String, size: u64, unit: u64)
    requires
        unit == 1024 || unit == 1048576,
    ensures
        final(out)@ == old(out)@ + decimal_chars(div_round_even(size as nat * 10, unit as nat) / 10)
            + "."@ + decimal_chars(div_round_even(size as nat * 10, unit as nat) % 10),
{
    let n: u128 = size as u128 * 10;
    let u: u128 = unit as u128;
    let q: u128 = n / u;
    let r: u128 = n % u;
    let t: u128 = if 2 * r > u || (2 * r == u && q % 2 == 1) { q + 1 } else { q };
    assert(t == div_round_even(size as nat * 10, unit as nat));
    assert(t <= u64::MAX as u128 * 10) by (nonlinear_arith)
        requires t <= q + 1, q == n / u, u >= 1024, n == size as u128 * 10, size <= u64::MAX;
    let whole: u64 = (t / 10) as u64;
    let tenth: u64 = (t % 10) as u64;
    push_decimal(out, whole);
    out.append(".");
    push_decimal(out, tenth);
}

impl LogInfo {
    /// The size in bytes, KB or MB; KB and MB with one decimal, rounded to
    /// the nearest tenth, ties to even.
    pub fn format_size(&self) -> (r: String)
        ensures
            r@ == size_text(self.size as nat),
    {
        let mut r = String::new();
        if self.size < 1024 {
            push_decimal(&mut r, self.size);
            r.append(" B");
        } else if self.size < 1048576 {
            push_one_decimal(&mut r, self.size, 1024);
            r.append(" KB");
        } else {
            push_one_decimal(&mut r, self.size, 1048576);
            r.append(" MB");
        }
        assert(r@ =~= size_text(self.size as nat));
        r
    }
}

} // verus!
