//! Checks of the executable a task runs: existence, permissions, and the
//! interpreter named by a script's `#!` line.
use vstd::prelude::*;
use crate::error::{ErrorView, HyperVError};

verus! {

/// What the file system shows of a binary: whether it exists, whether it is
/// a directory, its permission bits, its first bytes (up to 512), and
/// whether the interpreter its `#!` line names exists.
#[derive(Debug)]
pub struct BinaryFacts {
    pub exists: bool,
    pub is_dir: bool,
    pub mode: u32,
    pub head: Vec<u8>,
    pub interpreter_exists: bool,
}

/// A blank within a line: space, tab, vertical tab, form feed, carriage return.
pub open spec fn is_blank(b: u8) -> bool {
    b == 32 || b == 9 || b == 11 || b == 12 || b == 13
}

/// ASCII white space, the newline included.
pub open spec fn is_space(b: u8) -> bool {
    is_blank(b) || b == 10
}

/// The part of the head in which the `#!` line is read: its first 256 bytes.
pub open spec fn window(h: Seq<u8>) -> Seq<u8> {
    if h.len() > 256 { h.subrange(0, 256) } else { h }
}

/// The head begins with `#!`.
pub open spec fn has_shebang(h: Seq<u8>) -> bool {
    h.len() >= 2 && h[0] == 35 && h[1] == 33
}

/// The first index from `i` on that is not a blank.
pub open spec fn skip_blank(w: Seq<u8>, i: int) -> int
    decreases w.len() - i,
{
    if i < 0 || i >= w.len() { i } else if is_blank(w[i]) { skip_blank(w, i + 1) } else { i }
}

/// The first index from `i` on that is white space.
pub open spec fn token_end(w: Seq<u8>, i: int) -> int
    decreases w.len() - i,
{
    if i < 0 || i >= w.len() { i } else if is_space(w[i]) { i } else { token_end(w, i + 1) }
}

/// The first index from `i` on that holds a newline.
pub open spec fn line_end(w: Seq<u8>, i: int) -> int
    decreases w.len() - i,
{
    if i < 0 || i >= w.len() { i } else if w[i] == 10 { i } else { line_end(w, i + 1) }
}

/// `l` without trailing white space.
pub open spec fn trim_end(l: Seq<u8>) -> Seq<u8>
    decreases l.len(),
{
    if l.len() > 0 && is_space(l.last()) { trim_end(l.drop_last()) } else { l }
}

/// The interpreter a `#!` line names: the first word after `#!` on the
/// first line, if there is one.
pub open spec fn shebang_token(h: Seq<u8>) -> Option<Seq<u8>> {
    if has_shebang(h) {
        let w = window(h);
        let s = skip_blank(w, 2);
        let e = token_end(w, s);
        if s < e { Some(w.subrange(s, e)) } else { None }
    } else {
        None
    }
}

/// The `#!` line itself, without trailing white space.
pub open spec fn shebang_line(h: Seq<u8>) -> Seq<u8> {
    trim_end(window(h).subrange(0, line_end(window(h), 0)))
}

/// Every byte is ASCII and none is zero: a text file.
pub open spec fn is_plain_text(h: Seq<u8>) -> bool {
    forall|i: int| 0 <= i < h.len() ==> h[i] < 128 && h[i] != 0
}

/// The characters of ASCII bytes.
pub open spec fn ascii_chars(b: Seq<u8>) -> Seq<char> {
    b.map_values(|x: u8| x as char)
}

/// The text that bytes encode as `String::from_utf8_lossy` decodes it.
pub uninterp spec fn utf8_lossy(b: Seq<u8>) -> Seq<char>;

/// Relies on `String::from_utf8_lossy`: the text the bytes encode, invalid
/// sequences replaced; bytes that are all ASCII are kept as they are.
#[verifier::external_body]
fn text_of_bytes(b: &Vec<u8>) -> (r: String)
    ensures
        r@ == utf8_lossy(b@),
        (forall|i: int| 0 <= i < b@.len() ==> b@[i] < 128) ==> r@ == ascii_chars(b@),
{
    String::from_utf8_lossy(b.as_slice()).into_owned()
}

fn window_len(h: &Vec<u8>) -> (n: usize)
    ensures
        n == window(h@).len(),
        n <= h@.len(),
        window(h@) == h@.subrange(0, n as int),
{
    if h.len() > 256 { 256 } else {
        assert(h@.subrange(0, h@.len() as int) =~= h@);
        h.len()
    }
}

fn has_shebang_exec(h: &Vec<u8>) -> (r: bool)
    ensures
        r == has_shebang(h@),
{
    h.len() >= 2 && h[0] == 35 && h[1] == 33
}

fn copy_range(h: &Vec<u8>, s: usize, e: usize) -> (r: Vec<u8>)
    requires
        s <= e <= h@.len(),
    ensures
        r@ == h@.subrange(s as int, e as int),
{
    let mut r: Vec<u8> = Vec::new();
    let mut i: usize = s;
    while i < e
        invariant
            s <= i <= e <= h@.len(),
            r@ == h@.subrange(s as int, i as int),
        decreases e - i,
    {
        r.push(h[i]);
        assert(r@ =~= h@.subrange(s as int, i as int + 1));
        i = i + 1;
    }
    r
}

/// The interpreter named by the `#!` line of a file's first bytes.
pub fn shebang_interpreter(head: &Vec<u8>) -> (r: Option<Vec<u8>>)
    ensures
        match r {
            None => shebang_token(head@) is None,
            Some(t) => shebang_token(head@) == Some(t@),
        },
{
    if !has_shebang_exec(head) {
        return None;
    }
    let n = window_len(head);
    let ghost w = window(head@);
    let mut s: usize = 2;
    while s < n && (head[s] == 32 || head[s] == 9 || head[s] == 11 || head[s] == 12 || head[s] == 13)
        invariant
            2 <= s <= n,
            n == w.len(),
            n <= head@.len(),
            w == head@.subrange(0, n as int),
            skip_blank(w, s as int) == skip_blank(w, 2),
        decreases n - s,
    {
        s = s + 1;
    }
    let mut e: usize = s;
    while e < n && !(head[e] == 32 || head[e] == 9 || head[e] == 11 || head[e] == 12 || head[e] == 13 || head[e] == 10)
        invariant
            s <= e <= n,
            n == w.len(),
            n <= head@.len(),
            w == head@.subrange(0, n as int),
            skip_blank(w, 2) == s,
            token_end(w, e as int) == token_end(w, s as int),
        decreases n - e,
    {
        e = e + 1;
    }
    if s < e {
        let t = copy_range(head, s, e);
        assert(t@ =~= w.subrange(s as int, e as int));
        Some(t)
    } else {
        None
    }
}

/// The `#!` line of a file's first bytes, without trailing white space.
fn shebang_line_bytes(head: &Vec<u8>) -> (r: Vec<u8>)
    ensures
        r@ == shebang_line(head@),
{
    let n = window_len(head);
    let ghost w = window(head@);
    let mut e: usize = 0;
    while e < n && head[e] != 10
        invariant
            e <= n,
            n == w.len(),
            n <= head@.len(),
            w == head@.subrange(0, n as int),
            line_end(w, e as int) == line_end(w, 0),
        decreases n - e,
    {
        e = e + 1;
    }
    let mut t: usize = e;
    while t > 0 && (head[t - 1] == 32 || head[t - 1] == 9 || head[t - 1] == 11 || head[t - 1] == 12
        || head[t - 1] == 13 || head[t - 1] == 10)
        invariant
            t <= e <= n,
            n == w.len(),
            n <= head@.len(),
            w == head@.subrange(0, n as int),
            trim_end(w.subrange(0, t as int)) == trim_end(w.subrange(0, e as int)),
        decreases t,
    {
        assert(w.subrange(0, t as int).drop_last() =~= w.subrange(0, t as int - 1));
        t = t - 1;
    }
    let r = copy_range(head, 0, t);
    assert(r@ =~= w.subrange(0, t as int));
    r
}

fn is_plain_text_exec(h: &Vec<u8>) -> (r: bool)
    ensures
        r == is_plain_text(h@),
{
    let mut i: usize = 0;
    while i < h.len()
        invariant
            i <= h@.len(),
            forall|j: int| 0 <= j < i ==> h@[j] < 128 && h@[j] != 0,
        decreases h@.len() - i,
    {
        if h[i] >= 128 || h[i] == 0 {
            return false;
        }
        i = i + 1;
    }
    true
}

/// What a successful check has to say.
#[derive(Debug, Clone, Copy, PartialEq, Eq, Structural)]
pub enum ScriptNote {
    /// Nothing to remark.
    Ready,
    /// A text file without a `#!` line: worth a warning, not an error.
    TextWithoutShebang,
}

/// No execute permission bit is set.
pub open spec fn not_executable(mode: u32) -> bool {
    mode & 73u32 == 0
}

/// Checks a binary before it is started: it must exist and be executable,
/// and the interpreter of a `#!` line must exist.
pub fn validate_binary(binary_path: &str, facts: &BinaryFacts) -> (r: Result<ScriptNote, HyperVError>)
    ensures
        !facts.exists ==> r is Err && r->Err_0@ == ErrorView::BinaryNotFound(binary_path@),
        facts.exists && not_executable(facts.mode) ==>
            r is Err && r->Err_0@ == ErrorView::BinaryNotExecutable(binary_path@),
        facts.exists && !not_executable(facts.mode) ==> match shebang_token(facts.head@) {
            Some(t) => if facts.interpreter_exists {
                r == Ok::<ScriptNote, HyperVError>(ScriptNote::Ready)
            } else {
                r is Err && r->Err_0@ == ErrorView::InterpreterNotFound(utf8_lossy(t))
            },
            None => r == Ok::<ScriptNote, HyperVError>(
                if !has_shebang(facts.head@) && is_plain_text(facts.head@) {
                    ScriptNote::TextWithoutShebang
                } else {
                    ScriptNote::Ready
                },
            ),
        },
{
    if !facts.exists {
        return Err(HyperVError::BinaryNotFound(String::from_str(binary_path)));
    }
    if facts.mode & 73u32 == 0 {
        return Err(HyperVError::BinaryNotExecutable(String::from_str(binary_path)));
    }
    match shebang_interpreter(&facts.head) {
        Some(t) => {
            if facts.interpreter_exists {
                Ok(ScriptNote::Ready)
            } else {
                Err(HyperVError::InterpreterNotFound(text_of_bytes(&t)))
            }
        }
        None => {
            if !has_shebang_exec(&facts.head) && is_plain_text_exec(&facts.head) {
                Ok(ScriptNote::TextWithoutShebang)
            } else {
                Ok(ScriptNote::Ready)
            }
        }
    }
}

/// Executable formats told apart by their first four bytes.
#[derive(Debug, Clone, Copy, PartialEq, Eq, Structural)]
pub enum BinaryFormat {
    Elf,
    MachO,
    Pe,
    Unknown,
}

/// The format the first four bytes of a binary show.
pub open spec fn format_of(h: Seq<u8>) -> BinaryFormat {
    if h[0] == 0x7f && h[1] == 69 && h[2] == 76 && h[3] == 70 {
        BinaryFormat::Elf
    } else if (h[0] == 0xcf || h[0] == 0xce) && h[1] == 0xfa && h[2] == 0xed && h[3] == 0xfe {
        BinaryFormat::MachO
    } else if h[0] == 77 && h[1] == 90 {
        BinaryFormat::Pe
    } else {
        BinaryFormat::Unknown
    }
}

/// One observation of a diagnosis, in the order they are made.
#[derive(Debug)]
pub enum Finding {
    Missing,
    Exists,
    IsDirectory,
    IsFile,
    /// The permission bits, `mode & 0o777`.
    Permissions(u32),
    NotExecutable,
    Executable,
    Empty,
    BinaryFile,
    Format(BinaryFormat),
    TextScript,
    /// The `#!` line.
    Shebang(String),
    InterpreterFound(String),
    InterpreterMissing(String),
    NoShebang,
    Complete,
}

/// A finding, with its text as characters.
pub enum FindingView {
    Missing,
    Exists,
    IsDirectory,
    IsFile,
    Permissions(u32),
    NotExecutable,
    Executable,
    Empty,
    BinaryFile,
    Format(BinaryFormat),
    TextScript,
    Shebang(Seq<char>),
    InterpreterFound(Seq<char>),
    InterpreterMissing(Seq<char>),
    NoShebang,
    Complete,
}

impl View for Finding {
    type V = FindingView;

    open spec fn view(&self) -> FindingView {
        match self {
            Finding::Missing => FindingView::Missing,
            Finding::Exists => FindingView::Exists,
            Finding::IsDirectory => FindingView::IsDirectory,
            Finding::IsFile => FindingView::IsFile,
            Finding::Permissions(m) => FindingView::Permissions(*m),
            Finding::NotExecutable => FindingView::NotExecutable,
            Finding::Executable => FindingView::Executable,
            Finding::Empty => FindingView::Empty,
            Finding::BinaryFile => FindingView::BinaryFile,
            Finding::Format(f) => FindingView::Format(*f),
            Finding::TextScript => FindingView::TextScript,
            Finding::Shebang(s) => FindingView::Shebang(s@),
            Finding::InterpreterFound(s) => FindingView::InterpreterFound(s@),
            Finding::InterpreterMissing(s) => FindingView::InterpreterMissing(s@),
            Finding::NoShebang => FindingView::NoShebang,
            Finding::Complete => FindingView::Complete,
        }
    }
}

/// The findings and outcome of diagnosing an executable file's text part:
/// its `#!` line and interpreter, or the lack of one.
pub open spec fn script_findings(f: BinaryFacts) -> (Seq<FindingView>, Result<(), ErrorView>) {
    let h = f.head@;
    if has_shebang(h) {
        let line = FindingView::Shebang(utf8_lossy(shebang_line(h)));
        match shebang_token(h) {
            Some(t) => if f.interpreter_exists {
                (seq![FindingView::TextScript, line, FindingView::InterpreterFound(utf8_lossy(t)), FindingView::Complete], Ok(()))
            } else {
                (seq![FindingView::TextScript, line, FindingView::InterpreterMissing(utf8_lossy(t))],
                    Err(ErrorView::InterpreterNotFound(utf8_lossy(t))))
            },
            None => (seq![FindingView::TextScript, line, FindingView::Complete], Ok(())),
        }
    } else {
        (seq![FindingView::TextScript, FindingView::NoShebang, FindingView::Complete], Ok(()))
    }
}

/// The findings and outcome of diagnosing a binary.
pub open spec fn diagnosis(path: Seq<char>, f: BinaryFacts) -> (Seq<FindingView>, Result<(), ErrorView>) {
    let h = f.head@;
    if !f.exists {
        (seq![FindingView::Missing], Err(ErrorView::BinaryNotFound(path)))
    } else if f.is_dir {
        (seq![FindingView::Exists, FindingView::IsDirectory], Err(ErrorView::InvalidBinary("Path is a directory"@)))
    } else {
        let start = seq![FindingView::Exists, FindingView::IsFile, FindingView::Permissions(f.mode & 0o777u32)];
        if not_executable(f.mode) {
            (start.push(FindingView::NotExecutable), Err(ErrorView::BinaryNotExecutable(path)))
        } else if h.len() == 0 {
            (start + seq![FindingView::Executable, FindingView::Empty], Err(ErrorView::InvalidBinary("File is empty"@)))
        } else if !is_plain_text(h) {
            let fmt: Seq<FindingView> = if h.len() >= 4 { seq![FindingView::Format(format_of(h))] } else { Seq::empty() };
            (start + seq![FindingView::Executable, FindingView::BinaryFile] + fmt + seq![FindingView::Complete], Ok(()))
        } else {
            let s = script_findings(f);
            (start + seq![FindingView::Executable] + s.0, s.1)
        }
    }
}

/// The view of an outcome without a value.
pub open spec fn outcome_view(r: Result<(), HyperVError>) -> Result<(), ErrorView> {
    match r {
        Ok(_) => Ok(()),
        Err(e) => Err(e@),
    }
}

fn format_exec(h: &Vec<u8>) -> (r: BinaryFormat)
    requires
        h@.len() >= 4,
    ensures
        r == format_of(h@),
{
    if h[0] == 0x7f && h[1] == 69 && h[2] == 76 && h[3] == 70 {
        BinaryFormat::Elf
    } else if (h[0] == 0xcf || h[0] == 0xce) && h[1] == 0xfa && h[2] == 0xed && h[3] == 0xfe {
        BinaryFormat::MachO
    } else if h[0] == 77 && h[1] == 90 {
        BinaryFormat::Pe
    } else {
        BinaryFormat::Unknown
    }
}

fn script_findings_exec(facts: &BinaryFacts, out: &mut Vec<Finding>) -> (r: Result<(), HyperVError>)
    ensures
        final(out)@.map_values(|x: Finding| x@) == old(out)@.map_values(|x: Finding| x@) + script_findings(*facts).0,
        outcome_view(r) == script_findings(*facts).1,
{
    let ghost o = old(out)@.map_values(|x: Finding| x@);
    let ghost s = script_findings(*facts);
    out.push(Finding::TextScript);
    let mut r: Result<(), HyperVError> = Ok(());
    if has_shebang_exec(&facts.head) {
        out.push(Finding::Shebang(text_of_bytes(&shebang_line_bytes(&facts.head))));
        match shebang_interpreter(&facts.head) {
            Some(t) => {
                if facts.interpreter_exists {
                    out.push(Finding::InterpreterFound(text_of_bytes(&t)));
                    out.push(Finding::Complete);
                } else {
                    out.push(Finding::InterpreterMissing(text_of_bytes(&t)));
                    r = Err(HyperVError::InterpreterNotFound(text_of_bytes(&t)));
                }
            }
            None => {
                out.push(Finding::Complete);
            }
        }
    } else {
        out.push(Finding::NoShebang);
        out.push(Finding::Complete);
    }
    assert(out@.map_values(|x: Finding| x@) =~= o + s.0);
    r
}

/// Diagnoses a binary: whether it exists, is a file, is executable, is
/// empty, is a binary (and which format) or a script (and whether its
/// interpreter exists). Returns the findings in order and the outcome.
pub fn diagnose_binary(binary_path: &str, facts: &BinaryFacts) -> (r: (Vec<Finding>, Result<(), HyperVError>))
    ensures
        r.0@.map_values(|x: Finding| x@) == diagnosis(binary_path@, *facts).0,
        outcome_view(r.1) == diagnosis(binary_path@, *facts).1,
{
    let ghost d = diagnosis(binary_path@, *facts);
    let mut out: Vec<Finding> = Vec::new();
    if !facts.exists {
        out.push(Finding::Missing);
        assert(out@.map_values(|x: Finding| x@) =~= d.0);
        return (out, Err(HyperVError::BinaryNotFound(String::from_str(binary_path))));
    }
    out.push(Finding::Exists);
    if facts.is_dir {
        out.push(Finding::IsDirectory);
        assert(out@.map_values(|x: Finding| x@) =~= d.0);
        return (out, Err(HyperVError::InvalidBinary(String::from_str("Path is a directory"))));
    }
    out.push(Finding::IsFile);
    out.push(Finding::Permissions(facts.mode & 0o777u32));
    if facts.mode & 73u32 == 0 {
        out.push(Finding::NotExecutable);
        assert(out@.map_values(|x: Finding| x@) =~= d.0);
        return (out, Err(HyperVError::BinaryNotExecutable(String::from_str(binary_path))));
    }
    out.push(Finding::Executable);
    if facts.head.len() == 0 {
        out.push(Finding::Empty);
        assert(out@.map_values(|x: Finding| x@) =~= d.0);
        return (out, Err(HyperVError::InvalidBinary(String::from_str("File is empty"))));
    }
    if !is_plain_text_exec(&facts.head) {
        out.push(Finding::BinaryFile);
        if facts.head.len() >= 4 {
            out.push(Finding::Format(format_exec(&facts.head)));
        }
        out.push(Finding::Complete);
        assert(out@.map_values(|x: Finding| x@) =~= d.0);
        return (out, Ok(()));
    }
    let r = script_findings_exec(facts, &mut out);
    assert(out@.map_values(|x: Finding| x@) =~= d.0);
    (out, r)
}

} // verus!
