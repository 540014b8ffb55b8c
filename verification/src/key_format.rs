//! Recognising the encoding of a private key file from its header line.
//!
//! The transport engine reads PEM-encoded private keys only. Before a
//! connection is attempted with a key file, the first line of that file is
//! classified here, so that a key the engine cannot read is refused with a
//! useful hint instead of failing later as a rejected authentication.
//!
//! This module never touches the file system: the caller reads the first line
//! of the key file and hands it over.

use vstd::prelude::*;

use crate::error::{fails_with, SSHError, SSHErrorView};

verus! {

/// Header marker of a PEM-encoded RSA private key (PKCS#1).
pub const RSA_MARKER: &'static str = "BEGIN RSA PRIVATE KEY";

/// Header marker of a PEM-encoded private key of any algorithm (PKCS#8).
pub const PEM_MARKER: &'static str = "BEGIN PRIVATE KEY";

/// Header marker of a private key in OpenSSH's own format.
pub const OPENSSH_MARKER: &'static str = "BEGIN OPENSSH PRIVATE KEY";

/// Format label reported for a key in OpenSSH's own format.
pub const OPENSSH_LABEL: &'static str = "OpenSSH";

/// Format label reported for a key whose header matches no known marker.
pub const UNKNOWN_LABEL: &'static str = "Unknown";

/// Advice reported with a key in OpenSSH's own format.
pub const OPENSSH_HINT: &'static str =
    "libssh2 does not support OpenSSH private key format. Generate a PEM key using: ssh-keygen -t rsa -b 4096 -m PEM";

/// Advice reported with a key whose header matches no known marker.
pub const UNKNOWN_HINT: &'static str = "Unrecognized private key format.";

/// What the header line of a private key file says about its encoding.
#[derive(Clone, Copy, Debug, PartialEq, Eq, Structural)]
pub enum KeyFormat {
    /// PEM, RSA private key: supported.
    PemRsa,
    /// PEM, private key of any algorithm: supported.
    PemGeneric,
    /// OpenSSH's own format: not supported.
    OpenSsh,
    /// Anything else: not supported.
    Unknown,
}

/// `marker` stands in `line` at position `at`.
pub open spec fn occurs_at(line: Seq<char>, marker: Seq<char>, at: int) -> bool {
    &&& 0 <= at
    &&& at + marker.len() <= line.len()
    &&& line.subrange(at, at + marker.len()) == marker
}

/// `marker` stands somewhere in `line`.
pub open spec fn has_marker(line: Seq<char>, marker: Seq<char>) -> bool {
    exists|at: int| occurs_at(line, marker, at)
}

/// The format a header line announces. The markers are tried in a fixed
/// order, so a line that carries several of them is classified by the first
/// one in that order.
pub open spec fn key_format_of(line: Seq<char>) -> KeyFormat {
    if has_marker(line, RSA_MARKER@) {
        KeyFormat::PemRsa
    } else if has_marker(line, PEM_MARKER@) {
        KeyFormat::PemGeneric
    } else if has_marker(line, OPENSSH_MARKER@) {
        KeyFormat::OpenSsh
    } else {
        KeyFormat::Unknown
    }
}

/// The characters with the Unicode property `White_Space`.
pub open spec fn white_space(c: char) -> bool {
    let n = c as u32;
    ||| 0x09 <= n <= 0x0D
    ||| n == 0x20
    ||| n == 0x85
    ||| n == 0xA0
    ||| n == 0x1680
    ||| 0x2000 <= n <= 0x200A
    ||| n == 0x2028
    ||| n == 0x2029
    ||| n == 0x202F
    ||| n == 0x205F
    ||| n == 0x3000
}

/// `s` without its leading white space.
pub open spec fn trim_start(s: Seq<char>) -> Seq<char>
    decreases s.len(),
{
    if s.len() > 0 && white_space(s.first()) {
        trim_start(s.drop_first())
    } else {
        s
    }
}

/// `s` without its trailing white space.
pub open spec fn trim_end(s: Seq<char>) -> Seq<char>
    decreases s.len(),
{
    if s.len() > 0 && white_space(s.last()) {
        trim_end(s.drop_last())
    } else {
        s
    }
}

/// `s` without its leading and trailing white space.
pub open spec fn trimmed(s: Seq<char>) -> Seq<char> {
    trim_end(trim_start(s))
}

/// A marker that starts with a character other than white space is found in
/// a line that starts with white space exactly when it is found behind that
/// first character.
proof fn lemma_drop_first_keeps_marker(line: Seq<char>, marker: Seq<char>)
    requires
        line.len() > 0,
        white_space(line.first()),
        marker.len() > 0,
        !white_space(marker.first()),
    ensures
        has_marker(line.drop_first(), marker) == has_marker(line, marker),
{
    let rest = line.drop_first();
    if has_marker(rest, marker) {
        let at = choose|at: int| occurs_at(rest, marker, at);
        assert(line.subrange(at + 1, at + 1 + marker.len()) =~= rest.subrange(
            at,
            at + marker.len(),
        ));
        assert(occurs_at(line, marker, at + 1));
    }
    if has_marker(line, marker) {
        let at = choose|at: int| occurs_at(line, marker, at);
        assert(line.subrange(at, at + marker.len())[0] == marker[0]);
        assert(at > 0);
        assert(rest.subrange(at - 1, at - 1 + marker.len()) =~= line.subrange(
            at,
            at + marker.len(),
        ));
        assert(occurs_at(rest, marker, at - 1));
    }
}

/// A marker that ends with a character other than white space is found in a
/// line that ends with white space exactly when it is found before that last
/// character.
proof fn lemma_drop_last_keeps_marker(line: Seq<char>, marker: Seq<char>)
    requires
        line.len() > 0,
        white_space(line.last()),
        marker.len() > 0,
        !white_space(marker.last()),
    ensures
        has_marker(line.drop_last(), marker) == has_marker(line, marker),
{
    let rest = line.drop_last();
    if has_marker(rest, marker) {
        let at = choose|at: int| occurs_at(rest, marker, at);
        assert(line.subrange(at, at + marker.len()) =~= rest.subrange(at, at + marker.len()));
        assert(occurs_at(line, marker, at));
    }
    if has_marker(line, marker) {
        let at = choose|at: int| occurs_at(line, marker, at);
        assert(line.subrange(at, at + marker.len())[marker.len() - 1] == marker[marker.len() - 1]);
        assert(at + marker.len() < line.len());
        assert(rest.subrange(at, at + marker.len()) =~= line.subrange(at, at + marker.len()));
        assert(occurs_at(rest, marker, at));
    }
}

proof fn lemma_trim_start_keeps_marker(line: Seq<char>, marker: Seq<char>)
    requires
        marker.len() > 0,
        !white_space(marker.first()),
    ensures
        has_marker(trim_start(line), marker) == has_marker(line, marker),
    decreases line.len(),
{
    if line.len() > 0 && white_space(line.first()) {
        lemma_drop_first_keeps_marker(line, marker);
        lemma_trim_start_keeps_marker(line.drop_first(), marker);
    }
}

proof fn lemma_trim_end_keeps_marker(line: Seq<char>, marker: Seq<char>)
    requires
        marker.len() > 0,
        !white_space(marker.last()),
    ensures
        has_marker(trim_end(line), marker) == has_marker(line, marker),
    decreases line.len(),
{
    if line.len() > 0 && white_space(line.last()) {
        lemma_drop_last_keeps_marker(line, marker);
        lemma_trim_end_keeps_marker(line.drop_last(), marker);
    }
}

/// Stripping the white space around a line neither hides nor reveals a
/// marker that itself neither starts nor ends with white space.
pub proof fn lemma_trim_keeps_marker(line: Seq<char>, marker: Seq<char>)
    requires
        marker.len() > 0,
        !white_space(marker.first()),
        !white_space(marker.last()),
    ensures
        has_marker(trimmed(line), marker) == has_marker(line, marker),
{
    lemma_trim_start_keeps_marker(line, marker);
    lemma_trim_end_keeps_marker(trim_start(line), marker);
}

/// The white space around a header line has no say in its format.
pub proof fn lemma_trim_keeps_format(line: Seq<char>)
    ensures
        key_format_of(trimmed(line)) == key_format_of(line),
{
    reveal_strlit("BEGIN RSA PRIVATE KEY");
    reveal_strlit("BEGIN PRIVATE KEY");
    reveal_strlit("BEGIN OPENSSH PRIVATE KEY");
    lemma_trim_keeps_marker(line, RSA_MARKER@);
    lemma_trim_keeps_marker(line, PEM_MARKER@);
    lemma_trim_keeps_marker(line, OPENSSH_MARKER@);
}

/// Whether `c` has the Unicode property `White_Space`.
pub fn is_white_space(c: char) -> (r: bool)
    ensures
        r == white_space(c),
{
    let n: u32 = c as u32;
    (0x09 <= n && n <= 0x0D) || n == 0x20 || n == 0x85 || n == 0xA0 || n == 0x1680 || (0x2000 <= n
        && n <= 0x200A) || n == 0x2028 || n == 0x2029 || n == 0x202F || n == 0x205F || n == 0x3000
}

/// Copies the characters of `s` into a vector.
fn chars_of(s: &str) -> (v: Vec<char>)
    ensures
        v@ == s@,
{
    let mut v: Vec<char> = Vec::new();
    for c in it: s.chars()
        invariant
            it.seq() == s@,
            v@ == it.seq().take(it.index()),
    {
        v.push(c);
    }
    v
}

/// Copies `line` without its leading and trailing white space.
fn trim_chars(line: &Vec<char>) -> (t: Vec<char>)
    ensures
        t@ == trimmed(line@),
{
    let n = line.len();
    let mut from: usize = 0;
    assert(line@.subrange(0, n as int) =~= line@);
    while from < n && is_white_space(line[from])
        invariant
            from <= n,
            n == line@.len(),
            trim_start(line@) == trim_start(line@.subrange(from as int, n as int)),
        decreases n - from,
    {
        proof {
            let rest = line@.subrange(from as int, n as int);
            assert(rest.first() == line@[from as int]);
            assert(rest.drop_first() =~= line@.subrange(from + 1, n as int));
        }
        from += 1;
    }
    let ghost front = line@.subrange(from as int, n as int);
    assert(trim_start(line@) == front) by {
        if from < n {
            assert(front.first() == line@[from as int]);
        }
    }
    let mut to: usize = n;
    while from < to && is_white_space(line[to - 1])
        invariant
            from <= to <= n,
            n == line@.len(),
            trim_end(front) == trim_end(line@.subrange(from as int, to as int)),
        decreases to - from,
    {
        proof {
            let rest = line@.subrange(from as int, to as int);
            assert(rest.last() == line@[to - 1]);
            assert(rest.drop_last() =~= line@.subrange(from as int, to - 1));
        }
        to -= 1;
    }
    assert(trimmed(line@) == line@.subrange(from as int, to as int)) by {
        let kept = line@.subrange(from as int, to as int);
        if from < to {
            assert(kept.last() == line@[to - 1]);
        }
    }
    let mut t: Vec<char> = Vec::new();
    let mut i: usize = from;
    while i < to
        invariant
            from <= i <= to <= n,
            n == line@.len(),
            t@ == line@.subrange(from as int, i as int),
        decreases to - i,
    {
        t.push(line[i]);
        proof {
            assert(t@ =~= line@.subrange(from as int, i + 1));
        }
        i += 1;
    }
    t
}

/// Whether `marker` stands in `line` at position `at`.
fn matches_at(line: &Vec<char>, marker: &Vec<char>, at: usize) -> (r: bool)
    requires
        at + marker@.len() <= line@.len(),
    ensures
        r == occurs_at(line@, marker@, at as int),
{
    let n = line.len();
    let m = marker.len();
    let ghost window = line@.subrange(at as int, at + m);
    let mut k: usize = 0;
    while k < m
        invariant
            k <= m,
            m == marker@.len(),
            n == line@.len(),
            at + m <= n,
            window == line@.subrange(at as int, at + m),
            forall|j: int| 0 <= j < k ==> window[j] == marker@[j],
        decreases m - k,
    {
        if line[at + k] != marker[k] {
            assert(window[k as int] != marker@[k as int]);
            return false;
        }
        k += 1;
    }
    assert(window =~= marker@);
    true
}

/// Whether `marker` stands somewhere in `line`.
fn contains_marker(line: &Vec<char>, marker: &Vec<char>) -> (r: bool)
    ensures
        r == has_marker(line@, marker@),
{
    if marker.len() > line.len() {
        return false;
    }
    let last = line.len() - marker.len();
    let mut at: usize = 0;
    while at < last
        invariant
            at <= last,
            last == line@.len() - marker@.len(),
            forall|i: int| 0 <= i < at ==> !occurs_at(line@, marker@, i),
        decreases last - at,
    {
        if matches_at(line, marker, at) {
            return true;
        }
        at += 1;
    }
    matches_at(line, marker, last)
}

/// Classifies the first line of a private key file.
///
/// The line is stripped of surrounding white space and the markers are then
/// looked for in it in the order RSA, generic PEM, OpenSSH. Whatever follows
/// the first line of the file plays no part: it is never handed over.
pub fn classify_key_header(first_line: &str) -> (format: KeyFormat)
    ensures
        format == key_format_of(trimmed(first_line@)),
        format == key_format_of(first_line@),
{
    let line = trim_chars(&chars_of(first_line));
    proof {
        lemma_trim_keeps_format(first_line@);
    }
    if contains_marker(&line, &chars_of(RSA_MARKER)) {
        KeyFormat::PemRsa
    } else if contains_marker(&line, &chars_of(PEM_MARKER)) {
        KeyFormat::PemGeneric
    } else if contains_marker(&line, &chars_of(OPENSSH_MARKER)) {
        KeyFormat::OpenSsh
    } else {
        KeyFormat::Unknown
    }
}

/// The error that turns away a key in OpenSSH's own format.
pub open spec fn openssh_rejection() -> SSHErrorView {
    SSHErrorView::UnsupportedPrivateKeyFormat { detected: OPENSSH_LABEL@, hint: OPENSSH_HINT@ }
}

/// The error that turns away a key whose header matches no known marker.
pub open spec fn unknown_rejection() -> SSHErrorView {
    SSHErrorView::UnsupportedPrivateKeyFormat { detected: UNKNOWN_LABEL@, hint: UNKNOWN_HINT@ }
}

/// The error, if any, that turns away a key file with this first line.
pub open spec fn rejection(first_line: Seq<char>) -> Option<SSHErrorView> {
    match key_format_of(first_line) {
        KeyFormat::PemRsa => None,
        KeyFormat::PemGeneric => None,
        KeyFormat::OpenSsh => Some(openssh_rejection()),
        KeyFormat::Unknown => Some(unknown_rejection()),
    }
}

/// Accepts or refuses a private key file by its first line.
///
/// A PEM header, RSA or generic, is accepted. An OpenSSH header is refused
/// with advice on how to convert the key, any other line with a generic
/// hint. The markers are tried in the order RSA, generic PEM, OpenSSH, so an
/// OpenSSH marker refuses the key only where no PEM marker stands in the same
/// line.
pub fn detect_private_key_format(first_line: &str) -> (r: Result<(), SSHError>)
    ensures
        match r {
            Ok(()) => rejection(first_line@) is None,
            Err(e) => rejection(first_line@) == Some(e@),
        },
        has_marker(first_line@, RSA_MARKER@) || has_marker(first_line@, PEM_MARKER@) ==> r is Ok,
        !has_marker(first_line@, RSA_MARKER@) && !has_marker(first_line@, PEM_MARKER@)
            && has_marker(first_line@, OPENSSH_MARKER@) ==> fails_with(r, openssh_rejection()),
        !has_marker(first_line@, RSA_MARKER@) && !has_marker(first_line@, PEM_MARKER@)
            && !has_marker(first_line@, OPENSSH_MARKER@) ==> fails_with(r, unknown_rejection()),
{
    match classify_key_header(first_line) {
        KeyFormat::PemRsa => Ok(()),
        KeyFormat::PemGeneric => Ok(()),
        KeyFormat::OpenSsh => Err(
            SSHError::UnsupportedPrivateKeyFormat {
                detected: OPENSSH_LABEL.to_owned(),
                hint: OPENSSH_HINT,
            },
        ),
        KeyFormat::Unknown => Err(
            SSHError::UnsupportedPrivateKeyFormat {
                detected: UNKNOWN_LABEL.to_owned(),
                hint: UNKNOWN_HINT,
            },
        ),
    }
}

} // verus!
