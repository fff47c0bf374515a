//! The server's status and its setup checks: the PID file, whether the
//! recorded process still runs, and what the outputs of `tailscale status`,
//! `x264 --version` and `loginctl` tell. The caller runs those programs and
//! reads and writes the files.

use vstd::prelude::*;
use crate::text::{
    is_digit, lemma_decimal_reads_back, lemma_trim_without_spaces, unsigned_part,
    join_path, joined_path,
    chars_of, contains_str, decimal, first_index_of, has_infix, has_prefix, is_whitespace, char_is_whitespace,
    parse_u32, parse_u32_spec, push_decimal, string_from_chars, string_push_str, trim_chars, trim_start_ws, trim_ws,
};

verus! {

/// The port the server listens on unless told otherwise.
pub const DEFAULT_PORT: u16 = 3389;

/// What is known of the server process.
#[derive(Debug)]
pub struct ServerStatus {
    pub running: bool,
    pub pid: Option<u32>,
    pub port: u16,
}

/// The PID in a PID file: its text, trimmed, as a decimal `u32`.
pub fn pid_from_file(content: &str) -> (r: Option<u32>)
    ensures
        r == parse_u32_spec(trim_ws(content@)),
{
    let cs = chars_of(content);
    let t = trim_chars(cs.as_slice());
    parse_u32(t.as_slice())
}

impl ServerStatus {
    /// The status from the PID read from the PID file, if any, and whether
    /// that process runs: the server runs when it does; a PID whose process is
    /// gone is stale, is not reported, and its file is to be removed (the
    /// second value). The port is always the default one.
    pub fn from_pid(pid: Option<u32>, process_running: bool) -> (r: (ServerStatus, bool))
        ensures
            r.0.port == DEFAULT_PORT,
            r.0.running == (pid is Some && process_running),
            r.0.pid == (if pid is Some && process_running { pid } else { None }),
            r.1 == (pid is Some && !process_running),
    {
        match pid {
            Some(p) => {
                if process_running {
                    (ServerStatus { running: true, pid: Some(p), port: DEFAULT_PORT }, false)
                } else {
                    (ServerStatus { running: false, pid: None, port: DEFAULT_PORT }, true)
                }
            },
            None => (ServerStatus { running: false, pid: None, port: DEFAULT_PORT }, false),
        }
    }
}

/// The runtime directory, or `/tmp` when none is set.
pub open spec fn runtime_dir_or_tmp(runtime_dir: Option<Seq<char>>) -> Seq<char> {
    match runtime_dir {
        Some(d) => d,
        None => "/tmp"@,
    }
}

/// The path of a file in the runtime directory (`/tmp` when none is set).
pub fn runtime_file_path(runtime_dir: Option<&str>, name: &str) -> (p: String)
    ensures
        p@ == joined_path(
            runtime_dir_or_tmp(
                match runtime_dir {
                    Some(d) => Some(d@),
                    None => None,
                },
            ),
            name@,
        ),
{
    let dir: &str = match runtime_dir {
        Some(d) => d,
        None => "/tmp",
    };
    join_path(dir, name)
}

/// The file name of the server's PID file.
pub open spec fn pid_file_name() -> Seq<char> {
    "remote-desktop-server.pid"@
}

/// The path of the server's PID file in the runtime directory.
pub fn pid_file_path(runtime_dir: Option<&str>) -> (p: String)
    ensures
        p@ == joined_path(
            runtime_dir_or_tmp(
                match runtime_dir {
                    Some(d) => Some(d@),
                    None => None,
                },
            ),
            pid_file_name(),
        ),
{
    runtime_file_path(runtime_dir, "remote-desktop-server.pid")
}

/// The path whose existence tells that a process runs.
pub open spec fn proc_stat_text(pid: u32) -> Seq<char> {
    "/proc/"@ + decimal(pid as nat) + "/stat"@
}

/// The `/proc` status file of a process.
pub fn proc_stat_path(pid: u32) -> (p: String)
    ensures
        p@ == proc_stat_text(pid),
{
    let mut p = "/proc/".to_owned();
    push_decimal(&mut p, pid as u64);
    string_push_str(&mut p, "/stat");
    p
}

/// `std::path::Path::exists`: whether something is found at the path. It
/// depends on the file system at the time of the call, so nothing is stated
/// of the answer.
#[verifier::external_body]
fn path_exists(path: &str) -> bool {
    std::path::Path::new(path).exists()
}

/// Whether the process runs: whether its `/proc` status file exists.
pub fn is_process_running(pid: u32) -> bool {
    let p = proc_stat_path(pid);
    path_exists(p.as_str())
}

/// The position of the first white space, or the length when there is none.
pub open spec fn first_space(s: Seq<char>) -> nat
    decreases s.len(),
{
    if s.len() == 0 || is_whitespace(s[0]) {
        0
    } else {
        1 + first_space(s.drop_first())
    }
}

/// The first word of a line, as `split_whitespace` gives it first.
pub open spec fn first_word(s: Seq<char>) -> Seq<char> {
    trim_start_ws(s).take(first_space(trim_start_ws(s)) as int)
}

fn first_word_of(line: &[char]) -> (w: Vec<char>)
    ensures
        w@ == first_word(line@),
{
    let n = line.len();
    let mut i: usize = 0;
    assert(line@.skip(0) =~= line@);
    while i < n && char_is_whitespace(line[i])
        invariant
            i <= n,
            n == line@.len(),
            trim_start_ws(line@) == trim_start_ws(line@.skip(i as int)),
        decreases n - i,
    {
        assert(line@.skip(i as int).drop_first() =~= line@.skip(i + 1));
        i += 1;
    }
    assert(trim_start_ws(line@) == line@.skip(i as int));
    let ghost t = line@.skip(i as int);
    let mut w: Vec<char> = Vec::new();
    let mut j: usize = i;
    while j < n && !char_is_whitespace(line[j])
        invariant
            i <= j <= n,
            n == line@.len(),
            t == line@.skip(i as int),
            w@ == line@.subrange(i as int, j as int),
            first_space(t) == (j - i) + first_space(line@.skip(j as int)),
        decreases n - j,
    {
        w.push(line[j]);
        assert(line@.skip(j as int).drop_first() =~= line@.skip(j + 1));
        assert(w@ =~= line@.subrange(i as int, j + 1));
        j += 1;
    }
    proof {
        assert(first_space(line@.skip(j as int)) == 0);
        assert(t.take(j - i) =~= line@.subrange(i as int, j as int));
    }
    w
}

/// The Tailscale address in the output of `tailscale status`: the first word
/// of the first line that mentions `100.`.
#[verifier::opaque]
pub open spec fn tailscale_ip_spec(s: Seq<char>) -> Option<Seq<char>>
    decreases s.len(),
{
    match first_index_of(s, '\n') {
        None => if has_infix(s, "100."@) {
            Some(first_word(s))
        } else {
            None
        },
        Some(i) => if 0 <= i < s.len() {
            if has_infix(s.take(i), "100."@) {
                Some(first_word(s.take(i)))
            } else {
                tailscale_ip_spec(s.skip(i + 1))
            }
        } else {
            None
        },
    }
}

proof fn lemma_first_newline_at(s: Seq<char>, i: int)
    requires
        0 <= i < s.len(),
        s[i] == '\n',
        forall|j: int| 0 <= j < i ==> s[j] != '\n',
    ensures
        first_index_of(s, '\n') == Some(i),
{
    assert(s.contains('\n'));
    let k = choose|k: int| 0 <= k < s.len() && s[k] == '\n' && forall|j: int| 0 <= j < k ==> s[j] != '\n';
    if k < i {
        assert(s[k] != '\n');
    }
    if k > i {
        assert(s[i] != '\n');
    }
}

proof fn lemma_tailscale_line(rest: Seq<char>, k: int)
    requires
        0 <= k < rest.len(),
        rest[k] == '\n',
        forall|j: int| 0 <= j < k ==> rest[j] != '\n',
    ensures
        tailscale_ip_spec(rest) == (if has_infix(rest.take(k), "100."@) {
            Some(first_word(rest.take(k)))
        } else {
            tailscale_ip_spec(rest.skip(k + 1))
        }),
{
    lemma_first_newline_at(rest, k);
    reveal(tailscale_ip_spec);
}

proof fn lemma_tailscale_last(rest: Seq<char>)
    requires
        forall|j: int| 0 <= j < rest.len() ==> rest[j] != '\n',
    ensures
        tailscale_ip_spec(rest) == (if has_infix(rest, "100."@) {
            Some(first_word(rest))
        } else {
            None
        }),
{
    if rest.contains('\n') {
        let k = choose|k: int| 0 <= k < rest.len() && rest[k] == '\n';
        assert(rest[k] != '\n');
    }
    reveal(tailscale_ip_spec);
}

/// The Tailscale address that `tailscale status` printed, if any.
pub fn tailscale_ip(status_output: &str) -> (r: Option<String>)
    ensures
        match (r, tailscale_ip_spec(status_output@)) {
            (Some(a), Some(b)) => a@ == b,
            (None, None) => true,
            _ => false,
        },
{
    let cs = chars_of(status_output);
    let marker = chars_of("100.");
    let ghost s = cs@;
    let mut line: Vec<char> = Vec::new();
    let mut start: usize = 0;
    let mut i: usize = 0;
    assert(s.skip(0) =~= s);
    while i < cs.len()
        invariant
            s == cs@,
            s == status_output@,
            marker@ == "100."@,
            start <= i <= s.len(),
            line@ == s.subrange(start as int, i as int),
            forall|j: int| start <= j < i ==> s[j] != '\n',
            tailscale_ip_spec(s) == tailscale_ip_spec(s.skip(start as int)),
        decreases s.len() - i,
    {
        if cs[i] == '\n' {
            let ghost rest = s.skip(start as int);
            proof {
                lemma_tailscale_line(rest, i - start);
                assert(rest.take(i - start) =~= line@);
                assert(rest.skip(i - start + 1) =~= s.skip(i + 1));
            }
            if contains_str(line.as_slice(), marker.as_slice()) {
                let w = first_word_of(line.as_slice());
                return Some(string_from_chars(w.as_slice()));
            }
            line = Vec::new();
            start = i + 1;
            assert(line@ =~= s.subrange(start as int, start as int));
        } else {
            line.push(cs[i]);
            assert(line@ =~= s.subrange(start as int, i + 1));
        }
        i += 1;
    }
    proof {
        let rest = s.skip(start as int);
        assert(rest =~= line@);
        lemma_tailscale_last(rest);
    }
    if contains_str(line.as_slice(), marker.as_slice()) {
        let w = first_word_of(line.as_slice());
        return Some(string_from_chars(w.as_slice()));
    }
    None
}

/// Whether `tailscale status` shows a Tailscale address at all.
pub fn tailscale_connected(status_output: &str) -> (r: bool)
    ensures
        r == has_infix(status_output@, "100."@),
{
    let cs = chars_of(status_output);
    let marker = chars_of("100.");
    contains_str(cs.as_slice(), marker.as_slice())
}

/// Whether `loginctl show-user` reports linger as enabled.
pub fn linger_enabled(loginctl_output: &str) -> (r: bool)
    ensures
        r == has_infix(loginctl_output@, "Linger=yes"@),
{
    let cs = chars_of(loginctl_output);
    let marker = chars_of("Linger=yes");
    contains_str(cs.as_slice(), marker.as_slice())
}

/// `s` with every leading repetition of the non-empty `p` removed, as
/// `trim_start_matches` does.
pub open spec fn strip_leading(s: Seq<char>, p: Seq<char>) -> Seq<char>
    decreases s.len(),
{
    if p.len() > 0 && has_prefix(s, p) {
        strip_leading(s.skip(p.len() as int), p)
    } else {
        s
    }
}

/// The first line of some output, if it has any.
pub open spec fn first_line(s: Seq<char>) -> Option<Seq<char>> {
    if s.len() == 0 {
        None
    } else {
        match first_index_of(s, '\n') {
            Some(i) => Some(s.take(i)),
            None => Some(s),
        }
    }
}

/// The version that `x264 --version` prints: its first line, trimmed, without
/// the leading `x264 `.
pub open spec fn x264_version_spec(output: Seq<char>) -> Option<Seq<char>> {
    match first_line(output) {
        Some(l) => Some(strip_leading(trim_ws(l), "x264 "@)),
        None => None,
    }
}

/// The version that `x264 --version` printed, if it printed anything.
pub fn x264_version(output: &str) -> (r: Option<String>)
    ensures
        match (r, x264_version_spec(output@)) {
            (Some(a), Some(b)) => a@ == b,
            (None, None) => true,
            _ => false,
        },
{
    let cs = chars_of(output);
    if cs.len() == 0 {
        return None;
    }
    let mut line: Vec<char> = Vec::new();
    let mut i: usize = 0;
    while i < cs.len() && cs[i] != '\n'
        invariant
            cs@ == output@,
            i <= cs@.len(),
            line@ == cs@.take(i as int),
            forall|j: int| 0 <= j < i ==> cs@[j] != '\n',
        decreases cs@.len() - i,
    {
        line.push(cs[i]);
        assert(line@ =~= cs@.take(i + 1));
        i += 1;
    }
    proof {
        if i < cs@.len() {
            lemma_first_newline_at(cs@, i as int);
        } else {
            assert(line@ =~= cs@);
            if cs@.contains('\n') {
                let k = choose|k: int| 0 <= k < cs@.len() && cs@[k] == '\n';
                assert(cs@[k] != '\n');
            }
        }
    }
    let t = trim_chars(line.as_slice());
    let ghost prefix = "x264 "@;
    proof {
        reveal_strlit("x264 ");
        assert(prefix =~= seq!['x', '2', '6', '4', ' ']);
    }
    let mut k: usize = 0;
    assert(t@.skip(0) =~= t@);
    while t.len() >= 5 && k <= t.len() - 5 && t[k] == 'x' && t[k + 1] == '2' && t[k + 2] == '6'
        && t[k + 3] == '4' && t[k + 4] == ' '
        invariant
            k <= t@.len(),
            prefix == seq!['x', '2', '6', '4', ' '],
            strip_leading(t@, prefix) == strip_leading(t@.skip(k as int), prefix),
        decreases t@.len() - k,
    {
        proof {
            assert(t@.skip(k as int).take(5) =~= prefix);
            assert(t@.skip(k as int).skip(5) =~= t@.skip(k + 5));
        }
        k += 5;
    }
    proof {
        let rest = t@.skip(k as int);
        if has_prefix(rest, prefix) {
            assert(rest.take(5)[0] == prefix[0]);
            assert(rest.take(5)[1] == prefix[1]);
            assert(rest.take(5)[2] == prefix[2]);
            assert(rest.take(5)[3] == prefix[3]);
            assert(rest.take(5)[4] == prefix[4]);
        }
    }
    let mut out: Vec<char> = Vec::new();
    let mut m: usize = k;
    while m < t.len()
        invariant
            k <= m <= t@.len(),
            out@ == t@.subrange(k as int, m as int),
        decreases t@.len() - m,
    {
        out.push(t[m]);
        assert(out@ =~= t@.subrange(k as int, m + 1));
        m += 1;
    }
    assert(out@ =~= t@.skip(k as int));
    Some(string_from_chars(out.as_slice()))
}

/// Whether a character is the given letter in either case.
pub open spec fn is_letter(c: char, lower: char, upper: char) -> bool {
    c == lower || c == upper
}

/// Whether an answer, trimmed and in lower case, is `y` or `yes`.
pub open spec fn is_yes(answer: Seq<char>) -> bool {
    let t = trim_ws(answer);
    ||| (t.len() == 1 && is_letter(t[0], 'y', 'Y'))
    ||| (t.len() == 3 && is_letter(t[0], 'y', 'Y') && is_letter(t[1], 'e', 'E') && is_letter(t[2], 's', 'S'))
}

/// Whether the user agreed: `y` or `yes` in any case, around white space.
pub fn answer_is_yes(answer: &str) -> (r: bool)
    ensures
        r == is_yes(answer@),
{
    let cs = chars_of(answer);
    let t = trim_chars(cs.as_slice());
    if t.len() == 1 {
        return t[0] == 'y' || t[0] == 'Y';
    }
    if t.len() == 3 {
        return (t[0] == 'y' || t[0] == 'Y') && (t[1] == 'e' || t[1] == 'E') && (t[2] == 's' || t[2] == 'S');
    }
    false
}

/// Names joined with `, ` between them.
pub open spec fn comma_joined(names: Seq<Seq<char>>) -> Seq<char>
    decreases names.len(),
{
    if names.len() == 0 {
        Seq::empty()
    } else if names.len() == 1 {
        names[0]
    } else {
        comma_joined(names.drop_last()) + ", "@ + names.last()
    }
}

/// The views of some strings.
pub open spec fn names_view(v: Seq<String>) -> Seq<Seq<char>> {
    v.map_values(|x: String| x@)
}

/// The missing tools as the setup check lists them.
pub fn missing_list(names: &Vec<String>) -> (r: String)
    ensures
        r@ == comma_joined(names_view(names@)),
{
    let mut r = String::new();
    let mut i: usize = 0;
    while i < names.len()
        invariant
            i <= names@.len(),
            r@ == comma_joined(names_view(names@.take(i as int))),
        decreases names@.len() - i,
    {
        proof {
            assert(names_view(names@.take(i + 1)).drop_last() =~= names_view(names@.take(i as int)));
            assert(names_view(names@.take(i + 1)).last() == names@[i as int]@);
        }
        if i > 0 {
            string_push_str(&mut r, ", ");
        } else {
            assert(r@ =~= Seq::<char>::empty());
        }
        string_push_str(&mut r, names[i].as_str());
        i += 1;
    }
    assert(names@.take(i as int) =~= names@);
    r
}

/// The systemd user unit that starts the server with `exec_path`.
pub open spec fn service_unit_text(exec_path: Seq<char>) -> Seq<char> {
    "[Unit]\nDescription=WayScreenPass Headless Remote Desktop Server\nAfter=network-online.target tailscaled.service\nWants=network-online.target\n\n[Service]\nType=simple\nExecStart="@
        + exec_path
        + " start\nRestart=on-failure\nRestartSec=5\nEnvironment=RUST_LOG=info\n\n[Install]\nWantedBy=default.target\n"@
}

/// The systemd user unit for the server.
pub fn service_unit(exec_path: &str) -> (r: String)
    ensures
        r@ == service_unit_text(exec_path@),
{
    let mut r = "[Unit]\nDescription=WayScreenPass Headless Remote Desktop Server\nAfter=network-online.target tailscaled.service\nWants=network-online.target\n\n[Service]\nType=simple\nExecStart=".to_owned();
    string_push_str(&mut r, exec_path);
    string_push_str(&mut r, " start\nRestart=on-failure\nRestartSec=5\nEnvironment=RUST_LOG=info\n\n[Install]\nWantedBy=default.target\n");
    r
}

/// The PID file gives back the PID that was written to it (as decimal
/// text).
pub proof fn lemma_pid_file_reads_back(pid: u32)
    ensures
        parse_u32_spec(trim_ws(decimal(pid as nat))) == Some(pid),
{
    let d = decimal(pid as nat);
    lemma_decimal_reads_back(pid as nat);
    assert(!is_whitespace(d[0]));
    assert(!is_whitespace(d[d.len() - 1]));
    lemma_trim_without_spaces(d);
    assert(!(d[0] == '+')) by {
        assert(is_digit(d[0]));
    }
    assert(unsigned_part(d) == d);
}

} // verus!
