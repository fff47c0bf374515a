//! Monitors as the DRM connectors in sysfs describe them: reading a mode
//! line, choosing the monitors that are connected, and looking one up.

use vstd::prelude::*;
use crate::error::CoreError;
use crate::text::{decimal, is_digit, is_whitespace, unsigned_part, lemma_decimal_reads_back, lemma_trim_padded, chars_of, string_from_chars, trim_chars, trim_ws, parse_u32, parse_u32_spec, lex_le, lemma_lex_total, lemma_lex_transitive, string_le, contains_char, find_char, first_index_of};

verus! {

/// A detected monitor.
#[derive(Debug)]
pub struct MonitorInfo {
    /// Name of the connector entry, such as `card0-DP-1`.
    pub name: String,
    /// GPU device node, such as `/dev/dri/card0`.
    pub gpu_device: String,
    /// Connector name, such as `DP-1`.
    pub connector: String,
    /// Resolution as (width, height).
    pub resolution: (u32, u32),
    /// Refresh rate in Hz.
    pub refresh_rate: u32,
    /// Whether this is the primary monitor.
    pub is_primary: bool,
}

impl Clone for MonitorInfo {
    fn clone(&self) -> (m: MonitorInfo)
        ensures
            m@ == self@,
    {
        MonitorInfo {
            name: self.name.clone(),
            gpu_device: self.gpu_device.clone(),
            connector: self.connector.clone(),
            resolution: self.resolution,
            refresh_rate: self.refresh_rate,
            is_primary: self.is_primary,
        }
    }
}

/// A monitor with its text fields as character sequences.
pub struct MonitorView {
    pub name: Seq<char>,
    pub gpu_device: Seq<char>,
    pub connector: Seq<char>,
    pub resolution: (u32, u32),
    pub refresh_rate: u32,
    pub is_primary: bool,
}

impl View for MonitorInfo {
    type V = MonitorView;

    open spec fn view(&self) -> MonitorView {
        MonitorView {
            name: self.name@,
            gpu_device: self.gpu_device@,
            connector: self.connector@,
            resolution: self.resolution,
            refresh_rate: self.refresh_rate,
            is_primary: self.is_primary,
        }
    }
}

/// `s` holds `c` exactly once, at position `i`.
pub open spec fn only_at(s: Seq<char>, c: char, i: int) -> bool {
    &&& 0 <= i < s.len()
    &&& s[i] == c
    &&& forall|j: int| 0 <= j < s.len() && j != i ==> s[j] != c
}

/// The value of an optional number, or a default.
pub open spec fn or_default(v: Option<u32>, d: u32) -> u32 {
    match v {
        Some(x) => x,
        None => d,
    }
}

/// The resolution that a mode line such as `1920x1080` names. The line is
/// trimmed; unless it then holds exactly one `x`, the answer is 1920x1080, and
/// a side that is not a number gives 1920 for the width or 1080 for the
/// height.
pub open spec fn parse_mode_spec(mode: Seq<char>) -> (u32, u32) {
    let t = trim_ws(mode);
    if exists|i: int| only_at(t, 'x', i) {
        let i = choose|i: int| only_at(t, 'x', i);
        (
            or_default(parse_u32_spec(t.take(i)), 1920),
            or_default(parse_u32_spec(t.skip(i + 1)), 1080),
        )
    } else {
        (1920, 1080)
    }
}

/// A mode line written as the width, `x` and the height in decimal, with any
/// white space around it, reads back as that width and height.
pub proof fn lemma_parse_mode_round_trip(w: u32, h: u32, pre: Seq<char>, post: Seq<char>)
    requires
        forall|i: int| 0 <= i < pre.len() ==> is_whitespace(#[trigger] pre[i]),
        forall|i: int| 0 <= i < post.len() ==> is_whitespace(#[trigger] post[i]),
    ensures
        parse_mode_spec(pre + (decimal(w as nat) + "x"@ + decimal(h as nat)) + post) == (w, h),
{
    reveal_strlit("x");
    let dw = decimal(w as nat);
    let dh = decimal(h as nat);
    let t = dw + "x"@ + dh;
    lemma_decimal_reads_back(w as nat);
    lemma_decimal_reads_back(h as nat);
    assert(t[0] == dw[0]);
    assert(t.last() == dh.last());
    lemma_trim_padded(pre, t, post);
    let k = dw.len() as int;
    assert forall|j: int| 0 <= j < t.len() && j != k implies t[j] != 'x' by {
        if j < k {
            assert(t[j] == dw[j]);
            assert(is_digit(dw[j]));
        } else {
            assert(t[j] == dh[j - k - 1]);
            assert(is_digit(dh[j - k - 1]));
        }
    }
    assert(only_at(t, 'x', k));
    let i = choose|i: int| only_at(t, 'x', i);
    assert(i == k);
    assert(t.take(k) =~= dw);
    assert(t.skip(k + 1) =~= dh);
    assert(unsigned_part(dw) == dw) by {
        assert(is_digit(dw[0]));
    }
    assert(unsigned_part(dh) == dh) by {
        assert(is_digit(dh[0]));
    }
}

/// Reads the resolution of a mode line such as `1920x1080`.
pub fn parse_mode(mode: &str) -> (r: (u32, u32))
    ensures
        r == parse_mode_spec(mode@),
{
    let all = chars_of(mode);
    let t = trim_chars(all.as_slice());
    let mut count: usize = 0;
    let mut pos: usize = 0;
    let mut k: usize = 0;
    while k < t.len()
        invariant
            0 <= k <= t@.len(),
            count <= k,
            count == 0 ==> forall|j: int| 0 <= j < k ==> t@[j] != 'x',
            count == 1 ==> only_at(t@.take(k as int), 'x', pos as int),
            count >= 2 ==> exists|a: int, b: int|
                0 <= a < b < k && t@[a] == 'x' && t@[b] == 'x',
        decreases t@.len() - k,
    {
        if t[k] == 'x' {
            if count == 0 {
                pos = k;
            } else if count == 1 {
                assert(t@.take(k as int)[pos as int] == 'x');
                assert(0 <= pos < k && t@[pos as int] == 'x' && t@[k as int] == 'x');
            }
            if count < 2 {
                count = count + 1;
            }
        }
        proof {
            if count == 1 {
                assert forall|j: int| 0 <= j < k + 1 && j != pos implies #[trigger] t@.take(k + 1)[j] != 'x' by {
                    if j < k {
                        assert(t@.take(k as int)[j] == t@[j]);
                    }
                }
            }
        }
        k = k + 1;
    }
    assert(t@.take(t@.len() as int) =~= t@);
    if count == 1 {
        assert(only_at(t@, 'x', pos as int));
        assert forall|i: int| only_at(t@, 'x', i) implies i == pos by {}
        let (before, _) = t.as_slice().split_at(pos);
        let (_, after) = t.as_slice().split_at(pos + 1);
        assert(before@ =~= t@.take(pos as int));
        assert(after@ =~= t@.skip(pos + 1));
        let left = parse_u32(before);
        let right = parse_u32(after);
        let w = match left {
            Some(v) => v,
            None => 1920,
        };
        let h = match right {
            Some(v) => v,
            None => 1080,
        };
        (w, h)
    } else {
        proof {
            if count == 0 {
                assert forall|i: int| !only_at(t@, 'x', i) by {
                    if 0 <= i < t@.len() {
                        assert(t@[i] != 'x');
                    }
                }
            } else {
                let (a, b) = choose|a: int, b: int|
                    0 <= a < b < t@.len() && t@[a] == 'x' && t@[b] == 'x';
                assert forall|i: int| !only_at(t@, 'x', i) by {
                    if only_at(t@, 'x', i) {
                        assert(a == i && b == i);
                    }
                }
            }
        }
        (1920, 1080)
    }
}

/// The monitor assumed when detection finds none.
pub open spec fn fallback_view() -> MonitorView {
    MonitorView {
        name: "fallback-DP-1"@,
        gpu_device: "/dev/dri/card0"@,
        connector: "DP-1"@,
        resolution: (1920, 1080),
        refresh_rate: 60,
        is_primary: true,
    }
}

/// The monitor assumed when detection finds none: `fallback-DP-1` on card0,
/// 1920x1080 at 60 Hz, primary.
pub fn fallback_monitor() -> (m: MonitorInfo)
    ensures
        m@ == fallback_view(),
{
    MonitorInfo {
        name: string_from_chars(chars_of("fallback-DP-1").as_slice()),
        gpu_device: string_from_chars(chars_of("/dev/dri/card0").as_slice()),
        connector: string_from_chars(chars_of("DP-1").as_slice()),
        resolution: (1920, 1080),
        refresh_rate: 60,
        is_primary: true,
    }
}

/// Monitor `m` answers to `name`, by its entry name or its connector name.
pub open spec fn answers_to(m: MonitorView, name: Seq<char>) -> bool {
    m.name == name || m.connector == name
}

/// Finds the first monitor that answers to `name`, by entry name (such as
/// `card0-DP-1`) or connector name (such as `DP-1`); none is refused with
/// `MonitorNotFound(name)`.
pub fn find_monitor(monitors: Vec<MonitorInfo>, name: &str) -> (r: Result<MonitorInfo, CoreError>)
    ensures
        match r {
            Ok(m) => exists|k: int|
                0 <= k < monitors@.len() && answers_to(#[trigger] monitors@[k]@, name@) && m@
                    == monitors@[k]@ && forall|j: int|
                    0 <= j < k ==> !answers_to(#[trigger] monitors@[j]@, name@),
            Err(e) => (e matches CoreError::MonitorNotFound(n) && n@ == name@) && forall|k: int|
                0 <= k < monitors@.len() ==> !answers_to(#[trigger] monitors@[k]@, name@),
        },
{
    let target = string_from_chars(chars_of(name).as_slice());
    let mut list = monitors;
    let ghost all = list@;
    let mut i: usize = 0;
    while i < list.len()
        invariant
            0 <= i <= list@.len(),
            list@ == all,
            all == monitors@,
            target@ == name@,
            forall|j: int| 0 <= j < i ==> !answers_to(#[trigger] all[j]@, name@),
        decreases list@.len() - i,
    {
        if list[i].name == target || list[i].connector == target {
            let m = list.remove(i);
            assert(answers_to(monitors@[i as int]@, name@));
            return Ok(m);
        }
        i = i + 1;
    }
    Err(CoreError::MonitorNotFound(target))
}

/// The primary monitor: the first one marked primary, or the first monitor
/// when none is marked; an empty list is refused with `NoMonitors`.
pub fn get_primary_monitor(monitors: Vec<MonitorInfo>) -> (r: Result<MonitorInfo, CoreError>)
    ensures
        monitors@.len() == 0 <==> (r matches Err(e) && e is NoMonitors),
        r is Err ==> monitors@.len() == 0,
        (exists|k: int| 0 <= k < monitors@.len() && (#[trigger] monitors@[k]).is_primary) ==> (
        exists|k: int|
            0 <= k < monitors@.len() && (#[trigger] monitors@[k]).is_primary && (r matches Ok(m)
                && m@ == monitors@[k]@) && forall|j: int|
                0 <= j < k ==> !(#[trigger] monitors@[j]).is_primary),
        (monitors@.len() > 0 && forall|k: int|
            0 <= k < monitors@.len() ==> !(#[trigger] monitors@[k]).is_primary) ==> (r matches Ok(
            m,
        ) && m@ == monitors@[0]@),
{
    let mut list = monitors;
    let ghost all = list@;
    let mut i: usize = 0;
    while i < list.len()
        invariant
            0 <= i <= list@.len(),
            list@ == all,
            all == monitors@,
            forall|j: int| 0 <= j < i ==> !(#[trigger] all[j]).is_primary,
        decreases list@.len() - i,
    {
        if list[i].is_primary {
            let m = list.remove(i);
            assert(monitors@[i as int].is_primary);
            return Ok(m);
        }
        i = i + 1;
    }
    if list.len() == 0 {
        Err(CoreError::NoMonitors)
    } else {
        Ok(list.remove(0))
    }
}

/// The views of a list of monitors.
pub open spec fn views(ms: Seq<MonitorInfo>) -> Seq<MonitorView> {
    ms.map_values(|m: MonitorInfo| m@)
}

/// Monitors ordered by name.
pub open spec fn sorted_by_name(ms: Seq<MonitorView>) -> bool {
    forall|i: int, j: int| 0 <= i < j < ms.len() ==> lex_le(#[trigger] ms[i].name, #[trigger] ms[j].name)
}

/// Orders monitors by name (lexicographically, as names compare), keeping
/// every monitor.
pub fn sort_by_name(list: Vec<MonitorInfo>) -> (r: Vec<MonitorInfo>)
    ensures
        sorted_by_name(views(r@)),
        views(r@).to_multiset() == views(list@).to_multiset(),
{
    let mut out: Vec<MonitorInfo> = Vec::new();
    let mut i: usize = 0;
    assert(views(list@).take(0) =~= Seq::<MonitorView>::empty());
    assert(views(out@) =~= Seq::<MonitorView>::empty());
    while i < list.len()
        invariant
            0 <= i <= list@.len(),
            sorted_by_name(views(out@)),
            views(out@).to_multiset() == views(list@).take(i as int).to_multiset(),
        decreases list@.len() - i,
    {
        let x = list[i].clone();
        let mut pos: usize = 0;
        while pos < out.len() && string_le(&out[pos].name, &x.name)
            invariant
                0 <= pos <= out@.len(),
                forall|k: int| 0 <= k < pos ==> lex_le(#[trigger] out@[k].name@, x.name@),
            decreases out@.len() - pos,
        {
            pos = pos + 1;
        }
        proof {
            let vs = views(out@);
            assert forall|j: int| pos <= j < vs.len() implies lex_le(x.name@, #[trigger] vs[j].name) by {
                assert(!lex_le(vs[pos as int].name, x.name@));
                if lex_le(vs[j].name, x.name@) {
                    if pos < j {
                        assert(lex_le(vs[pos as int].name, vs[j].name));
                        lemma_lex_transitive(vs[pos as int].name, vs[j].name, x.name@);
                    }
                }
                lemma_lex_total(vs[j].name, x.name@);
            }
        }
        let ghost before = out@;
        out.insert(pos, x);
        proof {
            let vb = views(before);
            let va = views(out@);
            assert(va =~= vb.insert(pos as int, x@));
            vstd::seq_lib::to_multiset_insert(vb, pos as int, x@);
            assert(views(list@).take(i + 1) =~= views(list@).take(i as int).push(x@));
            vstd::seq_lib::to_multiset_build(views(list@).take(i as int), x@);
            assert forall|a: int, b: int| 0 <= a < b < va.len() implies lex_le(
                #[trigger] va[a].name,
                #[trigger] va[b].name,
            ) by {
                if b < pos {
                    assert(va[a] == vb[a] && va[b] == vb[b]);
                } else if b == pos {
                    assert(va[a] == vb[a]);
                    assert(lex_le(before[a].name@, x.name@));
                } else if a == pos {
                    assert(va[b] == vb[b - 1]);
                } else if a < pos {
                    assert(va[a] == vb[a] && va[b] == vb[b - 1]);
                } else {
                    assert(va[a] == vb[a - 1] && va[b] == vb[b - 1]);
                }
            }
        }
        i = i + 1;
    }
    assert(views(list@).take(list@.len() as int) =~= views(list@));
    out
}

/// A DRM connector entry of sysfs with the contents of its `status` and
/// `modes` files (empty where a file could not be read).
pub struct DrmConnector {
    pub name: String,
    pub status: String,
    pub modes: String,
}

/// A connector entry with its texts as character sequences.
pub struct ConnectorView {
    pub name: Seq<char>,
    pub status: Seq<char>,
    pub modes: Seq<char>,
}

impl View for DrmConnector {
    type V = ConnectorView;

    open spec fn view(&self) -> ConnectorView {
        ConnectorView { name: self.name@, status: self.status@, modes: self.modes@ }
    }
}

/// An entry name that can be a connector: it holds a `-` and does not start
/// with a `.`.
pub open spec fn connector_entry_name(n: Seq<char>) -> bool {
    n.contains('-') && !(n.len() > 0 && n[0] == '.')
}

/// A status file that says the connector is connected.
pub open spec fn is_connected(status: Seq<char>) -> bool {
    trim_ws(status) == "connected"@
}

/// A connector that counts as a monitor.
pub open spec fn accepted(c: ConnectorView) -> bool {
    connector_entry_name(c.name) && is_connected(c.status)
}

/// The first line of a text, as `str::lines` gives it: up to the first line
/// feed, without a carriage return at its end; none for an empty text.
pub open spec fn first_line(s: Seq<char>) -> Option<Seq<char>> {
    if s.len() == 0 {
        None
    } else {
        let l = match first_index_of(s, '\n') {
            Some(i) => s.take(i),
            None => s,
        };
        Some(
            if l.len() > 0 && l.last() == '\r' {
                l.drop_last()
            } else {
                l
            },
        )
    }
}

/// The mode line read from a `modes` file: its first line, or `1920x1080`.
pub open spec fn mode_line(modes: Seq<char>) -> Seq<char> {
    match first_line(modes) {
        Some(l) => l,
        None => "1920x1080"@,
    }
}

/// The monitor that an accepted connector gives: the part of its name before
/// the first `-` names the GPU, the part after names the connector.
pub open spec fn monitor_of(c: ConnectorView, primary: bool) -> MonitorView {
    let i = match first_index_of(c.name, '-') {
        Some(i) => i,
        None => 0,
    };
    MonitorView {
        name: c.name,
        gpu_device: "/dev/dri/"@ + c.name.take(i),
        connector: c.name.skip(i + 1),
        resolution: parse_mode_spec(mode_line(c.modes)),
        refresh_rate: 60,
        is_primary: primary,
    }
}

/// The monitors that the connectors give, in their order; the first is the
/// primary one.
pub open spec fn connected_monitors(cs: Seq<ConnectorView>) -> Seq<MonitorView>
    decreases cs.len(),
{
    if cs.len() == 0 {
        Seq::empty()
    } else {
        let prev = connected_monitors(cs.drop_last());
        if accepted(cs.last()) {
            prev.push(monitor_of(cs.last(), prev.len() == 0))
        } else {
            prev
        }
    }
}

proof fn lemma_first_is_primary(cs: Seq<ConnectorView>)
    ensures
        connected_monitors(cs).len() > 0 ==> connected_monitors(cs)[0].is_primary,
    decreases cs.len(),
{
    if cs.len() > 0 {
        lemma_first_is_primary(cs.drop_last());
    }
}

proof fn lemma_none_accepted(cs: Seq<ConnectorView>)
    requires
        forall|j: int| 0 <= j < cs.len() ==> !accepted(#[trigger] cs[j]),
    ensures
        connected_monitors(cs).len() == 0,
    decreases cs.len(),
{
    if cs.len() > 0 {
        assert(!accepted(cs[cs.len() - 1]));
        lemma_none_accepted(cs.drop_last());
    }
}

/// Exactly one detected monitor is primary: the monitor of the first
/// connector that counts, and no other.
pub proof fn lemma_only_first_connected_is_primary(cs: Seq<ConnectorView>)
    ensures
        forall|i: int|
            0 <= i < connected_monitors(cs).len() ==> ((#[trigger] connected_monitors(cs)[i]).is_primary
                <==> i == 0),
        forall|k: int|
            0 <= k < cs.len() && accepted(#[trigger] cs[k]) && (forall|j: int| 0 <= j < k ==> !accepted(cs[j]))
                ==> connected_monitors(cs).len() > 0 && connected_monitors(cs)[0] == monitor_of(cs[k], true),
    decreases cs.len(),
{
    if cs.len() > 0 {
        let init = cs.drop_last();
        lemma_only_first_connected_is_primary(init);
        let prev = connected_monitors(init);
        assert forall|i: int| 0 <= i < connected_monitors(cs).len() implies ((#[trigger] connected_monitors(
            cs,
        )[i]).is_primary <==> i == 0) by {
            if i < prev.len() {
                assert(connected_monitors(cs)[i] == prev[i]);
            }
        }
        assert forall|k: int|
            0 <= k < cs.len() && accepted(#[trigger] cs[k]) && (forall|j: int| 0 <= j < k ==> !accepted(cs[j]))
                implies connected_monitors(cs).len() > 0 && connected_monitors(cs)[0] == monitor_of(cs[k], true) by {
            if k < cs.len() - 1 {
                assert(init[k] == cs[k]);
                assert forall|j: int| 0 <= j < k implies !accepted(init[j]) by {
                    assert(init[j] == cs[j]);
                }
            } else {
                assert forall|j: int| 0 <= j < init.len() implies !accepted(#[trigger] init[j]) by {
                    assert(init[j] == cs[j]);
                }
                lemma_none_accepted(init);
            }
        }
    }
}

/// No two monitors of a detection are marked primary.
proof fn lemma_primary_occurs_once(ms: Seq<MonitorView>)
    requires
        ms.len() > 0,
        forall|i: int| 0 <= i < ms.len() ==> ((#[trigger] ms[i]).is_primary <==> i == 0),
    ensures
        ms.to_multiset().count(ms[0]) == 1,
{
    let x = ms[0];
    ms.to_multiset_ensures();
    ms.drop_first().to_multiset_ensures();
    assert(ms.remove(0) =~= ms.drop_first());
    assert(!ms.drop_first().contains(x)) by {
        if ms.drop_first().contains(x) {
            let j = choose|j: int| 0 <= j < ms.drop_first().len() && ms.drop_first()[j] == x;
            assert(ms[j + 1] == x);
        }
    }
    assert(ms.contains(x));
    assert(ms.drop_first().to_multiset().count(x) == 0);
    assert(ms.to_multiset().remove(x).count(x) == 0);
}

/// A reordering of monitors among which only the first is primary still has
/// exactly one primary monitor, that same one.
proof fn lemma_reordered_one_primary(found: Seq<MonitorView>, vs: Seq<MonitorView>)
    requires
        found.len() > 0,
        forall|i: int| 0 <= i < found.len() ==> ((#[trigger] found[i]).is_primary <==> i == 0),
        vs.to_multiset() == found.to_multiset(),
    ensures
        exists|i: int| 0 <= i < vs.len() && vs[i] == found[0],
        forall|i: int| 0 <= i < vs.len() && (#[trigger] vs[i]).is_primary ==> vs[i] == found[0],
        forall|i: int, j: int|
            0 <= i < vs.len() && 0 <= j < vs.len() && (#[trigger] vs[i]).is_primary && (#[trigger] vs[j]).is_primary
                ==> i == j,
{
    let x = found[0];
    lemma_primary_occurs_once(found);
    found.to_multiset_ensures();
    vs.to_multiset_ensures();
    assert(found.contains(x));
    assert(vs.contains(x));
    assert forall|i: int| 0 <= i < vs.len() && (#[trigger] vs[i]).is_primary implies vs[i] == x by {
        assert(vs.contains(vs[i]));
        assert(vs.to_multiset().count(vs[i]) > 0);
        assert(found.to_multiset().count(vs[i]) > 0);
        assert(found.contains(vs[i]));
        let k = choose|k: int| 0 <= k < found.len() && found[k] == vs[i];
        assert(found[k].is_primary);
    }
    assert forall|i: int, j: int|
        0 <= i < vs.len() && 0 <= j < vs.len() && (#[trigger] vs[i]).is_primary && (#[trigger] vs[j]).is_primary
            implies i == j by {
        if i != j {
            assert(vs[i] == x && vs[j] == x);
            let rest = vs.remove(i);
            let jj = if j < i { j } else { j - 1 };
            assert(rest[jj] == x);
            assert(rest.contains(x));
            rest.to_multiset_ensures();
            assert(rest.to_multiset() == vs.to_multiset().remove(x));
            assert(vs.to_multiset().remove(x).count(x) > 0);
            assert(vs.to_multiset().count(x) == 1);
        }
    }
}

fn first_line_chars(s: &[char]) -> (r: Option<Vec<char>>)
    ensures
        match first_line(s@) {
            Some(l) => r matches Some(v) && v@ == l,
            None => r is None,
        },
{
    if s.len() == 0 {
        return None;
    }
    let end = match find_char(s, '\n') {
        Some(i) => i,
        None => s.len(),
    };
    let mut l: Vec<char> = Vec::new();
    let mut k: usize = 0;
    while k < end
        invariant
            0 <= k <= end,
            end <= s@.len(),
            l@ == s@.take(k as int),
        decreases end - k,
    {
        l.push(s[k]);
        proof {
            assert(s@.take(k + 1) =~= s@.take(k as int).push(s@[k as int]));
        }
        k = k + 1;
    }
    proof {
        assert(s@.take(s@.len() as int) =~= s@);
    }
    if l.len() > 0 && l[l.len() - 1] == '\r' {
        l.pop();
    }
    Some(l)
}

fn connector_monitor(c: &DrmConnector, primary: bool) -> (m: MonitorInfo)
    requires
        accepted(c@),
    ensures
        m@ == monitor_of(c@, primary),
{
    let name = chars_of(c.name.as_str());
    assert(name@.contains('-'));
    let dash = match find_char(name.as_slice(), '-') {
        Some(i) => i,
        None => 0,
    };
    let mut device = chars_of("/dev/dri/");
    let ghost prefix = device@;
    let mut k: usize = 0;
    while k < dash
        invariant
            0 <= k <= dash,
            dash < name@.len(),
            device@ == prefix + name@.take(k as int),
        decreases dash - k,
    {
        device.push(name[k]);
        proof {
            assert(name@.take(k + 1) =~= name@.take(k as int).push(name@[k as int]));
        }
        k = k + 1;
    }
    let nlen = name.len();
    assert(dash < nlen);
    let (_, after) = name.as_slice().split_at(dash + 1);
    assert(after@ =~= name@.skip(dash + 1));
    let modes = chars_of(c.modes.as_str());
    let line = match first_line_chars(modes.as_slice()) {
        Some(l) => l,
        None => chars_of("1920x1080"),
    };
    let line_text = string_from_chars(line.as_slice());
    let resolution = parse_mode(line_text.as_str());
    MonitorInfo {
        name: c.name.clone(),
        gpu_device: string_from_chars(device.as_slice()),
        connector: string_from_chars(after),
        resolution,
        refresh_rate: 60,
        is_primary: primary,
    }
}

/// The monitors that sysfs connector entries describe: each entry whose name
/// holds a `-` and does not start with `.` and whose trimmed status reads
/// `connected`, in name order, the first accepted entry marked primary; the
/// fallback monitor when there is none.
pub fn monitors_from_connectors(connectors: &Vec<DrmConnector>) -> (r: Vec<MonitorInfo>)
    ensures
        ({
            let found = connected_monitors(connectors@.map_values(|c: DrmConnector| c@));
            &&& found.len() == 0 ==> views(r@) == seq![fallback_view()]
            &&& found.len() > 0 ==> sorted_by_name(views(r@)) && views(r@).to_multiset()
                == found.to_multiset()
            &&& found.len() > 0 ==> exists|i: int| 0 <= i < r@.len() && r@[i]@ == found[0]
            &&& found.len() > 0 ==> forall|i: int|
                0 <= i < r@.len() && (#[trigger] r@[i]).is_primary ==> r@[i]@ == found[0]
            &&& forall|i: int, j: int|
                0 <= i < r@.len() && 0 <= j < r@.len() && (#[trigger] r@[i]).is_primary && (#[trigger] r@[j]).is_primary
                    ==> i == j
        }),
{
    let ghost cs = connectors@.map_values(|c: DrmConnector| c@);
    let mut found: Vec<MonitorInfo> = Vec::new();
    let mut i: usize = 0;
    assert(cs.take(0) =~= Seq::<ConnectorView>::empty());
    while i < connectors.len()
        invariant
            0 <= i <= connectors@.len(),
            cs == connectors@.map_values(|c: DrmConnector| c@),
            views(found@) == connected_monitors(cs.take(i as int)),
        decreases connectors@.len() - i,
    {
        let c = &connectors[i];
        let name = chars_of(c.name.as_str());
        let status = chars_of(c.status.as_str());
        let trimmed = trim_chars(status.as_slice());
        let connected_word = chars_of("connected");
        let status_text = string_from_chars(trimmed.as_slice());
        let connected_text = string_from_chars(connected_word.as_slice());
        assert(cs.take(i + 1).drop_last() =~= cs.take(i as int));
        assert(cs.take(i + 1).last() == c@);
        let entry_ok = contains_char(name.as_slice(), '-') && !(name.len() > 0 && name[0] == '.');
        if entry_ok && status_text == connected_text {
            let primary = found.len() == 0;
            let m = connector_monitor(c, primary);
            let ghost before = found@;
            found.push(m);
            assert(views(found@) =~= views(before).push(m@));
        }
        i = i + 1;
    }
    assert(cs.take(connectors@.len() as int) =~= cs);
    let ghost all = views(found@);
    let mut sorted = sort_by_name(found);
    let mut any_primary = false;
    let mut k: usize = 0;
    while k < sorted.len()
        invariant
            0 <= k <= sorted@.len(),
            any_primary == exists|j: int| 0 <= j < k && (#[trigger] sorted@[j]).is_primary,
        decreases sorted@.len() - k,
    {
        if sorted[k].is_primary {
            any_primary = true;
        }
        k = k + 1;
    }
    if sorted.len() > 0 && !any_primary {
        proof {
            vstd::seq_lib::to_multiset_len(all);
            vstd::seq_lib::to_multiset_len(views(sorted@));
            lemma_first_is_primary(cs);
            assert(all[0].is_primary);
            vstd::seq_lib::to_multiset_contains(views(sorted@), all[0]);
            vstd::seq_lib::to_multiset_contains(all, all[0]);
            assert(all.contains(all[0]));
            let j = choose|j: int| 0 <= j < views(sorted@).len() && views(sorted@)[j] == all[0];
            assert(sorted@[j].is_primary);
        }
        sorted[0].is_primary = true;
    }
    if sorted.len() == 0 {
        proof {
            vstd::seq_lib::to_multiset_len(all);
            vstd::seq_lib::to_multiset_len(views(sorted@));
        }
        let mut fallback: Vec<MonitorInfo> = Vec::new();
        fallback.push(fallback_monitor());
        assert(views(fallback@) =~= seq![fallback_view()]);
        assert(fallback@.len() == 1);
        return fallback;
    }
    proof {
        vstd::seq_lib::to_multiset_len(all);
        vstd::seq_lib::to_multiset_len(views(sorted@));
        lemma_only_first_connected_is_primary(cs);
        let vs = views(sorted@);
        lemma_reordered_one_primary(all, vs);
        assert forall|i: int| 0 <= i < sorted@.len() implies #[trigger] sorted@[i]@ == vs[i]
            && sorted@[i].is_primary == vs[i].is_primary by {}
        let i0 = choose|i: int| 0 <= i < vs.len() && vs[i] == all[0];
        assert(sorted@[i0]@ == all[0]);
        assert(exists|i: int| 0 <= i < sorted@.len() && sorted@[i]@ == all[0]);
        assert forall|i: int| 0 <= i < sorted@.len() && (#[trigger] sorted@[i]).is_primary implies sorted@[i]@
            == all[0] by {
            assert(vs[i].is_primary);
        }
        assert forall|i: int, j: int|
            0 <= i < sorted@.len() && 0 <= j < sorted@.len() && (#[trigger] sorted@[i]).is_primary
                && (#[trigger] sorted@[j]).is_primary implies i == j by {
            assert(vs[i].is_primary && vs[j].is_primary);
        }
    }
    sorted
}

} // verus!
