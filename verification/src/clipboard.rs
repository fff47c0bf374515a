//! Clipboard change tracking on the server side. The wl-clipboard tools are
//! run by the caller; this module decides, from what they returned, whether
//! the clipboard changed, which content is sent, and which MIME types are
//! offered. A content hash recorded after a remote update keeps that update
//! from being echoed back.

use vstd::prelude::*;
use crate::text::{chars_of, first_index_of, string_from_chars, trim_chars, trim_ws};

verus! {

/// The XXH3 64-bit hash of some bytes.
pub uninterp spec fn xxh3_of(data: Seq<u8>) -> u64;

/// `xxhash_rust::xxh3::xxh3_64`: the XXH3 64-bit hash of the input with the
/// default seed and secret. It depends on the bytes alone.
#[verifier::external_body]
pub(crate) fn content_hash(data: &[u8]) -> (h: u64)
    ensures
        h == xxh3_of(data@),
{
    xxhash_rust::xxh3::xxh3_64(data)
}

/// Clipboard content that the watcher found after a change.
#[derive(Debug, Clone)]
pub struct ClipboardChange {
    pub mime_type: String,
    pub data: Vec<u8>,
}

/// The MIME types that are transferred, in order of preference.
pub open spec fn preferred_mime(i: int) -> Seq<char> {
    if i == 0 {
        "text/plain"@
    } else if i == 1 {
        "text/html"@
    } else {
        "image/png"@
    }
}

/// The number of MIME types that are transferred.
pub const MIME_TYPE_COUNT: usize = 3;

/// The preferred MIME type at position `i` (below `MIME_TYPE_COUNT`).
pub fn preferred_mime_type(i: usize) -> (m: String)
    requires
        i < MIME_TYPE_COUNT,
    ensures
        m@ == preferred_mime(i as int),
{
    if i == 0 {
        "text/plain".to_owned()
    } else if i == 1 {
        "text/html".to_owned()
    } else {
        "image/png".to_owned()
    }
}

/// The first position from `i` on, among the transferred types, whose
/// content was read (`fetched[k]` is the content for the `k`-th type).
pub open spec fn first_read(fetched: Seq<Option<Vec<u8>>>, i: int) -> Option<int>
    decreases MIME_TYPE_COUNT - i,
{
    if i < 0 || i >= MIME_TYPE_COUNT || i >= fetched.len() {
        None
    } else if fetched[i] is Some {
        Some(i)
    } else {
        first_read(fetched, i + 1)
    }
}

/// The first position from `i` on whose content was read and is not empty.
pub open spec fn first_nonempty(fetched: Seq<Option<Vec<u8>>>, i: int) -> Option<int>
    decreases MIME_TYPE_COUNT - i,
{
    if i < 0 || i >= MIME_TYPE_COUNT || i >= fetched.len() {
        None
    } else if fetched[i] matches Some(d) && d@.len() > 0 {
        Some(i)
    } else {
        first_nonempty(fetched, i + 1)
    }
}

/// The content to send: that of the first transferred type that is present
/// and not empty, with its MIME type.
pub fn get_best_content(fetched: &Vec<Option<Vec<u8>>>) -> (r: Option<(String, Vec<u8>)>)
    ensures
        match first_nonempty(fetched@, 0) {
            None => r is None,
            Some(i) => {
                &&& r matches Some((m, d))
                &&& m@ == preferred_mime(i)
                &&& d@ == fetched@[i]->Some_0@
            },
        },
{
    let mut i: usize = 0;
    while i < MIME_TYPE_COUNT && i < fetched.len()
        invariant
            i <= MIME_TYPE_COUNT,
            first_nonempty(fetched@, 0) == first_nonempty(fetched@, i as int),
        decreases MIME_TYPE_COUNT - i,
    {
        match &fetched[i] {
            Some(d) => {
                if d.len() > 0 {
                    return Some((preferred_mime_type(i), d.clone()));
                }
            },
            None => {},
        }
        i += 1;
    }
    None
}

/// The clipboard as last seen: the hash of its content and its MIME type.
pub struct ClipboardHandler {
    last_content_hash: Option<u64>,
    last_mime_type: Option<String>,
}

impl ClipboardHandler {
    /// The hash of the content last seen or set.
    pub closed spec fn spec_hash(&self) -> Option<u64> {
        self.last_content_hash
    }

    /// The MIME type of the content last seen or set.
    pub closed spec fn spec_mime(&self) -> Option<Seq<char>> {
        match self.last_mime_type {
            Some(m) => Some(m@),
            None => None,
        }
    }

    /// Nothing seen yet.
    pub fn new() -> (h: ClipboardHandler)
        ensures
            h.spec_hash() is None,
            h.spec_mime() is None,
    {
        ClipboardHandler { last_content_hash: None, last_mime_type: None }
    }

    /// The hash of the content last seen or set (to keep from echoing it).
    pub fn current_hash(&self) -> (h: Option<u64>)
        ensures
            h == self.spec_hash(),
    {
        self.last_content_hash
    }

    /// Records content that was just set from a remote peer, so that the
    /// change it causes is not reported.
    pub fn set_expected_hash(&mut self, hash: u64, mime_type: &str)
        ensures
            final(self).spec_hash() == Some(hash),
            final(self).spec_mime() == Some(mime_type@),
    {
        self.last_content_hash = Some(hash);
        self.last_mime_type = Some(mime_type.to_owned());
    }

    /// Records content that was just set from a remote peer by its hash and
    /// MIME type, so that the change it causes is not reported back.
    pub fn expect_content(&mut self, data: &[u8], mime_type: &str)
        ensures
            final(self).spec_hash() == Some(xxh3_of(data@)),
            final(self).spec_mime() == Some(mime_type@),
    {
        let hash = content_hash(data);
        self.set_expected_hash(hash, mime_type);
    }

    /// Takes what the watcher reported, if anything: a change counts when its
    /// content hashes differently from the content last seen; it is then
    /// recorded with its MIME type. Nothing reported is no change.
    pub fn has_changed(&mut self, change: Option<ClipboardChange>) -> (changed: bool)
        ensures
            match change {
                None => !changed && final(self).spec_hash() == old(self).spec_hash() && final(self).spec_mime() == old(self).spec_mime(),
                Some(c) => {
                    &&& changed == change_reported(old(self).spec_hash(), c.data@)
                    &&& changed ==> final(self).spec_hash() == Some(xxh3_of(c.data@)) && final(self).spec_mime() == Some(c.mime_type@)
                    &&& !changed ==> final(self).spec_hash() == old(self).spec_hash() && final(self).spec_mime() == old(self).spec_mime()
                },
            },
    {
        match change {
            Some(c) => {
                let hash = content_hash(c.data.as_slice());
                if self.last_content_hash != Some(hash) {
                    self.last_content_hash = Some(hash);
                    self.last_mime_type = Some(c.mime_type);
                    return true;
                }
                false
            },
            None => false,
        }
    }

    /// Polls without a watcher: takes the first transferred type whose content
    /// could be read; it is a change when its hash or its type differs from
    /// what was last seen, and it is then recorded. No readable type is no
    /// change.
    pub fn has_changed_poll(&mut self, fetched: &Vec<Option<Vec<u8>>>) -> (changed: bool)
        ensures
            match first_read(fetched@, 0) {
                None => !changed && final(self).spec_hash() == old(self).spec_hash() && final(self).spec_mime() == old(self).spec_mime(),
                Some(i) => {
                    let h = xxh3_of(fetched@[i]->Some_0@);
                    &&& changed == poll_change_reported(
                        old(self).spec_hash(),
                        old(self).spec_mime(),
                        fetched@[i]->Some_0@,
                        preferred_mime(i),
                    )
                    &&& changed ==> final(self).spec_hash() == Some(h) && final(self).spec_mime()
                        == Some(preferred_mime(i))
                    &&& !changed ==> final(self).spec_hash() == old(self).spec_hash() && final(self).spec_mime() == old(self).spec_mime()
                },
            },
    {
        let mut i: usize = 0;
        while i < MIME_TYPE_COUNT && i < fetched.len()
            invariant
                i <= MIME_TYPE_COUNT,
                first_read(fetched@, 0) == first_read(fetched@, i as int),
                self.spec_hash() == old(self).spec_hash(),
                self.spec_mime() == old(self).spec_mime(),
            decreases MIME_TYPE_COUNT - i,
        {
            match &fetched[i] {
                Some(d) => {
                    let hash = content_hash(d.as_slice());
                    let mime = preferred_mime_type(i);
                    let same_type = match &self.last_mime_type {
                        Some(m) => *m == mime,
                        None => false,
                    };
                    if self.last_content_hash != Some(hash) || !same_type {
                        self.last_content_hash = Some(hash);
                        self.last_mime_type = Some(mime);
                        return true;
                    }
                    return false;
                },
                None => {},
            }
            i += 1;
        }
        false
    }
}

/// Whether the watcher's report of `data` counts as a change, given the
/// hash last seen.
pub open spec fn change_reported(last_hash: Option<u64>, data: Seq<u8>) -> bool {
    last_hash != Some(xxh3_of(data))
}

/// Whether a poll that read `data` for the type `mime` counts as a change,
/// given the hash and the type last seen.
pub open spec fn poll_change_reported(
    last_hash: Option<u64>,
    last_mime: Option<Seq<char>>,
    data: Seq<u8>,
    mime: Seq<char>,
) -> bool {
    last_hash != Some(xxh3_of(data)) || last_mime != Some(mime)
}

/// Content that was recorded, by `expect_content` (or `set_expected_hash`)
/// after a remote update or by a change that was just reported, is not reported again: neither by the
/// watcher nor by a poll that reads it under the same type.
pub proof fn lemma_recorded_content_not_reported(state: ClipboardHandler, data: Seq<u8>, mime: Seq<char>)
    requires
        state.spec_hash() == Some(xxh3_of(data)),
        state.spec_mime() == Some(mime),
    ensures
        !change_reported(state.spec_hash(), data),
        !poll_change_reported(state.spec_hash(), state.spec_mime(), data, mime),
{
}

/// A trimmed line, kept when it is not empty.
pub open spec fn kept_line(t: Seq<char>) -> Seq<Seq<char>> {
    if t.len() == 0 {
        Seq::empty()
    } else {
        seq![t]
    }
}

/// The MIME types in the output of `wl-paste --list-types`: its lines,
/// trimmed, without the empty ones.
#[verifier::opaque]
pub open spec fn type_lines(s: Seq<char>) -> Seq<Seq<char>>
    decreases s.len(),
{
    match first_index_of(s, '\n') {
        None => kept_line(trim_ws(s)),
        Some(i) => if 0 <= i < s.len() {
            kept_line(trim_ws(s.take(i))) + type_lines(s.skip(i + 1))
        } else {
            Seq::empty()
        },
    }
}

/// The views of some strings.
pub open spec fn string_views(v: Seq<String>) -> Seq<Seq<char>> {
    v.map_values(|x: String| x@)
}

proof fn lemma_first_newline(s: Seq<char>, i: int)
    requires
        0 <= i < s.len(),
        s[i] == '\n',
        forall|j: int| 0 <= j < i ==> s[j] != '\n',
    ensures
        first_index_of(s, '\n') == Some(i),
{
    assert(s.contains('\n'));
    let k = choose|k: int| 0 <= k < s.len() && s[k] == '\n' && forall|j: int| 0 <= j < k ==> s[j] != '\n';
    if k < i {
        assert(s[k] != '\n');
    }
    if k > i {
        assert(s[i] != '\n');
    }
}

proof fn lemma_type_lines_split(rest: Seq<char>, k: int)
    requires
        0 <= k < rest.len(),
        rest[k] == '\n',
        forall|j: int| 0 <= j < k ==> rest[j] != '\n',
    ensures
        type_lines(rest) == kept_line(trim_ws(rest.take(k))) + type_lines(rest.skip(k + 1)),
{
    lemma_first_newline(rest, k);
    reveal(type_lines);
}

proof fn lemma_type_lines_last(rest: Seq<char>)
    requires
        forall|j: int| 0 <= j < rest.len() ==> rest[j] != '\n',
    ensures
        type_lines(rest) == kept_line(trim_ws(rest)),
{
    if rest.contains('\n') {
        let k = choose|k: int| 0 <= k < rest.len() && rest[k] == '\n';
        assert(rest[k] != '\n');
    }
    reveal(type_lines);
}

/// The MIME types that a `wl-paste --list-types` listing names.
pub fn available_types(listing: &str) -> (types: Vec<String>)
    ensures
        string_views(types@) == type_lines(listing@),
{
    let cs = chars_of(listing);
    let ghost s = cs@;
    let mut out: Vec<String> = Vec::new();
    let mut line: Vec<char> = Vec::new();
    let mut start: usize = 0;
    let mut i: usize = 0;
    assert(s.skip(0) =~= s);
    assert(string_views(out@) =~= Seq::empty());
    assert(string_views(out@) + type_lines(s) =~= type_lines(s));
    while i < cs.len()
        invariant
            s == cs@,
            s == listing@,
            start <= i <= s.len(),
            line@ == s.subrange(start as int, i as int),
            forall|j: int| start <= j < i ==> s[j] != '\n',
            type_lines(s) == string_views(out@) + type_lines(s.skip(start as int)),
        decreases s.len() - i,
    {
        if cs[i] == '\n' {
            let t = trim_chars(line.as_slice());
            let ghost rest = s.skip(start as int);
            proof {
                lemma_type_lines_split(rest, i - start);
                assert(rest.take(i - start) =~= line@);
                assert(rest.skip(i - start + 1) =~= s.skip(i + 1));
            }
            let ghost before = out@;
            if t.len() > 0 {
                out.push(string_from_chars(t.as_slice()));
                assert(string_views(out@) =~= string_views(before) + seq![t@]);
            } else {
                assert(string_views(out@) =~= string_views(before) + Seq::empty());
            }
            line = Vec::new();
            start = i + 1;
            assert(line@ =~= s.subrange(start as int, start as int));
        } else {
            line.push(cs[i]);
            assert(line@ =~= s.subrange(start as int, i + 1));
        }
        i += 1;
    }
    let t = trim_chars(line.as_slice());
    proof {
        let rest = s.skip(start as int);
        assert(rest =~= line@);
        lemma_type_lines_last(rest);
    }
    let ghost before = out@;
    if t.len() > 0 {
        out.push(string_from_chars(t.as_slice()));
        assert(string_views(out@) =~= string_views(before) + seq![t@]);
    } else {
        assert(string_views(out@) =~= string_views(before) + Seq::empty());
    }
    out
}

} // verus!
