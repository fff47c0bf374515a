//! Saved remote hosts of the tray application.

use vstd::prelude::*;
use crate::text::{join_path, joined_path, chars_of, push_decimal, decimal, string_from_chars, string_push_str};

verus! {

/// The port that the server listens on unless told otherwise.
pub fn default_port() -> (port: u16)
    ensures
        port == 3389,
{
    3389
}

/// A saved host.
#[derive(Debug)]
pub struct HostConfig {
    pub name: String,
    pub hostname: String,
    pub port: u16,
}

/// A saved host with its texts as character sequences.
pub struct HostView {
    pub name: Seq<char>,
    pub hostname: Seq<char>,
    pub port: u16,
}

impl View for HostConfig {
    type V = HostView;

    open spec fn view(&self) -> HostView {
        HostView { name: self.name@, hostname: self.hostname@, port: self.port }
    }
}

impl Clone for HostConfig {
    fn clone(&self) -> (h: HostConfig)
        ensures
            h@ == self@,
    {
        HostConfig { name: self.name.clone(), hostname: self.hostname.clone(), port: self.port }
    }
}

/// The address that the client connects to for a host: the bare host name on
/// the default port, else `hostname:port`.
pub open spec fn address_text(h: HostView) -> Seq<char> {
    if h.port == 3389 {
        h.hostname
    } else {
        h.hostname + ":"@ + decimal(h.port as nat)
    }
}

impl HostConfig {
    /// A saved host; without a port, the default port 3389.
    pub fn new(name: String, hostname: String, port: Option<u16>) -> (h: HostConfig)
        ensures
            h.name@ == name@,
            h.hostname@ == hostname@,
            h.port == (match port {
                Some(p) => p,
                None => 3389,
            }),
    {
        let port = match port {
            Some(p) => p,
            None => default_port(),
        };
        HostConfig { name, hostname, port }
    }

    /// The address to connect to.
    pub fn address(&self) -> (a: String)
        ensures
            a@ == address_text(self@),
    {
        if self.port == 3389 {
            self.hostname.clone()
        } else {
            let mut a = self.hostname.clone();
            string_push_str(&mut a, ":");
            push_decimal(&mut a, self.port as u64);
            a
        }
    }
}

/// The views of a list of hosts.
pub open spec fn host_views(hs: Seq<HostConfig>) -> Seq<HostView> {
    hs.map_values(|h: HostConfig| h@)
}

/// Some host in the list has this name.
pub open spec fn has_host_named(hs: Seq<HostView>, name: Seq<char>) -> bool {
    exists|i: int| 0 <= i < hs.len() && (#[trigger] hs[i]).name == name
}

/// No two hosts in the list share a name.
pub open spec fn names_distinct(hs: Seq<HostView>) -> bool {
    forall|i: int, j: int| 0 <= i < j < hs.len() ==> (#[trigger] hs[i]).name != (#[trigger] hs[j]).name
}

/// The hosts after saving `h`: unchanged if a host of that name is saved,
/// else `h` added at the end.
pub open spec fn with_host(hs: Seq<HostView>, h: HostView) -> Seq<HostView> {
    if has_host_named(hs, h.name) {
        hs
    } else {
        hs.push(h)
    }
}

/// The hosts after removing every host named `name`.
pub open spec fn without_host(hs: Seq<HostView>, name: Seq<char>) -> Seq<HostView> {
    hs.filter(|h: HostView| h.name != name)
}

/// The saved hosts.
#[derive(Debug)]
pub struct HostsConfig {
    pub hosts: Vec<HostConfig>,
}

impl HostsConfig {
    /// No saved hosts.
    pub fn new() -> (c: HostsConfig)
        ensures
            c.hosts@.len() == 0,
    {
        HostsConfig { hosts: Vec::new() }
    }

    /// Whether a host of this name is saved.
    pub fn contains_name(&self, name: &String) -> (r: bool)
        ensures
            r == has_host_named(host_views(self.hosts@), name@),
    {
        let mut i: usize = 0;
        while i < self.hosts.len()
            invariant
                0 <= i <= self.hosts@.len(),
                forall|j: int| 0 <= j < i ==> (#[trigger] self.hosts@[j]).name@ != name@,
            decreases self.hosts@.len() - i,
        {
            if self.hosts[i].name == *name {
                assert(host_views(self.hosts@)[i as int].name == name@);
                return true;
            }
            i = i + 1;
        }
        proof {
            assert forall|j: int| 0 <= j < host_views(self.hosts@).len() implies (#[trigger] host_views(
                self.hosts@,
            )[j]).name != name@ by {
                assert(host_views(self.hosts@)[j] == self.hosts@[j]@);
            }
        }
        false
    }

    /// Saves a host, unless a host of the same name is saved already (then
    /// nothing changes).
    pub fn add_host(&mut self, host: HostConfig)
        ensures
            host_views(final(self).hosts@) == with_host(host_views(old(self).hosts@), host@),
    {
        if self.contains_name(&host.name) {
            return;
        }
        let ghost before = self.hosts@;
        self.hosts.push(host);
        assert(host_views(self.hosts@) =~= host_views(before).push(host@));
    }

    /// Removes every host of this name; tells whether there was one. The other
    /// hosts stay, in their order.
    pub fn remove_host(&mut self, name: &str) -> (removed: bool)
        ensures
            host_views(final(self).hosts@) == without_host(host_views(old(self).hosts@), name@),
            removed == has_host_named(host_views(old(self).hosts@), name@),
    {
        let target = string_from_chars(chars_of(name).as_slice());
        let initial_len = self.hosts.len();
        let mut old_hosts: Vec<HostConfig> = Vec::new();
        core::mem::swap(&mut old_hosts, &mut self.hosts);
        let ghost all = host_views(old_hosts@);
        let ghost pred = |h: HostView| h.name != name@;
        assert(without_host(all, name@) == all.filter(pred));
        let mut kept: Vec<HostConfig> = Vec::new();
        let mut i: usize = 0;
        assert(all.take(0) =~= Seq::<HostView>::empty());
        while i < old_hosts.len()
            invariant
                0 <= i <= old_hosts@.len(),
                all == host_views(old_hosts@),
                target@ == name@,
                pred == (|h: HostView| h.name != name@),
                host_views(kept@) == all.take(i as int).filter(pred),
            decreases old_hosts@.len() - i,
        {
            proof {
                reveal(Seq::filter);
            }
            assert(all.take(i + 1).drop_last() =~= all.take(i as int));
            assert(all.take(i + 1).last() == old_hosts@[i as int]@);
            if !(old_hosts[i].name == target) {
                let ghost before = kept@;
                kept.push(old_hosts[i].clone());
                assert(pred(all[i as int]));
                assert(all.take(i + 1).filter(pred) == all.take(i as int).filter(pred).push(all[i as int]));
                assert(host_views(kept@) =~= host_views(before).push(old_hosts@[i as int]@));
            } else {
                assert(!pred(all[i as int]));
                assert(all.take(i + 1).filter(pred) == all.take(i as int).filter(pred));
            }
            i = i + 1;
        }
        assert(all.take(old_hosts@.len() as int) =~= all);
        self.hosts = kept;
        proof {
            if has_host_named(all, name@) {
                let k = choose|k: int| 0 <= k < all.len() && (#[trigger] all[k]).name == name@;
                if all.filter(pred).len() == all.len() {
                    lemma_filter_full(all, pred);
                    assert(!pred(all[k]));
                }
            } else {
                assert forall|k: int| 0 <= k < all.len() implies pred(#[trigger] all[k]) by {}
                lemma_filter_all(all, pred);
            }
        }
        self.hosts.len() != initial_len
    }
}

proof fn lemma_filter_all(s: Seq<HostView>, pred: spec_fn(HostView) -> bool)
    requires
        forall|k: int| 0 <= k < s.len() ==> pred(#[trigger] s[k]),
    ensures
        s.filter(pred) == s,
    decreases s.len(),
{
    reveal(Seq::filter);
    if s.len() > 0 {
        lemma_filter_all(s.drop_last(), pred);
        assert(s.drop_last().push(s.last()) =~= s);
    }
}

proof fn lemma_filter_len_le(s: Seq<HostView>, pred: spec_fn(HostView) -> bool)
    ensures
        s.filter(pred).len() <= s.len(),
    decreases s.len(),
{
    reveal(Seq::filter);
    if s.len() > 0 {
        lemma_filter_len_le(s.drop_last(), pred);
    }
}

proof fn lemma_filter_full(s: Seq<HostView>, pred: spec_fn(HostView) -> bool)
    requires
        s.filter(pred).len() == s.len(),
    ensures
        forall|k: int| 0 <= k < s.len() ==> pred(#[trigger] s[k]),
    decreases s.len(),
{
    reveal(Seq::filter);
    if s.len() > 0 {
        lemma_filter_len_le(s.drop_last(), pred);
        if !pred(s.last()) {
            assert(s.filter(pred).len() <= s.drop_last().len());
        }
        lemma_filter_full(s.drop_last(), pred);
        assert forall|k: int| 0 <= k < s.len() implies pred(#[trigger] s[k]) by {
            if k < s.len() - 1 {
                assert(s[k] == s.drop_last()[k]);
            }
        }
    }
}

/// Saving a host leaves a host of its name saved.
pub proof fn lemma_add_saves_name(hs: Seq<HostView>, h: HostView)
    ensures
        has_host_named(with_host(hs, h), h.name),
{
    if !has_host_named(hs, h.name) {
        assert(with_host(hs, h)[hs.len() as int] == h);
    }
}

/// Saving a host keeps the saved names distinct.
pub proof fn lemma_add_keeps_names_distinct(hs: Seq<HostView>, h: HostView)
    requires
        names_distinct(hs),
    ensures
        names_distinct(with_host(hs, h)),
{
    if !has_host_named(hs, h.name) {
        let r = hs.push(h);
        assert forall|i: int, j: int| 0 <= i < j < r.len() implies (#[trigger] r[i]).name
            != (#[trigger] r[j]).name by {
            if j == hs.len() {
                assert(r[i] == hs[i]);
            } else {
                assert(r[i] == hs[i] && r[j] == hs[j]);
            }
        }
    }
}

/// Saving the same host twice saves it once.
pub proof fn lemma_add_idempotent(hs: Seq<HostView>, h: HostView)
    ensures
        with_host(with_host(hs, h), h) == with_host(hs, h),
{
    lemma_add_saves_name(hs, h);
}

/// After removing a name, no host of that name is saved.
pub proof fn lemma_remove_deletes_name(hs: Seq<HostView>, name: Seq<char>)
    ensures
        !has_host_named(without_host(hs, name), name),
{
    broadcast use vstd::seq_lib::group_filter_ensures;

    let r = without_host(hs, name);
    assert forall|i: int| 0 <= i < r.len() implies (#[trigger] r[i]).name != name by {}
}

/// Removing the name of a host just saved under a new name gives back the
/// hosts as they were.
pub proof fn lemma_remove_undoes_add(hs: Seq<HostView>, h: HostView)
    requires
        !has_host_named(hs, h.name),
    ensures
        without_host(with_host(hs, h), h.name) == hs,
{
    reveal(Seq::filter);
    let pred = |x: HostView| x.name != h.name;
    assert(hs.push(h).drop_last() =~= hs);
    assert forall|k: int| 0 <= k < hs.len() implies pred(#[trigger] hs[k]) by {}
    lemma_filter_all(hs, pred);
}

/// The address of a host on the default port is its bare host name.
pub proof fn lemma_default_port_address(h: HostView)
    requires
        h.port == 3389,
    ensures
        address_text(h) == h.hostname,
{
}

/// Where the saved hosts are kept: `remote-desktop/hosts.toml` in the
/// configuration directory (`~/.config` when there is none).
pub open spec fn config_path_text(config_dir: Option<Seq<char>>) -> Seq<char> {
    let base = match config_dir {
        Some(d) => d,
        None => "~/.config"@,
    };
    joined_path(joined_path(base, "remote-desktop"@), "hosts.toml"@)
}

/// The path of the saved hosts file.
pub fn config_path(config_dir: Option<&str>) -> (p: String)
    ensures
        p@ == config_path_text(match config_dir {
            Some(d) => Some(d@),
            None => None,
        }),
{
    let base: &str = match config_dir {
        Some(d) => d,
        None => "~/.config",
    };
    let dir = join_path(base, "remote-desktop");
    join_path(dir.as_str(), "hosts.toml")
}

} // verus!
