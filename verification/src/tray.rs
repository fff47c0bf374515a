//! The tray application: its messages and the menu that it shows.

use vstd::prelude::*;
use std::sync::{Arc, Mutex};
use std::sync::mpsc::Sender;
use crate::hosts::{HostConfig, HostView, host_views};
use crate::text::{chars_of, parse_u32, parse_u32_spec, string_from_chars, string_push_str, trim_chars, trim_ws};

verus! {

#[verifier::external_type_specification]
#[verifier::external_body]
#[verifier::reject_recursive_types(T)]
pub struct ExMutex<T: ?Sized>(std::sync::Mutex<T>);

#[verifier::external_type_specification]
#[verifier::external_body]
#[verifier::reject_recursive_types(T)]
pub struct ExSender<T>(std::sync::mpsc::Sender<T>);

/// What a menu entry asks the application to do.
#[derive(Debug, Clone, Copy, PartialEq, Eq, Structural)]
pub enum TrayMessage {
    Connect { index: usize },
    AddHost,
    RemoveHost { index: usize },
    Exit,
}

/// The tray icon's state: the saved hosts it lists, where it sends the
/// user's choices, and the client program that it starts.
pub struct RemoteDesktopTray {
    pub hosts: Arc<Mutex<Vec<HostConfig>>>,
    pub tx: Sender<TrayMessage>,
    pub client_binary: String,
}

impl RemoteDesktopTray {
    /// A tray over the given hosts, sender and client program.
    pub fn new(hosts: Arc<Mutex<Vec<HostConfig>>>, tx: Sender<TrayMessage>, client_binary: String) -> (t: RemoteDesktopTray)
        ensures
            t.hosts == hosts,
            t.tx == tx,
            t.client_binary@ == client_binary@,
    {
        RemoteDesktopTray { hosts, tx, client_binary }
    }
}

/// One clickable menu entry.
pub struct MenuItemModel {
    pub label: String,
    pub icon_name: String,
    pub enabled: bool,
    pub action: Option<TrayMessage>,
}

/// An entry of the tray menu.
pub enum MenuEntry {
    Standard(MenuItemModel),
    Separator,
    SubMenu { label: String, icon_name: String, items: Vec<MenuItemModel> },
}

/// A menu entry with its texts as character sequences.
pub struct MenuItemView {
    pub label: Seq<char>,
    pub icon_name: Seq<char>,
    pub enabled: bool,
    pub action: Option<TrayMessage>,
}

/// A menu entry as its view.
pub enum MenuEntryView {
    Standard(MenuItemView),
    Separator,
    SubMenu { label: Seq<char>, icon_name: Seq<char>, items: Seq<MenuItemView> },
}

impl View for MenuItemModel {
    type V = MenuItemView;

    open spec fn view(&self) -> MenuItemView {
        MenuItemView {
            label: self.label@,
            icon_name: self.icon_name@,
            enabled: self.enabled,
            action: self.action,
        }
    }
}

impl View for MenuEntry {
    type V = MenuEntryView;

    open spec fn view(&self) -> MenuEntryView {
        match self {
            MenuEntry::Standard(i) => MenuEntryView::Standard(i@),
            MenuEntry::Separator => MenuEntryView::Separator,
            MenuEntry::SubMenu { label, icon_name, items } => MenuEntryView::SubMenu {
                label: label@,
                icon_name: icon_name@,
                items: item_views(items@),
            },
        }
    }
}

/// The views of a list of clickable entries.
pub open spec fn item_views(items: Seq<MenuItemModel>) -> Seq<MenuItemView> {
    items.map_values(|m: MenuItemModel| m@)
}

/// A clickable entry.
pub open spec fn item(label: Seq<char>, icon: Seq<char>, enabled: bool, action: Option<TrayMessage>) -> MenuItemView {
    MenuItemView { label, icon_name: icon, enabled, action }
}

/// The entry that connects to host `i`: `name (hostname)`.
pub open spec fn connect_item(h: HostView, i: int) -> MenuItemView {
    item(
        h.name + " ("@ + h.hostname + ")"@,
        "network-server"@,
        true,
        Some(TrayMessage::Connect { index: i as usize }),
    )
}

/// The entry that removes host `i`.
pub open spec fn remove_item(h: HostView, i: int) -> MenuItemView {
    item(h.name, "list-remove"@, true, Some(TrayMessage::RemoveHost { index: i as usize }))
}

/// The tray menu for the saved hosts: one entry per host to connect (or a
/// disabled "No saved hosts"), a separator, "Add Host...", a "Remove Host"
/// submenu when there are hosts, a separator, and "Quit".
pub open spec fn tray_menu(hs: Seq<HostView>) -> Seq<MenuEntryView> {
    let hosts_part = if hs.len() == 0 {
        seq![MenuEntryView::Standard(item("No saved hosts"@, Seq::empty(), false, None))]
    } else {
        Seq::new(hs.len(), |i: int| MenuEntryView::Standard(connect_item(hs[i], i)))
    };
    let add_part = seq![
        MenuEntryView::Separator,
        MenuEntryView::Standard(item("Add Host..."@, "list-add"@, true, Some(TrayMessage::AddHost))),
    ];
    let remove_part = if hs.len() == 0 {
        Seq::empty()
    } else {
        seq![
            MenuEntryView::SubMenu {
                label: "Remove Host"@,
                icon_name: "edit-delete"@,
                items: Seq::new(hs.len(), |i: int| remove_item(hs[i], i)),
            },
        ]
    };
    let quit_part = seq![
        MenuEntryView::Separator,
        MenuEntryView::Standard(item("Quit"@, "application-exit"@, true, Some(TrayMessage::Exit))),
    ];
    hosts_part + add_part + remove_part + quit_part
}

/// Each saved host has its own entry at its own position, labelled with its
/// name and host name, which asks to connect to that very host; its entry in
/// the "Remove Host" submenu asks to remove that very host.
pub proof fn lemma_host_entries_act_on_their_host(hs: Seq<HostView>)
    ensures
        forall|i: int|
            0 <= i < hs.len() ==> (#[trigger] tray_menu(hs)[i] matches MenuEntryView::Standard(it) && {
                &&& it.action == Some(TrayMessage::Connect { index: i as usize })
                &&& it.enabled
                &&& it.label == hs[i].name + " ("@ + hs[i].hostname + ")"@
            }),
        hs.len() > 0 ==> (tray_menu(hs)[hs.len() + 2int] matches MenuEntryView::SubMenu { items, .. } && items.len()
            == hs.len() && forall|i: int|
            0 <= i < hs.len() ==> (#[trigger] items[i]).action == Some(TrayMessage::RemoveHost { index: i as usize })
                && items[i].label == hs[i].name),
{
}

fn text(s: &str) -> (t: String)
    ensures
        t@ == s@,
{
    string_from_chars(chars_of(s).as_slice())
}

fn standard(label: String, icon_name: String, enabled: bool, action: Option<TrayMessage>) -> (e: MenuEntry)
    ensures
        e@ == MenuEntryView::Standard(item(label@, icon_name@, enabled, action)),
{
    MenuEntry::Standard(MenuItemModel { label, icon_name, enabled, action })
}

/// The views of a list of menu entries.
pub open spec fn entry_views(es: Seq<MenuEntry>) -> Seq<MenuEntryView> {
    es.map_values(|e: MenuEntry| e@)
}

/// Builds the tray menu for the saved hosts.
pub fn menu_entries(hosts: &Vec<HostConfig>) -> (menu: Vec<MenuEntry>)
    ensures
        entry_views(menu@) == tray_menu(host_views(hosts@)),
{
    let ghost hs = host_views(hosts@);
    let mut items: Vec<MenuEntry> = Vec::new();
    if hosts.len() == 0 {
        items.push(standard(text("No saved hosts"), String::new(), false, None));
        assert(entry_views(items@) =~= seq![
            MenuEntryView::Standard(item("No saved hosts"@, Seq::empty(), false, None)),
        ]);
    } else {
        let mut i: usize = 0;
        while i < hosts.len()
            invariant
                0 <= i <= hosts@.len(),
                hs == host_views(hosts@),
                items@.len() == i,
                entry_views(items@) == Seq::new(
                    i as nat,
                    |k: int| MenuEntryView::Standard(connect_item(hs[k], k)),
                ),
            decreases hosts@.len() - i,
        {
            assert(hs[i as int] == hosts@[i as int]@);
            let mut label = hosts[i].name.clone();
            string_push_str(&mut label, " (");
            string_push_str(&mut label, hosts[i].hostname.as_str());
            string_push_str(&mut label, ")");
            let ghost before = items@;
            assert(label@ == hs[i as int].name + " ("@ + hs[i as int].hostname + ")"@);
            let icon = text("network-server");
            let e = standard(label, icon, true, Some(TrayMessage::Connect { index: i }));
            assert(e@ == MenuEntryView::Standard(connect_item(hs[i as int], i as int)));
            items.push(e);
            assert(items@[i as int] == e);
            assert forall|k: int| 0 <= k < i + 1 implies #[trigger] entry_views(items@)[k]
                == MenuEntryView::Standard(connect_item(hs[k], k)) by {
                if k < i {
                    assert(items@[k] == before[k]);
                    assert(entry_views(before)[k] == MenuEntryView::Standard(connect_item(hs[k], k)));
                }
            }
            assert(entry_views(items@) =~= Seq::new(
                (i + 1) as nat,
                |k: int| MenuEntryView::Standard(connect_item(hs[k], k)),
            ));
            i = i + 1;
        }
    }
    let ghost first = entry_views(items@);
    items.push(MenuEntry::Separator);
    items.push(standard(text("Add Host..."), text("list-add"), true, Some(TrayMessage::AddHost)));
    let ghost second = entry_views(items@);
    assert(second =~= first + seq![
        MenuEntryView::Separator,
        MenuEntryView::Standard(item("Add Host..."@, "list-add"@, true, Some(TrayMessage::AddHost))),
    ]);
    if hosts.len() > 0 {
        let mut sub: Vec<MenuItemModel> = Vec::new();
        let mut i: usize = 0;
        while i < hosts.len()
            invariant
                0 <= i <= hosts@.len(),
                hs == host_views(hosts@),
                sub@.len() == i,
                item_views(sub@) == Seq::new(
                    i as nat,
                    |k: int| remove_item(hs[k], k),
                ),
            decreases hosts@.len() - i,
        {
            assert(hs[i as int] == hosts@[i as int]@);
            let ghost before = sub@;
            sub.push(
                MenuItemModel {
                    label: hosts[i].name.clone(),
                    icon_name: text("list-remove"),
                    enabled: true,
                    action: Some(TrayMessage::RemoveHost { index: i }),
                },
            );
            assert forall|k: int| 0 <= k < i + 1 implies #[trigger] item_views(sub@)[k] == remove_item(hs[k], k) by {
                if k < i {
                    assert(sub@[k] == before[k]);
                    assert(item_views(before)[k] == remove_item(hs[k], k));
                }
            }
            assert(item_views(sub@) =~= Seq::new(
                (i + 1) as nat,
                |k: int| remove_item(hs[k], k),
            ));
            i = i + 1;
        }
        items.push(
            MenuEntry::SubMenu { label: text("Remove Host"), icon_name: text("edit-delete"), items: sub },
        );
    }
    let ghost third = entry_views(items@);
    items.push(MenuEntry::Separator);
    items.push(standard(text("Quit"), text("application-exit"), true, Some(TrayMessage::Exit)));
    proof {
        let quit_part = seq![
            MenuEntryView::Separator,
            MenuEntryView::Standard(item("Quit"@, "application-exit"@, true, Some(TrayMessage::Exit))),
        ];
        assert(entry_views(items@) =~= third + quit_part);
        assert(entry_views(items@) =~= tray_menu(hs));
    }
    items
}

/// What the tray's event loop does for a message.
#[derive(Debug)]
pub enum TrayAction {
    /// Start the client for the saved host at this position.
    Connect(HostConfig),
    /// Ask the user for a new host.
    AskNewHost,
    /// Forget the saved host at this position, which has this name.
    Remove(usize, String),
    /// A position that names no saved host: nothing is done.
    Ignore,
    /// Leave the loop.
    Exit,
}

/// Decides what the event loop does for a message, given the saved hosts.
pub fn tray_action(hosts: &Vec<HostConfig>, msg: TrayMessage) -> (a: TrayAction)
    ensures
        match msg {
            TrayMessage::Connect { index } => if index < hosts@.len() {
                a matches TrayAction::Connect(h) && h@ == hosts@[index as int]@
            } else {
                a is Ignore
            },
            TrayMessage::AddHost => a is AskNewHost,
            TrayMessage::RemoveHost { index } => if index < hosts@.len() {
                a matches TrayAction::Remove(i, n) && i == index && n@ == hosts@[index as int].name@
            } else {
                a is Ignore
            },
            TrayMessage::Exit => a is Exit,
        },
{
    match msg {
        TrayMessage::Connect { index } => {
            if index < hosts.len() {
                TrayAction::Connect(hosts[index].clone())
            } else {
                TrayAction::Ignore
            }
        },
        TrayMessage::AddHost => TrayAction::AskNewHost,
        TrayMessage::RemoveHost { index } => {
            if index < hosts.len() {
                TrayAction::Remove(index, hosts[index].name.clone())
            } else {
                TrayAction::Ignore
            }
        },
        TrayMessage::Exit => TrayAction::Exit,
    }
}

/// An answer typed into the add-host dialog: trimmed; an empty one cancels.
pub fn dialog_entry(output: &str) -> (r: Option<String>)
    ensures
        trim_ws(output@).len() == 0 ==> r is None,
        trim_ws(output@).len() > 0 ==> (r matches Some(t) && t@ == trim_ws(output@)),
{
    let cs = chars_of(output);
    let t = trim_chars(cs.as_slice());
    if t.len() == 0 {
        return None;
    }
    Some(string_from_chars(t.as_slice()))
}

/// A port typed into the add-host dialog: the trimmed answer as a decimal
/// `u16`, or none when it is not one.
pub fn dialog_port(output: &str) -> (r: Option<u16>)
    ensures
        r == (match parse_u32_spec(trim_ws(output@)) {
            Some(v) => if v <= u16::MAX { Some(v as u16) } else { None },
            None => None,
        }),
{
    let cs = chars_of(output);
    let t = trim_chars(cs.as_slice());
    match parse_u32(t.as_slice()) {
        Some(v) => if v <= 65535 { Some(v as u16) } else { None },
        None => None,
    }
}

} // verus!
