//! The dedicated headless Wayland session: what describes it, the
//! environment that puts a program inside it, and the names that the
//! compositor gives its sockets and outputs.

use vstd::prelude::*;
use crate::status::{runtime_dir_or_tmp, runtime_file_path};
use crate::text::{joined_path, chars_of, decimal, has_prefix, push_decimal, starts_with, string_from_chars, string_push_str};

verus! {

/// A running headless session.
#[derive(Debug)]
pub struct HeadlessSessionInfo {
    pub compositor: String,
    pub runtime_dir: String,
    pub wayland_display: String,
    pub sway_socket: String,
    pub output_name: String,
    pub width: u32,
    pub height: u32,
    pub refresh_rate: u32,
}

impl Clone for HeadlessSessionInfo {
    fn clone(&self) -> (c: HeadlessSessionInfo)
        ensures
            c.compositor@ == self.compositor@,
            c.runtime_dir@ == self.runtime_dir@,
            c.wayland_display@ == self.wayland_display@,
            c.sway_socket@ == self.sway_socket@,
            c.output_name@ == self.output_name@,
            c.width == self.width,
            c.height == self.height,
            c.refresh_rate == self.refresh_rate,
    {
        HeadlessSessionInfo {
            compositor: self.compositor.clone(),
            runtime_dir: self.runtime_dir.clone(),
            wayland_display: self.wayland_display.clone(),
            sway_socket: self.sway_socket.clone(),
            output_name: self.output_name.clone(),
            width: self.width,
            height: self.height,
            refresh_rate: self.refresh_rate,
        }
    }
}

/// The environment variables that put a program inside the session (the
/// variable `DISPLAY` is removed besides).
pub open spec fn session_environment(s: HeadlessSessionInfo) -> Seq<(Seq<char>, Seq<char>)> {
    seq![
        ("XDG_RUNTIME_DIR"@, s.runtime_dir@),
        ("WAYLAND_DISPLAY"@, s.wayland_display@),
        ("SWAYSOCK"@, s.sway_socket@),
        ("XDG_SESSION_TYPE"@, "wayland"@),
        ("XDG_CURRENT_DESKTOP"@, "sway"@),
        ("GDK_BACKEND"@, "wayland"@),
        ("QT_QPA_PLATFORM"@, "wayland"@),
    ]
}

/// The views of a list of name and value pairs.
pub open spec fn pair_views(v: Seq<(String, String)>) -> Seq<(Seq<char>, Seq<char>)> {
    v.map_values(|p: (String, String)| (p.0@, p.1@))
}

fn text(s: &str) -> (t: String)
    ensures
        t@ == s@,
{
    string_from_chars(chars_of(s).as_slice())
}

impl HeadlessSessionInfo {
    /// The environment variables to set for a program started inside the
    /// session.
    pub fn command_environment(&self) -> (env: Vec<(String, String)>)
        ensures
            pair_views(env@) == session_environment(*self),
    {
        let mut env: Vec<(String, String)> = Vec::new();
        env.push((text("XDG_RUNTIME_DIR"), self.runtime_dir.clone()));
        env.push((text("WAYLAND_DISPLAY"), self.wayland_display.clone()));
        env.push((text("SWAYSOCK"), self.sway_socket.clone()));
        env.push((text("XDG_SESSION_TYPE"), text("wayland")));
        env.push((text("XDG_CURRENT_DESKTOP"), text("sway")));
        env.push((text("GDK_BACKEND"), text("wayland")));
        env.push((text("QT_QPA_PLATFORM"), text("wayland")));
        assert(pair_views(env@) =~= session_environment(*self));
        env
    }
}

/// The path of the compositor's IPC socket.
pub open spec fn sway_socket_text(runtime_dir: Seq<char>, uid: u32, pid: u32) -> Seq<char> {
    runtime_dir + "/sway-ipc."@ + decimal(uid as nat) + "."@ + decimal(pid as nat) + ".sock"@
}

/// The path of the IPC socket of the compositor that `uid` runs as process
/// `pid`, in `runtime_dir`.
pub fn sway_socket_path(runtime_dir: &str, uid: u32, pid: u32) -> (p: String)
    ensures
        p@ == sway_socket_text(runtime_dir@, uid, pid),
{
    let mut p = text(runtime_dir);
    string_push_str(&mut p, "/sway-ipc.");
    push_decimal(&mut p, uid as u64);
    string_push_str(&mut p, ".");
    push_decimal(&mut p, pid as u64);
    string_push_str(&mut p, ".sock");
    p
}

/// The output mode text `WIDTHxHEIGHT@RATEHz`.
pub open spec fn output_mode_text(w: u32, h: u32, r: u32) -> Seq<char> {
    decimal(w as nat) + "x"@ + decimal(h as nat) + "@"@ + decimal(r as nat) + "Hz"@
}

/// The mode to set on the headless output.
pub fn output_mode(width: u32, height: u32, refresh_rate: u32) -> (m: String)
    ensures
        m@ == output_mode_text(width, height, refresh_rate),
{
    let mut m = String::new();
    push_decimal(&mut m, width as u64);
    string_push_str(&mut m, "x");
    push_decimal(&mut m, height as u64);
    string_push_str(&mut m, "@");
    push_decimal(&mut m, refresh_rate as u64);
    string_push_str(&mut m, "Hz");
    m
}

/// Whether a runtime directory entry is a Wayland socket (`wayland-*`).
pub fn is_wayland_socket_name(name: &str) -> (r: bool)
    ensures
        r == has_prefix(name@, "wayland-"@),
{
    starts_with(name, "wayland-")
}

/// Whether an output name is that of a headless output (`HEADLESS-*`).
pub fn is_headless_output_name(name: &str) -> (r: bool)
    ensures
        r == has_prefix(name@, "HEADLESS-"@),
{
    starts_with(name, "HEADLESS-")
}

/// The views of a list of strings.
pub open spec fn string_views(v: Seq<String>) -> Seq<Seq<char>> {
    v.map_values(|s: String| s@)
}

/// The first socket in `current` that was not in `before`: the one that a
/// newly started compositor created.
pub fn new_wayland_socket(before: &Vec<String>, current: &Vec<String>) -> (r: Option<String>)
    ensures
        match r {
            Some(s) => exists|k: int|
                0 <= k < current@.len() && s@ == current@[k]@ && !string_views(before@).contains(
                    current@[k]@,
                ) && forall|j: int|
                    0 <= j < k ==> string_views(before@).contains(#[trigger] current@[j]@),
            None => forall|k: int|
                0 <= k < current@.len() ==> string_views(before@).contains(#[trigger] current@[k]@),
        },
{
    let mut i: usize = 0;
    while i < current.len()
        invariant
            0 <= i <= current@.len(),
            forall|j: int| 0 <= j < i ==> string_views(before@).contains(#[trigger] current@[j]@),
        decreases current@.len() - i,
    {
        let mut found = false;
        let mut j: usize = 0;
        while j < before.len()
            invariant
                0 <= j <= before@.len(),
                i < current@.len(),
                found == exists|m: int| 0 <= m < j && before@[m]@ == current@[i as int]@,
            decreases before@.len() - j,
        {
            if before[j] == current[i] {
                found = true;
            }
            j = j + 1;
        }
        if !found {
            proof {
                if string_views(before@).contains(current@[i as int]@) {
                    let m = choose|m: int|
                        0 <= m < string_views(before@).len() && string_views(before@)[m]
                            == current@[i as int]@;
                    assert(before@[m]@ == current@[i as int]@);
                }
            }
            return Some(current[i].clone());
        }
        proof {
            let m = choose|m: int| 0 <= m < j && before@[m]@ == current@[i as int]@;
            assert(string_views(before@)[m] == current@[i as int]@);
        }
        i = i + 1;
    }
    None
}

/// The first output whose name marks it headless.
pub fn first_headless_output(names: &Vec<String>) -> (r: Option<String>)
    ensures
        match r {
            Some(s) => exists|k: int|
                0 <= k < names@.len() && s@ == names@[k]@ && has_prefix(names@[k]@, "HEADLESS-"@)
                    && forall|j: int|
                    0 <= j < k ==> !has_prefix(#[trigger] names@[j]@, "HEADLESS-"@),
            None => forall|k: int|
                0 <= k < names@.len() ==> !has_prefix(#[trigger] names@[k]@, "HEADLESS-"@),
        },
{
    let mut i: usize = 0;
    while i < names.len()
        invariant
            0 <= i <= names@.len(),
            forall|j: int| 0 <= j < i ==> !has_prefix(#[trigger] names@[j]@, "HEADLESS-"@),
        decreases names@.len() - i,
    {
        if is_headless_output_name(names[i].as_str()) {
            return Some(names[i].clone());
        }
        i = i + 1;
    }
    None
}

/// The message for a launch request without a command.
pub open spec fn no_command_text() -> Seq<char> {
    "No command provided to launch"@
}

/// Checks a command line to launch inside the session: it must name a
/// program. The program and its arguments come back.
pub fn split_launch_command(command: &Vec<String>) -> (r: Result<(String, Vec<String>), String>)
    ensures
        command@.len() == 0 ==> (r matches Err(m) && m@ == no_command_text()),
        command@.len() > 0 ==> (r matches Ok((p, args)) && p@ == command@[0]@ && string_views(
            args@,
        ) == string_views(command@).skip(1)),
{
    if command.len() == 0 {
        return Err(text("No command provided to launch"));
    }
    let program = command[0].clone();
    let mut args: Vec<String> = Vec::new();
    let mut i: usize = 1;
    while i < command.len()
        invariant
            1 <= i <= command@.len(),
            args@.len() == i - 1,
            string_views(args@) == string_views(command@).subrange(1, i as int),
        decreases command@.len() - i,
    {
        let ghost before = args@;
        args.push(command[i].clone());
        assert forall|k: int| 0 <= k < i implies #[trigger] string_views(args@)[k] == string_views(
            command@,
        ).subrange(1, i + 1)[k] by {
            if k < i - 1 {
                assert(args@[k] == before[k]);
                assert(string_views(before)[k] == string_views(command@).subrange(1, i as int)[k]);
            }
        }
        assert(string_views(args@) =~= string_views(command@).subrange(1, i + 1));
        i = i + 1;
    }
    assert(string_views(command@).subrange(1, command@.len() as int) =~= string_views(command@).skip(1));
    Ok((program, args))
}

/// The file that describes the running session to other commands.
pub open spec fn session_metadata_name() -> Seq<char> {
    "remote-desktop-headless-session.json"@
}

/// The path of the session description in the runtime directory (`/tmp`
/// when none is set).
pub fn session_metadata_path(runtime_dir: Option<&str>) -> (p: String)
    ensures
        p@ == joined_path(
            runtime_dir_or_tmp(
                match runtime_dir {
                    Some(d) => Some(d@),
                    None => None,
                },
            ),
            session_metadata_name(),
        ),
{
    runtime_file_path(runtime_dir, "remote-desktop-headless-session.json")
}

} // verus!
