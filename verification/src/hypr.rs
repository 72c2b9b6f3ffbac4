//! Hyprland's command socket: where it lives, and what goes over it.
use vstd::prelude::*;
use crate::json::{keys_view, str_at, text_or, JsonValue};
use crate::text::{join4, strings_view};

verus! {

/// The request for the focused window, as JSON.
pub const ACTIVE_WINDOW: &'static str = "j/activewindow";

/// The request for all client windows, as JSON.
pub const CLIENTS: &'static str = "j/clients";

/// The request for the focused workspace, as JSON.
pub const ACTIVE_WORKSPACE: &'static str = "j/activeworkspace";

/// The path of Hyprland's command socket for a runtime directory and an instance signature.
pub open spec fn socket_path(xdg_runtime_dir: Seq<char>, instance_signature: Seq<char>) -> Seq<char> {
    xdg_runtime_dir + "/hypr/"@ + instance_signature + "/.socket.sock"@
}

/// The commands joined by `;`.
pub open spec fn joined(commands: Seq<Seq<char>>) -> Seq<char>
    decreases commands.len(),
{
    if commands.len() == 0 {
        seq![]
    } else if commands.len() == 1 {
        commands[0]
    } else {
        joined(commands.drop_last()) + ";"@ + commands.last()
    }
}

/// What one silent send writes to the socket: a single command as it is, several
/// commands as one `[[BATCH]]` of them joined by `;`, and nothing for no command.
pub open spec fn silent_payload(commands: Seq<Seq<char>>) -> Seq<char> {
    if commands.len() > 1 {
        "[[BATCH]]"@ + joined(commands)
    } else if commands.len() == 1 {
        commands[0]
    } else {
        seq![]
    }
}

/// The address of the window that `doc` describes, `doc["address"]`, or a placeholder.
pub open spec fn window_address(doc: JsonValue) -> Seq<char> {
    text_or(str_at(doc, seq!["address"@]), "Unknown address"@)
}

/// The class of the window that `doc` describes, `doc["class"]`, or a placeholder.
pub open spec fn window_class(doc: JsonValue) -> Seq<char> {
    text_or(str_at(doc, seq!["class"@]), "Unknown class"@)
}

/// The name of the workspace of the window that `doc` describes,
/// `doc["workspace"]["name"]`, or a placeholder.
pub open spec fn workspace_name(doc: JsonValue) -> Seq<char> {
    text_or(str_at(doc, seq!["workspace"@, "name"@]), "Unknown workspace name"@)
}

/// The address of the window that `doc` describes, or a placeholder.
pub fn address_of(doc: &JsonValue) -> (res: String)
    ensures
        res@ == window_address(*doc),
{
    let path = ["address"];
    assert(keys_view(path@) =~= seq!["address"@]);
    doc.str_at_or(&path, "Unknown address")
}

/// The class of the window that `doc` describes, or a placeholder.
pub fn class_of(doc: &JsonValue) -> (res: String)
    ensures
        res@ == window_class(*doc),
{
    let path = ["class"];
    assert(keys_view(path@) =~= seq!["class"@]);
    doc.str_at_or(&path, "Unknown class")
}

/// The workspace name of the window that `doc` describes, or a placeholder.
pub fn workspace_name_of(doc: &JsonValue) -> (res: String)
    ensures
        res@ == workspace_name(*doc),
{
    let path = ["workspace", "name"];
    assert(keys_view(path@) =~= seq!["workspace"@, "name"@]);
    doc.str_at_or(&path, "Unknown workspace name")
}

/// A client of Hyprland's command socket.
pub struct Hyprsocket {
    command_socket_path: String,
}

impl Hyprsocket {
    /// The path of the command socket.
    pub closed spec fn spec_path(&self) -> Seq<char> {
        self.command_socket_path@
    }

    /// The client of the Hyprland instance with this runtime directory and signature
    /// (the values of `XDG_RUNTIME_DIR` and `HYPRLAND_INSTANCE_SIGNATURE`).
    pub fn new(xdg_runtime_dir: &str, hyprland_instance_signature: &str) -> (res: Hyprsocket)
        ensures
            res.spec_path() == socket_path(xdg_runtime_dir@, hyprland_instance_signature@),
    {
        Hyprsocket {
            command_socket_path: join4(
                xdg_runtime_dir,
                "/hypr/",
                hyprland_instance_signature,
                "/.socket.sock",
            ),
        }
    }

    /// The path of the command socket.
    pub fn command_socket_path(&self) -> (res: &str)
        ensures
            res@ == self.spec_path(),
    {
        self.command_socket_path.as_str()
    }

    /// What `sends_silent` writes for `commands`; empty when nothing is to be written.
    pub fn silent_payload(commands: &[String]) -> (res: String)
        ensures
            res@ == silent_payload(strings_view(commands@)),
    {
        let ghost cs = strings_view(commands@);
        if commands.len() > 1 {
            let mut body = commands[0].clone();
            let mut i: usize = 1;
            assert(cs.take(1).drop_last() =~= Seq::<Seq<char>>::empty());
            while i < commands.len()
                invariant
                    1 <= i <= commands.len(),
                    cs == strings_view(commands@),
                    body@ == joined(cs.take(i as int)),
                decreases commands.len() - i,
            {
                assert(cs.take(i + 1).drop_last() =~= cs.take(i as int));
                body.append(";");
                body.append(commands[i].as_str());
                i = i + 1;
            }
            assert(cs.take(commands.len() as int) =~= cs);
            let mut res = String::from_str("[[BATCH]]");
            res.append(body.as_str());
            res
        } else if commands.len() == 1 {
            commands[0].clone()
        } else {
            String::new()
        }
    }
}

} // verus!
