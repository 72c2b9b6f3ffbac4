//! Properties of the handlers that span several calls or all inputs.
use vstd::prelude::*;
use crate::command::{command_named, Command};
use crate::events::close_window::close_plan;
use crate::events::eww_open::eww_update_args;
use crate::events::move_focus::focus_plan;
use crate::events::move_sublime_text::{is_sublime, sublime_action, sublime_workspace};
use crate::events::switch_master_side::switch_commands;
use crate::events::toggle_scratch::{toggle_plan, SCRATCHPAD};
use crate::helper::{in_inbox, inbox_records, RecordView};
use crate::hypr::{silent_payload, window_address, window_class, workspace_name};
use crate::json::{i64_at, str_at, JsonValue};
use crate::session::ActionView;
use crate::text::{decimal, is_space, words};

verus! {

/// A window sent to the scratchpad from workspace `W` and toggled again while on
/// the scratchpad goes back to `W`, and the record of the scratchpad is as it was,
/// except that it no longer holds the window.
pub proof fn scratchpad_round_trip(from: Map<Seq<char>, Seq<char>>, away: JsonValue, back: JsonValue)
    requires
        window_address(away) == window_address(back),
        workspace_name(away) != SCRATCHPAD@,
        workspace_name(back) == SCRATCHPAD@,
    ensures
        ({
            let first = toggle_plan(from, away);
            let second = toggle_plan(first.0, back);
            &&& second.1 == seq!["dispatch movetoworkspace "@ + workspace_name(away)]
            &&& second.0 == from.remove(window_address(away))
            &&& !from.contains_key(window_address(away)) ==> second.0 == from
        }),
{
    let first = toggle_plan(from, away);
    assert(first.0 == from.insert(window_address(away), workspace_name(away)));
    assert(first.0.remove(window_address(away)) =~= from.remove(window_address(away)));
    if !from.contains_key(window_address(away)) {
        assert(from.remove(window_address(away)) =~= from);
    }
}

/// Toggling a window that is on the scratchpad but was not sent there by the handler
/// sends nothing, answers `key does not exist` and leaves the record as it was.
pub proof fn unknown_scratchpad_window(from: Map<Seq<char>, Seq<char>>, doc: JsonValue)
    requires
        workspace_name(doc) == SCRATCHPAD@,
        !from.contains_key(window_address(doc)),
    ensures
        toggle_plan(from, doc) == (from, Seq::<Seq<char>>::empty(), "key does not exist"@),
{
}

/// Toggling a window that is not on the scratchpad records where it came from.
pub proof fn scratchpad_records_origin(from: Map<Seq<char>, Seq<char>>, doc: JsonValue)
    requires
        workspace_name(doc) != SCRATCHPAD@,
    ensures
        toggle_plan(from, doc).0.contains_key(window_address(doc)),
        toggle_plan(from, doc).0[window_address(doc)] == workspace_name(doc),
{
}

/// Switching the master side ends with the focus on the window that had it, and
/// swaps twice in the same direction.
pub proof fn switch_keeps_focus(current: Seq<char>, master: Seq<char>, left_of_master: Seq<char>)
    ensures
        ({
            let commands = switch_commands(current, master, left_of_master);
            &&& commands.last() == "dispatch focuswindow address:"@ + current
            &&& commands[commands.len() - 5] == commands[commands.len() - 4]
            &&& commands[commands.len() - 2] == "dispatch layoutmsg swapwithmaster"@
        }),
{
}

/// Where no client is a Sublime Text window, none is found, so the editor is started.
pub proof fn no_sublime_window(clients: Seq<JsonValue>)
    requires
        forall|i: int| 0 <= i < clients.len() ==> !is_sublime(#[trigger] clients[i]),
    ensures
        sublime_workspace(clients) is None,
    decreases clients.len(),
{
    if clients.len() > 0 {
        assert(!is_sublime(clients[clients.len() - 1]));
        no_sublime_window(clients.drop_last());
    }
}

/// A text that ends in a character other than whitespace has a word.
proof fn words_of_unspaced_end(t: Seq<char>)
    requires
        t.len() > 0,
        !is_space(t.last()),
    ensures
        words(t).len() > 0,
    decreases t.len(),
{
    if t.len() > 1 && !is_space(t[t.len() - 2]) {
        let u = t.drop_last();
        assert(u.last() == t[t.len() - 2]);
        words_of_unspaced_end(u);
    }
}

/// The words of a text are never empty and hold no whitespace.
pub proof fn words_are_spaceless(s: Seq<char>)
    ensures
        forall|i: int| 0 <= i < words(s).len() ==> (#[trigger] words(s)[i]).len() > 0,
        forall|i: int, j: int|
            0 <= i < words(s).len() && 0 <= j < words(s)[i].len() ==> !is_space(
                #[trigger] words(s)[i][j],
            ),
    decreases s.len(),
{
    if s.len() > 0 {
        let t = s.drop_last();
        let before = words(t);
        let c = s.last();
        words_are_spaceless(t);
        if is_space(c) {
        } else if s.len() == 1 || is_space(s[s.len() - 2]) {
            assert(words(s) == before.push(seq![c]));
        } else {
            assert(t.last() == s[s.len() - 2]);
            words_of_unspaced_end(t);
            let last = before.last().push(c);
            assert(words(s) == before.update(before.len() - 1, last));
            assert forall|i: int, j: int|
                0 <= i < words(s).len() && 0 <= j < words(s)[i].len() implies !is_space(
                #[trigger] words(s)[i][j],
            ) by {
                if i == before.len() - 1 {
                    if j < before.last().len() {
                        assert(words(s)[i][j] == before[i][j]);
                    }
                } else {
                    assert(words(s)[i] == before[i]);
                }
            }
        }
    }
}

/// The task read from an inbox row: its first, second and sixth fields.
pub open spec fn row_record(row: Seq<Seq<char>>) -> RecordView {
    (row[0], row[1], row[5])
}

/// The tasks read from a listing are exactly its inbox rows, in order, each read
/// as its first, second and sixth fields.
pub proof fn records_are_inbox_rows(rows: Seq<Seq<Seq<char>>>)
    ensures
        inbox_records(rows) == rows.filter(|row: Seq<Seq<char>>| in_inbox(row)).map_values(
            |row: Seq<Seq<char>>| row_record(row),
        ),
    decreases rows.len(),
{
    reveal(Seq::filter);
    let pred = |row: Seq<Seq<char>>| in_inbox(row);
    let f = |row: Seq<Seq<char>>| row_record(row);
    if rows.len() > 0 {
        records_are_inbox_rows(rows.drop_last());
        let sub = rows.drop_last().filter(pred);
        if in_inbox(rows.last()) {
            assert(rows.filter(pred) == sub.push(rows.last()));
            assert(sub.push(rows.last()).map_values(f) =~= sub.map_values(f).push(f(rows.last())));
        } else {
            assert(rows.filter(pred) == sub);
        }
    } else {
        assert(rows.filter(pred).map_values(f) =~= Seq::<RecordView>::empty());
    }
}

/// Closing a kitty, Firefox or Sublime Text window sends Ctrl+W to that window and
/// nothing else; OBS Studio is left alone; any other window is killed.
pub proof fn close_window_by_class(doc: JsonValue)
    ensures
        ({
            let address = window_address(doc);
            let class = window_class(doc);
            &&& (class == "kitty"@ || class == "firefox"@ || class == "sublime_text"@) ==> close_plan(
                doc,
            ) == (
                seq!["dispatch sendshortcut CONTROL, W, address:"@ + address],
                "close_window for window "@ + address,
            )
            &&& class == "com.obsproject.Studio"@ ==> close_plan(doc) == (
                Seq::<Seq<char>>::empty(),
                "do nothing for obs studio"@,
            )
            &&& !(class == "kitty"@ || class == "firefox"@ || class == "sublime_text"@ || class
                == "com.obsproject.Studio"@) ==> close_plan(doc) == (
                seq!["dispatch killactive"@],
                "killactive for window "@ + address,
            )
        }),
{
    reveal_strlit("kitty");
    reveal_strlit("firefox");
    reveal_strlit("sublime_text");
    reveal_strlit("com.obsproject.Studio");
    let class = window_class(doc);
    if class == "com.obsproject.Studio"@ {
        assert("com.obsproject.Studio"@.len() == 21);
        assert("kitty"@.len() == 5);
        assert("firefox"@.len() == 7);
        assert("sublime_text"@.len() == 12);
        assert(!(class == "kitty"@ || class == "firefox"@ || class == "sublime_text"@));
    }
}

/// Moving the focus answers with Hyprland's letter for the direction (l, r, u, d),
/// whatever the window's class; inside kitty the focus moves with kitty's own
/// Ctrl+H, L, K or J, elsewhere with Hyprland's `movefocus`.
pub proof fn move_focus_by_direction(direction: Seq<char>, doc: JsonValue)
    ensures
        ({
            let address = window_address(doc);
            let kitty = window_class(doc) == "kitty"@;
            let expect = |letter: Seq<char>, key: Seq<char>|
                focus_plan(direction, doc) == (
                    if kitty {
                        seq!["dispatch sendshortcut CONTROL, "@ + key + ", address:"@ + address]
                    } else {
                        seq!["dispatch movefocus "@ + letter]
                    },
                    "move_focus "@ + letter + " for window "@ + address,
                );
            &&& direction == "left"@ ==> expect("l"@, "H"@)
            &&& direction == "right"@ ==> expect("r"@, "L"@)
            &&& direction == "up"@ ==> expect("u"@, "K"@)
            &&& direction == "down"@ ==> expect("d"@, "J"@)
            &&& !(direction == "left"@ || direction == "right"@ || direction == "up"@ || direction
                == "down"@) ==> focus_plan(direction, doc) == (
                Seq::<Seq<char>>::empty(),
                "invalid direction"@,
            )
        }),
{
    reveal_strlit("left");
    reveal_strlit("right");
    reveal_strlit("up");
    reveal_strlit("down");
    assert("left"@.len() == 4 && "right"@.len() == 5 && "up"@.len() == 2 && "down"@.len() == 4);
    assert("left"@[0] == 'l' && "down"@[0] == 'd');
    assert("left"@ != "right"@ && "left"@ != "up"@ && "left"@ != "down"@);
    assert("right"@ != "up"@ && "right"@ != "down"@ && "up"@ != "down"@);
}

/// The answer of moving the focus depends on the direction and the window's address
/// only, not on the window's class.
pub proof fn move_focus_answer_ignores_class(direction: Seq<char>, a: JsonValue, b: JsonValue)
    requires
        window_address(a) == window_address(b),
    ensures
        focus_plan(direction, a).1 == focus_plan(direction, b).1,
{
}

/// A client that is no Sublime Text window, added after the others, changes nothing
/// about where Sublime Text is found; one that is, decides it.
pub proof fn sublime_found_past_other_clients(clients: Seq<JsonValue>, c: JsonValue)
    ensures
        str_at(c, seq!["class"@]) != Some("sublime_text"@) ==> sublime_workspace(clients.push(c))
            == sublime_workspace(clients),
        str_at(c, seq!["class"@]) == Some("sublime_text"@) ==> sublime_workspace(clients.push(c))
            == i64_at(c, seq!["workspace"@, "id"@]),
{
    assert(clients.push(c).drop_last() =~= clients);
}

/// Sublime Text is found on the workspace of the last client whose class is
/// `sublime_text`, however many other clients follow it.
pub proof fn sublime_found_on_last_window(clients: Seq<JsonValue>, j: int)
    requires
        0 <= j < clients.len(),
        str_at(clients[j], seq!["class"@]) == Some("sublime_text"@),
        forall|k: int| j < k < clients.len() ==> str_at(#[trigger] clients[k], seq!["class"@])
            != Some("sublime_text"@),
    ensures
        sublime_workspace(clients) == i64_at(clients[j], seq!["workspace"@, "id"@]),
    decreases clients.len(),
{
    if j < clients.len() - 1 {
        let before = clients.drop_last();
        assert(str_at(clients[clients.len() - 1], seq!["class"@]) != Some("sublime_text"@));
        assert forall|k: int| j < k < before.len() implies str_at(#[trigger] before[k], seq!["class"@])
            != Some("sublime_text"@) by {
            assert(before[k] == clients[k]);
        }
        sublime_found_on_last_window(before, j);
    }
}

/// Where the last Sublime Text window in the client list is on a workspace `w`, the
/// editor is not started: the answer is that it is here already when `w` is the
/// focused workspace (whose id is 1 where it has none), and otherwise it is moved here.
pub proof fn sublime_moved_or_here(items: Vec<JsonValue>, workspace: JsonValue, j: int, w: i64)
    requires
        0 <= j < items@.len(),
        str_at(items@[j], seq!["class"@]) == Some("sublime_text"@),
        forall|k: int| j < k < items@.len() ==> str_at(#[trigger] items@[k], seq!["class"@])
            != Some("sublime_text"@),
        i64_at(items@[j], seq!["workspace"@, "id"@]) == Some(w),
    ensures
        ({
            let here: i64 = match i64_at(workspace, seq!["id"@]) {
                Some(id) => id,
                None => 1,
            };
            &&& w == here ==> sublime_action(JsonValue::Array(items), workspace)
                == ActionView::Finish(Err("sublime text already in current workspace"@))
            &&& w != here ==> sublime_action(JsonValue::Array(items), workspace)
                == ActionView::Dispatch(
                seq!["dispatch movetoworkspace "@ + decimal(here as int) + ",class:sublime_text"@],
            )
        }),
{
    sublime_found_on_last_window(items@, j);
}

/// No command goes as nothing, one command as it is, and two as one batch of both.
pub proof fn silent_payload_small(a: Seq<char>, b: Seq<char>)
    ensures
        silent_payload(Seq::<Seq<char>>::empty()) == Seq::<char>::empty(),
        silent_payload(seq![a]) == a,
        silent_payload(seq![a, b]) == "[[BATCH]]"@ + a + ";"@ + b,
{
    assert(seq![a, b].drop_last() =~= seq![a]);
    assert(crate::hypr::joined(seq![a]) == a);
    assert("[[BATCH]]"@ + (a + ";"@ + b) =~= "[[BATCH]]"@ + a + ";"@ + b);
}

/// A command added to a batch of two or more is appended to it after a `;`: every
/// command of the list goes out, in order.
pub proof fn silent_payload_appends(commands: Seq<Seq<char>>, c: Seq<char>)
    requires
        commands.len() >= 2,
    ensures
        silent_payload(commands.push(c)) == silent_payload(commands) + ";"@ + c,
{
    assert(commands.push(c).drop_last() =~= commands);
    assert("[[BATCH]]"@ + (crate::hypr::joined(commands) + ";"@ + c) =~= "[[BATCH]]"@
        + crate::hypr::joined(commands) + ";"@ + c);
}

/// Switching the master side swaps to the right exactly when the window left of the
/// master is the one that had the focus; otherwise the focus first goes back to that
/// window and the swaps go left. Either way the master is focused for the swap with
/// the master, and the focus ends on the window that had it.
pub proof fn switch_direction(current: Seq<char>, master: Seq<char>, left_of_master: Seq<char>)
    ensures
        current == left_of_master ==> switch_commands(current, master, left_of_master) == seq![
            "dispatch swapwindow r"@,
            "dispatch swapwindow r"@,
            "dispatch focuswindow address:"@ + master,
            "dispatch layoutmsg swapwithmaster"@,
            "dispatch focuswindow address:"@ + current,
        ],
        current != left_of_master ==> switch_commands(current, master, left_of_master) == seq![
            "dispatch focuswindow address:"@ + current,
            "dispatch swapwindow l"@,
            "dispatch swapwindow l"@,
            "dispatch focuswindow address:"@ + master,
            "dispatch layoutmsg swapwithmaster"@,
            "dispatch focuswindow address:"@ + current,
        ],
        (switch_commands(current, master, left_of_master)[0] == "dispatch swapwindow r"@)
            <==> current == left_of_master,
{
    reveal_strlit("dispatch swapwindow r");
    reveal_strlit("dispatch swapwindow l");
    reveal_strlit("dispatch swapwindow ");
    reveal_strlit("r");
    reveal_strlit("l");
    reveal_strlit("dispatch focuswindow address:");
    assert("dispatch swapwindow "@ + "r"@ =~= "dispatch swapwindow r"@);
    assert("dispatch swapwindow "@ + "l"@ =~= "dispatch swapwindow l"@);
    let cs = switch_commands(current, master, left_of_master);
    if current == left_of_master {
        assert(cs =~= seq![
            "dispatch swapwindow r"@,
            "dispatch swapwindow r"@,
            "dispatch focuswindow address:"@ + master,
            "dispatch layoutmsg swapwithmaster"@,
            "dispatch focuswindow address:"@ + current,
        ]);
    }
    if current != left_of_master {
        assert(cs =~= seq![
            "dispatch focuswindow address:"@ + current,
            "dispatch swapwindow l"@,
            "dispatch swapwindow l"@,
            "dispatch focuswindow address:"@ + master,
            "dispatch layoutmsg swapwithmaster"@,
            "dispatch focuswindow address:"@ + current,
        ]);
        assert(("dispatch focuswindow address:"@ + current)[9] == 'f');
        assert(("dispatch swapwindow r"@)[9] == 's');
    }
}

/// Toggling a window that is not on the scratchpad sends it there silently and
/// answers where it came from; toggling one that is, and was sent there, moves it back
/// to its workspace.
pub proof fn toggle_scratch_commands(from: Map<Seq<char>, Seq<char>>, doc: JsonValue)
    ensures
        ({
            let address = window_address(doc);
            let workspace = workspace_name(doc);
            let plan = toggle_plan(from, doc);
            &&& workspace != "special:scratchpad"@ ==> plan.1 == seq![
                "dispatch movetoworkspacesilent special:scratchpad"@,
            ] && plan.2 == "Move window "@ + address + " from "@ + workspace
                + " to special:scratchpad"@
            &&& workspace == "special:scratchpad"@ && from.contains_key(address) ==> plan.1 == seq![
                "dispatch movetoworkspace "@ + from[address],
            ] && plan.2 == "Move window "@ + address + " from special:scratchpad to "@
                + from[address]
        }),
{
    reveal_strlit("dispatch movetoworkspacesilent ");
    reveal_strlit("dispatch movetoworkspacesilent special:scratchpad");
    reveal_strlit("special:scratchpad");
    reveal_strlit(" to ");
    reveal_strlit(" to special:scratchpad");
    reveal_strlit(" from ");
    reveal_strlit(" from special:scratchpad to ");
    let address = window_address(doc);
    let workspace = workspace_name(doc);
    assert(SCRATCHPAD@ == "special:scratchpad"@);
    assert("dispatch movetoworkspacesilent "@ + "special:scratchpad"@
        =~= "dispatch movetoworkspacesilent special:scratchpad"@);
    assert("Move window "@ + address + " from "@ + workspace + " to "@ + "special:scratchpad"@
        =~= "Move window "@ + address + " from "@ + workspace + " to special:scratchpad"@);
    if from.contains_key(address) {
        assert("Move window "@ + address + " from "@ + "special:scratchpad"@ + " to "@
            + from[address] =~= "Move window "@ + address + " from special:scratchpad to "@
            + from[address]);
    }
}

/// The event socket dispatches `toggle_scratch`, `close_window` and `move_focus` to
/// their handlers, and no other name.
pub proof fn command_names(name: Seq<char>)
    ensures
        command_named("toggle_scratch"@) == Some(Command::ToggleScratch),
        command_named("close_window"@) == Some(Command::CloseWindow),
        command_named("move_focus"@) == Some(Command::MoveFocus),
        !(name == "toggle_scratch"@ || name == "close_window"@ || name == "move_focus"@)
            ==> command_named(name) is None,
{
    reveal_strlit("toggle_scratch");
    reveal_strlit("close_window");
    reveal_strlit("move_focus");
    assert("toggle_scratch"@.len() == 14 && "close_window"@.len() == 12 && "move_focus"@.len()
        == 10);
}

/// A client list that is no array is refused, and a list without a Sublime Text
/// window starts the editor with `subl`.
pub proof fn sublime_absent_or_unreadable(clients: JsonValue, workspace: JsonValue)
    ensures
        !(clients is Array) ==> sublime_action(clients, workspace) == ActionView::Finish(
            Err("JSON data is not an array"@),
        ),
        clients matches JsonValue::Array(items) ==> ((forall|i: int|
            0 <= i < items@.len() ==> str_at(#[trigger] items@[i], seq!["class"@]) != Some(
                "sublime_text"@,
            )) ==> sublime_action(clients, workspace) == ActionView::Launch("subl"@)),
{
    if let JsonValue::Array(items) = clients {
        if forall|i: int|
            0 <= i < items@.len() ==> str_at(#[trigger] items@[i], seq!["class"@]) != Some(
                "sublime_text"@,
            ) {
            assert forall|i: int| 0 <= i < items@.len() implies !is_sublime(
                #[trigger] items@[i],
            ) by {
                assert(str_at(items@[i], seq!["class"@]) != Some("sublime_text"@));
            }
            no_sublime_window(items@);
        }
    }
}

/// eww is told the new inbox as `eww update TODO=<json>`.
pub proof fn eww_update_command(json: Seq<char>)
    ensures
        eww_update_args(json) == seq!["update"@, "TODO="@ + json],
{
}

/// The words of two texts joined by whitespace are the words of the first followed
/// by those of the second.
pub proof fn words_of_joined_texts(s: Seq<char>, space: char, t: Seq<char>)
    requires
        is_space(space),
    ensures
        words(s.push(space) + t) == words(s) + words(t),
    decreases t.len(),
{
    let prefix = s.push(space);
    if t.len() == 0 {
        assert(prefix + t =~= prefix);
        assert(prefix.drop_last() =~= s);
        assert(words(s) + words(t) =~= words(s));
    } else {
        let u = t.drop_last();
        let c = t.last();
        words_of_joined_texts(s, space, u);
        let whole = prefix + t;
        assert(whole.drop_last() =~= prefix + u);
        assert(whole.last() == c);
        let before = words(prefix + u);
        if is_space(c) {
            assert(words(whole) == before);
            assert(words(t) == words(u));
        } else if u.len() == 0 || is_space(u.last()) {
            if u.len() == 0 {
                assert(whole[whole.len() - 2] == space);
            } else {
                assert(whole[whole.len() - 2] == u.last());
                assert(t[t.len() - 2] == u.last());
            }
            assert(words(whole) == before.push(seq![c]));
            assert(words(t) == words(u).push(seq![c]));
            assert(words(s) + words(u).push(seq![c]) =~= (words(s) + words(u)).push(seq![c]));
        } else {
            assert(whole[whole.len() - 2] == u.last());
            assert(t[t.len() - 2] == u.last());
            assert(whole.len() > 1);
            words_of_unspaced_end(u);
            let wu = words(u);
            let last = wu.last().push(c);
            assert(words(t) == wu.update(wu.len() - 1, last));
            assert(words(whole) == before.update(before.len() - 1, before.last().push(c)));
            assert(before == words(s) + wu);
            assert(before.last() == wu.last());
            assert((words(s) + wu).update(before.len() - 1, last) =~= words(s) + wu.update(
                wu.len() - 1,
                last,
            ));
        }
    }
}

} // verus!
