use event_handler::events::close_window::CloseWindow;
use event_handler::events::magnifier::Magnifier;
use event_handler::events::move_focus::MoveFocus;
use event_handler::events::move_sublime_text::MoveSublimeText;
use event_handler::events::switch_master_side::SwitchMasterSide;
use event_handler::events::toggle_scratch::{Scratchpad, ToggleScratch};
use event_handler::json::JsonValue;
use event_handler::session::{Action, Event};

fn text(s: &str) -> JsonValue {
    JsonValue::String(s.to_string())
}

fn object(members: Vec<(&str, JsonValue)>) -> JsonValue {
    JsonValue::Object(members.into_iter().map(|(k, v)| (k.to_string(), v)).collect())
}

fn window(address: &str, class: &str, workspace: &str) -> JsonValue {
    object(vec![
        ("address", text(address)),
        ("class", text(class)),
        ("workspace", object(vec![("id", JsonValue::Number(Some(3))), ("name", text(workspace))])),
    ])
}

fn to_serde(v: &JsonValue) -> serde_json::Value {
    match v {
        JsonValue::Null => serde_json::Value::Null,
        JsonValue::Bool(b) => serde_json::Value::Bool(*b),
        JsonValue::Number(Some(i)) => serde_json::Value::from(*i),
        JsonValue::Number(None) => serde_json::Value::from(1.5f64),
        JsonValue::String(s) => serde_json::Value::String(s.clone()),
        JsonValue::Array(items) => serde_json::Value::Array(items.iter().map(to_serde).collect()),
        JsonValue::Object(members) => {
            let mut map = serde_json::Map::new();
            for (k, v) in members {
                map.insert(k.clone(), to_serde(v));
            }
            serde_json::Value::Object(map)
        },
    }
}

fn reply(doc: JsonValue) -> Event {
    Event::Reply(Ok(to_serde(&doc).to_string()))
}

fn sent() -> Event {
    Event::Sent(Ok(()))
}

fn dispatched(action: &Action) -> Vec<String> {
    match action {
        Action::Dispatch(commands) => commands.clone(),
        other => panic!("expected a dispatch, got {:?}", other),
    }
}

fn finished(action: Action) -> Result<String, String> {
    match action {
        Action::Finish(r) => r,
        other => panic!("expected an answer, got {:?}", other),
    }
}

fn queried(action: &Action) -> String {
    match action {
        Action::Query(q) => q.clone(),
        other => panic!("expected a query, got {:?}", other),
    }
}

#[test]
fn close_window_takes_no_argument() {
    let (_, action) = CloseWindow::handle(&["x".to_string()]);
    assert_eq!(finished(action), Err("close_window requires exactly 0 argument".to_string()));
}

#[test]
fn close_window_sends_ctrl_w_to_kitty() {
    let (h, action) = CloseWindow::handle(&[]);
    assert_eq!(queried(&action), "j/activewindow");
    let (h, action) = h.resume(reply(window("0xabc", "kitty", "1")));
    assert_eq!(dispatched(&action), vec!["dispatch sendshortcut CONTROL, W, address:0xabc"]);
    let (_, action) = h.resume(sent());
    assert_eq!(finished(action), Ok("close_window for window 0xabc".to_string()));
}

#[test]
fn close_window_spares_obs() {
    let (h, _) = CloseWindow::handle(&[]);
    let (_, action) = h.resume(reply(window("0x1", "com.obsproject.Studio", "1")));
    assert_eq!(finished(action), Ok("do nothing for obs studio".to_string()));
}

#[test]
fn close_window_kills_other_windows() {
    let (h, _) = CloseWindow::handle(&[]);
    let (h, action) = h.resume(reply(object(vec![("class", text("mpv"))])));
    assert_eq!(dispatched(&action), vec!["dispatch killactive"]);
    let (_, action) = h.resume(sent());
    assert_eq!(finished(action), Ok("killactive for window Unknown address".to_string()));
}

#[test]
fn close_window_passes_errors_on() {
    let (h, _) = CloseWindow::handle(&[]);
    let (_, action) = h.resume(Event::Reply(Err("connection refused".to_string())));
    assert_eq!(finished(action), Err("connection refused".to_string()));
    let (h, _) = CloseWindow::handle(&[]);
    let (h, _) = h.resume(reply(window("0x2", "firefox", "1")));
    let (_, action) = h.resume(Event::Sent(Err("broken pipe".to_string())));
    assert_eq!(finished(action), Err("broken pipe".to_string()));
}

#[test]
fn move_focus_needs_one_argument() {
    let (_, action) = MoveFocus::handle(&[]);
    assert_eq!(finished(action), Err("move_focus requires exactly 1 argument".to_string()));
    let (_, action) = MoveFocus::handle(&["left".to_string(), "right".to_string()]);
    assert_eq!(finished(action), Err("move_focus requires exactly 1 argument".to_string()));
}

#[test]
fn move_focus_in_each_direction() {
    for (direction, letter) in [("left", "l"), ("right", "r"), ("up", "u"), ("down", "d")] {
        let (h, action) = MoveFocus::handle(&[direction.to_string()]);
        assert_eq!(queried(&action), "j/activewindow");
        let (h, action) = h.resume(reply(window("0x5", "firefox", "2")));
        assert_eq!(dispatched(&action), vec![format!("dispatch movefocus {}", letter)]);
        let (_, action) = h.resume(sent());
        assert_eq!(finished(action), Ok(format!("move_focus {} for window 0x5", letter)));
    }
}

#[test]
fn move_focus_inside_kitty() {
    for (direction, key) in [("left", "H"), ("right", "L"), ("up", "K"), ("down", "J")] {
        let (h, _) = MoveFocus::handle(&[direction.to_string()]);
        let (_, action) = h.resume(reply(window("0x6", "kitty", "2")));
        assert_eq!(
            dispatched(&action),
            vec![format!("dispatch sendshortcut CONTROL, {}, address:0x6", key)]
        );
    }
}

#[test]
fn move_focus_invalid_direction() {
    let (h, _) = MoveFocus::handle(&["sideways".to_string()]);
    let (_, action) = h.resume(reply(window("0x6", "kitty", "2")));
    assert_eq!(finished(action), Ok("invalid direction".to_string()));
}

#[test]
fn toggle_scratch_takes_no_argument() {
    let (_, action) = ToggleScratch::handle(&["a".to_string()]);
    assert_eq!(finished(action), Err("toggle_scratch requires exactly 0 argument".to_string()));
}

#[test]
fn toggle_scratch_round_trip() {
    let mut pad = Scratchpad::new();
    let (h, action) = ToggleScratch::handle(&[]);
    assert_eq!(queried(&action), "j/activewindow");
    let (h, action) = h.resume(reply(window("0x7", "kitty", "4")), &mut pad);
    assert_eq!(dispatched(&action), vec!["dispatch movetoworkspacesilent special:scratchpad"]);
    assert_eq!(pad.get("0x7").map(|w| w.as_str()), Some("4"));
    let (_, action) = h.resume(sent(), &mut pad);
    assert_eq!(finished(action), Ok("Move window 0x7 from 4 to special:scratchpad".to_string()));

    let (h, _) = ToggleScratch::handle(&[]);
    let (h, action) = h.resume(reply(window("0x7", "kitty", "special:scratchpad")), &mut pad);
    assert_eq!(dispatched(&action), vec!["dispatch movetoworkspace 4"]);
    assert!(pad.get("0x7").is_none());
    let (_, action) = h.resume(sent(), &mut pad);
    assert_eq!(finished(action), Ok("Move window 0x7 from special:scratchpad to 4".to_string()));
}

#[test]
fn toggle_scratch_unknown_window() {
    let mut pad = Scratchpad::new();
    let (h, _) = ToggleScratch::handle(&[]);
    let (_, action) = h.resume(reply(window("0x8", "kitty", "special:scratchpad")), &mut pad);
    assert_eq!(finished(action), Ok("key does not exist".to_string()));
    assert!(pad.get("0x8").is_none());
}

#[test]
fn toggle_scratch_records_before_sending() {
    let mut pad = Scratchpad::new();
    let (h, _) = ToggleScratch::handle(&[]);
    let (h, _) = h.resume(reply(object(vec![("address", text("0x9"))])), &mut pad);
    assert_eq!(pad.get("0x9").map(|w| w.as_str()), Some("Unknown workspace name"));
    let (_, action) = h.resume(Event::Sent(Err("refused".to_string())), &mut pad);
    assert_eq!(finished(action), Err("refused".to_string()));
    assert!(pad.get("0x9").is_some());
}

fn switch_until_done(addresses: [&str; 3]) -> (Vec<String>, Result<String, String>) {
    let mut commands = Vec::new();
    let (mut h, mut action) = SwitchMasterSide::handle(&[]);
    let mut next_address = 0;
    loop {
        let event = match &action {
            Action::Query(q) => {
                assert_eq!(q, "j/activewindow");
                let doc = object(vec![("address", text(addresses[next_address]))]);
                next_address += 1;
                reply(doc)
            },
            Action::Dispatch(cs) => {
                commands.extend(cs.iter().cloned());
                sent()
            },
            Action::Finish(_) => break,
            other => panic!("unexpected {:?}", other),
        };
        let (h2, a2) = h.resume(event);
        h = h2;
        action = a2;
    }
    (commands, finished(action))
}

#[test]
fn switch_master_side_takes_no_argument() {
    let (_, action) = SwitchMasterSide::handle(&["x".to_string()]);
    assert_eq!(finished(action), Err("switch_master_side requires exactly 1 argument".to_string()));
}

#[test]
fn switch_master_side_on_the_master() {
    let (commands, answer) = switch_until_done(["0xm", "0xm", "unused"]);
    assert_eq!(commands, vec!["dispatch layoutmsg focusmaster"]);
    assert_eq!(answer, Ok("switch_master_side".to_string()));
}

#[test]
fn switch_master_side_from_left_neighbour() {
    let (commands, answer) = switch_until_done(["0xc", "0xm", "0xc"]);
    assert_eq!(
        commands,
        vec![
            "dispatch layoutmsg focusmaster",
            "dispatch movefocus l",
            "dispatch swapwindow r",
            "dispatch swapwindow r",
            "dispatch focuswindow address:0xm",
            "dispatch layoutmsg swapwithmaster",
            "dispatch focuswindow address:0xc",
        ]
    );
    assert_eq!(answer, Ok("switch_master_side".to_string()));
}

#[test]
fn switch_master_side_from_elsewhere() {
    let (commands, answer) = switch_until_done(["0xc", "0xm", "0xn"]);
    assert_eq!(
        commands,
        vec![
            "dispatch layoutmsg focusmaster",
            "dispatch movefocus l",
            "dispatch focuswindow address:0xc",
            "dispatch swapwindow l",
            "dispatch swapwindow l",
            "dispatch focuswindow address:0xm",
            "dispatch layoutmsg swapwithmaster",
            "dispatch focuswindow address:0xc",
        ]
    );
    assert_eq!(answer, Ok("switch_master_side".to_string()));
}

#[test]
fn switch_master_side_stops_on_send_error() {
    let (h, _) = SwitchMasterSide::handle(&[]);
    let (h, _) = h.resume(reply(object(vec![("address", text("0xc"))])));
    let (_, action) = h.resume(Event::Sent(Err("gone".to_string())));
    assert_eq!(finished(action), Err("gone".to_string()));
}

fn client(class: &str, workspace: Option<i64>) -> JsonValue {
    object(vec![
        ("class", text(class)),
        ("workspace", object(vec![("id", JsonValue::Number(workspace))])),
    ])
}

fn workspace(id: i64) -> JsonValue {
    object(vec![("id", JsonValue::Number(Some(id)))])
}

fn sublime_after(clients: JsonValue, active: JsonValue) -> Action {
    let (h, action) = MoveSublimeText::handle(&[]);
    assert_eq!(queried(&action), "j/clients");
    let (h, action) = h.resume(reply(clients));
    assert_eq!(queried(&action), "j/activeworkspace");
    let (_, action) = h.resume(reply(active));
    action
}

#[test]
fn move_sublime_text_takes_no_argument() {
    let (_, action) = MoveSublimeText::handle(&["x".to_string()]);
    assert_eq!(finished(action), Err("switch_master_side requires exactly 1 argument".to_string()));
}

#[test]
fn move_sublime_text_moves_it_here() {
    let clients = JsonValue::Array(vec![client("kitty", Some(2)), client("sublime_text", Some(5))]);
    let action = sublime_after(clients, workspace(-3));
    assert_eq!(dispatched(&action), vec!["dispatch movetoworkspace -3,class:sublime_text"]);
}

#[test]
fn move_sublime_text_already_here() {
    let clients = JsonValue::Array(vec![client("sublime_text", Some(7))]);
    let action = sublime_after(clients, workspace(7));
    assert_eq!(finished(action), Err("sublime text already in current workspace".to_string()));
}

#[test]
fn move_sublime_text_defaults_to_workspace_one() {
    let clients = JsonValue::Array(vec![client("sublime_text", Some(1))]);
    let action = sublime_after(clients, JsonValue::Null);
    assert_eq!(finished(action), Err("sublime text already in current workspace".to_string()));
}

#[test]
fn move_sublime_text_last_window_decides() {
    let clients = JsonValue::Array(vec![client("sublime_text", Some(4)), client("sublime_text", None)]);
    let action = sublime_after(clients, workspace(4));
    assert!(matches!(action, Action::Launch(ref p) if p == "subl"));
}

#[test]
fn move_sublime_text_starts_it() {
    let (h, _) = MoveSublimeText::handle(&[]);
    let (h, _) = h.resume(reply(JsonValue::Array(vec![client("kitty", Some(1))])));
    let (h, action) = h.resume(reply(workspace(2)));
    assert!(matches!(action, Action::Launch(ref p) if p == "subl"));
    let (_, action) = h.resume(sent());
    assert_eq!(finished(action), Ok("sublime text not found, start sublime text".to_string()));
}

#[test]
fn move_sublime_text_needs_an_array() {
    let action = sublime_after(object(vec![]), workspace(2));
    assert_eq!(finished(action), Err("JSON data is not an array".to_string()));
}

#[test]
fn move_sublime_text_confirms_the_move() {
    let (h, _) = MoveSublimeText::handle(&[]);
    let (h, _) = h.resume(reply(JsonValue::Array(vec![client("sublime_text", Some(9))])));
    let (h, _) = h.resume(reply(workspace(12)));
    let (_, action) = h.resume(sent());
    assert_eq!(finished(action), Ok("move_sublime_text".to_string()));
}

#[test]
fn magnifier_argument_and_commands() {
    assert_eq!(Magnifier::factor_argument(&[]).unwrap_err(), "magnifier requires exactly 1 argument");
    let args = vec!["2.5".to_string()];
    assert_eq!(Magnifier::factor_argument(&args).unwrap(), "2.5");
    assert_eq!(Magnifier::zoom_command(true, "2.5"), "keyword cursor:zoom_factor 2.5");
    assert_eq!(Magnifier::zoom_command(false, "2.5"), "keyword cursor:zoom_factor 1");
}

#[test]
fn replies_are_parsed_as_json() {
    let (h, _) = CloseWindow::handle(&[]);
    let (h, action) = h.resume(Event::Reply(Ok(r#"{"class": "kitty", "address": "0x3f"}"#.to_string())));
    assert_eq!(dispatched(&action), vec!["dispatch sendshortcut CONTROL, W, address:0x3f"]);
    let (_, action) = h.resume(sent());
    assert_eq!(finished(action), Ok("close_window for window 0x3f".to_string()));
}

#[test]
fn unreadable_replies_end_with_the_parse_error() {
    let expected = serde_json::from_str::<serde_json::Value>("not json").unwrap_err().to_string();
    let (h, _) = MoveFocus::handle(&["left".to_string()]);
    let (_, action) = h.resume(Event::Reply(Ok("not json".to_string())));
    assert_eq!(finished(action), Err(expected.clone()));
    let (h, _) = MoveSublimeText::handle(&[]);
    let (_, action) = h.resume(Event::Reply(Ok("not json".to_string())));
    assert_eq!(finished(action), Err(expected));
}

#[test]
fn hyprland_window_reply() {
    let text = r#"{"address": "0x55d1", "mapped": true, "at": [0, 30], "workspace": {"id": 4, "name": "4"}, "class": "firefox", "pid": 1234}"#;
    let mut pad = Scratchpad::new();
    let (h, _) = ToggleScratch::handle(&[]);
    let (_, action) = h.resume(Event::Reply(Ok(text.to_string())), &mut pad);
    assert_eq!(dispatched(&action), vec!["dispatch movetoworkspacesilent special:scratchpad"]);
    assert_eq!(pad.get("0x55d1").map(|w| w.as_str()), Some("4"));
}
