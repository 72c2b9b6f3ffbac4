use event_handler::events::eww_open::EwwOpen;
use event_handler::events::eww_todo_getall::EwwTodoGetall;
use event_handler::helper::{parse_inbox, parse_inbox_checked, to_json, Record};
use event_handler::session::{Action, Event};

fn record(id: &str, priority: &str, name: &str) -> Record {
    Record { id: id.to_string(), priority: priority.to_string(), name: name.to_string() }
}

const LISTING: &str = "11,p1,proj,#Inbox,lab,Buy milk\n12,p2,proj,#Work,lab,Write report\n13,p4,proj,#Inbox,lab,\"Say \"\"hi\"\"\"\n";

#[test]
fn to_json_writes_objects_in_field_order() {
    assert_eq!(to_json(&[]), "[]");
    assert_eq!(
        to_json(&[record("1", "p4", "a \"b\"\n"), record("2", "p1", "c")]),
        "[{\"id\":\"1\",\"priority\":\"p4\",\"name\":\"a \\\"b\\\"\\n\"},{\"id\":\"2\",\"priority\":\"p1\",\"name\":\"c\"}]"
    );
}

#[test]
fn parse_inbox_keeps_inbox_rows() {
    let mut inbox = vec![record("old", "p1", "old")];
    let json = parse_inbox(LISTING, &mut inbox, true).unwrap();
    assert_eq!(
        json,
        "[{\"id\":\"11\",\"priority\":\"p1\",\"name\":\"Buy milk\"},{\"id\":\"13\",\"priority\":\"p4\",\"name\":\"Say \\\"hi\\\"\"}]"
    );
    assert_eq!(inbox.len(), 2);
    assert_eq!(inbox[1].name, "Say \"hi\"");
}

#[test]
fn parse_inbox_without_update_keeps_state() {
    let mut inbox = vec![record("old", "p1", "old")];
    parse_inbox(LISTING, &mut inbox, false).unwrap();
    assert_eq!(inbox.len(), 1);
    assert_eq!(inbox[0].id, "old");
}

#[test]
fn parse_inbox_reports_csv_errors() {
    let mut inbox = vec![];
    let err = parse_inbox("a,b,c\nd,e\n", &mut inbox, true).unwrap_err();
    assert!(err.starts_with("CSV error"), "{}", err);
    assert!(inbox.is_empty());
}

#[test]
fn parse_inbox_checked_refuses_short_inbox_rows() {
    let mut inbox = vec![record("old", "p1", "old")];
    assert!(parse_inbox_checked("1,p1,x,#Inbox\n", &mut inbox, true).is_none());
    assert_eq!(inbox[0].id, "old");
    assert!(parse_inbox_checked("1,p1,x,#Other\n", &mut inbox, true).is_some());
    assert!(inbox.is_empty());
}

#[test]
fn eww_todo_getall_answers_inbox() {
    let inbox = vec![record("5", "p2", "x")];
    assert_eq!(
        EwwTodoGetall::handle(&[], &inbox),
        Ok("[{\"id\":\"5\",\"priority\":\"p2\",\"name\":\"x\"}]".to_string())
    );
    assert_eq!(
        EwwTodoGetall::handle(&["a".to_string()], &inbox),
        Err("eww_todo_getall requires exactly 0 argument".to_string())
    );
}

fn run_args(action: &Action) -> (String, Vec<String>) {
    match action {
        Action::Run(p, a) => (p.clone(), a.clone()),
        other => panic!("expected a run, got {:?}", other),
    }
}

#[test]
fn eww_open_notifies_eww_on_change() {
    let mut inbox = vec![];
    let (h, action) = EwwOpen::handle(&[], &inbox);
    assert_eq!(run_args(&action), ("todoist-cli".to_string(), vec!["sync".to_string()]));
    let (h, action) = h.resume(Event::Output(Ok(String::new())), &mut inbox).unwrap();
    assert_eq!(
        run_args(&action),
        ("todoist-cli".to_string(), vec!["--csv".to_string(), "list".to_string()])
    );
    let (h, action) = h.resume(Event::Output(Ok(LISTING.to_string())), &mut inbox).unwrap();
    match &action {
        Action::Notify(p, a) => {
            assert_eq!(p, "eww");
            assert_eq!(a[0], "update");
            assert!(a[1].starts_with("TODO=[{\"id\":\"11\""));
        },
        other => panic!("expected a notification, got {:?}", other),
    }
    assert_eq!(inbox.len(), 2);
    let (_, action) = h.resume(Event::Sent(Ok(())), &mut inbox).unwrap();
    assert!(matches!(action, Action::Finish(Ok(ref s)) if s.is_empty()));
}

#[test]
fn eww_open_quiet_when_unchanged() {
    let mut inbox = vec![];
    let (h, _) = EwwOpen::handle(&[], &inbox);
    let (h, _) = h.resume(Event::Output(Ok(String::new())), &mut inbox).unwrap();
    let (_, action) = h.resume(Event::Output(Ok("1,p,x,#Work,y,z\n".to_string())), &mut inbox).unwrap();
    assert!(matches!(action, Action::Finish(Ok(ref s)) if s.is_empty()));
}

#[test]
fn eww_open_errors() {
    let inbox = vec![];
    let (_, action) = EwwOpen::handle(&["x".to_string()], &inbox);
    assert!(matches!(action, Action::Finish(Err(ref e)) if e == "eww_todo_getall requires exactly 0 argument"));
    let mut inbox = vec![];
    let (h, _) = EwwOpen::handle(&[], &inbox);
    let (_, action) = h.resume(Event::Output(Err("Command failed with error: no".to_string())), &mut inbox).unwrap();
    assert!(matches!(action, Action::Finish(Err(ref e)) if e == "Command failed with error: no"));
    let (h, _) = EwwOpen::handle(&[], &inbox);
    let (h, _) = h.resume(Event::Output(Ok(String::new())), &mut inbox).unwrap();
    assert!(h.resume(Event::Output(Ok("1,p1,x,#Inbox\n".to_string())), &mut inbox).is_none());
}

#[test]
fn getall_answers_what_parse_stored() {
    let mut inbox = vec![];
    let json = parse_inbox(LISTING, &mut inbox, true).unwrap();
    assert_eq!(EwwTodoGetall::handle(&[], &inbox), Ok(json));
}

#[test]
fn short_inbox_row_before_a_csv_error_is_refused() {
    let mut inbox = vec![];
    assert!(parse_inbox_checked("1,p4,a,#Inbox\nx\n", &mut inbox, true).is_none());
    let err = parse_inbox_checked("1,p4,a,#Work\nx\n", &mut inbox, true).unwrap().unwrap_err();
    assert!(err.starts_with("CSV error"), "{}", err);
}

#[test]
fn json_escapes_control_characters() {
    assert_eq!(
        to_json(&[record("\u{1}\u{8}\t\u{c}\r\\", "\u{1f}", "é")]),
        "[{\"id\":\"\\u0001\\b\\t\\f\\r\\\\\",\"priority\":\"\\u001f\",\"name\":\"é\"}]"
    );
}
