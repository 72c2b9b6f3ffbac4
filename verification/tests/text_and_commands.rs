use event_handler::command::{parse_command, response_text, Command};
use event_handler::helper::command_outcome;
use event_handler::hypr::Hyprsocket;
use event_handler::text::{decimal_string, split_whitespace};

#[test]
fn split_whitespace_drops_runs_of_spaces() {
    assert_eq!(split_whitespace("  a b\tc\n"), vec!["a", "b", "c"]);
    assert_eq!(split_whitespace(""), Vec::<String>::new());
    assert_eq!(split_whitespace(" \t\r\n "), Vec::<String>::new());
    assert_eq!(split_whitespace("\u{3000}x\u{a0}yz\u{2029}"), vec!["x", "yz"]);
    assert_eq!(split_whitespace("one"), vec!["one"]);
}

#[test]
fn split_whitespace_matches_std() {
    for text in ["a  b", " x y z ", "\u{85}q\u{1680}r\u{205f}", "no-space", "é ü\t☃"] {
        let ours = split_whitespace(text);
        let std: Vec<String> = text.split_whitespace().map(|w| w.to_string()).collect();
        assert_eq!(ours, std);
    }
}

#[test]
fn decimal_numbers() {
    assert_eq!(decimal_string(0), "0");
    assert_eq!(decimal_string(7), "7");
    assert_eq!(decimal_string(1234), "1234");
    assert_eq!(decimal_string(-42), "-42");
    assert_eq!(decimal_string(i64::MAX), i64::MAX.to_string());
    assert_eq!(decimal_string(i64::MIN), "-9223372036854775808");
}

#[test]
fn socket_path_from_environment() {
    let socket = Hyprsocket::new("/run/user/1000", "abc_123");
    assert_eq!(socket.command_socket_path(), "/run/user/1000/hypr/abc_123/.socket.sock");
}

#[test]
fn silent_payload_batches_several_commands() {
    assert_eq!(Hyprsocket::silent_payload(&[]), "");
    assert_eq!(Hyprsocket::silent_payload(&["dispatch killactive".to_string()]), "dispatch killactive");
    assert_eq!(
        Hyprsocket::silent_payload(&["a".to_string(), "b c".to_string(), "d".to_string()]),
        "[[BATCH]]a;b c;d"
    );
}

#[test]
fn parse_command_routes_known_handlers() {
    assert!(matches!(parse_command("toggle_scratch"), Ok((Command::ToggleScratch, ref a)) if a.is_empty()));
    assert!(matches!(parse_command("  close_window \n"), Ok((Command::CloseWindow, ref a)) if a.is_empty()));
    match parse_command("move_focus left extra") {
        Ok((Command::MoveFocus, args)) => assert_eq!(args, vec!["left", "extra"]),
        other => panic!("unexpected {:?}", other),
    }
}

#[test]
fn parse_command_errors() {
    assert_eq!(parse_command("").unwrap_err(), "No command provided");
    assert_eq!(parse_command("   \t").unwrap_err(), "No command provided");
    assert_eq!(parse_command("magnifier 2").unwrap_err(), "Unknown event: magnifier");
    assert_eq!(parse_command("bogus").unwrap_err(), "Unknown event: bogus");
}

#[test]
fn response_text_prefixes_errors() {
    assert_eq!(response_text(Ok("done".to_string())), "done");
    assert_eq!(response_text(Err("No command provided".to_string())), "Error: No command provided");
}

#[test]
fn command_outcome_quotes_stderr() {
    assert_eq!(command_outcome(true, "out".to_string(), "err".to_string()), Ok("out".to_string()));
    assert_eq!(
        command_outcome(false, "out".to_string(), "bad flag".to_string()),
        Err("Command failed with error: bad flag".to_string())
    );
}
