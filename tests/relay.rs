use kata_bridge::relay::{
    on_input, on_output, InputAction, InputEvent, Message, OutputAction, OutputEvent,
};

#[test]
fn output_text_is_sent_whole() {
    match on_output(OutputEvent::Read(b"hello\n".to_vec())) {
        OutputAction::Send(line) => assert_eq!(line, "hello\n"),
        _ => panic!("expected a text message"),
    }
}

#[test]
fn input_text_is_written_as_its_bytes() {
    match on_input(InputEvent::Received(Message::Text("world\n".to_string()))) {
        InputAction::Write(bytes) => assert_eq!(bytes, b"world\n".to_vec()),
        _ => panic!("expected a write"),
    }
}

#[test]
fn multibyte_text_round_trips() {
    let text = "λ→é\n";
    match on_output(OutputEvent::Read(text.as_bytes().to_vec())) {
        OutputAction::Send(line) => assert_eq!(line, text),
        _ => panic!("expected a text message"),
    }
    match on_input(InputEvent::Received(Message::Text(text.to_string()))) {
        InputAction::Write(bytes) => assert_eq!(bytes, text.as_bytes().to_vec()),
        _ => panic!("expected a write"),
    }
}

#[test]
fn empty_read_closes_output_direction() {
    let action = on_output(OutputEvent::Read(Vec::new()));
    assert!(matches!(action, OutputAction::Closed));
    assert!(action.is_terminal());
}

#[test]
fn invalid_utf8_is_corrupt() {
    let action = on_output(OutputEvent::Read(vec![0x68, 0xff, 0x0a]));
    assert!(matches!(action, OutputAction::Corrupt));
    assert!(action.is_terminal());
    let split = "é".as_bytes()[..1].to_vec();
    assert!(matches!(on_output(OutputEvent::Read(split)), OutputAction::Corrupt));
}

#[test]
fn failed_read_is_retried() {
    let action = on_output(OutputEvent::ReadFailed);
    assert!(matches!(action, OutputAction::Continue));
    assert!(!action.is_terminal());
}

#[test]
fn close_ends_input_direction() {
    let action = on_input(InputEvent::Received(Message::Close));
    assert!(matches!(action, InputAction::Closed));
    assert!(action.is_terminal());
}

#[test]
fn other_message_is_ignored() {
    let action = on_input(InputEvent::Received(Message::Other));
    assert!(matches!(action, InputAction::Ignore));
    assert!(!action.is_terminal());
}

#[test]
fn receive_failure_and_end_are_fatal() {
    let failed = on_input(InputEvent::ReceiveFailed);
    assert!(matches!(failed, InputAction::Faulted));
    assert!(failed.is_terminal());
    let ended = on_input(InputEvent::Ended);
    assert!(matches!(ended, InputAction::Faulted));
    assert!(ended.is_terminal());
}

#[test]
fn session_stops_at_close_before_output_ends() {
    // The engine keeps printing; the client closes in between.
    let mut sent = Vec::new();
    let mut stopped_at = None;
    let events: Vec<Result<OutputEvent, InputEvent>> = vec![
        Ok(OutputEvent::Read(b"one\n".to_vec())),
        Err(InputEvent::Received(Message::Close)),
        Ok(OutputEvent::Read(b"two\n".to_vec())),
    ];
    for (i, event) in events.into_iter().enumerate() {
        let terminal = match event {
            Ok(out) => {
                let action = on_output(out);
                let terminal = action.is_terminal();
                if let OutputAction::Send(line) = action {
                    sent.push(line);
                }
                terminal
            }
            Err(inp) => on_input(inp).is_terminal(),
        };
        if terminal {
            stopped_at = Some(i);
            break;
        }
    }
    assert_eq!(stopped_at, Some(1));
    assert_eq!(sent, vec!["one\n".to_string()]);
}

#[test]
fn session_stops_at_output_end_without_close() {
    let first = on_input(InputEvent::Received(Message::Text("go\n".to_string())));
    assert!(!first.is_terminal());
    let end = on_output(OutputEvent::Read(Vec::new()));
    assert!(end.is_terminal());
}
