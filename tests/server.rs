use ssht::{reply_for, unrecognized, Action, Command, Direction, Event, Phase, Server};

/// Drives one connection through the server with a mocked remote side that
/// prints `remote_output`; returns the reply and the remote calls made.
fn serve(server: &mut Server, message: &str, remote_output: &[u8]) -> (String, Vec<Vec<String>>) {
    assert_eq!(server.phase(), Phase::Listening);
    let mut calls = Vec::new();
    let mut action = server.step(Event::Accepted);
    loop {
        match action {
            Action::Read => action = server.step(Event::Received(message.to_string())),
            Action::Run(call) => {
                assert_eq!(call.program, "tmux");
                calls.push(call.args.clone());
                action = server.step(Event::RemoteDone(remote_output.to_vec()));
            }
            Action::Write(reply) => {
                let next = server.step(Event::Written);
                assert!(matches!(next, Action::Accept));
                return (reply, calls);
            }
            Action::Accept => panic!("accepted before the reply was written"),
        }
    }
}

#[test]
fn has_pane_up_true_when_not_at_top() {
    let mut server = Server::new();
    let (reply, calls) = serve(&mut server, "has_pane up", b"0\n");
    assert_eq!(reply, "true");
    assert_eq!(calls, vec![vec!["display-message", "-p", "#{pane_at_top}"]]);
}

#[test]
fn has_pane_up_false_when_at_top() {
    let mut server = Server::new();
    let (reply, _) = serve(&mut server, "has_pane up", b"1\n");
    assert_eq!(reply, "false");
}

#[test]
fn has_pane_false_on_empty_or_malformed_output() {
    let mut server = Server::new();
    assert_eq!(serve(&mut server, "has_pane up", b"").0, "false");
    assert_eq!(serve(&mut server, "has_pane down", b"0").0, "false");
    assert_eq!(serve(&mut server, "has_pane left", b"yes\n").0, "false");
    assert_eq!(serve(&mut server, "has_pane right", b"0\n").0, "true");
}

#[test]
fn move_pane_left_issues_flag_and_replies_ok() {
    let mut server = Server::new();
    let (reply, calls) = serve(&mut server, "move_pane left", b"");
    assert_eq!(reply, "ok");
    assert_eq!(calls, vec![vec!["select-pane", "-L"]]);
}

#[test]
fn move_pane_replies_ok_whatever_the_remote_printed() {
    let mut server = Server::new();
    assert_eq!(serve(&mut server, "move_pane up", b"can't move\n").0, "ok");
    assert_eq!(serve(&mut server, "move_pane down", b"0\n").0, "ok");
}

#[test]
fn jump_up_is_unrecognized() {
    let mut server = Server::new();
    let (reply, calls) = serve(&mut server, "jump up", b"0\n");
    assert_eq!(reply, "unrecognized command jump up");
    assert!(calls.is_empty());
}

#[test]
fn malformed_messages_echo_the_input() {
    let mut server = Server::new();
    for message in ["", "has_pane up extra", "has_pane UP", "move_pane up\n"] {
        let (reply, calls) = serve(&mut server, message, b"0\n");
        assert!(reply.starts_with("unrecognized command "));
        assert_eq!(reply, format!("unrecognized command {}", message));
        assert!(calls.is_empty());
    }
}

#[test]
fn accepts_only_while_listening() {
    let mut server = Server::new();
    assert!(server.expects(&Event::Accepted));
    assert!(!server.expects(&Event::Written));
    assert!(matches!(server.step(Event::Accepted), Action::Read));
    assert_eq!(server.phase(), Phase::Reading);
    assert!(!server.expects(&Event::Accepted));
    let action = server.step(Event::Received("has_pane left".to_string()));
    assert!(matches!(action, Action::Run(_)));
    assert_eq!(server.phase(), Phase::Dispatching(Command::HasPane(Direction::Left)));
    assert!(!server.expects(&Event::Accepted));
    let action = server.step(Event::RemoteDone(b"0\n".to_vec()));
    assert!(matches!(action, Action::Write(_)));
    assert_eq!(server.phase(), Phase::Writing);
    assert!(!server.expects(&Event::Accepted));
    assert!(server.expects(&Event::Written));
    assert!(matches!(server.step(Event::Written), Action::Accept));
    assert_eq!(server.phase(), Phase::Listening);
    assert!(server.expects(&Event::Accepted));
}

#[test]
fn reply_texts() {
    assert_eq!(reply_for(Command::HasPane(Direction::Up), b"0\n"), "true");
    assert_eq!(reply_for(Command::HasPane(Direction::Up), b"1\n"), "false");
    assert_eq!(reply_for(Command::MovePane(Direction::Right), b"1\n"), "ok");
    assert_eq!(unrecognized("foo"), "unrecognized command foo");
    assert_eq!(unrecognized(""), "unrecognized command ");
}
