use ssht::{edge_query, move_command, pane_exists, Command, Direction};

fn args_of(call: &ssht::RemoteCall) -> Vec<&str> {
    call.args.iter().map(|a| a.as_str()).collect()
}

#[test]
fn edge_query_maps_up_and_down_to_top_and_bottom() {
    let up = edge_query(Direction::Up);
    assert_eq!(up.program, "tmux");
    assert_eq!(args_of(&up), vec!["display-message", "-p", "#{pane_at_top}"]);
    let down = edge_query(Direction::Down);
    assert_eq!(args_of(&down), vec!["display-message", "-p", "#{pane_at_bottom}"]);
}

#[test]
fn edge_query_keeps_left_and_right_words() {
    let left = edge_query(Direction::Left);
    assert_eq!(left.program, "tmux");
    assert_eq!(args_of(&left), vec!["display-message", "-p", "#{pane_at_left}"]);
    let right = edge_query(Direction::Right);
    assert_eq!(args_of(&right), vec!["display-message", "-p", "#{pane_at_right}"]);
}

#[test]
fn move_command_uses_upper_case_initial_flag() {
    let cases = [
        (Direction::Up, "-U"),
        (Direction::Down, "-D"),
        (Direction::Left, "-L"),
        (Direction::Right, "-R"),
    ];
    for (d, flag) in cases {
        let call = move_command(d);
        assert_eq!(call.program, "tmux");
        assert_eq!(args_of(&call), vec!["select-pane", flag]);
        assert_eq!(d.move_flag(), flag);
    }
}

#[test]
fn command_remote_call_picks_query_or_move() {
    let q = Command::HasPane(Direction::Right).remote_call();
    assert_eq!(args_of(&q), vec!["display-message", "-p", "#{pane_at_right}"]);
    let m = Command::MovePane(Direction::Down).remote_call();
    assert_eq!(args_of(&m), vec!["select-pane", "-D"]);
}

#[test]
fn pane_exists_only_on_zero_newline() {
    assert!(pane_exists(b"0\n"));
    assert!(!pane_exists(b"1\n"));
    assert!(!pane_exists(b""));
    assert!(!pane_exists(b"0"));
    assert!(!pane_exists(b"0\n\n"));
    assert!(!pane_exists(b" 0\n"));
    assert!(!pane_exists(b"garbage"));
}

#[test]
fn edge_names_per_direction() {
    assert_eq!(Direction::Up.edge_name(), "top");
    assert_eq!(Direction::Down.edge_name(), "bottom");
    assert_eq!(Direction::Left.edge_name(), "left");
    assert_eq!(Direction::Right.edge_name(), "right");
}
