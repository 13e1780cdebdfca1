//! The remote tmux calls that a request becomes, and how their output reads.

use vstd::prelude::*;
use vstd::string::StringExecFns;
use crate::protocol::{Command, Direction};

verus! {

/// A program to run on the remote host, with its arguments.
pub struct RemoteCall {
    pub program: String,
    pub args: Vec<String>,
}

impl View for RemoteCall {
    type V = (Seq<char>, Seq<Seq<char>>);

    open spec fn view(&self) -> (Seq<char>, Seq<Seq<char>>) {
        (self.program@, self.args@.map_values(|a: String| a@))
    }
}

pub open spec fn tmux_word() -> Seq<char> {
    seq!['t', 'm', 'u', 'x']
}

/// The name tmux gives the edge predicate for a direction: up and down map
/// to `top` and `bottom`, left and right keep their own word.
pub open spec fn edge_name(d: Direction) -> Seq<char> {
    match d {
        Direction::Up => seq!['t', 'o', 'p'],
        Direction::Down => seq!['b', 'o', 't', 't', 'o', 'm'],
        Direction::Left => seq!['l', 'e', 'f', 't'],
        Direction::Right => seq!['r', 'i', 'g', 'h', 't'],
    }
}

/// The `select-pane` flag for a direction.
pub open spec fn move_flag(d: Direction) -> Seq<char> {
    match d {
        Direction::Up => seq!['-', 'U'],
        Direction::Down => seq!['-', 'D'],
        Direction::Left => seq!['-', 'L'],
        Direction::Right => seq!['-', 'R'],
    }
}

/// The tmux format that prints whether the focused pane is at an edge.
pub open spec fn edge_format(d: Direction) -> Seq<char> {
    seq!['#', '{', 'p', 'a', 'n', 'e', '_', 'a', 't', '_'] + edge_name(d) + seq!['}']
}

/// `tmux display-message -p '#{pane_at_<edge>}'`.
pub open spec fn edge_query_spec(d: Direction) -> (Seq<char>, Seq<Seq<char>>) {
    (
        tmux_word(),
        seq![
            seq!['d', 'i', 's', 'p', 'l', 'a', 'y', '-', 'm', 'e', 's', 's', 'a', 'g', 'e'],
            seq!['-', 'p'],
            edge_format(d),
        ],
    )
}

/// `tmux select-pane -U|-D|-L|-R`.
pub open spec fn move_command_spec(d: Direction) -> (Seq<char>, Seq<Seq<char>>) {
    (tmux_word(), seq![seq!['s', 'e', 'l', 'e', 'c', 't', '-', 'p', 'a', 'n', 'e'], move_flag(d)])
}

/// The remote call a command makes.
pub open spec fn remote_call_spec(c: Command) -> (Seq<char>, Seq<Seq<char>>) {
    match c {
        Command::HasPane(d) => edge_query_spec(d),
        Command::MovePane(d) => move_command_spec(d),
    }
}

/// The output by which the edge query says "not at the edge": `0` and a
/// newline.
pub open spec fn not_at_edge() -> Seq<u8> {
    seq![0x30u8, 0x0au8]
}

/// The flag is a dash and the direction word's first letter in upper case.
pub proof fn lemma_move_flag_is_upper_initial(d: Direction)
    ensures
        move_flag(d).len() == 2,
        move_flag(d)[0] == '-',
        move_flag(d)[1] as u32 + 32 == crate::protocol::direction_word(d)[0] as u32,
{
}

/// An owned copy of `s`.
pub(crate) fn owned(s: &str) -> (r: String)
    ensures
        r@ == s@,
{
    String::from_str(s)
}

impl Direction {
    /// The word of tmux's edge predicate for this direction.
    pub fn edge_name(self) -> (r: &'static str)
        ensures
            r@ == edge_name(self),
    {
        proof {
            reveal_strlit("top");
            reveal_strlit("bottom");
            reveal_strlit("left");
            reveal_strlit("right");
        }
        match self {
            Direction::Up => "top",
            Direction::Down => "bottom",
            Direction::Left => "left",
            Direction::Right => "right",
        }
    }

    /// The `select-pane` flag that moves the focus this way.
    pub fn move_flag(self) -> (r: &'static str)
        ensures
            r@ == move_flag(self),
    {
        proof {
            reveal_strlit("-U");
            reveal_strlit("-D");
            reveal_strlit("-L");
            reveal_strlit("-R");
        }
        match self {
            Direction::Up => "-U",
            Direction::Down => "-D",
            Direction::Left => "-L",
            Direction::Right => "-R",
        }
    }
}

/// The read-only query that tells whether the focused pane sits at the edge
/// in direction `d`.
pub fn edge_query(d: Direction) -> (r: RemoteCall)
    ensures
        r@ == edge_query_spec(d),
{
    proof {
        reveal_strlit("tmux");
        reveal_strlit("display-message");
        reveal_strlit("-p");
        reveal_strlit("#{pane_at_");
        reveal_strlit("}");
    }
    let mut format = owned("#{pane_at_");
    format.append(d.edge_name());
    format.append("}");
    let mut args: Vec<String> = Vec::new();
    args.push(owned("display-message"));
    args.push(owned("-p"));
    args.push(format);
    let r = RemoteCall { program: owned("tmux"), args };
    assert(r@.0 =~= tmux_word());
    assert(r@.1[0] =~= edge_query_spec(d).1[0]);
    assert(r@.1[1] =~= edge_query_spec(d).1[1]);
    assert(r@.1[2] =~= edge_query_spec(d).1[2]);
    assert(r@.1 =~= edge_query_spec(d).1);
    r
}

/// The mutation that moves the focus one pane in direction `d`.
pub fn move_command(d: Direction) -> (r: RemoteCall)
    ensures
        r@ == move_command_spec(d),
{
    proof {
        reveal_strlit("tmux");
        reveal_strlit("select-pane");
    }
    let mut args: Vec<String> = Vec::new();
    args.push(owned("select-pane"));
    args.push(owned(d.move_flag()));
    let r = RemoteCall { program: owned("tmux"), args };
    assert(r@.0 =~= tmux_word());
    assert(r@.1[0] =~= move_command_spec(d).1[0]);
    assert(r@.1[1] =~= move_command_spec(d).1[1]);
    assert(r@.1 =~= move_command_spec(d).1);
    r
}

impl Command {
    /// The remote call that serves this command.
    pub fn remote_call(self) -> (r: RemoteCall)
        ensures
            r@ == remote_call_spec(self),
    {
        match self {
            Command::HasPane(d) => edge_query(d),
            Command::MovePane(d) => move_command(d),
        }
    }
}

/// Reads the edge query's output: a pane exists in that direction exactly
/// when tmux printed `0` and a newline, that is, "not at the edge".
pub fn pane_exists(output: &[u8]) -> (r: bool)
    ensures
        r == (output@ == not_at_edge()),
{
    if output.len() == 2 && output[0] == 0x30u8 && output[1] == 0x0au8 {
        assert(output@ =~= not_at_edge());
        true
    } else {
        false
    }
}

} // verus!
