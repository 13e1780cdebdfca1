//! The request server as a state machine: it turns each event of the
//! connection at hand into the next action, one connection at a time.

use vstd::prelude::*;
use vstd::string::StringExecFns;
use crate::navigation::{
    edge_query_spec, move_command_spec, move_flag, not_at_edge, owned, pane_exists,
    remote_call_spec, RemoteCall,
};
use crate::protocol::{lemma_parse_command_round_trip, parse_command_spec, Command, Direction};

verus! {

/// Where the server stands in the life of the connection at hand.
#[derive(Clone, Copy, Debug, PartialEq, Eq, Structural)]
pub enum Phase {
    /// Waiting for a client to connect.
    Listening,
    /// A client is connected; its request has not been read yet.
    Reading,
    /// The request's remote call is running.
    Dispatching(Command),
    /// The reply is being written to the client.
    Writing,
}

/// What the outside world reports to the server.
pub enum Event {
    /// A client connected.
    Accepted,
    /// The client's message, decoded as text.
    Received(String),
    /// The remote call returned, with what it printed on standard output.
    RemoteDone(Vec<u8>),
    /// The reply was written to the client.
    Written,
}

/// What the server asks the outside world to do next.
pub enum Action {
    /// Accept the next client.
    Accept,
    /// Read the connected client's message.
    Read,
    /// Run this call on the remote host.
    Run(RemoteCall),
    /// Write this reply to the connected client.
    Write(String),
}

/// The mathematical form of an event.
pub enum EventModel {
    Accepted,
    Received(Seq<char>),
    RemoteDone(Seq<u8>),
    Written,
}

/// The mathematical form of an action.
pub enum ActionModel {
    Accept,
    Read,
    Run((Seq<char>, Seq<Seq<char>>)),
    Write(Seq<char>),
}

impl View for Event {
    type V = EventModel;

    open spec fn view(&self) -> EventModel {
        match self {
            Event::Accepted => EventModel::Accepted,
            Event::Received(s) => EventModel::Received(s@),
            Event::RemoteDone(out) => EventModel::RemoteDone(out@),
            Event::Written => EventModel::Written,
        }
    }
}

impl View for Action {
    type V = ActionModel;

    open spec fn view(&self) -> ActionModel {
        match self {
            Action::Accept => ActionModel::Accept,
            Action::Read => ActionModel::Read,
            Action::Run(call) => ActionModel::Run(call@),
            Action::Write(reply) => ActionModel::Write(reply@),
        }
    }
}

pub open spec fn true_word() -> Seq<char> {
    seq!['t', 'r', 'u', 'e']
}

pub open spec fn false_word() -> Seq<char> {
    seq!['f', 'a', 'l', 's', 'e']
}

pub open spec fn ok_word() -> Seq<char> {
    seq!['o', 'k']
}

/// `unrecognized command ` followed by the message as it came.
pub open spec fn unrecognized_spec(s: Seq<char>) -> Seq<char> {
    seq![
        'u', 'n', 'r', 'e', 'c', 'o', 'g', 'n', 'i', 'z', 'e', 'd', ' ',
        'c', 'o', 'm', 'm', 'a', 'n', 'd', ' ',
    ] + s
}

/// The reply to a command once its remote call has printed `output`: for an
/// edge query `true` when a pane exists that way, else `false`; for a move
/// `ok`, whatever came back.
pub open spec fn reply_spec(c: Command, output: Seq<u8>) -> Seq<char> {
    match c {
        Command::HasPane(_) => if output == not_at_edge() {
            true_word()
        } else {
            false_word()
        },
        Command::MovePane(_) => ok_word(),
    }
}

/// Whether event `e` is one that can come in phase `p`.
pub open spec fn expects(p: Phase, e: EventModel) -> bool {
    match (p, e) {
        (Phase::Listening, EventModel::Accepted) => true,
        (Phase::Reading, EventModel::Received(_)) => true,
        (Phase::Dispatching(_), EventModel::RemoteDone(_)) => true,
        (Phase::Writing, EventModel::Written) => true,
        _ => false,
    }
}

/// The next phase and the action that follow event `e` in phase `p`.
pub open spec fn step_spec(p: Phase, e: EventModel) -> (Phase, ActionModel) {
    match (p, e) {
        (Phase::Reading, EventModel::Received(s)) => match parse_command_spec(s) {
            Some(c) => (Phase::Dispatching(c), ActionModel::Run(remote_call_spec(c))),
            None => (Phase::Writing, ActionModel::Write(unrecognized_spec(s))),
        },
        (Phase::Dispatching(c), EventModel::RemoteDone(out)) => (
            Phase::Writing,
            ActionModel::Write(reply_spec(c, out)),
        ),
        (Phase::Writing, _) => (Phase::Listening, ActionModel::Accept),
        _ => (Phase::Reading, ActionModel::Read),
    }
}

/// The reply to a message that holds no command.
pub fn unrecognized(s: &str) -> (r: String)
    ensures
        r@ == unrecognized_spec(s@),
{
    proof {
        reveal_strlit("unrecognized command ");
    }
    let mut r = owned("unrecognized command ");
    r.append(s);
    assert(r@ =~= unrecognized_spec(s@));
    r
}

/// The reply to command `c` once its remote call has printed `output`.
pub fn reply_for(c: Command, output: &[u8]) -> (r: String)
    ensures
        r@ == reply_spec(c, output@),
{
    proof {
        reveal_strlit("true");
        reveal_strlit("false");
        reveal_strlit("ok");
        assert("true"@ =~= true_word());
        assert("false"@ =~= false_word());
        assert("ok"@ =~= ok_word());
    }
    match c {
        Command::HasPane(_) => if pane_exists(output) {
            owned("true")
        } else {
            owned("false")
        },
        Command::MovePane(_) => owned("ok"),
    }
}

/// The request server: one connection at a time, one request and one reply
/// per connection.
pub struct Server {
    phase: Phase,
}

impl View for Server {
    type V = Phase;

    closed spec fn view(&self) -> Phase {
        self.phase
    }
}

impl Server {
    /// A server waiting for its first client: its first action is to accept.
    pub fn new() -> (r: Server)
        ensures
            r@ == Phase::Listening,
    {
        Server { phase: Phase::Listening }
    }

    /// The phase the server is in.
    pub fn phase(&self) -> (r: Phase)
        ensures
            r == self@,
    {
        self.phase
    }

    /// Whether `e` is an event that can come now.
    pub fn expects(&self, e: &Event) -> (r: bool)
        ensures
            r == expects(self@, e@),
    {
        match (self.phase, e) {
            (Phase::Listening, Event::Accepted) => true,
            (Phase::Reading, Event::Received(_)) => true,
            (Phase::Dispatching(_), Event::RemoteDone(_)) => true,
            (Phase::Writing, Event::Written) => true,
            _ => false,
        }
    }

    /// Takes event `e` and says what to do next.
    pub fn step(&mut self, e: Event) -> (a: Action)
        requires
            expects(old(self)@, e@),
        ensures
            (final(self)@, a@) == step_spec(old(self)@, e@),
    {
        match (self.phase, e) {
            (Phase::Reading, Event::Received(s)) => match Command::parse(s.as_str()) {
                Some(c) => {
                    self.phase = Phase::Dispatching(c);
                    Action::Run(c.remote_call())
                },
                None => {
                    self.phase = Phase::Writing;
                    Action::Write(unrecognized(s.as_str()))
                },
            },
            (Phase::Dispatching(c), Event::RemoteDone(out)) => {
                self.phase = Phase::Writing;
                Action::Write(reply_for(c, out.as_slice()))
            },
            (Phase::Writing, _) => {
                self.phase = Phase::Listening;
                Action::Accept
            },
            _ => {
                self.phase = Phase::Reading;
                Action::Read
            },
        }
    }
}

/// Edge queries keep tmux's polarity: a `has_pane` request runs the edge
/// query for its direction (up asks for `top`, down for `bottom`), and the
/// reply is `true` exactly when the query printed `0` and a newline, and
/// `false` on any other output.
pub proof fn lemma_has_pane_polarity(d: Direction, out: Seq<u8>)
    ensures
        step_spec(Phase::Reading, EventModel::Received(Command::HasPane(d).text())) == (
            Phase::Dispatching(Command::HasPane(d)),
            ActionModel::Run(edge_query_spec(d)),
        ),
        step_spec(Phase::Dispatching(Command::HasPane(d)), EventModel::RemoteDone(out)) == (
            Phase::Writing,
            ActionModel::Write(
                if out == not_at_edge() {
                    true_word()
                } else {
                    false_word()
                },
            ),
        ),
{
    lemma_parse_command_round_trip(Command::HasPane(d).text());
}

/// A `move_pane` request runs `select-pane` with its direction's flag, and
/// the reply is `ok` whatever the remote call printed or returned.
pub proof fn lemma_move_pane_always_ok(d: Direction, out: Seq<u8>)
    ensures
        step_spec(Phase::Reading, EventModel::Received(Command::MovePane(d).text())) == (
            Phase::Dispatching(Command::MovePane(d)),
            ActionModel::Run(move_command_spec(d)),
        ),
        move_command_spec(d).1[1] == move_flag(d),
        step_spec(Phase::Dispatching(Command::MovePane(d)), EventModel::RemoteDone(out)) == (
            Phase::Writing,
            ActionModel::Write(ok_word()),
        ),
{
    lemma_parse_command_round_trip(Command::MovePane(d).text());
}

/// A message that holds no command is answered at once, with
/// `unrecognized command ` followed by the message exactly as it came.
pub proof fn lemma_unrecognized_echoes_message(s: Seq<char>)
    requires
        parse_command_spec(s) is None,
    ensures
        step_spec(Phase::Reading, EventModel::Received(s)) == (
            Phase::Writing,
            ActionModel::Write(unrecognized_spec(s)),
        ),
        unrecognized_spec(s).len() == 21 + s.len(),
        unrecognized_spec(s).skip(21) == s,
{
    assert(unrecognized_spec(s).skip(21) =~= s);
}

/// Requests are served one at a time: a client is accepted only while the
/// server listens, and the server gets back to listening, and accepts the
/// next client, only once the reply of the connection at hand is written.
pub proof fn lemma_one_connection_at_a_time(p: Phase, e: EventModel)
    requires
        expects(p, e),
    ensures
        e is Accepted ==> p == Phase::Listening,
        step_spec(p, e).0 == Phase::Listening <==> (p == Phase::Writing && e is Written),
        step_spec(p, e).1 is Accept <==> (p == Phase::Writing && e is Written),
{
}

/// The phase reached from `p` after the events `es`, taken in turn.
pub open spec fn phase_after(p: Phase, es: Seq<EventModel>) -> Phase
    decreases es.len(),
{
    if es.len() == 0 {
        p
    } else {
        step_spec(phase_after(p, es.drop_last()), es.last()).0
    }
}

/// Each of the events `es` comes from `p` on when the server awaits it.
pub open spec fn run_is_valid(p: Phase, es: Seq<EventModel>) -> bool
    decreases es.len(),
{
    es.len() == 0 || (run_is_valid(p, es.drop_last()) && expects(
        phase_after(p, es.drop_last()),
        es.last(),
    ))
}

/// The clients accepted in `es` less the replies written: the connections
/// still open after those events.
pub open spec fn open_connections(es: Seq<EventModel>) -> int
    decreases es.len(),
{
    if es.len() == 0 {
        0
    } else {
        open_connections(es.drop_last()) + match es.last() {
            EventModel::Accepted => 1int,
            EventModel::Written => -1int,
            _ => 0int,
        }
    }
}

/// However events interleave, a server that starts listening has at most
/// one connection open at a time: it has none exactly while it listens, and
/// a second client is accepted only once the first one's reply is written.
pub proof fn lemma_serves_sequentially(es: Seq<EventModel>)
    requires
        run_is_valid(Phase::Listening, es),
    ensures
        open_connections(es) == if phase_after(Phase::Listening, es) == Phase::Listening {
            0int
        } else {
            1int
        },
    decreases es.len(),
{
    if es.len() > 0 {
        lemma_serves_sequentially(es.drop_last());
    }
}

} // verus!
