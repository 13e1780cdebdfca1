//! The request vocabulary: directions, commands and their text encoding.

use vstd::prelude::*;
use vstd::string::StrSliceExecFns;

verus! {

/// A spatial direction relative to the focused pane.
#[derive(Clone, Copy, Debug, PartialEq, Eq, Structural)]
pub enum Direction {
    Up,
    Down,
    Left,
    Right,
}

/// The lower-case word that names a direction on the wire.
pub open spec fn direction_word(d: Direction) -> Seq<char> {
    match d {
        Direction::Up => seq!['u', 'p'],
        Direction::Down => seq!['d', 'o', 'w', 'n'],
        Direction::Left => seq!['l', 'e', 'f', 't'],
        Direction::Right => seq!['r', 'i', 'g', 'h', 't'],
    }
}

/// The direction named by a token, if any (case-sensitive).
pub open spec fn parse_direction_spec(t: Seq<char>) -> Option<Direction> {
    if t == direction_word(Direction::Up) {
        Some(Direction::Up)
    } else if t == direction_word(Direction::Down) {
        Some(Direction::Down)
    } else if t == direction_word(Direction::Left) {
        Some(Direction::Left)
    } else if t == direction_word(Direction::Right) {
        Some(Direction::Right)
    } else {
        None
    }
}

/// A request that a client sends over the local socket.
#[derive(Clone, Copy, Debug, PartialEq, Eq, Structural)]
pub enum Command {
    /// Is there a pane next to the focused one in this direction?
    HasPane(Direction),
    /// Move the focus to the neighbouring pane in this direction.
    MovePane(Direction),
}

pub open spec fn has_pane_word() -> Seq<char> {
    seq!['h', 'a', 's', '_', 'p', 'a', 'n', 'e']
}

pub open spec fn move_pane_word() -> Seq<char> {
    seq!['m', 'o', 'v', 'e', '_', 'p', 'a', 'n', 'e']
}

impl Command {
    /// The direction the command is about.
    pub open spec fn direction(self) -> Direction {
        match self {
            Command::HasPane(d) => d,
            Command::MovePane(d) => d,
        }
    }

    /// The verb that names the command's kind on the wire.
    pub open spec fn verb(self) -> Seq<char> {
        match self {
            Command::HasPane(_) => has_pane_word(),
            Command::MovePane(_) => move_pane_word(),
        }
    }

    /// The wire form of the command: `<verb> <direction>`.
    pub open spec fn text(self) -> Seq<char> {
        self.verb() + seq![' '] + direction_word(self.direction())
    }
}

/// `i` is the position of the one and only space in `s`, so that `s` holds
/// exactly two space-separated tokens.
pub open spec fn sole_space(s: Seq<char>, i: int) -> bool {
    &&& 0 <= i < s.len()
    &&& s[i] == ' '
    &&& forall|j: int| 0 <= j < s.len() && s[j] == ' ' ==> j == i
}

/// The command named by a verb token and a direction.
pub open spec fn command_of(verb: Seq<char>, d: Direction) -> Option<Command> {
    if verb == has_pane_word() {
        Some(Command::HasPane(d))
    } else if verb == move_pane_word() {
        Some(Command::MovePane(d))
    } else {
        None
    }
}

/// The command a message holds: exactly two tokens split by one space, a
/// known verb and a known direction. Anything else holds none.
pub open spec fn parse_command_spec(s: Seq<char>) -> Option<Command> {
    if exists|i: int| sole_space(s, i) {
        let i = choose|i: int| sole_space(s, i);
        match parse_direction_spec(s.skip(i + 1)) {
            Some(d) => command_of(s.take(i), d),
            None => None,
        }
    } else {
        None
    }
}

/// Each direction reads back from its own word, and no two directions share
/// a word.
pub proof fn lemma_direction_round_trip(t: Seq<char>, d: Direction)
    ensures
        parse_direction_spec(t) == Some(d) <==> t == direction_word(d),
{
    let up = direction_word(Direction::Up);
    let down = direction_word(Direction::Down);
    let left = direction_word(Direction::Left);
    let right = direction_word(Direction::Right);
    assert(up.len() == 2 && down.len() == 4 && left.len() == 4 && right.len() == 5);
    assert(down[0] != left[0]);
}

/// The wire words hold no space.
proof fn lemma_words_hold_no_space(c: Command)
    ensures
        forall|j: int| 0 <= j < c.verb().len() ==> c.verb()[j] != ' ',
        forall|j: int|
            0 <= j < direction_word(c.direction()).len() ==> direction_word(c.direction())[j]
                != ' ',
{
}

/// A message reads as command `c` exactly when it is `c`'s wire form.
proof fn lemma_parse_reads_text(s: Seq<char>, c: Command)
    ensures
        parse_command_spec(s) == Some(c) <==> s == c.text(),
{
    let verb = c.verb();
    let word = direction_word(c.direction());
    let k = verb.len() as int;
    lemma_words_hold_no_space(c);
    lemma_direction_round_trip(word, c.direction());
    if s == c.text() {
        assert(s[k] == ' ');
        assert forall|j: int| 0 <= j < s.len() && s[j] == ' ' implies j == k by {
            if j < k {
                assert(s[j] == verb[j]);
            } else if j > k {
                assert(s[j] == word[j - k - 1]);
            }
        }
        assert(sole_space(s, k));
        let i = choose|i: int| sole_space(s, i);
        assert(i == k);
        assert(s.take(k) =~= verb);
        assert(s.skip(k + 1) =~= word);
        lemma_direction_round_trip(word, c.direction());
        assert(has_pane_word().len() != move_pane_word().len());
    }
    if parse_command_spec(s) == Some(c) {
        let i = choose|i: int| sole_space(s, i);
        let d = parse_direction_spec(s.skip(i + 1))->0;
        lemma_direction_round_trip(s.skip(i + 1), d);
        assert(s =~= s.take(i) + seq![' '] + s.skip(i + 1));
    }
}

/// Every command reads back from its own wire form, nothing else reads as
/// it, and a message that is the wire form of no command is unrecognized.
pub proof fn lemma_parse_command_round_trip(s: Seq<char>)
    ensures
        forall|c: Command| parse_command_spec(s) == Some(c) <==> s == c.text(),
        parse_command_spec(s) is None <==> forall|c: Command| s != c.text(),
{
    assert forall|c: Command| parse_command_spec(s) == Some(c) <==> s == c.text() by {
        lemma_parse_reads_text(s, c);
    }
    if parse_command_spec(s) is Some {
        let c = parse_command_spec(s)->0;
        lemma_parse_reads_text(s, c);
        assert(s == c.text());
    }
}

/// The characters of `s`, in order.
fn chars_of(s: &str) -> (v: Vec<char>)
    ensures
        v@ == s@,
{
    let n = s.unicode_len();
    let mut v: Vec<char> = Vec::new();
    let mut i: usize = 0;
    while i < n
        invariant
            n == s@.len(),
            i <= n,
            v@ == s@.take(i as int),
        decreases n - i,
    {
        v.push(s.get_char(i));
        i = i + 1;
        assert(v@ =~= s@.take(i as int));
    }
    assert(v@ =~= s@);
    v
}

/// Whether `v[lo..hi]` spells exactly the word `w`.
fn spells(v: &Vec<char>, lo: usize, hi: usize, w: &str) -> (r: bool)
    requires
        lo <= hi <= v@.len(),
    ensures
        r == (v@.subrange(lo as int, hi as int) == w@),
{
    let n = w.unicode_len();
    if hi - lo != n {
        return false;
    }
    let mut i: usize = 0;
    while i < n
        invariant
            n == w@.len(),
            hi - lo == n,
            lo <= hi <= v@.len(),
            i <= n,
            forall|j: int| 0 <= j < i ==> v@[lo + j] == w@[j],
        decreases n - i,
    {
        if v[lo + i] != w.get_char(i) {
            assert(v@.subrange(lo as int, hi as int)[i as int] != w@[i as int]);
            return false;
        }
        i = i + 1;
    }
    assert(v@.subrange(lo as int, hi as int) =~= w@);
    true
}

/// The direction spelled by `v[lo..hi]`, if any.
fn direction_in(v: &Vec<char>, lo: usize, hi: usize) -> (r: Option<Direction>)
    requires
        lo <= hi <= v@.len(),
    ensures
        r == parse_direction_spec(v@.subrange(lo as int, hi as int)),
{
    proof {
        reveal_strlit("up");
        reveal_strlit("down");
        reveal_strlit("left");
        reveal_strlit("right");
    }
    if spells(v, lo, hi, "up") {
        assert("up"@ =~= direction_word(Direction::Up));
        Some(Direction::Up)
    } else if spells(v, lo, hi, "down") {
        assert("down"@ =~= direction_word(Direction::Down));
        Some(Direction::Down)
    } else if spells(v, lo, hi, "left") {
        assert("left"@ =~= direction_word(Direction::Left));
        Some(Direction::Left)
    } else if spells(v, lo, hi, "right") {
        assert("right"@ =~= direction_word(Direction::Right));
        Some(Direction::Right)
    } else {
        assert("up"@ =~= direction_word(Direction::Up));
        assert("down"@ =~= direction_word(Direction::Down));
        assert("left"@ =~= direction_word(Direction::Left));
        assert("right"@ =~= direction_word(Direction::Right));
        None
    }
}

/// The first space in `v` at or after `from`, if any.
fn find_space(v: &Vec<char>, from: usize) -> (r: Option<usize>)
    requires
        from <= v@.len(),
    ensures
        match r {
            Some(k) => from <= k < v@.len() && v@[k as int] == ' ' && forall|j: int|
                from <= j < k ==> v@[j] != ' ',
            None => forall|j: int| from <= j < v@.len() ==> v@[j] != ' ',
        },
{
    let mut i: usize = from;
    while i < v.len()
        invariant
            from <= i <= v@.len(),
            forall|j: int| from <= j < i ==> v@[j] != ' ',
        decreases v@.len() - i,
    {
        if v[i] == ' ' {
            return Some(i);
        }
        i = i + 1;
    }
    None
}

impl Direction {
    /// Reads a direction token: `up`, `down`, `left` or `right`, lower case.
    pub fn parse(s: &str) -> (r: Option<Direction>)
        ensures
            r == parse_direction_spec(s@),
    {
        let v = chars_of(s);
        assert(v@.subrange(0, v@.len() as int) =~= s@);
        direction_in(&v, 0, v.len())
    }
}

impl Command {
    /// Reads a request: `has_pane <direction>` or `move_pane <direction>`,
    /// with a single space between the two tokens and nothing else.
    pub fn parse(s: &str) -> (r: Option<Command>)
        ensures
            r == parse_command_spec(s@),
    {
        let v = chars_of(s);
        let n = v.len();
        let i = match find_space(&v, 0) {
            Some(i) => i,
            None => {
                assert(!exists|i: int| sole_space(s@, i));
                return None;
            },
        };
        if let Some(k) = find_space(&v, i + 1) {
            assert(!exists|j: int| sole_space(s@, j)) by {
                if exists|j: int| sole_space(s@, j) {
                    let j = choose|j: int| sole_space(s@, j);
                    assert(i == j && k == j);
                }
            }
            return None;
        }
        assert(sole_space(s@, i as int));
        assert(forall|j: int| sole_space(s@, j) ==> j == i);
        assert(v@.subrange(i + 1, n as int) =~= s@.skip(i + 1));
        assert(v@.subrange(0, i as int) =~= s@.take(i as int));
        let d = match direction_in(&v, i + 1, n) {
            Some(d) => d,
            None => return None,
        };
        proof {
            reveal_strlit("has_pane");
            reveal_strlit("move_pane");
        }
        if spells(&v, 0, i, "has_pane") {
            assert("has_pane"@ =~= has_pane_word());
            Some(Command::HasPane(d))
        } else if spells(&v, 0, i, "move_pane") {
            assert("move_pane"@ =~= move_pane_word());
            Some(Command::MovePane(d))
        } else {
            assert("has_pane"@ =~= has_pane_word());
            assert("move_pane"@ =~= move_pane_word());
            None
        }
    }
}

} // verus!
