//! Turning the keys pressed during a tick into a direction, or into the wish
//! to quit.

use crate::direction::Direction;
use crate::engine::GameState;
use vstd::prelude::*;

verus! {

/// A key press, as far as the game tells keys apart.
#[derive(Clone, Copy, Debug, PartialEq, Eq, Structural)]
pub enum Key {
    Char(char),
    Up,
    Down,
    Left,
    Right,
    Other,
}

/// The direction that `key` asks for: `w`, `a`, `s`, `d` and the arrows.
pub open spec fn turn_of(key: Key) -> Option<Direction> {
    match key {
        Key::Up => Some(Direction::Up),
        Key::Left => Some(Direction::Left),
        Key::Down => Some(Direction::Down),
        Key::Right => Some(Direction::Right),
        Key::Char(c) => if c == 'w' {
            Some(Direction::Up)
        } else if c == 'a' {
            Some(Direction::Left)
        } else if c == 's' {
            Some(Direction::Down)
        } else if c == 'd' {
            Some(Direction::Right)
        } else {
            None
        },
        Key::Other => None,
    }
}

/// `key` asks to leave the game: `q` or `c`.
pub open spec fn is_quit(key: Key) -> bool {
    key == Key::Char('q') || key == Key::Char('c')
}

/// Some key of the batch asks to leave the game.
pub open spec fn quits(keys: Seq<Key>) -> bool {
    exists|i: int| 0 <= i < keys.len() && is_quit(#[trigger] keys[i])
}

/// The direction asked for by the last direction key of the batch, or
/// `current` if the batch holds no direction key.
pub open spec fn wanted(current: Direction, keys: Seq<Key>) -> Direction
    decreases keys.len(),
{
    if keys.len() == 0 {
        current
    } else {
        match turn_of(keys.last()) {
            Some(d) => d,
            None => wanted(current, keys.drop_last()),
        }
    }
}

/// The direction in effect after the batch: the wanted one, unless that is
/// the exact opposite of `current`, in which case `current` stays.
pub open spec fn steer(current: Direction, keys: Seq<Key>) -> Direction {
    if wanted(current, keys) == current.opposite() {
        current
    } else {
        wanted(current, keys)
    }
}

/// The direction that `key` asks for, if it is a direction key.
pub fn key_turn(key: Key) -> (turn: Option<Direction>)
    ensures
        turn == turn_of(key),
{
    match key {
        Key::Up => Some(Direction::Up),
        Key::Left => Some(Direction::Left),
        Key::Down => Some(Direction::Down),
        Key::Right => Some(Direction::Right),
        Key::Char(c) => if c == 'w' {
            Some(Direction::Up)
        } else if c == 'a' {
            Some(Direction::Left)
        } else if c == 's' {
            Some(Direction::Down)
        } else if c == 'd' {
            Some(Direction::Right)
        } else {
            None
        },
        Key::Other => None,
    }
}

/// Whether `key` asks to leave the game.
pub fn key_quits(key: Key) -> (quit: bool)
    ensures
        quit == is_quit(key),
{
    match key {
        Key::Char(c) => c == 'q' || c == 'c',
        _ => false,
    }
}

/// Resolves the keys pressed since the last tick, oldest first.
///
/// A quit key anywhere in the batch ends the game and leaves the direction
/// alone.  Otherwise the last direction key counts, and it is obeyed unless
/// it asks for the exact opposite of the direction in effect.
pub fn read_input(dir: &mut Direction, keys: &Vec<Key>) -> (state: GameState)
    ensures
        quits(keys@) ==> state == GameState::Quit && *final(dir) == *old(dir),
        !quits(keys@) ==> state == GameState::Alive && *final(dir) == steer(*old(dir), keys@),
        *final(dir) != old(dir).opposite(),
{
    let mut new_dir = *dir;
    let mut i: usize = 0;
    while i < keys.len()
        invariant
            i <= keys.len(),
            *dir == *old(dir),
            !quits(keys@.take(i as int)),
            new_dir == wanted(*dir, keys@.take(i as int)),
        decreases keys.len() - i,
    {
        let key = keys[i];
        if key_quits(key) {
            return GameState::Quit;
        }
        proof {
            let seen = keys@.take(i as int);
            let more = keys@.take(i + 1);
            assert(more.drop_last() =~= seen);
            assert(!quits(more));
        }
        match key_turn(key) {
            Some(d) => {
                new_dir = d;
            },
            None => {},
        }
        i += 1;
    }
    assert(keys@.take(i as int) =~= keys@);
    if new_dir != dir.opposite() {
        *dir = new_dir;
    }
    GameState::Alive
}

/// A lone key for the exact opposite of the direction in effect changes
/// nothing: the direction stays as it was.
pub proof fn lemma_reversal_rejected(current: Direction, key: Key)
    requires
        turn_of(key) == Some(current.opposite()),
    ensures
        !quits(seq![key]),
        steer(current, seq![key]) == current,
{
}

/// Whatever the keys, the direction in effect is never the exact opposite
/// of the one before.
pub proof fn lemma_never_reversed(current: Direction, keys: Seq<Key>)
    ensures
        steer(current, keys) != current.opposite(),
{
}

} // verus!
