//! Movement directions and the keypad-digit script codec.
use vstd::prelude::*;

verus! {

/// One of the eight compass directions a train may take in one tick.
#[derive(Clone, Copy, Debug, PartialEq, Eq, Hash, Structural)]
pub enum Movement {
    UpLeft,
    Up,
    UpRight,
    Left,
    Right,
    DownLeft,
    Down,
    DownRight,
}

/// The (row, column) delta of a movement; rows grow downwards, columns rightwards.
pub open spec fn delta(m: Movement) -> (int, int) {
    match m {
        Movement::UpLeft => (-1, -1),
        Movement::Up => (-1, 0),
        Movement::UpRight => (-1, 1),
        Movement::Left => (0, -1),
        Movement::Right => (0, 1),
        Movement::DownLeft => (1, -1),
        Movement::Down => (1, 0),
        Movement::DownRight => (1, 1),
    }
}

/// The movement a keypad digit stands for, if any.
///
/// The digits mirror a numeric keypad: 7 8 9 on top, 4 and 6 in the middle,
/// 1 2 3 at the bottom.
pub open spec fn keypad(c: char) -> Option<Movement> {
    if c == '7' {
        Some(Movement::UpLeft)
    } else if c == '8' {
        Some(Movement::Up)
    } else if c == '9' {
        Some(Movement::UpRight)
    } else if c == '4' {
        Some(Movement::Left)
    } else if c == '6' {
        Some(Movement::Right)
    } else if c == '1' {
        Some(Movement::DownLeft)
    } else if c == '2' {
        Some(Movement::Down)
    } else if c == '3' {
        Some(Movement::DownRight)
    } else {
        None
    }
}

/// Whether every character of `s` is a keypad movement digit.
pub open spec fn is_script(s: Seq<char>) -> bool {
    forall|i: int| 0 <= i < s.len() ==> (#[trigger] keypad(s[i])) is Some
}

/// The movements a valid script decodes to, one per character.
pub open spec fn script_movements(s: Seq<char>) -> Seq<Movement> {
    s.map_values(|c: char| keypad(c)->Some_0)
}

impl Movement {
    /// Converts this movement to a (row, column) delta.
    ///
    /// Rows grow downwards and columns rightwards (screen coordinates), and the
    /// pair is ordered (row, column) to match cursor-position escapes.
    pub fn to_coordinates(&self) -> (r: (isize, isize))
        ensures
            (r.0 as int, r.1 as int) == delta(*self),
    {
        match self {
            Movement::UpLeft => (-1, -1),
            Movement::Up => (-1, 0),
            Movement::UpRight => (-1, 1),
            Movement::Left => (0, -1),
            Movement::Right => (0, 1),
            Movement::DownLeft => (1, -1),
            Movement::Down => (1, 0),
            Movement::DownRight => (1, 1),
        }
    }
}

fn decode_one(c: char) -> (r: Option<Movement>)
    ensures
        r == keypad(c),
{
    match c {
        '7' => Some(Movement::UpLeft),
        '8' => Some(Movement::Up),
        '9' => Some(Movement::UpRight),
        '4' => Some(Movement::Left),
        '6' => Some(Movement::Right),
        '1' => Some(Movement::DownLeft),
        '2' => Some(Movement::Down),
        '3' => Some(Movement::DownRight),
        _ => None,
    }
}

/// Decodes a movement script written in keypad digits.
///
/// Decoding is all-or-nothing: any character that is not one of the eight
/// movement digits (5, 0, letters and whitespace included) rejects the whole script.
pub fn decode_movements(movements: &str) -> (r: Option<Vec<Movement>>)
    ensures
        r is Some <==> is_script(movements@),
        r matches Some(v) ==> v@ == script_movements(movements@),
{
    let n = movements.unicode_len();
    let mut ret: Vec<Movement> = Vec::new();
    let mut i: usize = 0;
    while i < n
        invariant
            n == movements@.len(),
            i <= n,
            ret@ == script_movements(movements@.subrange(0, i as int)),
            is_script(movements@.subrange(0, i as int)),
        decreases n - i,
    {
        let c = movements.get_char(i);
        match decode_one(c) {
            Some(m) => {
                ret.push(m);
            },
            None => {
                assert(!is_script(movements@)) by {
                    assert(keypad(movements@[i as int]) is None);
                }
                return None;
            },
        }
        proof {
            let s = movements@;
            assert(s.subrange(0, i + 1) =~= s.subrange(0, i as int).push(c));
            assert(script_movements(s.subrange(0, i + 1)) =~= ret@);
            assert forall|j: int| 0 <= j < i + 1 implies (#[trigger] keypad(
                s.subrange(0, i + 1)[j],
            )) is Some by {
                if j < i {
                    assert(s.subrange(0, i + 1)[j] == s.subrange(0, i as int)[j]);
                }
            }
        }
        i = i + 1;
    }
    assert(movements@.subrange(0, n as int) =~= movements@);
    Some(ret)
}

/// Every movement moves by one step at most along each axis, and never stands still.
pub proof fn lemma_delta_is_unit_step(m: Movement)
    ensures
        -1 <= delta(m).0 <= 1,
        -1 <= delta(m).1 <= 1,
        delta(m) != (0int, 0int),
{
}

/// Distinct movements have distinct deltas.
pub proof fn lemma_delta_injective(a: Movement, b: Movement)
    ensures
        delta(a) == delta(b) ==> a == b,
{
}

} // verus!
