use vstd::prelude::*;
use vstd::string::StrSliceExecFns;

verus! {

/// The keyboard keys of the standard layout, indexed by the keypad key they
/// stand for:
///
/// ```text
/// Keypad       Keyboard
/// 1 2 3 C      1 2 3 4
/// 4 5 6 D      Q W E R
/// 7 8 9 E      A S D F
/// A 0 B F      Z X C V
/// ```
pub open spec fn layout() -> Seq<char> {
    seq!['X', '1', '2', '3', 'Q', 'W', 'E', 'A', 'S', 'D', 'Z', 'C', '4', 'R', 'F', 'V']
}

/// The keypad key of a keyboard key given by its character; letters count in
/// either case, every other character has no keypad key.
pub open spec fn keypad_of(c: char) -> Option<usize> {
    if c == '1' {
        Some(0x1)
    } else if c == '2' {
        Some(0x2)
    } else if c == '3' {
        Some(0x3)
    } else if c == '4' {
        Some(0xC)
    } else if c == 'q' || c == 'Q' {
        Some(0x4)
    } else if c == 'w' || c == 'W' {
        Some(0x5)
    } else if c == 'e' || c == 'E' {
        Some(0x6)
    } else if c == 'r' || c == 'R' {
        Some(0xD)
    } else if c == 'a' || c == 'A' {
        Some(0x7)
    } else if c == 's' || c == 'S' {
        Some(0x8)
    } else if c == 'd' || c == 'D' {
        Some(0x9)
    } else if c == 'f' || c == 'F' {
        Some(0xE)
    } else if c == 'z' || c == 'Z' {
        Some(0xA)
    } else if c == 'x' || c == 'X' {
        Some(0x0)
    } else if c == 'c' || c == 'C' {
        Some(0xB)
    } else if c == 'v' || c == 'V' {
        Some(0xF)
    } else {
        None
    }
}

/// The keypad key of a keyboard key given by its character.
pub fn key_to_keypad(c: char) -> (r: Option<usize>)
    ensures
        r == keypad_of(c),
{
    match c {
        '1' => Some(0x1),
        '2' => Some(0x2),
        '3' => Some(0x3),
        '4' => Some(0xC),
        'q' | 'Q' => Some(0x4),
        'w' | 'W' => Some(0x5),
        'e' | 'E' => Some(0x6),
        'r' | 'R' => Some(0xD),
        'a' | 'A' => Some(0x7),
        's' | 'S' => Some(0x8),
        'd' | 'D' => Some(0x9),
        'f' | 'F' => Some(0xE),
        'z' | 'Z' => Some(0xA),
        'x' | 'X' => Some(0x0),
        'c' | 'C' => Some(0xB),
        'v' | 'V' => Some(0xF),
        _ => None,
    }
}

/// The keypad key of a keyboard key given by its name, such as "Q" or "4":
/// a name of one character is mapped by `keypad_of`, any other name has no
/// keypad key.
pub fn key2btn(key: &str) -> (r: Option<usize>)
    ensures
        r == (if key@.len() == 1 { keypad_of(key@[0]) } else { None }),
{
    if key.unicode_len() == 1 {
        key_to_keypad(key.get_char(0))
    } else {
        None
    }
}

/// The keyboard mapping is the standard one: each keypad key 0..F comes from
/// exactly one keyboard key (in either letter case), and every keypad key
/// produced is below 16.
pub proof fn law_keypad_layout()
    ensures
        forall|k: int| 0 <= k < 16 ==> #[trigger] keypad_of(layout()[k]) == Some(k as usize),
        forall|c: char| (#[trigger] keypad_of(c)) is Some ==> keypad_of(c)->0 < 16,
        forall|c: char, d: char| (#[trigger] keypad_of(c)) is Some && keypad_of(c) == #[trigger] keypad_of(d)
            ==> c == d || (c as u32) + 32 == (d as u32) || (d as u32) + 32 == (c as u32),
{
}

/// The keyboard mapping key by key, as in the table above: digits 1 2 3 4,
/// then Q W E R, A S D F, Z X C V, letters in either case.
pub proof fn law_keypad_table()
    ensures
        keypad_of('1') == Some(0x1usize) && keypad_of('2') == Some(0x2usize),
        keypad_of('3') == Some(0x3usize) && keypad_of('4') == Some(0xCusize),
        keypad_of('q') == Some(0x4usize) && keypad_of('Q') == Some(0x4usize),
        keypad_of('w') == Some(0x5usize) && keypad_of('W') == Some(0x5usize),
        keypad_of('e') == Some(0x6usize) && keypad_of('E') == Some(0x6usize),
        keypad_of('r') == Some(0xDusize) && keypad_of('R') == Some(0xDusize),
        keypad_of('a') == Some(0x7usize) && keypad_of('A') == Some(0x7usize),
        keypad_of('s') == Some(0x8usize) && keypad_of('S') == Some(0x8usize),
        keypad_of('d') == Some(0x9usize) && keypad_of('D') == Some(0x9usize),
        keypad_of('f') == Some(0xEusize) && keypad_of('F') == Some(0xEusize),
        keypad_of('z') == Some(0xAusize) && keypad_of('Z') == Some(0xAusize),
        keypad_of('x') == Some(0x0usize) && keypad_of('X') == Some(0x0usize),
        keypad_of('c') == Some(0xBusize) && keypad_of('C') == Some(0xBusize),
        keypad_of('v') == Some(0xFusize) && keypad_of('V') == Some(0xFusize),
        forall|c: char| !(c == '1' || c == '2' || c == '3' || c == '4' || c == 'q' || c == 'Q' || c == 'w'
            || c == 'W' || c == 'e' || c == 'E' || c == 'r' || c == 'R' || c == 'a' || c == 'A' || c == 's'
            || c == 'S' || c == 'd' || c == 'D' || c == 'f' || c == 'F' || c == 'z' || c == 'Z' || c == 'x'
            || c == 'X' || c == 'c' || c == 'C' || c == 'v' || c == 'V') ==> #[trigger] keypad_of(c) is None,
{
}

} // verus!
