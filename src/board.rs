use vstd::prelude::*;
use crate::game::MAX_MISSES;

verus! {

/// Row of the top of the gallows.
pub const HANGER_TOP: i32 = 2;

/// One part of the hanged figure: its offset from the gallows' column and
/// from the row below the gallows' top, and the text drawn there.
pub struct BodyPart {
    pub x: i32,
    pub y: i32,
    pub sprite: &'static str,
}

/// Offset of the part drawn for the miss numbered `i` (from 0): head, body,
/// left arm, right arm, right leg, left leg.
pub open spec fn part_offset(i: int) -> (int, int) {
    if i == 0 {
        (0, 1)
    } else if i == 1 {
        (0, 2)
    } else if i == 2 {
        (-2, 2)
    } else if i == 3 {
        (1, 2)
    } else if i == 4 {
        (0, 3)
    } else {
        (-2, 3)
    }
}

/// Text of the part drawn for the miss numbered `i` (from 0).
pub open spec fn part_sprite(i: int) -> Seq<char> {
    if i == 0 {
        "O"@
    } else if i == 1 {
        "|"@
    } else if i == 2 {
        "\\-"@
    } else if i == 3 {
        "-/"@
    } else if i == 4 {
        "\\_"@
    } else {
        "_/"@
    }
}

/// The part of the figure drawn for the miss numbered `index` (from 0).
pub fn body_part(index: usize) -> (p: BodyPart)
    requires
        index < MAX_MISSES,
    ensures
        p.x == part_offset(index as int).0,
        p.y == part_offset(index as int).1,
        p.sprite@ == part_sprite(index as int),
{
    if index == 0 {
        BodyPart { x: 0, y: 1, sprite: "O" }
    } else if index == 1 {
        BodyPart { x: 0, y: 2, sprite: "|" }
    } else if index == 2 {
        BodyPart { x: -2, y: 2, sprite: "\\-" }
    } else if index == 3 {
        BodyPart { x: 1, y: 2, sprite: "-/" }
    } else if index == 4 {
        BodyPart { x: 0, y: 3, sprite: "\\_" }
    } else {
        BodyPart { x: -2, y: 3, sprite: "_/" }
    }
}

/// Column and row of the gallows on a window `window_width` cells wide: a
/// fifth of the way across, at the top row.
pub fn hanger_position(window_width: u16) -> (r: (i32, i32))
    ensures
        r.0 == window_width as int / 5,
        r.1 == HANGER_TOP,
{
    ((window_width / 5) as i32, HANGER_TOP)
}

/// Column and row of the part drawn for the miss numbered `index` (from 0),
/// relative to the gallows on a window `window_width` cells wide.
pub fn body_part_position(window_width: u16, index: usize) -> (r: (i32, i32))
    requires
        index < MAX_MISSES,
    ensures
        r.0 == window_width as int / 5 + part_offset(index as int).0,
        r.1 == HANGER_TOP + 1 + part_offset(index as int).1,
{
    let part = body_part(index);
    let (x, y) = hanger_position(window_width);
    (x + part.x, y + 1 + part.y)
}

/// One placeholder per letter of `word`, in the top row: the column of each
/// is the letter's position in the word.
pub fn letter_slots(word: &Vec<char>) -> (r: Vec<(i32, char)>)
    requires
        word.len() <= i32::MAX,
    ensures
        r.len() == word.len(),
        forall|i: int| 0 <= i < word.len() ==> #[trigger] r@[i] == (i as i32, word@[i]),
{
    let mut r: Vec<(i32, char)> = Vec::new();
    let mut i: usize = 0;
    while i < word.len()
        invariant
            i <= word.len() <= i32::MAX,
            r.len() == i,
            forall|j: int| 0 <= j < i ==> #[trigger] r@[j] == (j as i32, word@[j]),
        decreases word.len() - i,
    {
        r.push((i as i32, word[i]));
        i += 1;
    }
    r
}

/// The positions in `word` that hold `letter`, in increasing order: the
/// placeholders that a hit on `letter` reveals.
pub fn slots_of(word: &Vec<char>, letter: char) -> (r: Vec<usize>)
    ensures
        forall|k: int| 0 <= k < r.len() ==> #[trigger] r@[k] < word.len() && word@[r@[k] as int] == letter,
        forall|i: int| 0 <= i < word.len() && word@[i] == letter ==> r@.contains(i as usize),
        forall|k: int, l: int| 0 <= k < l < r.len() ==> r@[k] < r@[l],
{
    let mut r: Vec<usize> = Vec::new();
    let mut i: usize = 0;
    while i < word.len()
        invariant
            i <= word.len(),
            forall|k: int| 0 <= k < r.len() ==> #[trigger] r@[k] < i && word@[r@[k] as int] == letter,
            forall|j: int| 0 <= j < i && word@[j] == letter ==> r@.contains(j as usize),
            forall|k: int, l: int| 0 <= k < l < r.len() ==> r@[k] < r@[l],
        decreases word.len() - i,
    {
        if word[i] == letter {
            let ghost pre = r@;
            r.push(i);
            proof {
                assert forall|j: int| 0 <= j < i + 1 && word@[j] == letter implies r@.contains(j as usize) by {
                    if j < i {
                        let k = pre.index_of(j as usize);
                        assert(r@[k] == j as usize);
                    } else {
                        assert(r@[pre.len() as int] == i);
                    }
                }
            }
        }
        i += 1;
    }
    r
}

} // verus!
