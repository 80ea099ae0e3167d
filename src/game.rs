use vstd::prelude::*;

verus! {

/// Number of distinct wrong letters that ends the game in a loss: one per
/// part of the figure.
pub const MAX_MISSES: u8 = 6;

/// The classification of one submitted letter.
#[derive(PartialEq, Eq, Structural, Clone, Copy, Debug)]
pub enum GuessOutcome {
    /// The letter was submitted before; nothing changed.
    Repeat,
    /// The letter is new and occurs in the target word.
    Hit(char),
    /// The letter is new and does not occur in the target word; `game_over`
    /// is set when this miss used up the last part of the figure.
    Miss { letter: char, game_over: bool },
    /// The game had already ended; the letter was ignored.
    Finished,
}

/// The abstract state of a game.
pub struct GameState {
    pub target: Seq<char>,
    pub guessed: Set<char>,
    pub misses: nat,
}

impl GameState {
    pub open spec fn is_lost(self) -> bool {
        self.misses >= MAX_MISSES as nat
    }

    /// Every letter of the target word has been guessed.
    pub open spec fn is_won(self) -> bool {
        forall|i: int| 0 <= i < self.target.len() ==> self.guessed.contains(#[trigger] self.target[i])
    }

    pub open spec fn is_finished(self) -> bool {
        self.is_lost() || self.is_won()
    }

    /// What submitting `c` in this state reports.
    pub open spec fn outcome(self, c: char) -> GuessOutcome {
        if self.guessed.contains(c) {
            GuessOutcome::Repeat
        } else if self.is_finished() {
            GuessOutcome::Finished
        } else if self.target.contains(c) {
            GuessOutcome::Hit(c)
        } else {
            GuessOutcome::Miss { letter: c, game_over: self.misses + 1 >= MAX_MISSES as nat }
        }
    }

    /// The state after submitting `c`.
    pub open spec fn next(self, c: char) -> GameState {
        if self.guessed.contains(c) || self.is_finished() {
            self
        } else if self.target.contains(c) {
            GameState { guessed: self.guessed.insert(c), ..self }
        } else {
            GameState { guessed: self.guessed.insert(c), misses: self.misses + 1, ..self }
        }
    }
}

/// A game in progress: the target word, the distinct letters guessed so far
/// and the number of those that missed.
pub struct Game {
    word: Vec<char>,
    guessed: Vec<char>,
    misses: u8,
}

impl View for Game {
    type V = GameState;

    closed spec fn view(&self) -> GameState {
        GameState { target: self.word@, guessed: Set::new(|c: char| self.guessed@.contains(c)), misses: self.misses as nat }
    }
}

/// Whether `c` occurs in `v`.
fn holds(v: &Vec<char>, c: char) -> (r: bool)
    ensures
        r == v@.contains(c),
{
    let mut i: usize = 0;
    while i < v.len()
        invariant
            i <= v.len(),
            forall|j: int| 0 <= j < i ==> v@[j] != c,
        decreases v.len() - i,
    {
        if v[i] == c {
            return true;
        }
        i += 1;
    }
    false
}

impl Game {
    pub open spec fn wf(&self) -> bool {
        self@.misses <= MAX_MISSES as nat
    }

    /// A fresh game on `word`: nothing guessed, no misses.
    pub fn new(word: Vec<char>) -> (g: Game)
        ensures
            g.wf(),
            g@.target == word@,
            g@.guessed == Set::<char>::empty(),
            g@.misses == 0,
    {
        let g = Game { word, guessed: Vec::new(), misses: 0 };
        proof {
            assert(g.guessed@ =~= Seq::<char>::empty());
            assert(g@.guessed =~= Set::<char>::empty());
        }
        g
    }

    /// Submits one letter: a repeat or a letter after the end of the game
    /// changes nothing; otherwise the letter joins the guessed set and, when
    /// it is not in the target word, counts as one more miss.
    pub fn submit(&mut self, letter: char) -> (r: GuessOutcome)
        requires
            old(self).wf(),
        ensures
            final(self).wf(),
            r == old(self)@.outcome(letter),
            final(self)@ == old(self)@.next(letter),
            final(self)@.target == old(self)@.target,
            old(self)@.misses <= final(self)@.misses <= MAX_MISSES as nat,
            old(self)@.target.contains(letter) ==> final(self)@.misses == old(self)@.misses,
            !old(self)@.guessed.contains(letter) && !old(self)@.target.contains(letter)
                && !old(self)@.is_finished() ==> final(self)@.misses == old(self)@.misses + 1
                && r is Miss && r->letter == letter,
    {
        if holds(&self.guessed, letter) {
            return GuessOutcome::Repeat;
        }
        if self.is_finished() {
            return GuessOutcome::Finished;
        }
        let ghost before = self@;
        self.guessed.push(letter);
        proof {
            let pre = old(self).guessed@;
            assert(self.guessed@ == pre.push(letter));
            assert forall|c: char| #[trigger] self@.guessed.contains(c) == before.guessed.insert(letter).contains(c) by {
                if pre.contains(c) {
                    let j = pre.index_of(c);
                    assert(self.guessed@[j] == c);
                }
                if self.guessed@.contains(c) && c != letter {
                    let j = self.guessed@.index_of(c);
                    assert(pre[j] == c);
                }
                if c == letter {
                    assert(self.guessed@[pre.len() as int] == letter);
                }
            }
            assert(self@.guessed =~= before.guessed.insert(letter));
        }
        if holds(&self.word, letter) {
            GuessOutcome::Hit(letter)
        } else {
            self.misses = self.misses + 1;
            GuessOutcome::Miss { letter, game_over: self.misses >= MAX_MISSES }
        }
    }

    /// The target word.
    pub fn target(&self) -> (r: &Vec<char>)
        ensures
            r@ == self@.target,
    {
        &self.word
    }

    /// The number of distinct wrong letters guessed so far.
    pub fn miss_tally(&self) -> (r: u8)
        ensures
            r as nat == self@.misses,
    {
        self.misses
    }

    /// Whether `letter` has been submitted before.
    pub fn has_guessed(&self, letter: char) -> (r: bool)
        ensures
            r == self@.guessed.contains(letter),
    {
        holds(&self.guessed, letter)
    }

    /// Whether every letter of the target word has been guessed.
    pub fn is_won(&self) -> (r: bool)
        ensures
            r == self@.is_won(),
    {
        let mut i: usize = 0;
        while i < self.word.len()
            invariant
                i <= self.word.len(),
                forall|j: int| 0 <= j < i ==> self@.guessed.contains(#[trigger] self@.target[j]),
            decreases self.word.len() - i,
        {
            if !holds(&self.guessed, self.word[i]) {
                assert(!self@.guessed.contains(self@.target[i as int]));
                return false;
            }
            i += 1;
        }
        true
    }

    /// Whether the figure is complete.
    pub fn is_lost(&self) -> (r: bool)
        ensures
            r == self@.is_lost(),
    {
        self.misses >= MAX_MISSES
    }

    /// Whether the game has ended, won or lost.
    pub fn is_finished(&self) -> (r: bool)
        ensures
            r == self@.is_finished(),
    {
        self.is_lost() || self.is_won()
    }
}

/// Submitting the same letter twice in a row: the second call leaves the
/// state exactly as the first left it, and when the letter was new and the
/// game still on, the first call is a hit or a miss and the second a repeat.
pub proof fn lemma_submit_twice(s: GameState, c: char)
    ensures
        s.next(c).next(c) == s.next(c),
        !s.guessed.contains(c) && !s.is_finished() ==> {
            &&& (s.outcome(c) is Hit || s.outcome(c) is Miss)
            &&& s.next(c).outcome(c) == GuessOutcome::Repeat
        },
{
}

} // verus!
