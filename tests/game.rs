use hangman::game::{Game, GuessOutcome, MAX_MISSES};

fn hello() -> Game {
    Game::new("hello".chars().collect())
}

#[test]
fn loss_after_six_misses() {
    let mut g = hello();
    let letters = ['z', 'x', 'q', 'w', 'v', 'u'];
    for (k, c) in letters.iter().enumerate() {
        let r = g.submit(*c);
        let last = k == letters.len() - 1;
        assert_eq!(r, GuessOutcome::Miss { letter: *c, game_over: last });
        assert_eq!(g.miss_tally() as usize, k + 1);
    }
    assert_eq!(g.miss_tally(), 6);
    assert!(g.is_lost());
    assert!(g.is_finished());
    assert!(!g.is_won());
}

#[test]
fn hit_then_repeat() {
    let mut g = hello();
    assert_eq!(g.submit('h'), GuessOutcome::Hit('h'));
    assert_eq!(g.submit('h'), GuessOutcome::Repeat);
    assert_eq!(g.miss_tally(), 0);
}

#[test]
fn win_after_all_distinct_letters() {
    let mut g = hello();
    for c in ['o', 'l', 'h'] {
        assert_eq!(g.submit(c), GuessOutcome::Hit(c));
        assert!(!g.is_won());
    }
    assert_eq!(g.submit('e'), GuessOutcome::Hit('e'));
    assert!(g.is_won());
    assert!(g.is_finished());
    assert!(!g.is_lost());
    assert_eq!(g.miss_tally(), 0);
}

#[test]
fn new_miss_counts_once() {
    let mut g = hello();
    assert_eq!(g.submit('a'), GuessOutcome::Miss { letter: 'a', game_over: false });
    assert_eq!(g.miss_tally(), 1);
    assert_eq!(g.submit('b'), GuessOutcome::Miss { letter: 'b', game_over: false });
    assert_eq!(g.miss_tally(), 2);
}

#[test]
fn target_letters_never_miss() {
    let mut g = hello();
    for c in ['l', 'l', 'h', 'e', 'l'] {
        g.submit(c);
        assert_eq!(g.miss_tally(), 0);
    }
}

#[test]
fn second_submit_is_repeat_and_changes_nothing() {
    let mut g = hello();
    assert_eq!(g.submit('x'), GuessOutcome::Miss { letter: 'x', game_over: false });
    assert_eq!(g.submit('x'), GuessOutcome::Repeat);
    assert_eq!(g.miss_tally(), 1);
    assert!(g.has_guessed('x'));
    assert!(!g.has_guessed('h'));
}

#[test]
fn case_is_significant() {
    let mut g = hello();
    assert_eq!(g.submit('H'), GuessOutcome::Miss { letter: 'H', game_over: false });
    assert_eq!(g.submit('h'), GuessOutcome::Hit('h'));
}

#[test]
fn tally_stays_within_capacity_after_loss() {
    let mut g = hello();
    for c in ['z', 'x', 'q', 'w', 'v', 'u', 'a', 'b'] {
        let before = g.miss_tally();
        g.submit(c);
        assert!(g.miss_tally() >= before);
        assert!(g.miss_tally() <= MAX_MISSES);
    }
    assert_eq!(g.miss_tally(), MAX_MISSES);
    assert_eq!(g.submit('h'), GuessOutcome::Finished);
    assert!(!g.has_guessed('a'));
    assert_eq!(g.submit('z'), GuessOutcome::Repeat);
}

#[test]
fn guesses_after_win_are_ignored() {
    let mut g = Game::new(vec!['a']);
    assert_eq!(g.submit('a'), GuessOutcome::Hit('a'));
    assert_eq!(g.submit('b'), GuessOutcome::Finished);
    assert_eq!(g.miss_tally(), 0);
}

#[test]
fn empty_word_is_won_at_once() {
    let mut g = Game::new(Vec::new());
    assert!(g.is_won());
    assert_eq!(g.submit('a'), GuessOutcome::Finished);
}

#[test]
fn target_is_kept() {
    let g = hello();
    assert_eq!(g.target(), &vec!['h', 'e', 'l', 'l', 'o']);
}
