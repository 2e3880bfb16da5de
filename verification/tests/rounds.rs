use memory_game::buffer::SignalVec;
use memory_game::engine::MemoryGame;
use memory_game::game::{Game, GameResult};
use memory_game::signal::Signal;

fn collect(game: &MemoryGame, holds: &[u32]) -> SignalVec {
    let mut attempt: SignalVec = heapless::Vec::new();
    let mut done = false;
    for &ms in holds {
        assert!(!done, "collection must stop once the attempt is full");
        done = game.accept_sample(&mut attempt, ms);
    }
    attempt
}

#[test]
fn fresh_game_is_level_one_with_one_symbol() {
    let g = MemoryGame::new(2);
    assert_eq!(g.sequence_len(), 1);
    assert_eq!(g.signal_at(0), Signal::Short);
}

#[test]
fn advance_appends_and_reports_the_new_level() {
    let mut g = MemoryGame::new(0);
    let level = g.advance(1);
    assert_eq!(level, 2);
    assert_eq!(g.sequence_len(), 2);
    // The earlier symbol is unchanged; the drawn one sits at the tail.
    assert_eq!(g.signal_at(0), Signal::Short);
    assert_eq!(g.signal_at(1), Signal::Long);
}

#[test]
fn even_entropy_grows_an_all_short_sequence() {
    let mut g = MemoryGame::new(2);
    assert_eq!(g.sequence_len(), 1);
    g.advance(4);
    g.advance(6);
    let level = g.advance(8);
    assert_eq!(level, 4);
    assert_eq!(g.sequence_len(), 4);
    for i in 0..4 {
        assert_eq!(g.signal_at(i), Signal::Short);
    }
}

#[test]
fn reproduced_holds_win_the_round() {
    // Sequence [Short, Long]; the player holds 300 ms then 1500 ms.
    let mut g = MemoryGame::new(0);
    g.advance(1);
    let attempt = collect(&g, &[300, 1500]);
    assert_eq!(g.play(&attempt), GameResult::Correct);
}

#[test]
fn bounced_hold_is_retried_without_counting() {
    // Sequence [Short]; a 5 ms bounce is rejected, then 50 ms counts.
    let g = MemoryGame::new(0);
    let mut attempt: SignalVec = heapless::Vec::new();
    assert!(!g.accept_sample(&mut attempt, 5));
    assert_eq!(attempt.len(), 0);
    assert!(g.accept_sample(&mut attempt, 50));
    assert_eq!(attempt.len(), 1);
    assert_eq!(g.play(&attempt), GameResult::Correct);
}

#[test]
fn wrong_symbols_lose_and_reset_starts_over() {
    // Sequence [Long, Short]; the player answers [Short, Short].
    let mut g = MemoryGame::new(1);
    g.advance(0);
    let attempt = collect(&g, &[300, 200]);
    assert_eq!(g.play(&attempt), GameResult::Incorrect);
    g.new_game(7);
    assert_eq!(g.sequence_len(), 1);
    assert_eq!(g.signal_at(0), Signal::Long);
}

#[test]
fn short_attempt_loses_by_length() {
    let mut g = MemoryGame::new(0);
    g.advance(2);
    let mut attempt: SignalVec = heapless::Vec::new();
    attempt.push(Signal::Short).unwrap();
    assert_eq!(g.play(&attempt), GameResult::Incorrect);
}

#[test]
fn resetting_twice_matches_resetting_once() {
    let mut once = MemoryGame::new(9);
    once.new_game(4);
    let mut twice = MemoryGame::new(17);
    twice.new_game(2);
    twice.new_game(4);
    assert_eq!(once.sequence_len(), twice.sequence_len());
    assert_eq!(once.signal_at(0), twice.signal_at(0));
}
