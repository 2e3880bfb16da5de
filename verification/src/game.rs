//! The game interface: the verdict on one round and the three engine
//! operations the driver loop calls.

use vstd::prelude::*;

use crate::buffer::{stored, SignalVec, CAPACITY};
use crate::signal::{drawn_symbol, Signal};

verus! {

/// The verdict on one played round.
#[derive(Debug, PartialEq, Eq, Structural, Clone, Copy)]
pub enum GameResult {
    Correct,
    Incorrect,
}

/// The verdict that a match outcome maps to.
pub open spec fn verdict(matched: bool) -> GameResult {
    if matched {
        GameResult::Correct
    } else {
        GameResult::Incorrect
    }
}

impl From<bool> for GameResult {
    /// `true` is a correct round, `false` an incorrect one.
    fn from(value: bool) -> (r: Self) {
        if value {
            GameResult::Correct
        } else {
            GameResult::Incorrect
        }
    }
}

impl vstd::std_specs::convert::FromSpecImpl<bool> for GameResult {
    open spec fn obeys_from_spec() -> bool {
        true
    }

    open spec fn from_spec(value: bool) -> Self {
        verdict(value)
    }
}

/// The observable state a reset leaves behind: level one, and a sequence of
/// exactly one symbol, drawn from the entropy word.
pub open spec fn post_reset_state(sequence: Seq<Signal>, level: int, entropy: u32) -> bool {
    &&& sequence == seq![drawn_symbol(entropy)]
    &&& level == 1
}

/// A memory game: a bounded sequence of symbols the player must reproduce,
/// and a level counter that always equals the sequence's length.
///
/// The driver loop plays rounds forever: it collects an attempt, judges it
/// with `play`, then calls `advance` on a correct round and `new_game` on an
/// incorrect one.  Each drawn symbol consumes one entropy word, handed in by
/// the caller.
pub trait Game: Sized {
    /// The sequence of symbols the player must reproduce, oldest first.
    spec fn sequence(&self) -> Seq<Signal>;

    /// The current level: the number of symbols the player faces.
    spec fn current_level(&self) -> int;

    /// A well-formed game: the level counts the sequence's symbols, and the
    /// sequence holds at least one of them and fits its capacity.
    spec fn wf(&self) -> bool;

    /// Starts over: one freshly drawn symbol, level one.  The state after
    /// the call depends on the entropy word alone, never on the state
    /// before.
    fn new_game(&mut self, entropy: u32)
        ensures
            final(self).wf(),
            post_reset_state(final(self).sequence(), final(self).current_level(), entropy),
            final(self).sequence() == seq![drawn_symbol(entropy)],
            final(self).sequence().len() == 1,
            final(self).current_level() == 1,
    ;

    /// Grows the sequence by one freshly drawn symbol and returns the new
    /// level.  Only called after a correct round; a sequence already at
    /// capacity must not be grown.
    fn advance(&mut self, entropy: u32) -> (level: u8)
        requires
            old(self).wf(),
            old(self).sequence().len() < CAPACITY,
        ensures
            final(self).wf(),
            final(self).sequence() == old(self).sequence().push(drawn_symbol(entropy)),
            final(self).current_level() == old(self).current_level() + 1,
            level as int == final(self).current_level(),
    ;

    /// Judges one collected attempt: correct exactly when it equals the
    /// sequence in length and symbol for symbol, in order.
    fn play(&self, attempt: &SignalVec) -> (r: GameResult)
        ensures
            r == GameResult::Correct <==> stored(*attempt) == self.sequence(),
    ;
}

/// Law: a reset is idempotent.  Any two observable states that a reset with
/// the same entropy word leaves behind are equal, whatever the states before
/// were — so resetting twice in a row ends exactly as resetting once with
/// the second word.  The drawn symbol may still differ between two resets,
/// since each consumes its own entropy word.
pub proof fn lemma_reset_idempotent(
    seq1: Seq<Signal>,
    level1: int,
    seq2: Seq<Signal>,
    level2: int,
    entropy: u32,
)
    requires
        post_reset_state(seq1, level1, entropy),
        post_reset_state(seq2, level2, entropy),
    ensures
        seq1 == seq2,
        level1 == level2,
        level1 == 1,
        seq1.len() == 1,
{
}

/// Law: growing a sequence only ever appends.  A sequence grown by one
/// symbol is one longer, keeps each of its earlier symbols unchanged and in
/// place, and carries the new symbol at its tail.
pub proof fn lemma_growth_appends(before: Seq<Signal>, after: Seq<Signal>, s: Signal)
    requires
        after == before.push(s),
    ensures
        after.len() == before.len() + 1,
        forall|i: int| 0 <= i < before.len() ==> after[i] == before[i],
        after[before.len() as int] == s,
{
}

/// Law: a correct round means equality in both length and symbol order.
/// The sequence equality that `play` decides holds exactly when the two
/// sequences have the same length and the same symbol at every position.
pub proof fn lemma_match_is_elementwise(attempt: Seq<Signal>, sequence: Seq<Signal>)
    ensures
        attempt == sequence <==> (attempt.len() == sequence.len() && forall|i: int|
            0 <= i < sequence.len() ==> attempt[i] == sequence[i]),
{
    if attempt.len() == sequence.len() && (forall|i: int|
        0 <= i < sequence.len() ==> attempt[i] == sequence[i]) {
        assert(attempt =~= sequence);
    }
}

} // verus!
