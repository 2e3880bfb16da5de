//! The game engine: the single owner of the sequence and the level.

use vstd::prelude::*;

use crate::buffer::{
    sigvec_clear, sigvec_get, sigvec_len, sigvec_new, sigvec_push, stored, SignalVec, CAPACITY,
};
use crate::game::{Game, GameResult};
use crate::signal::{counts_as_input, drawn_symbol, symbol_of_hold, Signal};

verus! {

/// The state of one memory game: the sequence to reproduce and the level
/// counter, which always equals the sequence's length.
pub struct MemoryGame {
    level: u8,
    state: SignalVec,
}

impl Game for MemoryGame {
    closed spec fn sequence(&self) -> Seq<Signal> {
        stored(self.state)
    }

    closed spec fn current_level(&self) -> int {
        self.level as int
    }

    closed spec fn wf(&self) -> bool {
        &&& self.level as int == stored(self.state).len()
        &&& 1 <= self.level <= CAPACITY
    }

    fn new_game(&mut self, entropy: u32) {
        self.level = 1;
        let new_signal = Signal::from(entropy);
        sigvec_clear(&mut self.state);
        sigvec_push(&mut self.state, new_signal);
        proof {
            assert(stored(self.state) =~= seq![drawn_symbol(entropy)]);
        }
    }

    fn advance(&mut self, entropy: u32) -> (level: u8) {
        self.level = self.level + 1;
        let new_signal = Signal::from(entropy);
        sigvec_push(&mut self.state, new_signal);

        self.level
    }

    fn play(&self, attempt: &SignalVec) -> (r: GameResult) {
        let matched = self.attempt_matches(attempt);
        GameResult::from(matched)
    }
}

impl MemoryGame {
    /// A fresh game at level one, its sequence one symbol drawn from the
    /// entropy word.
    pub fn new(entropy: u32) -> (g: MemoryGame)
        ensures
            g.wf(),
            g.sequence() == seq![drawn_symbol(entropy)],
            g.current_level() == 1,
    {
        let mut g = MemoryGame { level: 0, state: sigvec_new() };

        g.new_game(entropy);

        g
    }

    /// Whether the attempt equals the sequence in length and symbol for
    /// symbol, in order.
    fn attempt_matches(&self, attempt: &SignalVec) -> (r: bool)
        ensures
            r <==> stored(*attempt) == self.sequence(),
    {
        let n = sigvec_len(&self.state);
        let m = sigvec_len(attempt);
        if m != n {
            return false;
        }

        let mut i: usize = 0;
        while i < n
            invariant
                i <= n,
                n == stored(self.state).len(),
                n == stored(*attempt).len(),
                forall|j: int| 0 <= j < i ==> stored(*attempt)[j] == stored(self.state)[j],
            decreases n - i,
        {
            if sigvec_get(attempt, i) != sigvec_get(&self.state, i) {
                return false;
            }
            i = i + 1;
        }

        proof {
            assert(stored(*attempt) =~= stored(self.state));
        }
        true
    }

    /// The number of symbols in the current sequence.
    pub fn sequence_len(&self) -> (n: usize)
        ensures
            n == self.sequence().len(),
    {
        sigvec_len(&self.state)
    }

    /// The symbol at position `i` of the sequence, for playback in order.
    pub fn signal_at(&self, i: usize) -> (s: Signal)
        requires
            i < self.sequence().len(),
        ensures
            s == self.sequence()[i as int],
    {
        sigvec_get(&self.state, i)
    }

    /// One collection step: classifies a measured hold and appends it to the
    /// attempt when it counts as input.  A rejected sample leaves the
    /// attempt as it was, to be sampled again.  Returns whether the attempt
    /// has reached the sequence's length and collection is over.
    pub fn accept_sample(&self, attempt: &mut SignalVec, ms: u32) -> (done: bool)
        requires
            self.wf(),
            stored(*old(attempt)).len() < self.sequence().len(),
        ensures
            counts_as_input(ms) ==> stored(*final(attempt))
                == stored(*old(attempt)).push(symbol_of_hold(ms)),
            !counts_as_input(ms) ==> stored(*final(attempt)) == stored(*old(attempt)),
            done <==> stored(*final(attempt)).len() == self.sequence().len(),
    {
        let sample = Signal::from_duration(ms);
        match sample {
            None => {}
            Some(signal) => {
                sigvec_push(attempt, signal);
            }
        }
        let len = sigvec_len(attempt);
        len == self.sequence_len()
    }
}

} // verus!
