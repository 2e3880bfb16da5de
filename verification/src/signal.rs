//! The signal codec: between physical time and discrete symbols.

use vstd::prelude::*;

verus! {

/// Shortest hold, in milliseconds, that counts as input; anything briefer is
/// treated as contact bounce and rejected.
pub const MIN_HOLD_MS: u32 = 10;

/// Longest hold, in milliseconds, that still classifies as a short signal.
pub const SHORT_MAX_MS: u32 = 500;

/// Active pulse width, in milliseconds, when a short signal is played back.
pub const SHORT_PULSE_MS: u32 = 500;

/// Active pulse width, in milliseconds, when a long signal is played back.
pub const LONG_PULSE_MS: u32 = 2000;

/// Inactive gap, in milliseconds, after every pulse, so that an observer can
/// tell adjacent pulses apart.
pub const GAP_MS: u32 = 250;

/// A signal symbol: a short or a long pulse, like a Morse dot or dash.
#[derive(Debug, PartialEq, Eq, Structural, Clone, Copy)]
pub enum Signal {
    Short,
    Long,
}

/// Whether a hold of `ms` milliseconds counts as input at all.
pub open spec fn counts_as_input(ms: u32) -> bool {
    ms >= MIN_HOLD_MS
}

/// The symbol a counted hold of `ms` milliseconds reads as.
pub open spec fn symbol_of_hold(ms: u32) -> Signal {
    if ms <= SHORT_MAX_MS {
        Signal::Short
    } else {
        Signal::Long
    }
}

/// The classification of a hold of `ms` milliseconds: rejected when briefer
/// than the bounce floor, otherwise short up to the boundary and long above.
pub open spec fn classify(ms: u32) -> Option<Signal> {
    if counts_as_input(ms) {
        Some(symbol_of_hold(ms))
    } else {
        None
    }
}

/// The symbol one entropy word draws: even words give a short signal, odd
/// words a long one.
pub open spec fn drawn_symbol(entropy: u32) -> Signal {
    if entropy % 2 == 0 {
        Signal::Short
    } else {
        Signal::Long
    }
}

/// The active pulse width, in milliseconds, that plays a symbol back.
pub open spec fn pulse_of(s: Signal) -> u32 {
    match s {
        Signal::Short => SHORT_PULSE_MS,
        Signal::Long => LONG_PULSE_MS,
    }
}

impl Signal {
    /// Classifies a measured hold duration, given in milliseconds.
    pub fn from_duration(ms: u32) -> (r: Option<Signal>)
        ensures
            r == classify(ms),
            ms < MIN_HOLD_MS ==> r is None,
            MIN_HOLD_MS <= ms <= SHORT_MAX_MS ==> r == Some(Signal::Short),
            ms > SHORT_MAX_MS ==> r == Some(Signal::Long),
    {
        if ms < MIN_HOLD_MS {
            return None;
        }

        if ms <= SHORT_MAX_MS {
            return Some(Signal::Short);
        }

        Some(Signal::Long)
    }

    /// The width of the active pulse that plays this symbol back.  Every
    /// pulse is followed by the same inactive gap of `GAP_MS` milliseconds.
    pub fn pulse_duration(&self) -> (r: u32)
        ensures
            r == pulse_of(*self),
            *self == Signal::Short ==> r == SHORT_PULSE_MS,
            *self == Signal::Long ==> r == LONG_PULSE_MS,
    {
        match self {
            Signal::Short => SHORT_PULSE_MS,
            Signal::Long => LONG_PULSE_MS,
        }
    }

    /// The inactive gap that follows every pulse, whatever the symbol.
    pub fn gap_duration() -> (r: u32)
        ensures
            r == GAP_MS,
    {
        GAP_MS
    }

    /// The character that pictures this symbol: a dot for short, a dash for
    /// long.
    pub fn to_char(&self) -> (c: char)
        ensures
            *self == Signal::Short ==> c == '.',
            *self == Signal::Long ==> c == '-',
    {
        match self {
            Signal::Short => '.',
            Signal::Long => '-',
        }
    }
}

impl From<u32> for Signal {
    /// Draws a symbol from one entropy word by parity.
    fn from(value: u32) -> (r: Self) {
        if value % 2 == 0 {
            Signal::Short
        } else {
            Signal::Long
        }
    }
}

impl vstd::std_specs::convert::FromSpecImpl<u32> for Signal {
    open spec fn obeys_from_spec() -> bool {
        true
    }

    open spec fn from_spec(value: u32) -> Self {
        drawn_symbol(value)
    }
}

} // verus!
