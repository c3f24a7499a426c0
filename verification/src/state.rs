//! The mathematical model of a generator: its state, what a refresh draws,
//! the step from one state to the next, and the identifier a state spells.

use vstd::prelude::*;
use crate::alphabet::{is_alphanumeric, is_symbol, lemma_symbol_of_digit, symbol};
use crate::base62::{digits, value, MAX_SEQ, SEQ_LEN};

verus! {

/// Number of characters in the prefix of an identifier.
pub const PRE_LEN: usize = 12;

/// Number of characters in an identifier.
pub const TOTAL_LEN: usize = 22;

/// Smallest increment that the generator's own source draws.
pub const MIN_INC: u64 = 33;

/// Every increment is below this bound.
pub const MAX_INC: u64 = 333;

/// What one refresh takes from the random sources: twelve bytes for the
/// prefix, a starting sequence and an increment.
#[derive(Clone, Copy, Debug)]
pub struct Draws {
    pub samples: [u8; 12],
    pub sequence: u64,
    pub increment: u64,
}

/// The value of a generator.
pub struct State {
    pub prefix: Seq<char>,
    pub sequence: nat,
    pub increment: nat,
}

/// The prefix that twelve drawn bytes give: each byte, reduced modulo 62,
/// picks its symbol.
pub open spec fn prefix_from(samples: Seq<u8>) -> Seq<char> {
    Seq::new(samples.len(), |i: int| symbol((samples[i] % 62) as int))
}

/// Whether `samples` are twelve ASCII letters or digits, as the entropy
/// source delivers them.
pub open spec fn alphanumeric_samples(samples: Seq<u8>) -> bool {
    &&& samples.len() == PRE_LEN
    &&& forall|i: int| 0 <= i < samples.len() ==> is_alphanumeric(#[trigger] samples[i])
}

/// Whether `prefix` is twelve symbols of the alphabet.
pub open spec fn is_prefix(prefix: Seq<char>) -> bool {
    &&& prefix.len() == PRE_LEN
    &&& forall|i: int| 0 <= i < prefix.len() ==> is_symbol(#[trigger] prefix[i])
}

/// The leading twelve characters of an identifier.
pub open spec fn leading(id: Seq<char>) -> Seq<char> {
    id.subrange(0, PRE_LEN as int)
}

/// The trailing ten characters of an identifier, read as a base-62 number.
pub open spec fn trailing(id: Seq<char>) -> nat {
    value(id.subrange(PRE_LEN as int, TOTAL_LEN as int))
}

impl Draws {
    /// Draws that a generator can be refreshed from: the sequence fits ten
    /// digits, and the increment moves it forward without leaving `u64`.
    pub open spec fn usable(self) -> bool {
        &&& self.sequence < MAX_SEQ
        &&& 0 < self.increment < MAX_INC
    }

    /// Draws as the generator's own sources deliver them: letters and digits
    /// for the prefix, and an increment of at least `MIN_INC`.
    pub open spec fn native(self) -> bool {
        &&& self.usable()
        &&& MIN_INC <= self.increment
        &&& alphanumeric_samples(self.samples@)
    }

    /// The state that a refresh from these draws leaves.
    pub open spec fn state(self) -> State {
        State {
            prefix: prefix_from(self.samples@),
            sequence: self.sequence as nat,
            increment: self.increment as nat,
        }
    }

    /// Whether a generator can be refreshed from these draws.
    pub fn is_usable(&self) -> (answer: bool)
        ensures
            answer == self.usable(),
    {
        self.sequence < MAX_SEQ && 0 < self.increment && self.increment < MAX_INC
    }
}

impl State {
    /// The state of a generator that has not yet given an identifier: the
    /// sequence stands at its limit, so that the first step refreshes.
    pub open spec fn initial(prefix: Seq<char>) -> State {
        State { prefix, sequence: MAX_SEQ as nat, increment: 0 }
    }

    /// Whether no identifier has been given yet.
    pub open spec fn pending(self) -> bool {
        self.sequence == MAX_SEQ && self.increment == 0
    }

    /// Whether the state is that of a generator within an epoch.
    pub open spec fn running(self) -> bool {
        self.sequence < MAX_SEQ && 0 < self.increment < MAX_INC
    }

    /// The invariant of a generator.
    pub open spec fn valid(self) -> bool {
        is_prefix(self.prefix) && (self.pending() || self.running())
    }

    /// Whether the next step leaves the sequence space, and so refreshes.
    pub open spec fn exhausted(self) -> bool {
        self.sequence + self.increment >= MAX_SEQ
    }

    /// The state one increment further, within the same epoch.
    pub open spec fn advanced(self) -> State {
        State { sequence: self.sequence + self.increment, ..self }
    }

    /// The state after one step: a refresh from `draws` where the sequence
    /// space is exhausted, one increment further where it is not.
    pub open spec fn successor(self, draws: Draws) -> State {
        if self.exhausted() {
            draws.state()
        } else {
            self.advanced()
        }
    }

    /// The identifier that the state spells: the prefix, then the sequence in
    /// ten base-62 digits.
    pub open spec fn identifier(self) -> Seq<char> {
        self.prefix + digits(self.sequence, SEQ_LEN as nat)
    }
}

/// Twelve drawn bytes always give a prefix of twelve symbols.
pub proof fn lemma_prefix_from_is_prefix(samples: Seq<u8>)
    requires
        samples.len() == PRE_LEN,
    ensures
        is_prefix(prefix_from(samples)),
{
    assert forall|i: int| 0 <= i < PRE_LEN implies is_symbol(
        #[trigger] prefix_from(samples)[i],
    ) by {
        lemma_symbol_of_digit((samples[i] % 62) as int);
    }
}

} // verus!
