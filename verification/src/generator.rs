//! The generator: twelve random characters, then a counter in ten base-62
//! digits that moves on by a random increment and starts afresh, under a new
//! prefix, when its space is used up.

use vstd::prelude::*;
use crate::alphabet::{as_text, is_alphanumeric, is_symbol, symbol_byte, BASE};
use crate::base62::{encode, lemma_digits_len, MAX_SEQ, SEQ_LEN};
use crate::sources::{entropy_alphanumeric, pseudo_random_in};
use crate::state::{
    alphanumeric_samples, leading, lemma_prefix_from_is_prefix, prefix_from, trailing, Draws,
    State, MAX_INC, MIN_INC, PRE_LEN, TOTAL_LEN,
};
use crate::text::string_of;
use crate::theorems::{theorem_alphabet_closure, theorem_fixed_width, theorem_identifier_parts};

verus! {

/// A generator of 22-character identifiers.
pub struct NUID {
    pre: [u8; 12],
    seq: u64,
    inc: u64,
}

impl View for NUID {
    type V = State;

    closed spec fn view(&self) -> State {
        State {
            prefix: as_text(self.pre@),
            sequence: self.seq as nat,
            increment: self.inc as nat,
        }
    }
}

/// The prefix bytes that twelve drawn bytes give.
fn prefix_bytes(samples: &[u8; 12]) -> (pre: [u8; 12])
    ensures
        as_text(pre@) == prefix_from(samples@),
{
    let mut pre: [u8; 12] = [0; 12];
    let mut i: usize = 0;
    while i < PRE_LEN
        invariant
            i <= PRE_LEN,
            forall|j: int| 0 <= j < i ==> pre@[j] as char == #[trigger] prefix_from(samples@)[j],
        decreases PRE_LEN - i,
    {
        pre[i] = symbol_byte((samples[i] as u64) % BASE);
        i = i + 1;
    }
    assert(as_text(pre@) =~= prefix_from(samples@));
    pre
}

/// Twelve bytes from the entropy source.
fn entropy_samples() -> (samples: [u8; 12])
    ensures
        alphanumeric_samples(samples@),
{
    let mut samples: [u8; 12] = [0; 12];
    let mut i: usize = 0;
    while i < PRE_LEN
        invariant
            i <= PRE_LEN,
            forall|j: int| 0 <= j < i ==> is_alphanumeric(#[trigger] samples@[j]),
        decreases PRE_LEN - i,
    {
        samples[i] = entropy_alphanumeric();
        i = i + 1;
    }
    samples
}

/// What a refresh needs, from the generator's own sources: the prefix bytes
/// from the entropy source, then the sequence and the increment from the
/// fast one.
fn native_draws() -> (draws: Draws)
    ensures
        draws.native(),
{
    let samples = entropy_samples();
    let sequence: u64 = pseudo_random_in(0, MAX_SEQ);
    let increment: u64 = pseudo_random_in(MIN_INC, MAX_INC);
    Draws { samples, sequence, increment }
}

impl NUID {
    #[verifier::type_invariant]
    spec fn well_formed(&self) -> bool {
        self@.valid()
    }

    /// A generator whose prefix comes from the given bytes. It has given no
    /// identifier yet, and its first step refreshes.
    pub fn from_samples(samples: &[u8; 12]) -> (generator: NUID)
        ensures
            generator@ == State::initial(prefix_from(samples@)),
            generator@.valid(),
    {
        let pre = prefix_bytes(samples);
        proof {
            lemma_prefix_from_is_prefix(samples@);
        }
        NUID { pre, seq: MAX_SEQ, inc: 0 }
    }

    /// A generator with a prefix from the entropy source. It has given no
    /// identifier yet, and its first step refreshes.
    pub fn new() -> (generator: NUID)
        ensures
            exists|samples: Seq<u8>|
                alphanumeric_samples(samples) && generator@ == State::initial(
                    #[trigger] prefix_from(samples),
                ),
            generator@.valid(),
            generator@.pending(),
    {
        let samples = entropy_samples();
        NUID::from_samples(&samples)
    }

    /// The next identifier. Within an epoch the sequence moves on by the
    /// increment; where that would leave the sequence space, prefix, sequence
    /// and increment are drawn anew from the generator's own sources.
    pub fn next(&mut self) -> (id: String)
        ensures
            old(self)@.exhausted() ==> exists|draws: Draws|
                draws.native() && final(self)@ == #[trigger] draws.state(),
            !old(self)@.exhausted() ==> final(self)@ == old(self)@.advanced(),
            final(self)@.valid(),
            final(self)@.running(),
            id@ == final(self)@.identifier(),
            id@.len() == TOTAL_LEN,
            forall|i: int| 0 <= i < id@.len() ==> is_symbol(#[trigger] id@[i]),
            leading(id@) == final(self)@.prefix,
            trailing(id@) == final(self)@.sequence,
    {
        proof {
            use_type_invariant(&*self);
        }
        if self.seq + self.inc >= MAX_SEQ {
            let draws = native_draws();
            self.refresh(&draws);
        } else {
            self.seq = self.seq + self.inc;
        }
        proof {
            theorem_fixed_width(self@);
            theorem_alphabet_closure(self@);
            theorem_identifier_parts(self@);
        }
        self.render()
    }

    /// The next identifier, with `draws` in place of the generator's own
    /// sources. The draws are used only where the step refreshes.
    pub fn next_with(&mut self, draws: &Draws) -> (id: String)
        requires
            draws.usable(),
        ensures
            final(self)@ == old(self)@.successor(*draws),
            final(self)@.valid(),
            final(self)@.running(),
            id@ == final(self)@.identifier(),
            id@.len() == TOTAL_LEN,
            forall|i: int| 0 <= i < id@.len() ==> is_symbol(#[trigger] id@[i]),
            leading(id@) == final(self)@.prefix,
            trailing(id@) == final(self)@.sequence,
    {
        proof {
            use_type_invariant(&*self);
        }
        if self.seq + self.inc >= MAX_SEQ {
            self.refresh(draws);
        } else {
            self.seq = self.seq + self.inc;
        }
        proof {
            theorem_fixed_width(self@);
            theorem_alphabet_closure(self@);
            theorem_identifier_parts(self@);
        }
        self.render()
    }

    /// Starts a new epoch from `draws`.
    fn refresh(&mut self, draws: &Draws)
        requires
            draws.usable(),
        ensures
            final(self)@ == draws.state(),
            final(self)@.valid(),
            final(self)@.running(),
    {
        let pre = prefix_bytes(&draws.samples);
        proof {
            lemma_prefix_from_is_prefix(draws.samples@);
        }
        *self = NUID { pre, seq: draws.sequence, inc: draws.increment };
    }

    /// The identifier of the current state.
    fn render(&self) -> (id: String)
        ensures
            id@ == self@.identifier(),
    {
        proof {
            use_type_invariant(self);
        }
        let mut buffer: [u8; 22] = [0; 22];
        let mut i: usize = 0;
        while i < PRE_LEN
            invariant
                i <= PRE_LEN,
                forall|j: int| 0 <= j < i ==> buffer@[j] == self.pre@[j],
            decreases PRE_LEN - i,
        {
            buffer[i] = self.pre[i];
            i = i + 1;
        }
        let numeral = encode(self.seq);
        let mut k: usize = 0;
        while k < SEQ_LEN
            invariant
                k <= SEQ_LEN,
                forall|j: int| 0 <= j < PRE_LEN ==> buffer@[j] == self.pre@[j],
                forall|j: int| 0 <= j < k ==> buffer@[PRE_LEN + j] == numeral@[j],
            decreases SEQ_LEN - k,
        {
            buffer[PRE_LEN + k] = numeral[k];
            k = k + 1;
        }
        proof {
            lemma_digits_len(self.seq as nat, SEQ_LEN as nat);
            assert(as_text(buffer@) =~= as_text(self.pre@) + as_text(numeral@));
        }
        string_of(&buffer)
    }
}

} // verus!
