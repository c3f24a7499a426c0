//! What holds of every generator, stated over the model of its state.

use vstd::prelude::*;
use crate::alphabet::is_symbol;
use crate::base62::{
    digits, lemma_capacity_of_sequence, lemma_digits_are_symbols, lemma_digits_len,
    lemma_value_of_digits, MAX_SEQ, SEQ_LEN,
};
use crate::state::{
    leading, lemma_prefix_from_is_prefix, prefix_from, trailing, Draws, State, MAX_INC, MIN_INC,
    PRE_LEN, TOTAL_LEN,
};

verus! {

/// The state after one step for each of `draws`, in order.
pub open spec fn after(start: State, draws: Seq<Draws>) -> State
    decreases draws.len(),
{
    if draws.len() == 0 {
        start
    } else {
        after(start, draws.drop_last()).successor(draws.last())
    }
}

/// The state `steps` increments further, within the same epoch.
pub open spec fn within_epoch(start: State, steps: nat) -> State {
    State { sequence: start.sequence + steps * start.increment, ..start }
}

/// A step from a valid state, with usable draws, gives a valid state within
/// an epoch.
pub proof fn theorem_step_keeps_valid(s: State, draws: Draws)
    requires
        s.valid(),
        draws.usable(),
    ensures
        s.successor(draws).valid(),
        s.successor(draws).running(),
{
    if s.exhausted() {
        lemma_prefix_from_is_prefix(draws.samples@);
    }
}

/// A generator that has given no identifier yet refreshes at its first
/// step, so that no identifier is made with the increment of zero.
pub proof fn theorem_first_step_refreshes(s: State, draws: Draws)
    requires
        s.valid(),
        s.pending(),
        draws.usable(),
    ensures
        s.exhausted(),
        s.successor(draws) == draws.state(),
        s.successor(draws).increment > 0,
{
}

/// With draws as the generator's own sources deliver them, the increment
/// lies between `MIN_INC` and `MAX_INC` from the first step on.
pub proof fn theorem_increment_range(s: State, draws: Draws)
    requires
        s.valid(),
        draws.native(),
        s.pending() || MIN_INC <= s.increment,
    ensures
        MIN_INC <= s.successor(draws).increment < MAX_INC,
{
}

/// Fixed width: every identifier has exactly 22 characters.
pub proof fn theorem_fixed_width(s: State)
    requires
        s.valid(),
    ensures
        s.identifier().len() == TOTAL_LEN,
{
    lemma_digits_len(s.sequence, SEQ_LEN as nat);
}

/// Alphabet closure: every character of every identifier is one of the 62
/// symbols.
pub proof fn theorem_alphabet_closure(s: State)
    requires
        s.valid(),
    ensures
        forall|i: int| 0 <= i < s.identifier().len() ==> is_symbol(#[trigger] s.identifier()[i]),
{
    lemma_digits_len(s.sequence, SEQ_LEN as nat);
    lemma_digits_are_symbols(s.sequence, SEQ_LEN as nat);
    assert forall|i: int| 0 <= i < s.identifier().len() implies is_symbol(
        #[trigger] s.identifier()[i],
    ) by {
        if i >= PRE_LEN {
            assert(s.identifier()[i] == digits(s.sequence, SEQ_LEN as nat)[i - PRE_LEN]);
        }
    }
}

/// An identifier leads with the prefix of its state and, within an epoch,
/// trails with the state's sequence.
pub proof fn theorem_identifier_parts(s: State)
    requires
        s.valid(),
    ensures
        leading(s.identifier()) == s.prefix,
        s.running() ==> trailing(s.identifier()) == s.sequence,
{
    lemma_digits_len(s.sequence, SEQ_LEN as nat);
    assert(s.identifier().subrange(0, PRE_LEN as int) =~= s.prefix);
    if s.running() {
        lemma_capacity_of_sequence();
        lemma_value_of_digits(s.sequence, SEQ_LEN as nat);
        assert(s.identifier().subrange(PRE_LEN as int, TOTAL_LEN as int) =~= digits(
            s.sequence,
            SEQ_LEN as nat,
        ));
    }
}

/// As long as the steps stay below the limit of the sequence space, none of
/// them refreshes: whatever the draws, each adds the increment and nothing
/// else changes.
pub proof fn theorem_steps_within_epoch(s: State, draws: Seq<Draws>)
    requires
        s.sequence + draws.len() * s.increment < MAX_SEQ,
    ensures
        after(s, draws) == within_epoch(s, draws.len()),
    decreases draws.len(),
{
    let n: nat = draws.len();
    if n == 0 {
        assert(0 * s.increment == 0) by (nonlinear_arith);
    } else {
        assert((n - 1) * s.increment + s.increment == n * s.increment) by (nonlinear_arith);
        theorem_steps_within_epoch(s, draws.drop_last());
    }
}

/// Prefix stability within an epoch: of any number of steps that stay below
/// the limit of the sequence space, every identifier leads with the same
/// twelve characters, those of the prefix at the start.
pub proof fn theorem_prefix_stable(s: State, draws: Seq<Draws>, k: int)
    requires
        s.valid(),
        s.sequence + draws.len() * s.increment < MAX_SEQ,
        1 <= k <= draws.len(),
    ensures
        leading(after(s, draws.take(k)).identifier()) == s.prefix,
{
    let n: nat = draws.len();
    assert(k * s.increment <= n * s.increment) by (nonlinear_arith)
        requires
            0 <= k <= n,
            0 <= s.increment,
    ;
    theorem_steps_within_epoch(s, draws.take(k));
    theorem_identifier_parts(within_epoch(s, k as nat));
}

/// Monotonic suffix within an epoch: of any number of steps that stay below
/// the limit of the sequence space, the trailing ten characters of each
/// identifier, read as a base-62 number, are those of the identifier before
/// plus the increment.
pub proof fn theorem_suffix_increases(s: State, draws: Seq<Draws>, k: int)
    requires
        s.valid(),
        s.running(),
        s.sequence + draws.len() * s.increment < MAX_SEQ,
        1 <= k <= draws.len(),
    ensures
        trailing(after(s, draws.take(k)).identifier()) == trailing(
            after(s, draws.take(k - 1)).identifier(),
        ) + s.increment,
        s.increment > 0,
{
    let n: nat = draws.len();
    assert(k * s.increment <= n * s.increment) by (nonlinear_arith)
        requires
            0 <= k <= n,
            0 <= s.increment,
    ;
    assert((k - 1) * s.increment + s.increment == k * s.increment) by (nonlinear_arith);
    assert((k - 1) * s.increment >= 0) by (nonlinear_arith)
        requires
            1 <= k,
            0 <= s.increment,
    ;
    theorem_steps_within_epoch(s, draws.take(k));
    theorem_steps_within_epoch(s, draws.take(k - 1));
    theorem_identifier_parts(within_epoch(s, k as nat));
    theorem_identifier_parts(within_epoch(s, (k - 1) as nat));
}

/// Within an epoch no identifier comes twice: of any number of steps that
/// stay below the limit of the sequence space, two different steps give
/// different identifiers.
pub proof fn theorem_distinct_within_epoch(s: State, draws: Seq<Draws>, j: int, k: int)
    requires
        s.valid(),
        s.sequence + draws.len() * s.increment < MAX_SEQ,
        0 <= j < k <= draws.len(),
    ensures
        after(s, draws.take(j)).identifier() != after(s, draws.take(k)).identifier(),
{
    let n: nat = draws.len();
    assert(j * s.increment < k * s.increment <= n * s.increment) by (nonlinear_arith)
        requires
            0 <= j < k <= n,
            0 < s.increment,
    ;
    theorem_steps_within_epoch(s, draws.take(j));
    theorem_steps_within_epoch(s, draws.take(k));
    theorem_identifier_parts(within_epoch(s, j as nat));
    theorem_identifier_parts(within_epoch(s, k as nat));
}

/// A refresh brings a new prefix: once a step would leave the sequence
/// space, the next identifier leads with the prefix of the fresh draws,
/// whatever the prefix was. It differs from the old one unless the draws
/// happen to spell it again.
pub proof fn theorem_refresh_takes_drawn_prefix(s: State, draws: Draws)
    requires
        s.valid(),
        s.exhausted(),
        draws.usable(),
    ensures
        s.successor(draws) == draws.state(),
        leading(s.successor(draws).identifier()) == prefix_from(draws.samples@),
        trailing(s.successor(draws).identifier()) == draws.sequence,
{
    theorem_step_keeps_valid(s, draws);
    theorem_identifier_parts(s.successor(draws));
}

/// No immediate repeats: two consecutive identifiers differ. Left out is the
/// one case in which they are equal: the second step refreshes, and draws
/// the prefix and the sequence that the first identifier was made of.
pub proof fn theorem_no_immediate_repeat(s: State, first: Draws, second: Draws)
    requires
        s.valid(),
        first.usable(),
        second.usable(),
        !({
            &&& s.successor(first).exhausted()
            &&& prefix_from(second.samples@) == s.successor(first).prefix
            &&& second.sequence == s.successor(first).sequence
        }),
    ensures
        s.successor(first).identifier() != s.successor(first).successor(second).identifier(),
{
    let a = s.successor(first);
    let b = a.successor(second);
    theorem_step_keeps_valid(s, first);
    theorem_step_keeps_valid(a, second);
    theorem_identifier_parts(a);
    theorem_identifier_parts(b);
}

/// The case that `theorem_no_immediate_repeat` leaves out does repeat.
pub proof fn theorem_repeat_by_equal_draws(s: State, first: Draws, second: Draws)
    requires
        s.valid(),
        first.usable(),
        second.usable(),
        s.successor(first).exhausted(),
        prefix_from(second.samples@) == s.successor(first).prefix,
        second.sequence == s.successor(first).sequence,
    ensures
        s.successor(first).identifier() == s.successor(first).successor(second).identifier(),
{
}

} // verus!
