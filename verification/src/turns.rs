//! What an accumulator goes through: the calls made on it, in their order, each with what came of
//! it.

use vstd::prelude::*;

use crate::context::FunctionContext;
use crate::error::Result;
use crate::value::{Value, ValueRef};

verus! {

/// What an accumulator is called for, and the outcome.
pub enum Call<'a> {
    Step { args: &'a [ValueRef<'a>], r: Result<()> },
    Inverse { args: &'a [ValueRef<'a>], r: Result<()> },
    Value { r: Result<Value> },
    Finalize { r: Result<Value> },
}

/// A call of an accumulator, with the context it was handed and what it left there.
#[verifier::reject_recursive_types(C)]
#[verifier::reject_recursive_types(O)]
pub struct Turn<'a, C, O> {
    pub before: FunctionContext<'a, C, O>,
    pub call: Call<'a>,
    pub after: FunctionContext<'a, C, O>,
}

/// Which calls accumulators of one kind allow. `A` is what such an accumulator holds: `step`,
/// `inverse` and `value` relate what it and the context held before a call, what they hold
/// afterwards and the outcome, and `finalize` relates what it held in the end and the answer.
#[verifier::reject_recursive_types(A)]
#[verifier::reject_recursive_types(C)]
#[verifier::reject_recursive_types(O)]
pub struct Rules<'a, A, C, O> {
    pub step: spec_fn(
        A,
        FunctionContext<'a, C, O>,
        A,
        FunctionContext<'a, C, O>,
        &'a [ValueRef<'a>],
        Result<()>,
    ) -> bool,
    pub inverse: spec_fn(
        A,
        FunctionContext<'a, C, O>,
        A,
        FunctionContext<'a, C, O>,
        &'a [ValueRef<'a>],
        Result<()>,
    ) -> bool,
    pub value: spec_fn(
        A,
        FunctionContext<'a, C, O>,
        A,
        FunctionContext<'a, C, O>,
        Result<Value>,
    ) -> bool,
    pub finalize: spec_fn(
        A,
        FunctionContext<'a, C, O>,
        FunctionContext<'a, C, O>,
        Result<Value>,
    ) -> bool,
}

impl<'a, A, C, O> Rules<'a, A, C, O> {
    /// Whether a turn that is not the last can leave `b` of what held `a`.
    pub open spec fn allow(self, a: A, turn: Turn<'a, C, O>, b: A) -> bool {
        match turn.call {
            Call::Step { args, r } => (self.step)(a, turn.before, b, turn.after, args, r),
            Call::Inverse { args, r } => (self.inverse)(a, turn.before, b, turn.after, args, r),
            Call::Value { r } => (self.value)(a, turn.before, b, turn.after, r),
            Call::Finalize { r } => false,
        }
    }

    /// Whether a turn can be the last of what held `a`.
    pub open spec fn end(self, a: A, turn: Turn<'a, C, O>) -> bool {
        match turn.call {
            Call::Finalize { r } => (self.finalize)(a, turn.before, turn.after, r),
            _ => false,
        }
    }
}

/// Whether an accumulator that holds `a` can go through these turns; nothing follows `finalize`.
pub open spec fn traced<'a, A, C, O>(
    rules: Rules<'a, A, C, O>,
    a: A,
    turns: Seq<Turn<'a, C, O>>,
) -> bool
    decreases turns.len(),
{
    if turns.len() == 0 {
        true
    } else if turns[0].call is Finalize {
        turns.len() == 1 && rules.end(a, turns[0])
    } else {
        exists|b: A| #[trigger]
            rules.allow(a, turns[0], b) && traced(rules, b, turns.skip(1))
    }
}

/// What went through a turn goes through the turn and whatever it can go through afterwards.
pub proof fn lemma_turn_first<'a, A, C, O>(
    rules: Rules<'a, A, C, O>,
    a: A,
    turn: Turn<'a, C, O>,
    b: A,
)
    requires
        rules.allow(a, turn, b),
    ensures
        forall|rest: Seq<Turn<'a, C, O>>|
            traced(rules, b, rest) ==> #[trigger] traced(rules, a, seq![turn] + rest),
{
    assert forall|rest: Seq<Turn<'a, C, O>>| traced(rules, b, rest) implies #[trigger] traced(
        rules,
        a,
        seq![turn] + rest,
    ) by {
        let turns = seq![turn] + rest;
        assert(turns.skip(1) =~= rest);
        assert(turns[0] == turn);
    }
}

/// What can end with a turn goes through it.
pub proof fn lemma_last_turn<'a, A, C, O>(rules: Rules<'a, A, C, O>, a: A, turn: Turn<'a, C, O>)
    requires
        rules.end(a, turn),
    ensures
        traced(rules, a, seq![turn]),
{
    assert(seq![turn][0] == turn);
}

/// What goes through a turn and `rest` takes the turn and goes through `rest`.
pub proof fn lemma_after_turn<'a, A, C, O>(
    rules: Rules<'a, A, C, O>,
    a: A,
    turn: Turn<'a, C, O>,
    rest: Seq<Turn<'a, C, O>>,
) -> (b: A)
    requires
        traced(rules, a, seq![turn] + rest),
        !(turn.call is Finalize),
    ensures
        rules.allow(a, turn, b),
        traced(rules, b, rest),
{
    let turns = seq![turn] + rest;
    assert(turns.skip(1) =~= rest);
    assert(turns[0] == turn);
    choose|b: A| #[trigger] rules.allow(a, turn, b) && traced(rules, b, rest)
}

/// What an accumulator goes through is one turn after the other: each is one that the rules have for
/// its call and the accumulator there, and the next begins with what that turn left. Nothing comes
/// behind the end.
pub proof fn law_turns_follow_their_rules<'a, A, C, O>(
    rules: Rules<'a, A, C, O>,
    a: A,
    turn: Turn<'a, C, O>,
    rest: Seq<Turn<'a, C, O>>,
)
    requires
        traced(rules, a, seq![turn] + rest),
    ensures
        match turn.call {
            Call::Step { args, r } => exists|b: A| #[trigger]
                traced(rules, b, rest) && (rules.step)(a, turn.before, b, turn.after, args, r),
            Call::Inverse { args, r } => exists|b: A| #[trigger]
                traced(rules, b, rest) && (rules.inverse)(a, turn.before, b, turn.after, args, r),
            Call::Value { r } => exists|b: A| #[trigger]
                traced(rules, b, rest) && (rules.value)(a, turn.before, b, turn.after, r),
            Call::Finalize { r } => rest.len() == 0 && (rules.finalize)(
                a,
                turn.before,
                turn.after,
                r,
            ),
        },
{
    let turns = seq![turn] + rest;
    assert(turns[0] == turn);
    if !(turn.call is Finalize) {
        let b = lemma_after_turn(rules, a, turn, rest);
        assert(traced(rules, b, rest));
    }
}

}
