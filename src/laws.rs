//! General facts about conditionals, stated over the same spec functions as
//! the contracts of the executable code.

use vstd::prelude::*;
use crate::context::lookup;
use crate::if_block::{
    comparison_result, false_part, int_compare, is_else_marker, lemma_else_index,
    numbers_compare, resolve, true_part, If, NotComparable, Operand,
};
use crate::lexer::{ComparisonOperator, Element, Token};
use crate::number::{lemma_key_orders_values, Number};
use crate::value::Value;

verus! {

/// The numeric comparators agree with one total order on numbers: exactly
/// one of less, equal and greater holds; `!=` is the negation of `==`; `>`
/// is `<` with the sides swapped; `<=` and `>=` add equality to `<` and `>`.
pub proof fn lemma_comparators_agree(a: Number, b: Number)
    ensures
        numbers_compare(a, b, ComparisonOperator::LessThan) || numbers_compare(
            a,
            b,
            ComparisonOperator::Equals,
        ) || numbers_compare(a, b, ComparisonOperator::GreaterThan),
        !(numbers_compare(a, b, ComparisonOperator::LessThan) && numbers_compare(
            a,
            b,
            ComparisonOperator::Equals,
        )),
        !(numbers_compare(a, b, ComparisonOperator::LessThan) && numbers_compare(
            a,
            b,
            ComparisonOperator::GreaterThan,
        )),
        !(numbers_compare(a, b, ComparisonOperator::Equals) && numbers_compare(
            a,
            b,
            ComparisonOperator::GreaterThan,
        )),
        numbers_compare(a, b, ComparisonOperator::NotEquals) == !numbers_compare(
            a,
            b,
            ComparisonOperator::Equals,
        ),
        numbers_compare(a, b, ComparisonOperator::GreaterThan) == numbers_compare(
            b,
            a,
            ComparisonOperator::LessThan,
        ),
        numbers_compare(a, b, ComparisonOperator::LessThanEquals) == (numbers_compare(
            a,
            b,
            ComparisonOperator::LessThan,
        ) || numbers_compare(a, b, ComparisonOperator::Equals)),
        numbers_compare(a, b, ComparisonOperator::GreaterThanEquals) == (numbers_compare(
            a,
            b,
            ComparisonOperator::GreaterThan,
        ) || numbers_compare(a, b, ComparisonOperator::Equals)),
        numbers_compare(a, a, ComparisonOperator::Equals),
{
}

/// On finite numbers every comparator gives the answer that the numbers'
/// values give.
pub proof fn lemma_compare_matches_values(a: Number, b: Number, c: ComparisonOperator)
    requires
        a.is_finite(),
        b.is_finite(),
    ensures
        numbers_compare(a, b, c) == int_compare(a.scaled_value(), b.scaled_value(), c),
{
    lemma_key_orders_values(a, b);
}

/// `Contains` never holds, whatever the operands; a conditional that uses it
/// renders its false branch, or nothing when it has none.
pub proof fn lemma_contains_never_holds(node: If, bindings: Seq<(String, Value)>)
    requires
        node.comparison == ComparisonOperator::Contains,
    ensures
        forall|a: Number, b: Number| !numbers_compare(a, b, ComparisonOperator::Contains),
        node.condition(bindings) != Ok::<bool, NotComparable>(true),
        node.rendered(bindings) == match node.if_false {
            Some(t) => Some(t.rendered()),
            None => None,
        },
{
}

/// When one side is a string literal, or a name not bound to a number, the
/// comparison fails with `NotComparable` and the node renders its false
/// branch, or nothing when it has none.
pub proof fn lemma_not_comparable_renders_false_branch(node: If, bindings: Seq<(String, Value)>)
    requires
        resolve(node.lh, bindings) is None || resolve(node.rh, bindings) is None,
    ensures
        comparison_result(node.lh, node.comparison, node.rh, bindings) == Err::<
            bool,
            NotComparable,
        >(NotComparable),
        node.rendered(bindings) == match node.if_false {
            Some(t) => Some(t.rendered()),
            None => None,
        },
{
}

/// A body without an else-marker goes whole to the true branch, and a
/// conditional compiled from it has no false branch.
pub proof fn lemma_body_without_else(args: Seq<Token>, body: Seq<Element>, node: If)
    requires
        forall|i: int| 0 <= i < body.len() ==> !is_else_marker(#[trigger] body[i]),
        node.compiled_from(args, body),
    ensures
        true_part(body) == body,
        false_part(body) == Seq::<Element>::empty(),
        node.if_true.compiled_from(body),
        node.if_false is None,
{
    lemma_else_index(body, body.len() as int);
    assert(body.take(body.len() as int) =~= body);
}

/// With exactly one else-marker, the true branch holds the elements before
/// it and the false branch those after it; the marker is in neither. The
/// false branch is absent when nothing follows the marker.
pub proof fn lemma_body_with_one_else(args: Seq<Token>, body: Seq<Element>, p: int, node: If)
    requires
        0 <= p < body.len(),
        is_else_marker(body[p]),
        forall|i: int| 0 <= i < body.len() && i != p ==> !is_else_marker(#[trigger] body[i]),
        node.compiled_from(args, body),
    ensures
        true_part(body) == body.take(p),
        false_part(body) == body.skip(p + 1),
        node.if_true.compiled_from(body.take(p)),
        p + 1 == body.len() ==> node.if_false is None,
        p + 1 < body.len() ==> (node.if_false matches Some(t) && t.compiled_from(
            body.skip(p + 1),
        )),
{
    lemma_else_index(body, p);
}

/// Rendering reads the bindings only through their lookups: two sets of
/// bindings that hold the same data give the same output.
pub proof fn lemma_render_same_data(
    node: If,
    bindings1: Seq<(String, Value)>,
    bindings2: Seq<(String, Value)>,
)
    requires
        forall|name: Seq<char>| lookup(bindings1, name) == lookup(bindings2, name),
    ensures
        node.rendered(bindings1) == node.rendered(bindings2),
{
    match node.lh {
        Operand::Identifier(name) => {
            assert(lookup(bindings1, name@) == lookup(bindings2, name@));
        },
        _ => {},
    }
    match node.rh {
        Operand::Identifier(name) => {
            assert(lookup(bindings1, name@) == lookup(bindings2, name@));
        },
        _ => {},
    }
}

} // verus!
