use vstd::prelude::*;
use crate::context::{lookup, Context};
use crate::lexer::{clone_token, ComparisonOperator, Element, Token};
use crate::number::Number;
use crate::template::{has_tag, parse, Template};
use crate::text::same_chars;
use crate::value::Value;

verus! {

/// One side of a comparison: a literal, or a name resolved at render time.
#[derive(Debug)]
pub enum Operand {
    StringLiteral(String),
    NumberLiteral(Number),
    Identifier(String),
}

/// The two sides of a comparison cannot be compared.
#[derive(Clone, Copy, Debug, PartialEq, Eq, Structural)]
pub struct NotComparable;

/// Why an `if` tag could not be compiled.
#[derive(Debug)]
pub enum IfError {
    /// A value token was expected; holds what was found (`None` when the
    /// arguments ran out).
    ExpectedValue(Option<Token>),
    /// A comparison operator was expected; holds what was found.
    ExpectedComparator(Option<Token>),
    /// The elements before the else-marker failed to compile.
    TrueBranch(String),
    /// The elements after the else-marker failed to compile.
    FalseBranch(String),
}

/// The result of comparing two integers with an operator. `Contains` is not
/// defined on numbers and always yields `false`.
pub open spec fn int_compare(x: int, y: int, c: ComparisonOperator) -> bool {
    match c {
        ComparisonOperator::Equals => x == y,
        ComparisonOperator::NotEquals => x != y,
        ComparisonOperator::LessThan => x < y,
        ComparisonOperator::GreaterThan => x > y,
        ComparisonOperator::LessThanEquals => x <= y,
        ComparisonOperator::GreaterThanEquals => x >= y,
        ComparisonOperator::Contains => false,
    }
}

/// The result of comparing two numbers with an operator, over their order
/// keys.
pub open spec fn numbers_compare(a: Number, b: Number, c: ComparisonOperator) -> bool {
    int_compare(a.order_key(), b.order_key(), c)
}

/// The number an operand stands for under the given bindings, if it stands
/// for one.
pub open spec fn resolve(o: Operand, bindings: Seq<(String, Value)>) -> Option<Number> {
    match o {
        Operand::NumberLiteral(n) => Some(n),
        Operand::Identifier(name) => match lookup(bindings, name@) {
            Some(Value::Num(n)) => Some(n),
            _ => None,
        },
        Operand::StringLiteral(_) => None,
    }
}

/// The outcome of a comparison: defined when both sides resolve to numbers.
pub open spec fn comparison_result(
    lh: Operand,
    c: ComparisonOperator,
    rh: Operand,
    bindings: Seq<(String, Value)>,
) -> Result<bool, NotComparable> {
    match (resolve(lh, bindings), resolve(rh, bindings)) {
        (Some(a), Some(b)) => Ok(numbers_compare(a, b, c)),
        _ => Err(NotComparable),
    }
}

/// Compares two numbers with an operator.
pub fn compare_numbers(a: Number, b: Number, comparison: &ComparisonOperator) -> (r: bool)
    ensures
        r == numbers_compare(a, b, *comparison),
{
    let x = a.key();
    let y = b.key();
    match comparison {
        ComparisonOperator::Equals => x == y,
        ComparisonOperator::NotEquals => x != y,
        ComparisonOperator::LessThan => x < y,
        ComparisonOperator::GreaterThan => x > y,
        ComparisonOperator::LessThanEquals => x <= y,
        ComparisonOperator::GreaterThanEquals => x >= y,
        ComparisonOperator::Contains => false,
    }
}

/// The number bound to `name` in the context, if it is bound to a number.
fn number_of(context: &Context, name: &String) -> (r: Option<Number>)
    ensures
        r == resolve(Operand::Identifier(*name), context.bindings@),
{
    match context.get_val(name.as_str()) {
        Some(Value::Num(n)) => Some(*n),
        _ => None,
    }
}

/// A compiled conditional: the comparison and the branches it selects from.
#[derive(Debug)]
pub struct If {
    pub lh: Operand,
    pub comparison: ComparisonOperator,
    pub rh: Operand,
    pub if_true: Template,
    pub if_false: Option<Template>,
}

impl If {
    /// The comparison this node makes, under the given bindings.
    pub open spec fn condition(self, bindings: Seq<(String, Value)>) -> Result<bool, NotComparable> {
        comparison_result(self.lh, self.comparison, self.rh, bindings)
    }

    /// What the node renders to under the given bindings: the true branch
    /// when the comparison holds; otherwise, also when the operands cannot
    /// be compared, the false branch, or nothing when there is none.
    pub open spec fn rendered(self, bindings: Seq<(String, Value)>) -> Option<Seq<char>> {
        if self.condition(bindings) == Ok::<bool, NotComparable>(true) {
            Some(self.if_true.rendered())
        } else {
            match self.if_false {
                Some(t) => Some(t.rendered()),
                None => None,
            }
        }
    }

    /// Evaluates the comparison against the context.
    pub fn compare(&self, context: &Context) -> (r: Result<bool, NotComparable>)
        ensures
            r == self.condition(context.bindings@),
    {
        match (&self.lh, &self.rh) {
            (Operand::NumberLiteral(a), Operand::NumberLiteral(b)) => {
                Ok(compare_numbers(*a, *b, &self.comparison))
            },
            (Operand::Identifier(var), Operand::NumberLiteral(b)) => {
                match number_of(context, var) {
                    Some(a) => Ok(compare_numbers(a, *b, &self.comparison)),
                    None => Err(NotComparable),
                }
            },
            (Operand::NumberLiteral(a), Operand::Identifier(var)) => {
                match number_of(context, var) {
                    Some(b) => Ok(compare_numbers(*a, b, &self.comparison)),
                    None => Err(NotComparable),
                }
            },
            (Operand::Identifier(var_a), Operand::Identifier(var_b)) => {
                match (number_of(context, var_a), number_of(context, var_b)) {
                    (Some(a), Some(b)) => Ok(compare_numbers(a, b, &self.comparison)),
                    _ => Err(NotComparable),
                }
            },
            (Operand::StringLiteral(_), _) => Err(NotComparable),
            (_, Operand::StringLiteral(_)) => Err(NotComparable),
        }
    }

    /// Renders the branch that the comparison selects. A comparison that
    /// cannot be made counts as false. The context is left as it was.
    pub fn render(&self, context: &mut Context) -> (r: Option<String>)
        ensures
            match r {
                Some(s) => self.rendered(old(context).bindings@) == Some(s@),
                None => self.rendered(old(context).bindings@) is None,
            },
            *final(context) == *old(context),
    {
        let holds = match self.compare(context) {
            Ok(b) => b,
            Err(_) => false,
        };
        if holds {
            self.if_true.render(context)
        } else {
            match &self.if_false {
                Some(template) => template.render(context),
                None => None,
            }
        }
    }
}

/// Whether an element is the else-marker: a tag whose name is the single
/// identifier `else`, whatever follows it.
pub open spec fn is_else_marker(e: Element) -> bool {
    match e {
        Element::Tag(name, _) => {
            &&& name@.len() == 1
            &&& name@[0] is Identifier
            &&& name@[0]->Identifier_0@ == "else"@
        },
        Element::Raw(_) => false,
    }
}

/// The position of the first else-marker, or the length of the body when
/// it has none.
pub open spec fn else_index(body: Seq<Element>) -> int
    decreases body.len(),
{
    if body.len() == 0 {
        0
    } else if is_else_marker(body[0]) {
        0
    } else {
        1 + else_index(body.drop_first())
    }
}

/// The elements before the first else-marker.
pub open spec fn true_part(body: Seq<Element>) -> Seq<Element> {
    body.take(else_index(body))
}

/// The elements after the first else-marker; none when there is no marker.
pub open spec fn false_part(body: Seq<Element>) -> Seq<Element> {
    if else_index(body) < body.len() {
        body.skip(else_index(body) + 1)
    } else {
        Seq::empty()
    }
}

/// The first else-marker stands at `i` (or there is none and `i` is the
/// length) exactly when no marker comes before `i`.
pub proof fn lemma_else_index(body: Seq<Element>, i: int)
    requires
        0 <= i <= body.len(),
        forall|j: int| 0 <= j < i ==> !is_else_marker(#[trigger] body[j]),
        i == body.len() || is_else_marker(body[i]),
    ensures
        else_index(body) == i,
    decreases i,
{
    if i > 0 {
        let rest = body.drop_first();
        assert forall|j: int| 0 <= j < i - 1 implies !is_else_marker(#[trigger] rest[j]) by {
            assert(rest[j] == body[j + 1]);
        }
        assert(!is_else_marker(body[0]));
        if i < body.len() {
            assert(rest[i - 1] == body[i]);
        }
        lemma_else_index(rest, i - 1);
    }
}

/// Whether an element is the else-marker.
pub fn is_else(e: &Element) -> (r: bool)
    ensures
        r == is_else_marker(*e),
{
    match e {
        Element::Tag(name, _) => {
            if name.len() != 1 {
                return false;
            }
            let r = match &name[0] {
                Token::Identifier(s) => same_chars(s.as_str(), "else"),
                _ => false,
            };
            r
        },
        Element::Raw(_) => false,
    }
}

/// Splits a body at its first else-marker into the elements before it and
/// the elements after it; the marker itself belongs to neither.
pub fn split_branches(body: Vec<Element>) -> (r: (Vec<Element>, Vec<Element>))
    ensures
        r.0@ == true_part(body@),
        r.1@ == false_part(body@),
{
    let ghost whole = body@;
    let mut p: usize = 0;
    while p < body.len() && !is_else(&body[p])
        invariant
            body@ == whole,
            p <= whole.len(),
            forall|j: int| 0 <= j < p ==> !is_else_marker(#[trigger] whole[j]),
        decreases whole.len() - p,
    {
        p = p + 1;
    }
    proof {
        lemma_else_index(whole, p as int);
    }
    let mut if_true = body;
    let mut if_false = if_true.split_off(p);
    if if_false.len() > 0 {
        if_false.remove(0);
        assert(if_false@ =~= whole.skip(p + 1));
    } else {
        assert(if_false@ =~= Seq::<Element>::empty());
    }
    (if_true, if_false)
}

/// The operand a value token stands for; `None` for a comparison operator.
pub open spec fn operand_of(t: Token) -> Option<Operand> {
    match t {
        Token::StringLiteral(s) => Some(Operand::StringLiteral(s)),
        Token::NumberLiteral(n) => Some(Operand::NumberLiteral(n)),
        Token::Identifier(s) => Some(Operand::Identifier(s)),
        Token::Comparison(_) => None,
    }
}

/// The token at position `i`, if there is one.
pub open spec fn token_at(args: Seq<Token>, i: int) -> Option<Token> {
    if 0 <= i < args.len() {
        Some(args[i])
    } else {
        None
    }
}

/// Whether the token at position `i` exists and is a value.
pub open spec fn value_at(args: Seq<Token>, i: int) -> bool {
    0 <= i < args.len() && operand_of(args[i]) is Some
}

/// What is wrong with an argument list, checked in order: a value, then a
/// comparison operator, then a value. Tokens past the third are not read.
pub open spec fn argument_error(args: Seq<Token>) -> Option<IfError> {
    if !value_at(args, 0) {
        Some(IfError::ExpectedValue(token_at(args, 0)))
    } else if !(args.len() > 1 && args[1] is Comparison) {
        Some(IfError::ExpectedComparator(token_at(args, 1)))
    } else if !value_at(args, 2) {
        Some(IfError::ExpectedValue(token_at(args, 2)))
    } else {
        None
    }
}

/// Reads the value token at position `i`.
fn read_value(args: &[Token], i: usize) -> (r: Result<Operand, IfError>)
    ensures
        value_at(args@, i as int) ==> (r matches Ok(o) && operand_of(args@[i as int]) == Some(o)),
        !value_at(args@, i as int) ==> r == Err::<Operand, IfError>(
            IfError::ExpectedValue(token_at(args@, i as int)),
        ),
{
    if i >= args.len() {
        return Err(IfError::ExpectedValue(None));
    }
    match &args[i] {
        Token::StringLiteral(x) => Ok(Operand::StringLiteral(x.clone())),
        Token::NumberLiteral(x) => Ok(Operand::NumberLiteral(*x)),
        Token::Identifier(x) => Ok(Operand::Identifier(x.clone())),
        t => Err(IfError::ExpectedValue(Some(clone_token(t)))),
    }
}

/// Parses the arguments of an `if` tag: a value, a comparison operator and
/// a value.
pub fn parse_arguments(arguments: &[Token]) -> (r: Result<(Operand, ComparisonOperator, Operand), IfError>)
    ensures
        match argument_error(arguments@) {
            Some(e) => r == Err::<(Operand, ComparisonOperator, Operand), IfError>(e),
            None => r matches Ok((lh, c, rh)) && {
                &&& operand_of(arguments@[0]) == Some(lh)
                &&& arguments@[1] == Token::Comparison(c)
                &&& operand_of(arguments@[2]) == Some(rh)
            },
        },
{
    let lh = match read_value(arguments, 0) {
        Ok(o) => o,
        Err(e) => return Err(e),
    };
    let comparison = if arguments.len() > 1 {
        match &arguments[1] {
            Token::Comparison(c) => *c,
            t => return Err(IfError::ExpectedComparator(Some(clone_token(t)))),
        }
    } else {
        return Err(IfError::ExpectedComparator(None));
    };
    let rh = match read_value(arguments, 2) {
        Ok(o) => o,
        Err(e) => return Err(e),
    };
    Ok((lh, comparison, rh))
}

impl If {
    /// Whether this node is the compiled form of an `if` tag with these
    /// arguments and this body.
    pub open spec fn compiled_from(self, args: Seq<Token>, body: Seq<Element>) -> bool {
        &&& args.len() >= 3
        &&& operand_of(args[0]) == Some(self.lh)
        &&& args[1] == Token::Comparison(self.comparison)
        &&& operand_of(args[2]) == Some(self.rh)
        &&& self.if_true.compiled_from(true_part(body))
        &&& (false_part(body).len() == 0 ==> self.if_false is None)
        &&& (false_part(body).len() > 0 ==> (self.if_false matches Some(t) && t.compiled_from(
            false_part(body),
        )))
    }
}

/// The tag that opens a conditional.
#[derive(Clone, Copy, Debug)]
pub struct IfBlock;

impl IfBlock {
    /// Compiles an `if` tag from its arguments and its body. Argument errors
    /// come first; then the true branch is compiled, then the false branch,
    /// and the first failure is reported with the branch it came from.
    pub fn initialize(&self, _tag_name: &str, arguments: &[Token], tokens: Vec<Element>) -> (r:
        Result<If, IfError>)
        ensures
            match argument_error(arguments@) {
                Some(e) => r == Err::<If, IfError>(e),
                None => {
                    &&& (r is Ok) <==> !has_tag(true_part(tokens@)) && !has_tag(false_part(tokens@))
                    &&& (r matches Err(IfError::TrueBranch(_))) <==> has_tag(true_part(tokens@))
                    &&& (r matches Err(IfError::FalseBranch(_))) <==> !has_tag(true_part(tokens@))
                        && has_tag(false_part(tokens@))
                    &&& r matches Ok(node) ==> node.compiled_from(arguments@, tokens@)
                },
            },
    {
        let (lh, comparison, rh) = match parse_arguments(arguments) {
            Ok(parts) => parts,
            Err(e) => return Err(e),
        };
        let (if_true_tokens, if_false_tokens) = split_branches(tokens);
        let if_true = match parse(&if_true_tokens) {
            Ok(t) => t,
            Err(message) => return Err(IfError::TrueBranch(message)),
        };
        let if_false = if if_false_tokens.len() > 0 {
            match parse(&if_false_tokens) {
                Ok(t) => Some(t),
                Err(message) => return Err(IfError::FalseBranch(message)),
            }
        } else {
            None
        };
        Ok(If { lh, comparison, rh, if_true, if_false })
    }
}

} // verus!
