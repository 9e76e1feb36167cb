//! The evaluation adapter: one line of text in, one [`Outcome`] out.
//!
//! Parsing and evaluating are faye's work. This module decides when they are
//! asked for, in which order, and how their two kinds of failure and their
//! values become a single outcome.

use vstd::prelude::*;
use crate::outcome::{Outcome, OutcomeView};

verus! {

/// The text that stands in the input buffer before anything has been typed.
pub const PLACEHOLDER: &'static str = "faye 0.6.1";

/// faye's evaluation context: the bindings that expressions see and make.
#[verifier::external_type_specification]
#[verifier::external_body]
pub struct ExContext(faye::eval::Context);

/// One parsed expression of faye.
#[verifier::external_type_specification]
#[verifier::external_body]
pub struct ExNode(faye::parser::Node);

/// The value of an evaluated expression of faye.
#[verifier::external_type_specification]
#[verifier::external_body]
pub struct ExExpr(faye::eval::Expr);

/// faye's evaluation error.
#[verifier::external_type_specification]
#[verifier::external_body]
pub struct ExEvalError(faye::eval::Error);

/// `Context::default` of faye builds a context that holds the builtin
/// functions. Nothing is claimed of it.
pub assume_specification[ <faye::eval::Context as core::default::Default>::default ]() -> (context:
    faye::eval::Context);

/// `Context::eval` of faye evaluates one expression in a context, which it may
/// change. What it returns depends on the bindings made so far and, for some
/// builtins, on the process's surroundings, so nothing is claimed of it.
/// An expression that recurses without end, or is nested too deeply for the
/// stack, ends the process instead of returning.
pub assume_specification[ faye::eval::Context::eval ](
    context: &mut faye::eval::Context,
    ast: &faye::parser::Node,
) -> (result: Result<faye::eval::Expr, faye::eval::Error>);

/// How faye's parser reads `text`: the number of top-level expressions it
/// finds, or the diagnostic with which it rejects the text.
pub uninterp spec fn parsed_as(text: Seq<char>) -> Result<nat, Seq<char>>;

/// `Parser::new(text).parse()` of faye reads `text` into its top-level
/// expressions, in source order, or fails with an error whose rendering is the
/// diagnostic. Whether it fails, with which diagnostic, and how many
/// expressions it finds depends on `text` alone.
#[verifier::external_body]
fn parse_program(text: &str) -> (parsed: Result<Vec<faye::parser::Node>, String>)
    ensures
        parsed_as(text@) == match parsed {
            Ok(nodes) => Ok::<nat, Seq<char>>(nodes@.len()),
            Err(message) => Err(message@),
        },
{
    match faye::parser::Parser::new(text).parse() {
        Ok(nodes) => Ok(nodes),
        Err(error) => Err(error.to_string()),
    }
}

/// The diagnostic that the parser gives for `text`, if it rejects it.
pub open spec fn parse_diagnostic(text: Seq<char>) -> Option<Seq<char>> {
    match parsed_as(text) {
        Ok(_) => None,
        Err(message) => Some(message),
    }
}

/// Whether evaluating `text` evaluates no expression: it is the placeholder,
/// the parser rejects it, or it holds no expression.
pub open spec fn evaluates_nothing(text: Seq<char>) -> bool {
    text == PLACEHOLDER@ || parsed_as(text) is Err || parsed_as(text) == Ok::<nat, Seq<char>>(0)
}

/// The text `text` may come to `outcome`: the placeholder is never evaluated,
/// a text that the parser rejects fails with the parser's diagnostic, a text
/// without expressions succeeds with the empty text, and any other text
/// either succeeds or fails in evaluation.
pub open spec fn may_evaluate_to(text: Seq<char>, outcome: OutcomeView) -> bool {
    if text == PLACEHOLDER@ {
        outcome is Uninitialized
    } else {
        match parsed_as(text) {
            Err(message) => outcome == OutcomeView::ParseFailure(message),
            Ok(count) => if count == 0 {
                outcome == OutcomeView::Success(Seq::empty())
            } else {
                outcome is Success || outcome is EvalFailure
            },
        }
    }
}

/// What a text comes to is settled by the text alone as long as nothing is
/// evaluated: for the placeholder, for a text that the parser rejects, and
/// for a text without expressions.
pub proof fn lemma_outcome_without_evaluation(
    text: Seq<char>,
    first: OutcomeView,
    second: OutcomeView,
)
    ensures
        evaluates_nothing(text) && may_evaluate_to(text, first) && may_evaluate_to(text, second)
            ==> first == second,
{
}

/// Whether `text` is the placeholder.
pub fn is_placeholder(text: &str) -> (yes: bool)
    ensures
        yes == (text@ == PLACEHOLDER@),
{
    text.to_owned() == PLACEHOLDER.to_owned()
}

/// An evaluator with the bindings that earlier evaluations have left in it.
pub struct Evaluator {
    context: faye::eval::Context,
}

impl Evaluator {
    /// An evaluator that knows the builtin functions only.
    pub fn new() -> (evaluator: Evaluator) {
        Evaluator { context: faye::eval::Context::default() }
    }

    /// Evaluates `nodes` in order, up to the first that fails, and renders
    /// what each came to: a value as faye prints it, a failure as its
    /// diagnostic. Only the last result can be a failure, and nothing behind
    /// a failure is evaluated.
    fn evaluate_all(&mut self, nodes: &Vec<faye::parser::Node>) -> (results: Vec<
        Result<String, String>,
    >)
        ensures
            results@.len() <= nodes@.len(),
            forall|i: int| 0 <= i < results@.len() - 1 ==> (#[trigger] results@[i]) is Ok,
            results@.len() < nodes@.len() ==> results@.len() > 0 && results@.last() is Err,
            nodes@.len() == 0 ==> *final(self) == *old(self),
    {
        let mut results: Vec<Result<String, String>> = Vec::new();
        let mut failed = false;
        let mut i: usize = 0;
        while i < nodes.len() && !failed
            invariant
                i <= nodes.len(),
                results@.len() == i,
                forall|j: int| 0 <= j < results@.len() - 1 ==> (#[trigger] results@[j]) is Ok,
                failed ==> i > 0 && results@.last() is Err,
                !failed && i > 0 ==> results@.last() is Ok,
                i == 0 ==> *self == *old(self),
            decreases nodes.len() - i,
        {
            match self.context.eval(&nodes[i]) {
                Ok(value) => {
                    results.push(Ok(value.to_string()));
                },
                Err(error) => {
                    results.push(Err(error.to_string()));
                    failed = true;
                },
            }
            i += 1;
        }
        results
    }

    /// Evaluates `text`.
    ///
    /// The placeholder is not evaluated at all. Any other text is parsed; if
    /// that fails, nothing is evaluated. Otherwise its expressions are
    /// evaluated in program order, each seeing the bindings that the ones
    /// before it and earlier calls have made, up to the first that fails.
    /// Only an evaluation can change the evaluator.
    pub fn evaluate(&mut self, text: &str) -> (outcome: Outcome)
        ensures
            may_evaluate_to(text@, outcome@),
            evaluates_nothing(text@) ==> *final(self) == *old(self),
    {
        if is_placeholder(text) {
            return Outcome::Uninitialized;
        }
        let nodes = match parse_program(text) {
            Ok(nodes) => nodes,
            Err(message) => {
                return Outcome::ParseFailure(message);
            },
        };
        let results = self.evaluate_all(&nodes);
        Outcome::from_results(&results)
    }
}

} // verus!
