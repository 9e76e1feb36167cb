//! What one attempt to evaluate the current input came to.

use vstd::prelude::*;
use crate::text::{join_spaced, joined};

verus! {

/// The result of one evaluation attempt.
#[derive(Debug, PartialEq, Eq)]
pub enum Outcome {
    /// Nothing has been typed yet: the input is still the placeholder.
    Uninitialized,
    /// Every expression evaluated; the rendered values, joined by spaces.
    Success(String),
    /// The text is not a well-formed program; the parser's diagnostic.
    ParseFailure(String),
    /// An expression failed to evaluate; the evaluator's diagnostic.
    EvalFailure(String),
}

/// An [`Outcome`] as plain text.
pub enum OutcomeView {
    Uninitialized,
    Success(Seq<char>),
    ParseFailure(Seq<char>),
    EvalFailure(Seq<char>),
}

impl View for Outcome {
    type V = OutcomeView;

    open spec fn view(&self) -> OutcomeView {
        match self {
            Outcome::Uninitialized => OutcomeView::Uninitialized,
            Outcome::Success(output) => OutcomeView::Success(output@),
            Outcome::ParseFailure(message) => OutcomeView::ParseFailure(message@),
            Outcome::EvalFailure(message) => OutcomeView::EvalFailure(message@),
        }
    }
}

/// One expression's result as plain text: its rendered value, or its diagnostic.
pub open spec fn result_text(result: Result<String, String>) -> Result<Seq<char>, Seq<char>> {
    match result {
        Ok(rendered) => Ok(rendered@),
        Err(message) => Err(message@),
    }
}

/// The results of a run of expressions as plain text, in program order.
pub open spec fn result_texts(results: Seq<Result<String, String>>) -> Seq<
    Result<Seq<char>, Seq<char>>,
> {
    results.map_values(|result: Result<String, String>| result_text(result))
}

/// Every expression of the run evaluated.
pub open spec fn all_evaluated(results: Seq<Result<Seq<char>, Seq<char>>>) -> bool {
    forall|i: int| 0 <= i < results.len() ==> (#[trigger] results[i]) is Ok
}

/// The expression at `index` failed, and none before it did.
pub open spec fn is_first_failure(results: Seq<Result<Seq<char>, Seq<char>>>, index: int) -> bool {
    &&& 0 <= index < results.len()
    &&& results[index] is Err
    &&& forall|i: int| 0 <= i < index ==> (#[trigger] results[i]) is Ok
}

/// The rendered values of a run in which every expression evaluated.
pub open spec fn rendered_values(results: Seq<Result<Seq<char>, Seq<char>>>) -> Seq<Seq<char>> {
    results.map_values(|result: Result<Seq<char>, Seq<char>>| result->Ok_0)
}

/// What a run of expressions comes to: the first failure if there is one,
/// else all rendered values on one line.
pub open spec fn outcome_of(results: Seq<Result<Seq<char>, Seq<char>>>) -> OutcomeView {
    if all_evaluated(results) {
        OutcomeView::Success(joined(rendered_values(results)))
    } else {
        let index = choose|index: int| is_first_failure(results, index);
        OutcomeView::EvalFailure(results[index]->Err_0)
    }
}

/// A run that did not evaluate throughout has exactly one first failure.
pub proof fn lemma_first_failure(results: Seq<Result<Seq<char>, Seq<char>>>, index: int)
    requires
        is_first_failure(results, index),
    ensures
        !all_evaluated(results),
        outcome_of(results) == OutcomeView::EvalFailure(results[index]->Err_0),
{
}

impl Outcome {
    /// Folds the results of a run of expressions, given in program order, into
    /// one outcome. The first failure decides; a run without one succeeds with
    /// its rendered values joined by single spaces.
    pub fn from_results(results: &Vec<Result<String, String>>) -> (outcome: Outcome)
        ensures
            outcome@ == outcome_of(result_texts(results@)),
    {
        let ghost all = result_texts(results@);
        let mut parts: Vec<String> = Vec::new();
        let mut i: usize = 0;
        while i < results.len()
            invariant
                i <= results.len(),
                all == result_texts(results@),
                parts@.len() == i,
                forall|j: int| 0 <= j < i ==> (#[trigger] all[j]) is Ok,
                forall|j: int| 0 <= j < i ==> (#[trigger] parts@[j])@ == all[j]->Ok_0,
            decreases results.len() - i,
        {
            match &results[i] {
                Ok(rendered) => {
                    parts.push(rendered.clone());
                },
                Err(message) => {
                    proof {
                        lemma_first_failure(all, i as int);
                    }
                    return Outcome::EvalFailure(message.clone());
                },
            }
            i += 1;
        }
        proof {
            assert(crate::text::texts(parts@) =~= rendered_values(all));
        }
        Outcome::Success(join_spaced(&parts))
    }
}

/// The status line for `outcome`, where `input` is the text that was evaluated:
/// the input itself while nothing has been typed, the result in bold behind
/// the input, or the diagnostic in the colour of errors.
pub open spec fn message_text(input: Seq<char>, outcome: OutcomeView) -> Seq<char> {
    match outcome {
        OutcomeView::Uninitialized => input,
        OutcomeView::Success(output) => "Result: <b>"@ + input + " => "@ + output + "</b>"@,
        OutcomeView::ParseFailure(message) | OutcomeView::EvalFailure(message) =>
            "<span foreground='#ee9598'>Error: "@ + message + "</span>"@,
    }
}

/// Renders the status line for `outcome`, where `input` is the text that was
/// evaluated.
pub fn render_message(input: &str, outcome: &Outcome) -> (message: String)
    ensures
        message@ == message_text(input@, outcome@),
{
    match outcome {
        Outcome::Uninitialized => input.to_owned(),
        Outcome::Success(output) => {
            let mut message = "Result: <b>".to_owned();
            message.append(input);
            message.append(" => ");
            message.append(output.as_str());
            message.append("</b>");
            message
        },
        Outcome::ParseFailure(diagnostic) | Outcome::EvalFailure(diagnostic) => {
            let mut message = "<span foreground='#ee9598'>Error: ".to_owned();
            message.append(diagnostic.as_str());
            message.append("</span>");
            message
        },
    }
}

} // verus!
