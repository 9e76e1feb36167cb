//! The session controller: it owns the entry store, the evaluator and the
//! current input, and decides what each event of the host does to them.

use vstd::prelude::*;
use crate::entry::{Entry, EntryView};
use crate::evaluator::{evaluates_nothing, may_evaluate_to, parsed_as, Evaluator, PLACEHOLDER};
use crate::outcome::{message_text, render_message, Outcome, OutcomeView};
use crate::store::{appended, is_store, removed, sentinel, EntryStore, StoreError};

verus! {

/// What the user did, as the host reports it.
#[derive(Debug, Clone, Copy, PartialEq, Eq)]
#[allow(inconsistent_fields)]
pub enum Event {
    /// The user gave up.
    Cancel { selected: Option<usize> },
    /// The user accepted the line at `selected`.
    Select { alt: bool, selected: usize },
    /// The user entered text that is not on the list.
    CustomInput { alt: bool, selected: Option<usize> },
    /// The user asked to complete the input from the line at `selected`.
    Complete { selected: Option<usize> },
    /// The user asked to delete the line at `selected`.
    DeleteEntry { selected: usize },
    /// The user ran a custom command.
    CustomCommand { number: u8, selected: Option<usize> },
}

/// What the host is to do after an event.
#[derive(Debug, Clone, Copy, PartialEq, Eq, Structural)]
pub enum Action {
    /// End the session.
    Exit,
    /// Show the list and the message again.
    Reload,
}

/// The answer to an event.
#[derive(Debug, PartialEq, Eq)]
pub struct Reaction {
    /// What the host is to do next.
    pub action: Action,
    /// The entry that the user chose, if the event chose one: its output goes
    /// to the clipboard, once.
    pub chosen: Option<Entry>,
}

/// The part of a session that events and queries can tell apart.
pub struct SessionView {
    /// The text that the host last reported as the user's input.
    pub input: Seq<char>,
    /// The sentinel and the kept entries.
    pub entries: Seq<EntryView>,
}

/// A session, the host's input buffer and the answer, after an event.
pub struct Step {
    pub session: SessionView,
    pub buffer: Seq<char>,
    pub action: Action,
    pub chosen: Option<EntryView>,
}

/// `session` after the sentinel was selected and the current input came to
/// `outcome`: a success is kept as a new entry, anything else changes nothing.
pub open spec fn committed(session: SessionView, outcome: OutcomeView) -> SessionView {
    match outcome {
        OutcomeView::Success(output) => SessionView {
            input: session.input,
            entries: appended(session.entries, session.input, output),
        },
        _ => session,
    }
}

/// Whether `event` makes a session in state `session` evaluate its input.
pub open spec fn evaluates(session: SessionView, event: Event) -> bool {
    event matches Event::Select { selected, .. } && selected == 0 && session.input != PLACEHOLDER@
}

/// The transition of the session: what `event` does to `session` and to the
/// host's input buffer, and the answer it gets. `outcome` is what the current
/// input comes to when `event` has it evaluated, and is not looked at
/// otherwise.
pub open spec fn step(
    session: SessionView,
    event: Event,
    buffer: Seq<char>,
    outcome: OutcomeView,
) -> Step {
    let stay = Step { session, buffer, action: Action::Reload, chosen: None };
    match event {
        Event::Cancel { .. } => Step { action: Action::Exit, ..stay },
        Event::Select { selected, .. } => {
            if selected == 0 {
                if evaluates(session, event) {
                    Step { session: committed(session, outcome), ..stay }
                } else {
                    stay
                }
            } else if selected < session.entries.len() {
                Step {
                    action: Action::Exit,
                    chosen: Some(session.entries[selected as int]),
                    ..stay
                }
            } else {
                stay
            }
        },
        Event::DeleteEntry { selected } => Step {
            session: SessionView {
                input: session.input,
                entries: removed(session.entries, selected as int),
            },
            ..stay
        },
        Event::Complete { selected: Some(selected) } => {
            if selected < session.entries.len() {
                Step { buffer: session.entries[selected as int].output, ..stay }
            } else {
                stay
            }
        },
        Event::Complete { selected: None } => stay,
        Event::CustomInput { .. } => stay,
        Event::CustomCommand { .. } => stay,
    }
}

/// The sentinel is never removed: a request to delete line 0 leaves the
/// session, the host's buffer and the list as they are.
pub proof fn lemma_delete_sentinel_changes_nothing(
    session: SessionView,
    buffer: Seq<char>,
    outcome: OutcomeView,
)
    ensures
        step(session, Event::DeleteEntry { selected: 0 }, buffer, outcome) == (Step {
            session,
            buffer,
            action: Action::Reload,
            chosen: None,
        }),
{
}

/// Completing never changes the session, and so never the entries: at most
/// the host's buffer changes, and the session goes on.
pub proof fn lemma_complete_keeps_session(
    session: SessionView,
    selected: Option<usize>,
    buffer: Seq<char>,
    outcome: OutcomeView,
)
    ensures
        step(session, Event::Complete { selected }, buffer, outcome).session == session,
        step(session, Event::Complete { selected }, buffer, outcome).action == Action::Reload,
        step(session, Event::Complete { selected }, buffer, outcome).chosen is None,
        selected matches Some(line) ==> (line < session.entries.len() ==> step(
            session,
            Event::Complete { selected },
            buffer,
            outcome,
        ).buffer == session.entries[line as int].output),
{
}

/// Selecting a kept entry ends the session and hands out that entry, and no
/// other, for the clipboard; the session itself stays as it is.
pub proof fn lemma_select_entry_exits(
    session: SessionView,
    alt: bool,
    selected: usize,
    buffer: Seq<char>,
    outcome: OutcomeView,
)
    requires
        0 < selected < session.entries.len(),
    ensures
        step(session, Event::Select { alt, selected }, buffer, outcome) == (Step {
            session,
            buffer,
            action: Action::Exit,
            chosen: Some(session.entries[selected as int]),
        }),
{
}

/// Selecting the sentinel while nothing has been typed keeps nothing and
/// does not end the session.
pub proof fn lemma_select_sentinel_before_input(
    session: SessionView,
    alt: bool,
    buffer: Seq<char>,
    outcome: OutcomeView,
)
    requires
        session.input == PLACEHOLDER@,
    ensures
        step(session, Event::Select { alt, selected: 0 }, buffer, outcome) == (Step {
            session,
            buffer,
            action: Action::Reload,
            chosen: None,
        }),
{
}

/// Selecting the sentinel once something has been typed keeps exactly the
/// successes: a success adds one entry, of the current input and its output,
/// behind all others; a failure adds none. Either way the session goes on.
pub proof fn lemma_select_sentinel_commits(
    session: SessionView,
    alt: bool,
    buffer: Seq<char>,
    outcome: OutcomeView,
)
    requires
        session.input != PLACEHOLDER@,
    ensures
        step(session, Event::Select { alt, selected: 0 }, buffer, outcome) == (Step {
            session: committed(session, outcome),
            buffer,
            action: Action::Reload,
            chosen: None,
        }),
        outcome matches OutcomeView::Success(output) ==> committed(session, outcome).entries
            == session.entries.push(EntryView { input: session.input, output }),
        !(outcome is Success) ==> committed(session, outcome) == session,
{
}

/// No event removes the sentinel or puts anything before it.
pub proof fn lemma_step_keeps_sentinel(
    session: SessionView,
    event: Event,
    buffer: Seq<char>,
    outcome: OutcomeView,
)
    requires
        is_store(session.entries),
    ensures
        is_store(step(session, event, buffer, outcome).session.entries),
{
}

/// The list grows only when the user commits a successful evaluation, and
/// then by one entry; no event changes the current input.
pub proof fn lemma_entries_grow_only_on_commit(
    session: SessionView,
    event: Event,
    buffer: Seq<char>,
    outcome: OutcomeView,
)
    ensures
        step(session, event, buffer, outcome).session.input == session.input,
        step(session, event, buffer, outcome).session.entries.len() <= session.entries.len() + 1,
        step(session, event, buffer, outcome).session.entries.len() > session.entries.len() ==> (
            evaluates(session, event) && outcome is Success),
{
}

/// While nothing has been typed the status line is the placeholder itself.
pub proof fn lemma_message_before_input(outcome: OutcomeView)
    ensures
        may_evaluate_to(PLACEHOLDER@, outcome) ==> outcome is Uninitialized && message_text(
            PLACEHOLDER@,
            outcome,
        ) == PLACEHOLDER@,
{
}

/// The entry that a [`Reaction`] hands out, as plain text.
pub open spec fn chosen_view(chosen: Option<Entry>) -> Option<EntryView> {
    match chosen {
        Some(entry) => Some(entry@),
        None => None,
    }
}

/// The state of one launcher session.
pub struct Session {
    evaluator: Evaluator,
    current_input: String,
    store: EntryStore,
}

impl View for Session {
    type V = SessionView;

    closed spec fn view(&self) -> SessionView {
        SessionView { input: self.current_input@, entries: self.store@ }
    }
}

impl Session {
    /// The session is well formed: the sentinel stands at index 0. A fresh
    /// session is, and no operation makes a well-formed session ill-formed.
    pub open spec fn wf(&self) -> bool {
        is_store(self@.entries)
    }

    /// The evaluator with the bindings that the session's evaluations have
    /// made so far.
    pub closed spec fn evaluator(&self) -> Evaluator {
        self.evaluator
    }

    /// A fresh session: nothing typed, nothing kept, only builtins known.
    pub fn init() -> (session: Session)
        ensures
            session.wf(),
            session@ == (SessionView { input: PLACEHOLDER@, entries: seq![sentinel()] }),
    {
        Session {
            evaluator: Evaluator::new(),
            current_input: PLACEHOLDER.to_owned(),
            store: EntryStore::new(),
        }
    }

    /// The number of lines on the list: the sentinel and the kept entries.
    pub fn entries(&self) -> (count: usize)
        ensures
            count == self@.entries.len(),
            self.wf() ==> count >= 1,
    {
        self.store.count()
    }

    /// The text of the line at `line`: the output of the entry there.
    pub fn entry_content(&self, line: usize) -> (content: Result<String, StoreError>)
        ensures
            line < self@.entries.len() ==> (content matches Ok(text) && text@
                == self@.entries[line as int].output),
            line >= self@.entries.len() ==> content == Err::<String, StoreError>(
                StoreError::IndexOutOfRange,
            ),
    {
        match self.store.get(line) {
            Ok(entry) => Ok(entry.output().to_owned()),
            Err(error) => Err(error),
        }
    }

    /// Whether the line at `line` matches what the user has typed. Every line
    /// matches, whatever was typed: the list is not filtered.
    #[allow(unused_variables)]
    pub fn entry_matches(&self, line: usize) -> (yes: bool)
        ensures
            yes,
    {
        true
    }

    /// Whether nothing has been typed yet.
    pub fn is_init(&self) -> (yes: bool)
        ensures
            yes == (self@.input == PLACEHOLDER@),
    {
        self.current_input == PLACEHOLDER.to_owned()
    }

    /// Whether `selected` is the line that commits the current evaluation.
    pub fn is_history_button(&self, selected: usize) -> (yes: bool)
        ensures
            yes == (selected == 0),
    {
        self.store.is_sentinel(selected)
    }

    /// Records `input` as the current input and hands it back unchanged for
    /// the host to match lines against.
    pub fn preprocess_input(&mut self, input: &str) -> (processed: String)
        ensures
            processed@ == input@,
            final(self)@ == (SessionView { input: input@, entries: old(self)@.entries }),
            final(self).evaluator() == old(self).evaluator(),
    {
        self.current_input = input.to_owned();
        input.to_owned()
    }

    /// Evaluates the current input. The session's text and entries stay as
    /// they are; the evaluator may learn new bindings.
    pub fn eval(&mut self) -> (outcome: Outcome)
        ensures
            may_evaluate_to(old(self)@.input, outcome@),
            final(self)@ == old(self)@,
            evaluates_nothing(old(self)@.input)
                ==> final(self).evaluator() == old(self).evaluator(),
    {
        self.evaluator.evaluate(self.current_input.as_str())
    }

    /// The status line: the current input is evaluated and what it came to is
    /// rendered. Nothing is kept.
    pub fn message(&mut self) -> (message: String)
        ensures
            final(self)@ == old(self)@,
            exists|outcome: OutcomeView|
                may_evaluate_to(old(self)@.input, outcome) && message@ == #[trigger] message_text(
                    old(self)@.input,
                    outcome,
                ),
            old(self)@.input == PLACEHOLDER@ ==> message@ == PLACEHOLDER@,
            evaluates_nothing(old(self)@.input)
                ==> final(self).evaluator() == old(self).evaluator(),
    {
        let outcome = self.eval();
        render_message(self.current_input.as_str(), &outcome)
    }

    /// Keeps `outcome`, which the current input came to, if it is a success:
    /// the input and its output become the last entry. Any other outcome
    /// changes nothing.
    pub fn commit(&mut self, outcome: Outcome)
        ensures
            final(self)@ == committed(old(self)@, outcome@),
            old(self).wf() ==> final(self).wf(),
            final(self).evaluator() == old(self).evaluator(),
    {
        match outcome {
            Outcome::Success(output) => {
                self.store.append(self.current_input.clone(), output);
            },
            _ => {},
        }
    }

    /// Reacts to `event`, where `input` is the host's input buffer.
    ///
    /// Cancelling ends the session. Selecting a kept entry ends it too and
    /// hands the entry out for the clipboard. Selecting the sentinel evaluates
    /// the current input, unless nothing has been typed, and keeps a success.
    /// Deleting removes a kept entry and never the sentinel. Completing puts
    /// the output of the selected entry into the host's buffer. An event that
    /// names a line that is not there, and any other event, changes nothing.
    pub fn react(&mut self, event: Event, input: &mut String) -> (reaction: Reaction)
        ensures
            old(self).wf() ==> final(self).wf(),
            exists|outcome: OutcomeView|
                may_evaluate_to(old(self)@.input, outcome) && #[trigger] step(
                    old(self)@,
                    event,
                    old(input)@,
                    outcome,
                ) == (Step {
                    session: final(self)@,
                    buffer: final(input)@,
                    action: reaction.action,
                    chosen: chosen_view(reaction.chosen),
                }),
            !evaluates(old(self)@, event) || evaluates_nothing(old(self)@.input)
                ==> final(self).evaluator() == old(self).evaluator(),
    {
        let ghost before = self@;
        let ghost buffer = input@;
        let ghost idle = idle_outcome(before.input);
        let mut reaction = Reaction { action: Action::Reload, chosen: None };
        match event {
            Event::Cancel { selected: _ } => {
                reaction.action = Action::Exit;
            },
            Event::Select { alt: _, selected } => {
                if !self.is_history_button(selected) {
                    match self.store.get(selected) {
                        Ok(entry) => {
                            reaction.action = Action::Exit;
                            reaction.chosen = Some(entry.clone());
                        },
                        Err(_) => {},
                    }
                } else if !self.is_init() {
                    let outcome = self.eval();
                    self.commit(outcome);
                    assert(step(before, event, buffer, outcome@) == (Step {
                        session: self@,
                        buffer: input@,
                        action: reaction.action,
                        chosen: chosen_view(reaction.chosen),
                    }));
                    return reaction;
                }
            },
            Event::DeleteEntry { selected } => {
                if !self.is_history_button(selected) {
                    let _ = self.store.remove(selected);
                }
            },
            Event::Complete { selected: Some(selected) } => {
                match self.store.get(selected) {
                    Ok(entry) => {
                        *input = entry.output().to_owned();
                    },
                    Err(_) => {},
                }
            },
            Event::Complete { selected: None } => {},
            Event::CustomInput { alt: _, selected: _ } => {},
            Event::CustomCommand { number: _, selected: _ } => {},
        }
        assert(step(before, event, buffer, idle) == (Step {
            session: self@,
            buffer: input@,
            action: reaction.action,
            chosen: chosen_view(reaction.chosen),
        }));
        reaction
    }
}

/// An outcome that `text` may come to: there always is one.
spec fn idle_outcome(text: Seq<char>) -> OutcomeView {
    if text == PLACEHOLDER@ {
        OutcomeView::Uninitialized
    } else {
        match parsed_as(text) {
            Err(message) => OutcomeView::ParseFailure(message),
            Ok(_) => OutcomeView::Success(Seq::empty()),
        }
    }
}

} // verus!
