use rofi_faye::entry::Entry;
use rofi_faye::evaluator::PLACEHOLDER;
use rofi_faye::outcome::Outcome;
use rofi_faye::session::{Action, Event, Reaction, Session};
use rofi_faye::store::StoreError;

const RELOAD: Reaction = Reaction { action: Action::Reload, chosen: None };
const EXIT: Reaction = Reaction { action: Action::Exit, chosen: None };

fn select(selected: usize) -> Event {
    Event::Select { alt: false, selected }
}

fn contents(session: &Session) -> Vec<String> {
    (0..session.entries()).map(|line| session.entry_content(line).unwrap()).collect()
}

/// A session that holds the sentinel and the entries of "(+ 1 2)" and "(* 2 5)".
fn session_with_two_entries() -> Session {
    let mut session = Session::init();
    let mut buffer = String::new();
    session.preprocess_input("(+ 1 2)");
    assert_eq!(session.react(select(0), &mut buffer), RELOAD);
    session.preprocess_input("(* 2 5)");
    assert_eq!(session.react(select(0), &mut buffer), RELOAD);
    assert_eq!(contents(&session), ["Add to history", "3", "10"]);
    session
}

#[test]
fn fresh_session_shows_the_sentinel_and_the_placeholder() {
    let mut session = Session::init();
    assert_eq!(session.entries(), 1);
    assert_eq!(session.entry_content(0), Ok("Add to history".to_string()));
    assert!(session.is_init());
    assert_eq!(session.eval(), Outcome::Uninitialized);
    assert_eq!(session.message(), PLACEHOLDER);
    assert_eq!(session.message(), "faye 0.6.1");
}

#[test]
fn entry_content_past_the_end_is_out_of_range() {
    let session = Session::init();
    assert_eq!(session.entry_content(1), Err(StoreError::IndexOutOfRange));
}

#[test]
fn only_line_zero_is_the_history_button() {
    let session = Session::init();
    assert!(session.is_history_button(0));
    assert!(!session.is_history_button(1));
}

#[test]
fn every_line_matches() {
    let session = session_with_two_entries();
    assert!(session.entry_matches(0));
    assert!(session.entry_matches(2));
    assert!(session.entry_matches(99));
}

#[test]
fn preprocess_input_records_the_text_and_hands_it_back() {
    let mut session = Session::init();
    assert_eq!(session.preprocess_input("(+ 1 2)"), "(+ 1 2)");
    assert!(!session.is_init());
    assert_eq!(session.eval(), Outcome::Success("3".to_string()));
    assert_eq!(session.preprocess_input(PLACEHOLDER), PLACEHOLDER);
    assert!(session.is_init());
}

#[test]
fn message_of_a_success_names_input_and_result() {
    let mut session = Session::init();
    session.preprocess_input("(+ 1 2)");
    assert_eq!(session.message(), "Result: <b>(+ 1 2) => 3</b>");
}

#[test]
fn message_of_a_parse_failure_shows_the_diagnostic() {
    let mut session = Session::init();
    session.preprocess_input("(");
    assert_eq!(
        session.message(),
        "<span foreground='#ee9598'>Error: Unclosed parenthesis</span>"
    );
}

#[test]
fn message_of_an_eval_failure_shows_the_diagnostic() {
    let mut session = Session::init();
    session.preprocess_input("(1 + 2)");
    assert_eq!(
        session.message(),
        "<span foreground='#ee9598'>Error: `1` is not a function</span>"
    );
}

#[test]
fn message_keeps_nothing() {
    let mut session = Session::init();
    session.preprocess_input("(+ 1 2)");
    session.message();
    session.message();
    assert_eq!(session.entries(), 1);
}

#[test]
fn selecting_the_sentinel_keeps_a_success() {
    let mut session = Session::init();
    let mut buffer = "(+ 1 2)".to_string();
    session.preprocess_input("(+ 1 2)");
    assert_eq!(session.react(select(0), &mut buffer), RELOAD);
    assert_eq!(session.entries(), 2);
    assert_eq!(session.entry_content(1), Ok("3".to_string()));
    assert_eq!(buffer, "(+ 1 2)");
}

#[test]
fn committing_a_success_appends_the_current_input_with_its_output() {
    let mut session = Session::init();
    let mut buffer = String::new();
    session.preprocess_input("1 + 2");
    session.commit(Outcome::Success("3".to_string()));
    assert_eq!(session.entries(), 2);
    let reaction = session.react(select(1), &mut buffer);
    assert_eq!(
        reaction.chosen,
        Some(Entry::new("1 + 2".to_string(), "3".to_string()))
    );
}

#[test]
fn committing_anything_but_a_success_keeps_nothing() {
    let mut session = Session::init();
    session.preprocess_input("(");
    session.commit(Outcome::ParseFailure("Unclosed parenthesis".to_string()));
    session.commit(Outcome::EvalFailure("`1` is not a function".to_string()));
    session.commit(Outcome::Uninitialized);
    assert_eq!(session.entries(), 1);
}

#[test]
fn selecting_the_sentinel_after_a_parse_failure_keeps_nothing() {
    let mut session = Session::init();
    let mut buffer = "(".to_string();
    session.preprocess_input("(");
    assert_eq!(
        session.eval(),
        Outcome::ParseFailure("Unclosed parenthesis".to_string())
    );
    assert_eq!(session.react(select(0), &mut buffer), RELOAD);
    assert_eq!(session.entries(), 1);
}

#[test]
fn selecting_the_sentinel_after_an_eval_failure_keeps_nothing() {
    let mut session = Session::init();
    let mut buffer = String::new();
    session.preprocess_input("(1 + 2)");
    assert_eq!(session.react(select(0), &mut buffer), RELOAD);
    assert_eq!(session.entries(), 1);
}

#[test]
fn selecting_the_sentinel_before_any_input_keeps_nothing() {
    let mut session = Session::init();
    let mut buffer = String::new();
    assert_eq!(session.react(select(0), &mut buffer), RELOAD);
    assert_eq!(session.react(Event::Select { alt: true, selected: 0 }, &mut buffer), RELOAD);
    assert_eq!(session.entries(), 1);
    assert!(session.is_init());
}

#[test]
fn selecting_a_kept_entry_exits_with_that_entry() {
    let mut session = session_with_two_entries();
    let mut buffer = "typed".to_string();
    let reaction = session.react(select(2), &mut buffer);
    assert_eq!(reaction.action, Action::Exit);
    assert_eq!(
        reaction.chosen,
        Some(Entry::new("(* 2 5)".to_string(), "10".to_string()))
    );
    assert_eq!(reaction.chosen.unwrap().summary(), "(* 2 5) => 10");
    assert_eq!(contents(&session), ["Add to history", "3", "10"]);
    assert_eq!(buffer, "typed");
}

#[test]
fn selecting_a_line_that_is_not_there_changes_nothing() {
    let mut session = session_with_two_entries();
    let mut buffer = String::new();
    assert_eq!(session.react(select(3), &mut buffer), RELOAD);
    assert_eq!(contents(&session), ["Add to history", "3", "10"]);
}

#[test]
fn deleting_the_sentinel_changes_nothing() {
    let mut session = session_with_two_entries();
    let mut buffer = "typed".to_string();
    assert_eq!(session.react(Event::DeleteEntry { selected: 0 }, &mut buffer), RELOAD);
    assert_eq!(contents(&session), ["Add to history", "3", "10"]);
    assert_eq!(buffer, "typed");

    let mut fresh = Session::init();
    assert_eq!(fresh.react(Event::DeleteEntry { selected: 0 }, &mut buffer), RELOAD);
    assert_eq!(contents(&fresh), ["Add to history"]);
}

#[test]
fn deleting_an_entry_moves_the_later_ones_down() {
    let mut session = session_with_two_entries();
    let mut buffer = String::new();
    assert_eq!(session.react(Event::DeleteEntry { selected: 1 }, &mut buffer), RELOAD);
    assert_eq!(contents(&session), ["Add to history", "10"]);
    let reaction = session.react(select(1), &mut buffer);
    assert_eq!(
        reaction.chosen,
        Some(Entry::new("(* 2 5)".to_string(), "10".to_string()))
    );
}

#[test]
fn deleting_a_line_that_is_not_there_changes_nothing() {
    let mut session = session_with_two_entries();
    let mut buffer = String::new();
    assert_eq!(session.react(Event::DeleteEntry { selected: 3 }, &mut buffer), RELOAD);
    assert_eq!(contents(&session), ["Add to history", "3", "10"]);
}

#[test]
fn completing_puts_the_output_into_the_buffer_only() {
    let mut session = session_with_two_entries();
    let mut buffer = "typed".to_string();
    let event = Event::Complete { selected: Some(1) };
    assert_eq!(session.react(event, &mut buffer), RELOAD);
    assert_eq!(buffer, "3");
    assert_eq!(contents(&session), ["Add to history", "3", "10"]);
    assert_eq!(session.message(), "Result: <b>(* 2 5) => 10</b>");
}

#[test]
fn completing_from_the_sentinel_puts_its_label_into_the_buffer() {
    let mut session = Session::init();
    let mut buffer = String::new();
    let event = Event::Complete { selected: Some(0) };
    assert_eq!(session.react(event, &mut buffer), RELOAD);
    assert_eq!(buffer, "Add to history");
    assert_eq!(session.entries(), 1);
}

#[test]
fn completing_without_a_line_changes_nothing() {
    let mut session = session_with_two_entries();
    let mut buffer = "typed".to_string();
    assert_eq!(session.react(Event::Complete { selected: None }, &mut buffer), RELOAD);
    assert_eq!(session.react(Event::Complete { selected: Some(3) }, &mut buffer), RELOAD);
    assert_eq!(buffer, "typed");
    assert_eq!(contents(&session), ["Add to history", "3", "10"]);
}

#[test]
fn cancelling_exits_without_an_entry() {
    let mut session = session_with_two_entries();
    let mut buffer = "typed".to_string();
    assert_eq!(session.react(Event::Cancel { selected: Some(1) }, &mut buffer), EXIT);
    assert_eq!(session.react(Event::Cancel { selected: None }, &mut buffer), EXIT);
    assert_eq!(contents(&session), ["Add to history", "3", "10"]);
    assert_eq!(buffer, "typed");
}

#[test]
fn custom_events_change_nothing() {
    let mut session = session_with_two_entries();
    let mut buffer = "typed".to_string();
    let input = Event::CustomInput { alt: false, selected: Some(1) };
    let command = Event::CustomCommand { number: 3, selected: None };
    assert_eq!(session.react(input, &mut buffer), RELOAD);
    assert_eq!(session.react(command, &mut buffer), RELOAD);
    assert_eq!(contents(&session), ["Add to history", "3", "10"]);
    assert_eq!(buffer, "typed");
}

#[test]
fn bindings_made_while_typing_are_there_when_committing() {
    let mut session = Session::init();
    let mut buffer = String::new();
    session.preprocess_input("(const width 5)");
    assert_eq!(session.message(), "Result: <b>(const width 5) => nil</b>");
    session.preprocess_input("(* width 2)");
    assert_eq!(session.react(select(0), &mut buffer), RELOAD);
    assert_eq!(contents(&session), ["Add to history", "10"]);
}
