//! One kept input/output pair.

use vstd::prelude::*;

verus! {

/// What an [`Entry`] holds, as plain text.
pub struct EntryView {
    pub input: Seq<char>,
    pub output: Seq<char>,
}

/// The text that was typed, paired with the text it evaluated to. An entry is
/// never changed once it is made.
#[derive(Debug, PartialEq, Eq)]
pub struct Entry {
    input: String,
    output: String,
}

impl View for Entry {
    type V = EntryView;

    closed spec fn view(&self) -> EntryView {
        EntryView { input: self.input@, output: self.output@ }
    }
}

impl Clone for Entry {
    fn clone(&self) -> (copy: Entry)
        ensures
            copy@ == self@,
    {
        Entry { input: self.input.clone(), output: self.output.clone() }
    }
}

/// The line that reports a chosen entry: its input, an arrow, its output.
pub open spec fn summary_text(entry: EntryView) -> Seq<char> {
    entry.input + " => "@ + entry.output
}

impl Entry {
    /// Pairs `input` with `output`.
    pub fn new(input: String, output: String) -> (entry: Entry)
        ensures
            entry@ == (EntryView { input: input@, output: output@ }),
    {
        Entry { input, output }
    }

    /// The text that was typed.
    pub fn input(&self) -> (text: &str)
        ensures
            text@ == self@.input,
    {
        self.input.as_str()
    }

    /// The text that the input evaluated to.
    pub fn output(&self) -> (text: &str)
        ensures
            text@ == self@.output,
    {
        self.output.as_str()
    }

    /// The line that reports this entry when it is chosen.
    pub fn summary(&self) -> (line: String)
        ensures
            line@ == summary_text(self@),
    {
        let mut line = self.input.clone();
        line.append(" => ");
        line.append(self.output.as_str());
        line
    }
}

} // verus!
