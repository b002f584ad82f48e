//! Lifecycle events of a pull request or an issue.

use vstd::prelude::*;

verus! {

/// A lifecycle moment of a pull request or an issue.
#[derive(Clone, Copy, Debug, PartialEq, Eq, Structural)]
pub enum Event {
    Open,
    Update,
    Close,
    Merge,
}

impl Event {
    /// The display name of the event, as a sequence of characters.
    pub open spec fn spec_name(self) -> Seq<char> {
        match self {
            Event::Open => "open"@,
            Event::Update => "update"@,
            Event::Close => "close"@,
            Event::Merge => "merge"@,
        }
    }

    /// The ending that turns the name into its past tense: `d` after a
    /// final `e`, `ed` otherwise.
    pub open spec fn spec_past_tense_suffix(self) -> Seq<char> {
        if self.spec_name().len() > 0 && self.spec_name().last() == 'e' {
            "d"@
        } else {
            "ed"@
        }
    }

    /// The name followed by its past-tense ending, as the report prints it.
    pub open spec fn spec_past_tense(self) -> Seq<char> {
        self.spec_name() + self.spec_past_tense_suffix()
    }

    /// The display name of the event.
    pub fn name(&self) -> (r: &'static str)
        ensures
            r@ == self.spec_name(),
    {
        match self {
            Event::Open => "open",
            Event::Update => "update",
            Event::Close => "close",
            Event::Merge => "merge",
        }
    }

    /// The display name of the event; the same text as [`Event::name`].
    pub fn as_str(&self) -> (r: &'static str)
        ensures
            r@ == self.spec_name(),
    {
        self.name()
    }

    /// The past-tense ending of the name.
    pub fn past_tense_suffix(&self) -> (r: &'static str)
        ensures
            r@ == self.spec_past_tense_suffix(),
    {
        proof {
            lemma_names_spelled();
        }
        match self {
            Event::Open => "ed",
            Event::Update => "d",
            Event::Close => "d",
            Event::Merge => "d",
        }
    }
}

/// The four names, letter by letter.
pub proof fn lemma_names_spelled()
    ensures
        Event::Open.spec_name() == seq!['o', 'p', 'e', 'n'],
        Event::Update.spec_name() == seq!['u', 'p', 'd', 'a', 't', 'e'],
        Event::Close.spec_name() == seq!['c', 'l', 'o', 's', 'e'],
        Event::Merge.spec_name() == seq!['m', 'e', 'r', 'g', 'e'],
{
    reveal_strlit("open");
    reveal_strlit("update");
    reveal_strlit("close");
    reveal_strlit("merge");
    assert(Event::Open.spec_name() =~= seq!['o', 'p', 'e', 'n']);
    assert(Event::Update.spec_name() =~= seq!['u', 'p', 'd', 'a', 't', 'e']);
    assert(Event::Close.spec_name() =~= seq!['c', 'l', 'o', 's', 'e']);
    assert(Event::Merge.spec_name() =~= seq!['m', 'e', 'r', 'g', 'e']);
}

/// Only `open` lacks a final `e`, so it alone takes `ed`.
pub proof fn lemma_past_tense_suffix(event: Event)
    ensures
        event.spec_past_tense_suffix() == if event == Event::Open {
            "ed"@
        } else {
            "d"@
        },
{
    lemma_names_spelled();
}

} // verus!
