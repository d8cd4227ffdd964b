//! The plain data that a run works on, each with its mathematical view.

use vstd::prelude::*;

verus! {

/// The views of the items of a sequence, in order.
pub open spec fn views<T: View>(s: Seq<T>) -> Seq<T::V> {
    Seq::new(s.len(), |i: int| s[i]@)
}

/// A registered login on the exercise site.
#[derive(Debug, PartialEq, Eq)]
pub struct Account {
    pub id: String,
    pub credential: String,
}

/// An account as plain text.
pub struct AccountView {
    pub id: Seq<char>,
    pub credential: Seq<char>,
}

impl View for Account {
    type V = AccountView;

    open spec fn view(&self) -> AccountView {
        AccountView { id: self.id@, credential: self.credential@ }
    }
}

impl Account {
    /// An account with this identifier and credential; neither is validated.
    pub fn new(id: String, credential: String) -> (r: Account)
        ensures
            r@.id == id@,
            r@.credential == credential@,
    {
        Account { id, credential }
    }

    /// A second account with the same identifier and credential.
    pub fn duplicate(&self) -> (r: Account)
        ensures
            r@ == self@,
    {
        Account { id: self.id.clone(), credential: self.credential.clone() }
    }
}

/// What an exercise page says: the statement and the code to start from.
#[derive(Debug, PartialEq, Eq)]
pub struct Exercise {
    pub statement: String,
    pub starter: String,
}

/// An exercise as plain text.
pub struct ExerciseView {
    pub statement: Seq<char>,
    pub starter: Seq<char>,
}

impl View for Exercise {
    type V = ExerciseView;

    open spec fn view(&self) -> ExerciseView {
        ExerciseView { statement: self.statement@, starter: self.starter@ }
    }
}

/// One field of a posted form.
#[derive(Debug, PartialEq, Eq)]
pub struct FormField {
    pub name: String,
    pub value: String,
}

impl View for FormField {
    type V = (Seq<char>, Seq<char>);

    open spec fn view(&self) -> (Seq<char>, Seq<char>) {
        (self.name@, self.value@)
    }
}

/// The expected content was not found in the markup of an exercise page.
#[derive(Clone, Copy, Debug, PartialEq, Eq, Structural)]
pub enum ParseError {
    MissingStatement,
    MissingStarterCode,
}

/// The completion service gave nothing that can be used as a solution.
#[derive(Clone, Copy, Debug, PartialEq, Eq, Structural)]
pub enum GenerationError {
    ServiceFailed,
    Undecodable,
    NoChoices,
}

/// Why a run ended without all submissions made.
#[derive(Clone, Copy, Debug, PartialEq, Eq, Structural)]
pub enum RunError {
    Fetch,
    Parse(ParseError),
    Generation(GenerationError),
    Auth,
    Submission,
    UnexpectedEvent,
}

} // verus!
