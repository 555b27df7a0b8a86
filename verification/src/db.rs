//! The error of the account store.

use vstd::prelude::*;
use vstd::string::*;

verus! {

/// A failure of the account store. Holds its description.
#[derive(Debug, Clone, PartialEq, Eq)]
pub struct StoreError(pub String);

impl View for StoreError {
    type V = Seq<char>;

    open spec fn view(&self) -> Seq<char> {
        self.0@
    }
}

/// What the store says when no account has the title asked for.
pub open spec fn missing_account_text() -> Seq<char> {
    "no account with that name"@
}

impl StoreError {
    /// A store error with the given description.
    pub fn new(description: String) -> (e: StoreError)
        ensures
            e@ == description@,
    {
        StoreError(description)
    }

    /// The error for a title under which nothing is stored.
    pub fn missing_account() -> (e: StoreError)
        ensures
            e@ == missing_account_text(),
    {
        StoreError("no account with that name".to_owned())
    }

    /// The description this error was made with.
    pub fn description(&self) -> (text: &String)
        ensures
            text@ == self@,
    {
        &self.0
    }
}

} // verus!
