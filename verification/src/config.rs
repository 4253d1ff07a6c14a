//! What the maintenance command is asked to do.

use vstd::prelude::*;

verus! {

/// The options of the maintenance command.
#[derive(Debug)]
pub struct Config {
    /// The action to run, if any.
    pub action: Option<Action>,
}

/// An action of the maintenance command.
#[derive(Copy, Clone, PartialEq, Eq, PartialOrd, Ord, Debug, Structural)]
pub enum Action {
    /// Fill the database with sample pastes.
    Seed,
    /// Empty the database.
    Drop,
    /// Both, in that order.
    All,
}

} // verus!
