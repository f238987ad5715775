//! The actions a user can pick when the tool starts.
use vstd::prelude::*;
use crate::text::text;

verus! {

/// What the user wants to do.
#[derive(Debug, Clone, Copy, PartialEq, Eq, Structural)]
pub enum Action {
    CreateNewVersion,
    DefineWord,
}

/// Every action, in the order they are offered.
pub open spec fn all_actions() -> Seq<Action> {
    seq![Action::CreateNewVersion, Action::DefineWord]
}

/// How an action is shown to the user.
pub open spec fn action_label(a: Action) -> Seq<char> {
    match a {
        Action::CreateNewVersion => "Create a new version"@,
        Action::DefineWord => "Define a word"@,
    }
}

impl Action {
    /// Every action, in the order they are offered.
    pub fn variants() -> (r: Vec<Action>)
        ensures
            r@ == all_actions(),
    {
        let mut r: Vec<Action> = Vec::new();
        r.push(Action::CreateNewVersion);
        r.push(Action::DefineWord);
        assert(r@ =~= all_actions());
        r
    }

    /// How the action is shown to the user.
    pub fn to_string(&self) -> (r: String)
        ensures
            r@ == action_label(*self),
    {
        match self {
            Action::CreateNewVersion => text("Create a new version"),
            Action::DefineWord => text("Define a word"),
        }
    }
}

} // verus!
