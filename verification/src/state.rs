//! The persisted record, the single-record store that owns it, and the
//! spec-level transitions of the store's contents.

use vstd::prelude::*;

use crate::error::ContractError;

verus! {

/// The one record this component persists.
pub struct State {
    pub count: i32,
    pub owner: String,
}

/// Mathematical model of a [`State`].
pub struct StateModel {
    pub count: int,
    pub owner: Seq<char>,
}

impl View for State {
    type V = StateModel;

    open spec fn view(&self) -> StateModel {
        StateModel { count: self.count as int, owner: self.owner@ }
    }
}

impl Clone for State {
    fn clone(&self) -> (r: State)
        ensures
            r == *self,
    {
        State { count: self.count, owner: self.owner.clone() }
    }
}

/// Store contents after initialization with seed `count` by `owner`.
pub open spec fn spec_init(count: int, owner: Seq<char>) -> Option<StateModel> {
    Some((StateModel { count, owner }))
}

/// Store contents after one increment: the counter grows by exactly one,
/// the owner is kept; an absent record stays absent.
pub open spec fn spec_increment(s: Option<StateModel>) -> Option<StateModel> {
    match s {
        Option::Some(m) => Some((StateModel { count: m.count + 1, owner: m.owner })),
        Option::None => None,
    }
}

/// What the counter query reads from the store's contents.
pub open spec fn spec_get_count(s: Option<StateModel>) -> Option<int> {
    match s {
        Option::Some(m) => Some(m.count),
        Option::None => None,
    }
}

/// Single-record keyed store. Holds no record until the first save.
pub struct Store {
    pub state: Option<State>,
}

impl View for Store {
    type V = Option<StateModel>;

    open spec fn view(&self) -> Option<StateModel> {
        match self.state {
            Option::Some(s) => Option::Some(s@),
            Option::None => Option::None,
        }
    }
}

impl Store {
    /// A store with no record yet.
    pub fn new() -> (s: Store)
        ensures
            s@ is None,
    {
        Store { state: Option::None }
    }

    /// Return a copy of the record, or `NotFound` when none was saved.
    pub fn load(&self) -> (r: Result<State, ContractError>)
        ensures
            match self@ {
                Option::Some(m) => r matches Ok(s) && s@ == m,
                Option::None => r matches Err(e) && e == ContractError::NotFound,
            },
    {
        match &self.state {
            Option::Some(s) => Ok(s.clone()),
            Option::None => Err(ContractError::NotFound),
        }
    }

    /// Persist `s`, replacing any earlier record.
    pub fn save(&mut self, s: State)
        ensures
            final(self)@ == Some(s@),
    {
        self.state = Option::Some(s);
    }
}

} // verus!
