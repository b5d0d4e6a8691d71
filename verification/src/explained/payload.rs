use vstd::prelude::*;

verus! {

/// The model operations' error.
#[derive(Debug, Clone, PartialEq, Eq)]
pub enum DummyError {
    Msg(String),
}

#[derive(Debug, Clone, PartialEq, Eq)]
pub struct GetThingIn {
    pub id: u32,
}

#[derive(Debug, Clone, PartialEq, Eq)]
pub struct GetThingOut {
    pub value: String,
}

#[derive(Debug, Clone, PartialEq, Eq)]
pub struct GetCombinedIn {
    pub id: u32,
}

#[derive(Debug, Clone, PartialEq, Eq)]
pub struct CombinedOut {
    pub value: String,
    pub other: u32,
}

} // verus!
