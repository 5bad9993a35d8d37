use vstd::prelude::*;

verus! {

/// Dispatcher of the application's flux-style data flow.
pub struct Dispatch {}

impl Dispatch {
    pub fn new() -> (res: Self)
        ensures
            res == (Dispatch {}),
    {
        Self {}
    }
}

/// Store for state that belongs to no particular view.
pub struct UnspecificStore {}

impl UnspecificStore {
    pub fn new() -> (res: Self)
        ensures
            res == (UnspecificStore {}),
    {
        Self {}
    }
}

} // verus!
