//! A small reusable logic component shared by the board applications.

use vstd::prelude::*;

verus! {

/// A simple logic component identified by a numeric id.
pub struct LogicController {
    pub id: u32,
}

impl LogicController {
    /// Create a new logic controller with the given id.
    pub fn new(id: u32) -> (r: Self)
        ensures
            r.id == id,
    {
        LogicController { id }
    }

    /// Process one step of logic: the result is twice the id.
    pub fn process(&self) -> (r: u32)
        requires
            self.id * 2 <= u32::MAX,
        ensures
            r == self.id * 2,
    {
        self.id * 2
    }
}

/// Initialize the logic system with the default controller.
pub fn init() -> (r: LogicController)
    ensures
        r.id == 1,
{
    LogicController::new(1)
}

} // verus!
