use vstd::prelude::*;

verus! {

/// An order's state as the order endpoint reports it.
#[derive(Debug)]
pub struct OrderStatus {
    pub status: String,
}

impl OrderStatus {
    /// The order has been paid.
    pub fn is_completed(&self) -> (r: bool)
        ensures
            r == (self.status@ == "completed"@),
    {
        self.status == String::from_str("completed")
    }
}

} // verus!
