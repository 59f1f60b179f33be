//! The persisted entity and the transient input form, with the input
//! validation rule applied at the boundary before any write.

use vstd::prelude::*;

verus! {

/// A persisted todo row: a store-assigned identifier and a title.
#[derive(Debug)]
pub struct Todo {
    pub id: i32,
    pub title: String,
}

/// The transient input carried by create and update requests.
#[derive(Debug)]
pub struct TodoForm {
    pub title: String,
}

/// The validation rule on input titles: a title must be non-empty.
pub open spec fn valid_title(t: Seq<char>) -> bool {
    t.len() >= 1
}

impl Todo {
    /// An exact copy of the row.
    pub fn duplicate(&self) -> (t: Todo)
        ensures
            t.id == self.id,
            t.title == self.title,
    {
        Todo { id: self.id, title: self.title.clone() }
    }
}

impl TodoForm {
    /// Checks the validation rule: the title is non-empty.
    pub fn is_valid(&self) -> (b: bool)
        ensures
            b == valid_title(self.title@),
    {
        let n: usize = self.title.as_str().unicode_len();
        n >= 1
    }
}

} // verus!
