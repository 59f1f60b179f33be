//! The in-memory model of the todo table: rows with store-assigned,
//! immutable identifiers and a uniqueness constraint on titles. The
//! data-access operations mirror the service's data layer: list, find,
//! create (insert, then return the row just written), update (rewrite
//! the title, then return the row), and remove (confirm existence, then
//! delete).

use vstd::prelude::*;
use vstd::string::StringExecFns;
use crate::models::Todo;
use crate::errors::{DbError, DbErrorInfo, DbErrorKind, ServiceError};
use crate::text::{append_dec_i32, dec_of_int};

verus! {

/// Some row carries this id.
pub open spec fn has_id(rows: Seq<Todo>, id: i32) -> bool {
    exists|i: int| 0 <= i < rows.len() && rows[i].id == id
}

/// The index of the row carrying this id, when one exists.
pub open spec fn idx_of(rows: Seq<Todo>, id: i32) -> int {
    choose|i: int| 0 <= i < rows.len() && rows[i].id == id
}

/// Some row carries this title.
pub open spec fn has_title(rows: Seq<Todo>, t: Seq<char>) -> bool {
    exists|i: int| 0 <= i < rows.len() && rows[i].title@ == t
}

/// Some row other than the one with the given id carries this title;
/// writing the title there would break the uniqueness constraint.
pub open spec fn title_conflict(rows: Seq<Todo>, id: i32, t: Seq<char>) -> bool {
    exists|i: int| 0 <= i < rows.len() && rows[i].title@ == t && rows[i].id != id
}

/// No two rows share an id.
pub open spec fn unique_ids(rows: Seq<Todo>) -> bool {
    forall|i: int, j: int| 0 <= i < j < rows.len() ==> rows[i].id != rows[j].id
}

/// No two rows share a title: the uniqueness constraint.
pub open spec fn unique_titles(rows: Seq<Todo>) -> bool {
    forall|i: int, j: int| 0 <= i < j < rows.len() ==> rows[i].title@ != rows[j].title@
}

/// The message surfaced when an insert breaks the uniqueness
/// constraint on titles.
pub open spec fn duplicate_title_message() -> Seq<char> {
    "Duplicate entry for key 'title'"@
}

/// The not-found message of a failed update, which names the id.
pub open spec fn update_not_found_message(id: int) -> Seq<char> {
    "Todo with id:"@ + dec_of_int(id) + " is Not Found"@
}

/// The not-found message of a failed removal.
pub open spec fn remove_not_found_message() -> Seq<char> {
    "Not Found"@
}

/// The todo table: rows in insertion order, and the next id the store
/// will assign.
pub struct TodoStore {
    rows: Vec<Todo>,
    next_id: i32,
}

impl TodoStore {
    /// The rows, in insertion order.
    pub closed spec fn todos(self) -> Seq<Todo> {
        self.rows@
    }

    /// The id the next successful insert will be assigned.
    pub closed spec fn next(self) -> int {
        self.next_id as int
    }

    /// Well-formedness: ids are unique and below the next id, titles
    /// are unique, and ids start at one.
    pub open spec fn wf(self) -> bool {
        &&& unique_ids(self.todos())
        &&& unique_titles(self.todos())
        &&& forall|i: int| 0 <= i < self.todos().len() ==> 1 <= #[trigger] self.todos()[i].id < self.next()
        &&& 1 <= self.next() <= i32::MAX
    }

    /// An empty table; ids will be assigned from one upwards.
    pub fn new() -> (s: TodoStore)
        ensures
            s.wf(),
            s.todos() == Seq::<Todo>::empty(),
            s.next() == 1,
    {
        let s = TodoStore { rows: Vec::new(), next_id: 1 };
        proof {
            assert(s.todos() =~= Seq::<Todo>::empty());
        }
        s
    }

    /// Every row, in insertion order.
    pub fn select_all(&self) -> (r: Vec<Todo>)
        ensures
            r@ == self.todos(),
    {
        let mut out: Vec<Todo> = Vec::new();
        let n = self.rows.len();
        let mut i: usize = 0;
        while i < n
            invariant
                n == self.rows.len(),
                i <= n,
                out@.len() == i as int,
                forall|k: int| 0 <= k < i as int ==> out@[k] == self.todos()[k],
            decreases n - i,
        {
            out.push(self.rows[i].duplicate());
            i += 1;
        }
        proof {
            assert(out@ =~= self.todos());
        }
        out
    }

    /// Looks a row up by id.
    pub fn find(&self, todo_id: i32) -> (r: Option<Todo>)
        requires
            self.wf(),
        ensures
            match r {
                Some(t) => has_id(self.todos(), todo_id) && t.id == todo_id && t == self.todos()[
                    idx_of(self.todos(), todo_id)
                ],
                None => !has_id(self.todos(), todo_id),
            },
    {
        let n = self.rows.len();
        let mut i: usize = 0;
        while i < n
            invariant
                self.wf(),
                n == self.rows.len(),
                i <= n,
                forall|k: int| 0 <= k < i as int ==> self.todos()[k].id != todo_id,
            decreases n - i,
        {
            if self.rows[i].id == todo_id {
                let t = self.rows[i].duplicate();
                proof {
                    assert(has_id(self.todos(), todo_id));
                    let j = idx_of(self.todos(), todo_id);
                    assert(0 <= j < self.todos().len() && self.todos()[j].id == todo_id);
                    if j != i as int {
                        assert(self.todos()[j].id != self.todos()[i as int].id);
                    }
                    assert(t == self.todos()[i as int]);
                }
                return Some(t);
            }
            i += 1;
        }
        None
    }

    /// The index of the row carrying this title, if any.
    fn title_index(&self, t: &String) -> (r: Option<usize>)
        ensures
            match r {
                Some(i) => i < self.todos().len() && self.todos()[i as int].title@ == t@,
                None => !has_title(self.todos(), t@),
            },
    {
        let n = self.rows.len();
        let mut i: usize = 0;
        while i < n
            invariant
                n == self.rows.len(),
                i <= n,
                forall|k: int| 0 <= k < i as int ==> self.todos()[k].title@ != t@,
            decreases n - i,
        {
            if self.rows[i].title.eq(t) {
                return Some(i);
            }
            i += 1;
        }
        None
    }

    /// Inserts a new row, or reports why the insert was refused: a
    /// duplicate title breaks the uniqueness constraint and surfaces as
    /// a bad request; an exhausted id space is an opaque failure.
    pub fn create_todo(&mut self, new_todo: crate::models::TodoForm) -> (r: Result<
        Todo,
        ServiceError,
    >)
        requires
            old(self).wf(),
        ensures
            final(self).wf(),
            match r {
                Ok(t) => !has_title(old(self).todos(), new_todo.title@) && old(self).next()
                    < i32::MAX && t.id as int == old(self).next() && t.title@ == new_todo.title@
                    && final(self).todos() == old(self).todos().push(t) && final(self).next()
                    == old(self).next() + 1,
                Err(e) => *final(self) == *old(self) && match e {
                    ServiceError::BadRequest(m) => has_title(old(self).todos(), new_todo.title@)
                        && m@ == duplicate_title_message(),
                    ServiceError::InternalServerError => !has_title(
                        old(self).todos(),
                        new_todo.title@,
                    ) && old(self).next() == i32::MAX,
                    _ => false,
                },
            },
    {
        match self.title_index(&new_todo.title) {
            Some(_) => {
                let info = DbErrorInfo {
                    details: Some(String::from_str("Duplicate entry for key 'title'")),
                    message: String::from_str("Duplicate entry for key 'title'"),
                };
                let db_err = DbError::DatabaseError(DbErrorKind::UniqueViolation, info);
                Err(ServiceError::from_db(&db_err))
            },
            None => {
                if self.next_id == i32::MAX {
                    Err(ServiceError::InternalServerError)
                } else {
                    let id = self.next_id;
                    let t = Todo { id, title: new_todo.title };
                    let out = t.duplicate();
                    let ghost rows0 = self.todos();
                    self.rows.push(t);
                    self.next_id = id + 1;
                    proof {
                        let rows1 = self.todos();
                        assert(rows1 =~= rows0.push(out));
                        assert forall|i: int, j: int| 0 <= i < j < rows1.len() implies rows1[i].id
                            != rows1[j].id by {
                            if j == rows1.len() - 1 {
                                assert(rows0[i].id < old(self).next());
                            }
                        }
                        assert forall|i: int, j: int| 0 <= i < j < rows1.len() implies rows1[i].title@
                            != rows1[j].title@ by {
                            if j == rows1.len() - 1 {
                                assert(rows0[i].title@ != new_todo.title@);
                            }
                        }
                    }
                    Ok(out)
                }
            },
        }
    }

    /// Rewrites the title of the addressed row, then returns the row.
    /// A missing row is not found (the message names the id); a title
    /// held by a different row breaks the uniqueness constraint, which
    /// the update path reports as an opaque failure.
    pub fn update_todo(&mut self, todo_id: i32, todo: crate::models::TodoForm) -> (r: Result<
        Todo,
        ServiceError,
    >)
        requires
            old(self).wf(),
        ensures
            final(self).wf(),
            final(self).next() == old(self).next(),
            match r {
                Ok(t) => has_id(old(self).todos(), todo_id) && !title_conflict(
                    old(self).todos(),
                    todo_id,
                    todo.title@,
                ) && t.id == todo_id && t.title@ == todo.title@ && final(self).todos()
                    == old(self).todos().update(idx_of(old(self).todos(), todo_id), t) && (forall|
                    j: int,
                |
                    0 <= j < old(self).todos().len() && j != idx_of(old(self).todos(), todo_id)
                        ==> final(self).todos()[j] == old(self).todos()[j]),
                Err(e) => *final(self) == *old(self) && match e {
                    ServiceError::NotFound(m) => !has_id(old(self).todos(), todo_id) && m@
                        == update_not_found_message(todo_id as int),
                    ServiceError::InternalServerError => has_id(old(self).todos(), todo_id)
                        && title_conflict(old(self).todos(), todo_id, todo.title@),
                    _ => false,
                },
            },
    {
        let n = self.rows.len();
        let mut idx: usize = 0;
        let mut found = false;
        while idx < n && !found
            invariant
                self.wf(),
                n == self.rows.len(),
                idx <= n,
                !found ==> forall|k: int| 0 <= k < idx as int ==> self.todos()[k].id != todo_id,
                found ==> idx < n && self.todos()[idx as int].id == todo_id,
            decreases n - idx + (if found { 0int } else { 1int }),
        {
            if self.rows[idx].id == todo_id {
                found = true;
            } else {
                idx += 1;
            }
        }
        if !found {
            let mut m = String::from_str("Todo with id:");
            append_dec_i32(todo_id, &mut m);
            m.append(" is Not Found");
            proof {
                assert(m@ =~= update_not_found_message(todo_id as int));
            }
            return Err(ServiceError::NotFound(m));
        }
        proof {
            assert(has_id(self.todos(), todo_id));
            let j = idx_of(self.todos(), todo_id);
            assert(0 <= j < self.todos().len() && self.todos()[j].id == todo_id);
            if j != idx as int {
                assert(self.todos()[j].id != self.todos()[idx as int].id);
            }
            assert(idx_of(self.todos(), todo_id) == idx as int);
        }
        match self.title_index(&todo.title) {
            Some(k) if k != idx => {
                return Err(ServiceError::InternalServerError);
            },
            _ => {},
        }
        proof {
            assert(!title_conflict(self.todos(), todo_id, todo.title@)) by {
                if title_conflict(self.todos(), todo_id, todo.title@) {
                    let c = choose|i: int|
                        0 <= i < self.todos().len() && self.todos()[i].title@ == todo.title@
                            && self.todos()[i].id != todo_id;
                    assert(has_title(self.todos(), todo.title@));
                }
            }
        }
        let t = Todo { id: todo_id, title: todo.title };
        let out = t.duplicate();
        let ghost rows0 = self.todos();
        self.rows.remove(idx);
        self.rows.insert(idx, t);
        proof {
            let rows1 = self.todos();
            assert(rows1 =~= rows0.update(idx as int, out));
            assert forall|i: int, j: int| 0 <= i < j < rows1.len() implies rows1[i].id
                != rows1[j].id by {
                assert(rows0[i].id != rows0[j].id);
            }
            assert forall|i: int, j: int| 0 <= i < j < rows1.len() implies rows1[i].title@
                != rows1[j].title@ by {
                if i == idx as int {
                    assert(rows0[j].title@ != todo.title@ || rows0[j].id == todo_id);
                    assert(rows0[j].id != rows0[i].id);
                } else if j == idx as int {
                    assert(rows0[i].title@ != todo.title@ || rows0[i].id == todo_id);
                    assert(rows0[i].id != rows0[j].id);
                } else {
                    assert(rows0[i].title@ != rows0[j].title@);
                }
            }
        }
        Ok(out)
    }

    /// Confirms the row exists, then deletes it; a missing row is not
    /// found. After a successful removal the id addresses nothing.
    pub fn remove_todo(&mut self, todo_id: i32) -> (r: Result<(), ServiceError>)
        requires
            old(self).wf(),
        ensures
            final(self).wf(),
            final(self).next() == old(self).next(),
            match r {
                Ok(_) => has_id(old(self).todos(), todo_id) && final(self).todos()
                    == old(self).todos().remove(idx_of(old(self).todos(), todo_id)) && !has_id(
                    final(self).todos(),
                    todo_id,
                ),
                Err(e) => *final(self) == *old(self) && (e matches ServiceError::NotFound(m)
                    && !has_id(old(self).todos(), todo_id) && m@ == remove_not_found_message()),
            },
    {
        let n = self.rows.len();
        let mut idx: usize = 0;
        let mut found = false;
        while idx < n && !found
            invariant
                self.wf(),
                n == self.rows.len(),
                idx <= n,
                !found ==> forall|k: int| 0 <= k < idx as int ==> self.todos()[k].id != todo_id,
                found ==> idx < n && self.todos()[idx as int].id == todo_id,
            decreases n - idx + (if found { 0int } else { 1int }),
        {
            if self.rows[idx].id == todo_id {
                found = true;
            } else {
                idx += 1;
            }
        }
        if !found {
            return Err(ServiceError::NotFound(String::from_str("Not Found")));
        }
        proof {
            assert(has_id(self.todos(), todo_id));
            let j = idx_of(self.todos(), todo_id);
            assert(0 <= j < self.todos().len() && self.todos()[j].id == todo_id);
            if j != idx as int {
                assert(self.todos()[j].id != self.todos()[idx as int].id);
            }
            assert(idx_of(self.todos(), todo_id) == idx as int);
        }
        let ghost rows0 = self.todos();
        self.rows.remove(idx);
        proof {
            let rows1 = self.todos();
            assert(rows1 =~= rows0.remove(idx as int));
            assert forall|i: int, j: int| 0 <= i < j < rows1.len() implies rows1[i].id
                != rows1[j].id by {
                let i0 = if i < idx as int { i } else { i + 1 };
                let j0 = if j < idx as int { j } else { j + 1 };
                assert(rows1[i] == rows0[i0] && rows1[j] == rows0[j0]);
                assert(rows0[i0].id != rows0[j0].id);
            }
            assert forall|i: int, j: int| 0 <= i < j < rows1.len() implies rows1[i].title@
                != rows1[j].title@ by {
                let i0 = if i < idx as int { i } else { i + 1 };
                let j0 = if j < idx as int { j } else { j + 1 };
                assert(rows1[i] == rows0[i0] && rows1[j] == rows0[j0]);
                assert(rows0[i0].title@ != rows0[j0].title@);
            }
            assert forall|i: int| 0 <= i < rows1.len() implies 1 <= #[trigger] rows1[i].id
                < self.next() by {
                let i0 = if i < idx as int { i } else { i + 1 };
                assert(rows1[i] == rows0[i0]);
            }
            assert(!has_id(rows1, todo_id)) by {
                if has_id(rows1, todo_id) {
                    let i = choose|i: int| 0 <= i < rows1.len() && rows1[i].id == todo_id;
                    let i0 = if i < idx as int { i } else { i + 1 };
                    assert(rows1[i] == rows0[i0]);
                    if i0 != idx as int {
                        assert(rows0[i0].id != rows0[idx as int].id);
                    }
                }
            }
        }
        Ok(())
    }
}

} // verus!
