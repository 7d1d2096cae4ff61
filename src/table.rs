//! The persistence contract that every gateway meets, stated over a model of
//! the store, and a gateway that keeps its rows in memory and is verified
//! against it.
use vstd::prelude::*;

use crate::laws::{lemma_delete_well_formed, lemma_get_after_create};
use crate::model::{FieldValues, Fields, Resource, Row};
use crate::response::Failure;

verus! {

/// The state of a store as the persistence contract sees it: its rows in the
/// order that `list` returns them, and the id that the next create assigns.
pub struct TableModel {
    pub rows: Seq<Row>,
    pub next_id: i64,
}

impl TableModel {
    /// The state of a store that was never written to.
    pub open spec fn empty() -> TableModel {
        TableModel { rows: Seq::empty(), next_id: 1 }
    }

    /// Ids are positive and below the next id to assign, and the rows stand
    /// in strictly ascending order of id, so no two rows share an id.
    pub open spec fn well_formed(self) -> bool {
        &&& 1 <= self.next_id
        &&& forall|i: int|
            0 <= i < self.rows.len() ==> 1 <= #[trigger] self.rows[i].id < self.next_id
        &&& forall|i: int, j: int|
            0 <= i < j < self.rows.len() ==> #[trigger] self.rows[i].id
                < #[trigger] self.rows[j].id
    }

    /// Whether a row has this id.
    pub open spec fn contains(self, id: i64) -> bool {
        exists|i: int| 0 <= i < self.rows.len() && #[trigger] self.rows[i].id == id
    }

    /// The position of the row with this id, where there is one.
    pub open spec fn index_of(self, id: i64) -> int {
        choose|i: int| 0 <= i < self.rows.len() && #[trigger] self.rows[i].id == id
    }

    /// `get(id)`: the row with this id, or none.
    pub open spec fn get(self, id: i64) -> Option<Row> {
        if self.contains(id) {
            Some(self.rows[self.index_of(id)])
        } else {
            None
        }
    }

    /// Whether an id is left to assign: otherwise a create fails in the store.
    pub open spec fn can_create(self) -> bool {
        self.next_id < i64::MAX
    }

    /// `create(values)`: a new row with the next id, appended; the next id
    /// moves on, so an id is never assigned twice.
    pub open spec fn create(self, values: FieldValues) -> (TableModel, Row) {
        let row = Row { id: self.next_id, values };
        (TableModel { rows: self.rows.push(row), next_id: (self.next_id + 1) as i64 }, row)
    }

    /// `update(id, values)`: both fields of the row with this id replaced,
    /// or, where no row has it, the store unchanged and no row.
    pub open spec fn update(self, id: i64, values: FieldValues) -> (TableModel, Option<Row>) {
        if self.contains(id) {
            let row = Row { id, values };
            (TableModel { rows: self.rows.update(self.index_of(id), row), ..self }, Some(row))
        } else {
            (self, None)
        }
    }

    /// `delete(id)`: the row with this id removed, and whether there was one.
    pub open spec fn delete(self, id: i64) -> (TableModel, bool) {
        if self.contains(id) {
            (TableModel { rows: self.rows.remove(self.index_of(id)), ..self }, true)
        } else {
            (self, false)
        }
    }
}

/// A row with its id found at position `i` of a well-formed store is the one
/// that `get` returns.
pub proof fn lemma_index_of(t: TableModel, id: i64, i: int)
    requires
        t.well_formed(),
        0 <= i < t.rows.len(),
        t.rows[i].id == id,
    ensures
        t.contains(id),
        t.index_of(id) == i,
        t.get(id) == Some(t.rows[i]),
{
    let j = t.index_of(id);
    assert(t.rows[j].id == id);
    if j < i {
        assert(t.rows[j].id < t.rows[i].id);
    } else if i < j {
        assert(t.rows[i].id < t.rows[j].id);
    }
}

/// A gateway that keeps the rows of one collection in memory.
pub struct MemoryTable {
    rows: Vec<Resource>,
    next_id: i64,
}

impl View for MemoryTable {
    type V = TableModel;

    closed spec fn view(&self) -> TableModel {
        TableModel { rows: self.rows@.map_values(|r: Resource| r@), next_id: self.next_id }
    }
}

impl MemoryTable {
    /// The gateway's invariant: its model is well formed.
    pub open spec fn wf(&self) -> bool {
        self@.well_formed()
    }

    /// An empty store whose first create assigns id 1.
    pub fn new() -> (t: MemoryTable)
        ensures
            t.wf(),
            t@ == TableModel::empty(),
    {
        let t = MemoryTable { rows: Vec::new(), next_id: 1 };
        assert(t@.rows =~= Seq::<Row>::empty());
        t
    }

    /// The position of the row with this id.
    fn find(&self, id: i64) -> (r: Option<usize>)
        requires
            self.wf(),
        ensures
            match r {
                Some(i) => i < self@.rows.len() && self@.contains(id) && self@.index_of(id)
                    == i,
                None => !self@.contains(id),
            },
    {
        let mut i: usize = 0;
        while i < self.rows.len()
            invariant
                self.wf(),
                i <= self.rows.len(),
                self@.rows.len() == self.rows.len(),
                forall|k: int| 0 <= k < i ==> self@.rows[k].id != id,
            decreases self.rows.len() - i,
        {
            assert(self@.rows[i as int] == self.rows@[i as int]@);
            if self.rows[i].id == id {
                proof {
                    lemma_index_of(self@, id, i as int);
                }
                return Some(i);
            }
            i = i + 1;
        }
        None
    }

    /// All resources, ascending by id; empty for an empty store.
    pub fn list(&self) -> (r: Vec<Resource>)
        requires
            self.wf(),
        ensures
            r@.map_values(|x: Resource| x@) == self@.rows,
    {
        let mut out: Vec<Resource> = Vec::new();
        let mut i: usize = 0;
        while i < self.rows.len()
            invariant
                i <= self.rows.len(),
                out@ == self.rows@.subrange(0, i as int),
            decreases self.rows.len() - i,
        {
            out.push(self.rows[i].duplicate());
            i = i + 1;
            assert(out@ =~= self.rows@.subrange(0, i as int));
        }
        assert(out@ =~= self.rows@);
        assert(out@.map_values(|x: Resource| x@) =~= self@.rows);
        out
    }

    /// The resource with this id, or `NotFound`.
    pub fn get(&self, id: i64) -> (r: Result<Resource, Failure>)
        requires
            self.wf(),
        ensures
            match r {
                Ok(x) => self@.get(id) == Some(x@),
                Err(f) => self@.get(id) is None && f == Failure::NotFound,
            },
    {
        match self.find(id) {
            Some(i) => {
                assert(self@.rows[i as int] == self.rows@[i as int]@);
                Ok(self.rows[i].duplicate())
            },
            None => Err(Failure::NotFound),
        }
    }

    /// Stores a new resource under a fresh id and returns it. Fails with
    /// `Persistence` only where the ids are spent, and then changes nothing.
    pub fn create(&mut self, input: Fields) -> (r: Result<Resource, Failure>)
        requires
            old(self).wf(),
        ensures
            final(self).wf(),
            old(self)@.can_create() ==> r is Ok && (final(self)@, r->Ok_0@) == old(
                self,
            )@.create(input@),
            !old(self)@.can_create() ==> r == Err::<Resource, Failure>(Failure::Persistence)
                && final(self)@ == old(self)@,
            r is Ok ==> final(self)@.get(r->Ok_0.id) == Some(r->Ok_0@),
    {
        if self.next_id == i64::MAX {
            return Err(Failure::Persistence);
        }
        let res = Resource { id: self.next_id, fields: input };
        let ghost before = self@;
        self.rows.push(res.duplicate());
        self.next_id = self.next_id + 1;
        assert(self@.rows =~= before.rows.push(res@));
        proof {
            lemma_get_after_create(before, input@);
        }
        Ok(res)
    }

    /// Replaces both fields of the resource with this id and returns it, or
    /// fails with `NotFound` and changes nothing; never creates a row.
    pub fn update(&mut self, id: i64, input: Fields) -> (r: Result<Resource, Failure>)
        requires
            old(self).wf(),
        ensures
            final(self).wf(),
            final(self)@ == old(self)@.update(id, input@).0,
            match r {
                Ok(x) => old(self)@.update(id, input@).1 == Some(x@),
                Err(f) => old(self)@.update(id, input@).1 is None && f == Failure::NotFound,
            },
    {
        match self.find(id) {
            Some(i) => {
                let res = Resource { id, fields: input };
                let ghost before = self@;
                self.rows.set(i, res.duplicate());
                assert(self@.rows =~= before.rows.update(i as int, res@));
                Ok(res)
            },
            None => Err(Failure::NotFound),
        }
    }

    /// Removes the resource with this id, or fails with `NotFound` and
    /// changes nothing.
    pub fn delete(&mut self, id: i64) -> (r: Result<(), Failure>)
        requires
            old(self).wf(),
        ensures
            final(self).wf(),
            final(self)@ == old(self)@.delete(id).0,
            r is Ok <==> old(self)@.delete(id).1,
            r is Err ==> r == Err::<(), Failure>(Failure::NotFound),
            final(self)@.get(id) is None,
    {
        proof {
            lemma_delete_well_formed(self@, id);
        }
        match self.find(id) {
            Some(i) => {
                let ghost before = self@;
                self.rows.remove(i);
                assert(self@.rows =~= before.rows.remove(i as int));
                Ok(())
            },
            None => Err(Failure::NotFound),
        }
    }
}

} // verus!
