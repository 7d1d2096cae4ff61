//! What holds of every store that follows the persistence contract.
use vstd::prelude::*;

use crate::model::{FieldValues, Row};
use crate::service::{next_state, Command};
use crate::table::{lemma_index_of, TableModel};

verus! {

/// A create keeps the store well formed.
pub proof fn lemma_create_well_formed(t: TableModel, values: FieldValues)
    requires
        t.well_formed(),
        t.can_create(),
    ensures
        t.create(values).0.well_formed(),
{
    let t2 = t.create(values).0;
    assert forall|i: int, j: int| 0 <= i < j < t2.rows.len() implies #[trigger] t2.rows[i].id
        < #[trigger] t2.rows[j].id by {
        if j == t.rows.len() {
            assert(t.rows[i].id < t.next_id);
        } else {
            assert(t.rows[i].id < t.rows[j].id);
        }
    }
}

/// An update keeps the store well formed.
pub proof fn lemma_update_well_formed(t: TableModel, id: i64, values: FieldValues)
    requires
        t.well_formed(),
    ensures
        t.update(id, values).0.well_formed(),
{
    if t.contains(id) {
        let k = t.index_of(id);
        let t2 = t.update(id, values).0;
        assert(t.rows[k].id == id);
        assert forall|i: int| 0 <= i < t2.rows.len() implies #[trigger] t2.rows[i].id
            == t.rows[i].id by {}
        assert forall|i: int, j: int| 0 <= i < j < t2.rows.len() implies #[trigger] t2.rows[i].id
            < #[trigger] t2.rows[j].id by {
            assert(t2.rows[i].id == t.rows[i].id);
            assert(t2.rows[j].id == t.rows[j].id);
            assert(t.rows[i].id < t.rows[j].id);
        }
        assert forall|i: int| 0 <= i < t2.rows.len() implies 1 <= #[trigger] t2.rows[i].id
            < t2.next_id by {
            assert(t2.rows[i].id == t.rows[i].id);
            assert(1 <= t.rows[i].id < t.next_id);
        }
    }
}

/// A delete keeps the store well formed, and no row has the id afterwards.
pub proof fn lemma_delete_well_formed(t: TableModel, id: i64)
    requires
        t.well_formed(),
    ensures
        t.delete(id).0.well_formed(),
        !t.delete(id).0.contains(id),
{
    if t.contains(id) {
        let k = t.index_of(id);
        let t2 = t.delete(id).0;
        assert(t.rows[k].id == id);
        assert forall|i: int| 0 <= i < t2.rows.len() implies #[trigger] t2.rows[i] == (if i < k {
            t.rows[i]
        } else {
            t.rows[i + 1]
        }) by {}
        assert forall|i: int, j: int| 0 <= i < j < t2.rows.len() implies #[trigger] t2.rows[i].id
            < #[trigger] t2.rows[j].id by {
            let a = if i < k { i } else { i + 1 };
            let b = if j < k { j } else { j + 1 };
            assert(t2.rows[i] == t.rows[a]);
            assert(t2.rows[j] == t.rows[b]);
            assert(t.rows[a].id < t.rows[b].id);
        }
        assert forall|i: int| 0 <= i < t2.rows.len() implies 1 <= #[trigger] t2.rows[i].id
            < t2.next_id by {
            let a = if i < k { i } else { i + 1 };
            assert(t2.rows[i] == t.rows[a]);
            assert(1 <= t.rows[a].id < t.next_id);
        }
        if t2.contains(id) {
            let i = t2.index_of(id);
            let a = if i < k { i } else { i + 1 };
            assert(t2.rows[i] == t.rows[a]);
            if a < k {
                assert(t.rows[a].id < t.rows[k].id);
            } else {
                assert(t.rows[k].id < t.rows[a].id);
            }
        }
    }
}

/// Every command keeps the store well formed, and the next id never goes
/// back.
pub proof fn lemma_next_state_well_formed(t: TableModel, cmd: Command)
    requires
        t.well_formed(),
    ensures
        next_state(t, cmd).well_formed(),
        next_state(t, cmd).next_id >= t.next_id,
{
    match cmd {
        Command::Create(f) => if t.can_create() {
            lemma_create_well_formed(t, f@);
        },
        Command::Update(id, f) => lemma_update_well_formed(t, id, f@),
        Command::Delete(id) => lemma_delete_well_formed(t, id),
        _ => {},
    }
}

/// Reading a created resource back by its id gives exactly what the create
/// returned: the next id, and the input's fields.
pub proof fn lemma_get_after_create(t: TableModel, values: FieldValues)
    requires
        t.well_formed(),
        t.can_create(),
    ensures
        t.create(values).1 == (Row { id: t.next_id, values }),
        t.create(values).0.get(t.create(values).1.id) == Some(t.create(values).1),
{
    let (t2, row) = t.create(values);
    lemma_create_well_formed(t, values);
    lemma_index_of(t2, row.id, t.rows.len() as int);
}

/// The state after creating each of `inputs` in turn, and the rows that the
/// creates returned.
pub open spec fn create_all(t: TableModel, inputs: Seq<FieldValues>) -> (TableModel, Seq<Row>)
    decreases inputs.len(),
{
    if inputs.len() == 0 {
        (t, Seq::empty())
    } else {
        let (s, rows) = create_all(t, inputs.drop_last());
        let (s2, row) = s.create(inputs.last());
        (s2, rows.push(row))
    }
}

/// After `n` creates in turn on a store without rows (one that is empty, or
/// whose rows were all deleted), `list` holds exactly the `n` created
/// resources, in the order of creation, with distinct ascending ids, each
/// with the fields of its input.
pub proof fn lemma_list_after_creates(t: TableModel, inputs: Seq<FieldValues>)
    requires
        t.well_formed(),
        t.rows.len() == 0,
        t.next_id + inputs.len() <= i64::MAX,
    ensures
        create_all(t, inputs).0.well_formed(),
        create_all(t, inputs).0.rows == create_all(t, inputs).1,
        create_all(t, inputs).0.rows.len() == inputs.len(),
        create_all(t, inputs).0.next_id == t.next_id + inputs.len(),
        forall|i: int|
            0 <= i < inputs.len() ==> (#[trigger] create_all(t, inputs).0.rows[i]).values
                == inputs[i],
        forall|i: int, j: int|
            0 <= i < j < inputs.len() ==> (#[trigger] create_all(t, inputs).0.rows[i]).id
                < (#[trigger] create_all(t, inputs).0.rows[j]).id,
    decreases inputs.len(),
{
    if inputs.len() > 0 {
        let prev = inputs.drop_last();
        lemma_list_after_creates(t, prev);
        let (s, rows) = create_all(t, prev);
        lemma_create_well_formed(s, inputs.last());
        let s2 = create_all(t, inputs).0;
        assert forall|i: int| 0 <= i < inputs.len() implies (#[trigger] s2.rows[i]).values
            == inputs[i] by {
            if i < prev.len() {
                assert(s.rows[i].values == prev[i]);
            }
        }
    }
}

/// An update of an id that no row has (never created, or deleted) reports
/// no row and leaves the store as it was: no row is created.
pub proof fn lemma_update_absent(t: TableModel, id: i64, values: FieldValues)
    requires
        !t.contains(id),
    ensures
        t.update(id, values).1 is None,
        t.update(id, values).0 == t,
        t.update(id, values).0.rows.len() == t.rows.len(),
{
}

/// After a delete, an update of the same id reports no row and leaves the
/// store as the delete left it.
pub proof fn lemma_update_after_delete(t: TableModel, id: i64, values: FieldValues)
    requires
        t.well_formed(),
    ensures
        t.delete(id).0.update(id, values).1 is None,
        t.delete(id).0.update(id, values).0 == t.delete(id).0,
{
    lemma_delete_well_formed(t, id);
}

/// After a delete, no row has the id: a get finds none, and a second delete
/// reports that there was none.
pub proof fn lemma_delete_then_get(t: TableModel, id: i64)
    requires
        t.well_formed(),
    ensures
        t.delete(id).0.get(id) is None,
        !t.delete(id).0.delete(id).1,
        t.delete(id).0.delete(id).0 == t.delete(id).0,
{
    lemma_delete_well_formed(t, id);
}

/// An update of an existing row replaces both of its fields: the row that it
/// returns, and that a get reads back, is made of the id and the new values
/// alone, whatever the row held before.
pub proof fn lemma_update_replaces(t: TableModel, u: TableModel, id: i64, values: FieldValues)
    requires
        t.well_formed(),
        t.contains(id),
        u.contains(id),
    ensures
        t.update(id, values).1 == Some(Row { id, values }),
        t.update(id, values).0.get(id) == Some(Row { id, values }),
        t.update(id, values).1 == u.update(id, values).1,
{
    let k = t.index_of(id);
    assert(t.rows[k].id == id);
    lemma_update_well_formed(t, id, values);
    lemma_index_of(t.update(id, values).0, id, k);
}

/// The state after a sequence of commands.
pub open spec fn run(t: TableModel, cmds: Seq<Command>) -> TableModel
    decreases cmds.len(),
{
    if cmds.len() == 0 {
        t
    } else {
        next_state(run(t, cmds.drop_last()), cmds.last())
    }
}

/// The ids that the creates among a sequence of commands assigned, in order.
pub open spec fn created_ids(t: TableModel, cmds: Seq<Command>) -> Seq<i64>
    decreases cmds.len(),
{
    if cmds.len() == 0 {
        Seq::empty()
    } else {
        let s = run(t, cmds.drop_last());
        let prev = created_ids(t, cmds.drop_last());
        match cmds.last() {
            Command::Create(_) => if s.can_create() {
                prev.push(s.next_id)
            } else {
                prev
            },
            _ => prev,
        }
    }
}

/// Creates that reach the store from any number of callers are carried out
/// in some order, interleaved with other commands. Whatever that order, the
/// ids that they assign are pairwise distinct, strictly ascending, and none
/// was assigned before the sequence began, so no id is reused even after a
/// delete.
pub proof fn lemma_created_ids_distinct(t: TableModel, cmds: Seq<Command>)
    requires
        t.well_formed(),
    ensures
        run(t, cmds).well_formed(),
        run(t, cmds).next_id >= t.next_id,
        forall|i: int|
            0 <= i < created_ids(t, cmds).len() ==> t.next_id <= #[trigger] created_ids(
                t,
                cmds,
            )[i] < run(t, cmds).next_id,
        forall|i: int, j: int|
            0 <= i < j < created_ids(t, cmds).len() ==> #[trigger] created_ids(t, cmds)[i]
                < #[trigger] created_ids(t, cmds)[j],
    decreases cmds.len(),
{
    if cmds.len() > 0 {
        let prev = cmds.drop_last();
        lemma_created_ids_distinct(t, prev);
        let s = run(t, prev);
        lemma_next_state_well_formed(s, cmds.last());
        let ids = created_ids(t, cmds);
        let old_ids = created_ids(t, prev);
        assert forall|i: int| 0 <= i < old_ids.len() implies #[trigger] old_ids[i] < s.next_id by {}
    }
}

} // verus!
