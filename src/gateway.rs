//! The decisions that a handler makes on what a persistent store reports.
//!
//! The application talks to two kinds of store: one through hand-written SQL
//! statements, one through an entity mapping. Each statement's result comes
//! back here as a `Report`, and `step` decides, by one rule for both, what
//! the handler does next: answer with an outcome, or (for an entity-mapped
//! update, which first reads the row) save the replaced row.
use vstd::prelude::*;

use crate::model::Resource;
use crate::response::{Failure, Outcome, Success};
use crate::service::{outcome_fits, Command};
use crate::table::TableModel;

verus! {

/// What a store reported after a statement.
#[derive(Clone, Debug, PartialEq, Eq)]
pub enum Report {
    /// The rows of a full query, in the store's order (ascending id).
    Rows(Vec<Resource>),
    /// The row that a query by id returned, or none.
    Found(Option<Resource>),
    /// A raw insert succeeded and the store assigned this row id.
    Inserted(i64),
    /// An entity-mapped insert or update stored this row.
    Stored(Resource),
    /// A raw update or delete, or an entity-mapped delete, changed this many
    /// rows.
    Affected(u64),
    /// The store could not be reached, or refused the statement.
    Failed,
}

/// What a handler does after a report.
#[derive(Debug, PartialEq, Eq)]
pub enum Step {
    /// Answer with this outcome.
    Done(Outcome),
    /// Store this row, which replaces the one read, and report again.
    Save(Resource),
}

/// The rule that `step` follows. A report that does not answer the command
/// is treated as a store failure.
pub open spec fn spec_step(cmd: Command, report: Report) -> Step {
    match (cmd, report) {
        (_, Report::Failed) => Step::Done(Err(Failure::Persistence)),
        (Command::List, Report::Rows(v)) => Step::Done(Ok(Success::Many(v))),
        (Command::Get(_), Report::Found(Some(x))) => Step::Done(Ok(Success::One(x))),
        (Command::Get(_), Report::Found(None)) => Step::Done(Err(Failure::NotFound)),
        (Command::Update(_, _), Report::Found(None)) => Step::Done(Err(Failure::NotFound)),
        (Command::Update(id, f), Report::Found(Some(_))) => Step::Save(
            Resource { id, fields: f },
        ),
        (Command::Create(f), Report::Inserted(id)) => Step::Done(
            Ok(Success::One(Resource { id, fields: f })),
        ),
        (Command::Create(_), Report::Stored(x)) => Step::Done(Ok(Success::One(x))),
        (Command::Update(_, _), Report::Stored(x)) => Step::Done(Ok(Success::One(x))),
        (Command::Update(id, f), Report::Affected(n)) => if n == 0 {
            Step::Done(Err(Failure::NotFound))
        } else {
            Step::Done(Ok(Success::One(Resource { id, fields: f })))
        },
        (Command::Delete(_), Report::Affected(n)) => if n == 0 {
            Step::Done(Err(Failure::NotFound))
        } else {
            Step::Done(Ok(Success::Deleted))
        },
        _ => Step::Done(Err(Failure::Persistence)),
    }
}

/// Decides what a handler does after the store's report on `cmd`: zero rows
/// changed, or no row read, is `NotFound`; a store failure is `Persistence`;
/// an update replaces both fields with the input's; a create returns the
/// input under the id that the store assigned.
pub fn step(cmd: Command, report: Report) -> (r: Step)
    ensures
        r == spec_step(cmd, report),
{
    match (cmd, report) {
        (_, Report::Failed) => Step::Done(Err(Failure::Persistence)),
        (Command::List, Report::Rows(v)) => Step::Done(Ok(Success::Many(v))),
        (Command::Get(_), Report::Found(Some(x))) => Step::Done(Ok(Success::One(x))),
        (Command::Get(_), Report::Found(None)) => Step::Done(Err(Failure::NotFound)),
        (Command::Update(_, _), Report::Found(None)) => Step::Done(Err(Failure::NotFound)),
        (Command::Update(id, f), Report::Found(Some(_))) => Step::Save(
            Resource { id, fields: f },
        ),
        (Command::Create(f), Report::Inserted(id)) => Step::Done(
            Ok(Success::One(Resource { id, fields: f })),
        ),
        (Command::Create(_), Report::Stored(x)) => Step::Done(Ok(Success::One(x))),
        (Command::Update(_, _), Report::Stored(x)) => Step::Done(Ok(Success::One(x))),
        (Command::Update(id, f), Report::Affected(n)) => if n == 0 {
            Step::Done(Err(Failure::NotFound))
        } else {
            Step::Done(Ok(Success::One(Resource { id, fields: f })))
        },
        (Command::Delete(_), Report::Affected(n)) => if n == 0 {
            Step::Done(Err(Failure::NotFound))
        } else {
            Step::Done(Ok(Success::Deleted))
        },
        _ => Step::Done(Err(Failure::Persistence)),
    }
}

/// Whether a query by `id` on a store in state `t` read what `found` holds.
pub open spec fn lookup_fits(t: TableModel, id: i64, found: Option<Resource>) -> bool {
    match (found, t.get(id)) {
        (Some(x), Some(row)) => x@ == row,
        (None, None) => true,
        _ => false,
    }
}

/// The rows changed by an update or delete of `id` on a store in state `t`.
pub open spec fn affected_by(t: TableModel, id: i64) -> u64 {
    if t.contains(id) {
        1
    } else {
        0
    }
}

/// Whether `report` is what the SQL store reports for `cmd` when it holds
/// the rows of `t` and acts as the persistence contract says.
pub open spec fn raw_report_fits(t: TableModel, cmd: Command, report: Report) -> bool {
    match (cmd, report) {
        (Command::List, Report::Rows(v)) => v@.map_values(|x: Resource| x@) == t.rows,
        (Command::Get(id), Report::Found(o)) => lookup_fits(t, id, o),
        (Command::Create(_), Report::Inserted(id)) => t.can_create() && id == t.next_id,
        (Command::Create(_), Report::Failed) => !t.can_create(),
        (Command::Update(id, _), Report::Affected(n)) => n == affected_by(t, id),
        (Command::Delete(id), Report::Affected(n)) => n == affected_by(t, id),
        _ => false,
    }
}

/// Whether `report` is what the entity-mapped store reports first for `cmd`
/// when it holds the rows of `t` and acts as the persistence contract says.
pub open spec fn entity_report_fits(t: TableModel, cmd: Command, report: Report) -> bool {
    match (cmd, report) {
        (Command::List, Report::Rows(v)) => v@.map_values(|x: Resource| x@) == t.rows,
        (Command::Get(id), Report::Found(o)) => lookup_fits(t, id, o),
        (Command::Create(f), Report::Stored(x)) => t.can_create() && x@ == t.create(f@).1,
        (Command::Create(_), Report::Failed) => !t.can_create(),
        (Command::Update(id, _), Report::Found(o)) => lookup_fits(t, id, o),
        (Command::Delete(id), Report::Affected(n)) => n == affected_by(t, id),
        _ => false,
    }
}

/// The SQL gateway meets the persistence contract: where the store reports
/// what the contract says of its rows, the handler answers with the outcome
/// that the contract gives.
pub proof fn lemma_raw_gateway_meets_contract(t: TableModel, cmd: Command, report: Report)
    requires
        t.well_formed(),
        raw_report_fits(t, cmd, report),
    ensures
        spec_step(cmd, report) is Done,
        outcome_fits(t, cmd, spec_step(cmd, report)->Done_0),
{
}

/// The entity-mapped gateway meets the persistence contract: where the store
/// reports what the contract says of its rows, the handler answers with the
/// outcome that the contract gives, or, for an update that found its row,
/// saves the row that the contract's update yields, and answers with the
/// contract's outcome once the store reports that row stored.
pub proof fn lemma_entity_gateway_meets_contract(t: TableModel, cmd: Command, report: Report)
    requires
        t.well_formed(),
        entity_report_fits(t, cmd, report),
    ensures
        match spec_step(cmd, report) {
            Step::Done(out) => outcome_fits(t, cmd, out),
            Step::Save(x) => cmd is Update && t.update(cmd->Update_0, cmd->Update_1@).1 == Some(
                x@,
            ) && forall|y: Resource| #[trigger]
                y@ == x@ ==> spec_step(cmd, Report::Stored(y)) is Done && outcome_fits(
                    t,
                    cmd,
                    spec_step(cmd, Report::Stored(y))->Done_0,
                ),
        },
{
}

} // verus!
