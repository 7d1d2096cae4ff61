//! The handlers: a request becomes a command, a gateway carries it out, and
//! the outcome becomes a response.
use vstd::prelude::*;

use crate::model::{Fields, Resource, ResourceKind};
use crate::response::{
    body_for, respond, status_for, Body, Failure, Invalid, Outcome, Response, Success, Verb,
};
use crate::route::{route, spec_route, Method, Route};
use crate::table::{MemoryTable, TableModel};

verus! {

/// One gateway call, with its input.
#[derive(Clone, Debug, PartialEq, Eq)]
pub enum Command {
    List,
    Get(i64),
    Create(Fields),
    Update(i64, Fields),
    Delete(i64),
}

impl Route {
    /// Whether the route's handler reads a create or update input from the
    /// request body.
    pub open spec fn spec_takes_body(self) -> bool {
        self is Create || self is Update
    }

    /// Whether the route's handler reads a create or update input from the
    /// request body.
    pub fn takes_body(self) -> (r: bool)
        ensures
            r == self.spec_takes_body(),
    {
        match self {
            Route::Create | Route::Update(_) => true,
            _ => false,
        }
    }
}

impl Command {
    pub open spec fn spec_verb(&self) -> Verb {
        match self {
            Command::List => Verb::List,
            Command::Get(_) => Verb::Get,
            Command::Create(_) => Verb::Create,
            Command::Update(_, _) => Verb::Update,
            Command::Delete(_) => Verb::Delete,
        }
    }

    /// The operation that the command performs.
    pub fn verb(&self) -> (r: Verb)
        ensures
            r == self.spec_verb(),
    {
        match self {
            Command::List => Verb::List,
            Command::Get(_) => Verb::Get,
            Command::Create(_) => Verb::Create,
            Command::Update(_, _) => Verb::Update,
            Command::Delete(_) => Verb::Delete,
        }
    }
}

/// The command for a route and the decoded body: a route that takes a body
/// and has none is a malformed request; other routes ignore the body.
pub open spec fn spec_command(route: Route, body: Option<Fields>) -> Result<Command, Failure> {
    match (route, body) {
        (Route::List, _) => Ok(Command::List),
        (Route::Get(id), _) => Ok(Command::Get(id)),
        (Route::Delete(id), _) => Ok(Command::Delete(id)),
        (Route::Create, Some(f)) => Ok(Command::Create(f)),
        (Route::Update(id), Some(f)) => Ok(Command::Update(id, f)),
        (Route::Create, None) | (Route::Update(_), None) => Err(
            Failure::Invalid(Invalid::MalformedBody),
        ),
    }
}

/// Builds the command for a route from the decoded request body, or fails
/// with `Invalid(MalformedBody)` where the route needs a body and none could
/// be decoded.
pub fn command(route: Route, body: Option<Fields>) -> (r: Result<Command, Failure>)
    ensures
        r == spec_command(route, body),
{
    match (route, body) {
        (Route::List, _) => Ok(Command::List),
        (Route::Get(id), _) => Ok(Command::Get(id)),
        (Route::Delete(id), _) => Ok(Command::Delete(id)),
        (Route::Create, Some(f)) => Ok(Command::Create(f)),
        (Route::Update(id), Some(f)) => Ok(Command::Update(id, f)),
        (Route::Create, None) | (Route::Update(_), None) => Err(
            Failure::Invalid(Invalid::MalformedBody),
        ),
    }
}

/// The state of a store after it carried out `cmd` by the persistence
/// contract.
pub open spec fn next_state(t: TableModel, cmd: Command) -> TableModel {
    match cmd {
        Command::List | Command::Get(_) => t,
        Command::Create(f) => if t.can_create() {
            t.create(f@).0
        } else {
            t
        },
        Command::Update(id, f) => t.update(id, f@).0,
        Command::Delete(id) => t.delete(id).0,
    }
}

/// Whether `out` is what the persistence contract has `cmd` return on a
/// store in state `t`.
pub open spec fn outcome_fits(t: TableModel, cmd: Command, out: Outcome) -> bool {
    match cmd {
        Command::List => match out {
            Ok(Success::Many(v)) => v@.map_values(|x: Resource| x@) == t.rows,
            _ => false,
        },
        Command::Get(id) => match (t.get(id), out) {
            (Some(row), Ok(Success::One(x))) => x@ == row,
            (None, Err(f)) => f == Failure::NotFound,
            _ => false,
        },
        Command::Create(f) => match out {
            Ok(Success::One(x)) => t.can_create() && x@ == t.create(f@).1,
            Err(e) => !t.can_create() && e == Failure::Persistence,
            _ => false,
        },
        Command::Update(id, f) => match (t.update(id, f@).1, out) {
            (Some(row), Ok(Success::One(x))) => x@ == row,
            (None, Err(e)) => e == Failure::NotFound,
            _ => false,
        },
        Command::Delete(id) => match out {
            Ok(Success::Deleted) => t.delete(id).1,
            Err(e) => !t.delete(id).1 && e == Failure::NotFound,
            _ => false,
        },
    }
}

impl MemoryTable {
    /// Carries out one command on the store.
    pub fn execute(&mut self, cmd: Command) -> (r: Outcome)
        requires
            old(self).wf(),
        ensures
            final(self).wf(),
            final(self)@ == next_state(old(self)@, cmd),
            outcome_fits(old(self)@, cmd, r),
    {
        match cmd {
            Command::List => Ok(Success::Many(self.list())),
            Command::Get(id) => match self.get(id) {
                Ok(x) => Ok(Success::One(x)),
                Err(e) => Err(e),
            },
            Command::Create(f) => match self.create(f) {
                Ok(x) => Ok(Success::One(x)),
                Err(e) => Err(e),
            },
            Command::Update(id, f) => match self.update(id, f) {
                Ok(x) => Ok(Success::One(x)),
                Err(e) => Err(e),
            },
            Command::Delete(id) => match self.delete(id) {
                Ok(()) => Ok(Success::Deleted),
                Err(e) => Err(e),
            },
        }
    }
}

/// The response to a request that fails before any gateway call.
pub open spec fn failure_response(f: Failure) -> Response {
    Response { status: f.spec_status(), body: Body::Notice(f.spec_notice()) }
}

/// Handles one request on a collection kept in a `MemoryTable`: routes it,
/// builds the command from the decoded body, carries it out and maps the
/// outcome to a response. A request that matches no route or carries a bad
/// id or body leaves the store unchanged.
pub fn handle(
    table: &mut MemoryTable,
    kind: ResourceKind,
    method: Method,
    path: &[u8],
    body: Option<Fields>,
) -> (r: Response)
    requires
        old(table).wf(),
    ensures
        final(table).wf(),
        match spec_route(kind, method, path@) {
            Err(f) => final(table)@ == old(table)@ && r == failure_response(f),
            Ok(rt) => match spec_command(rt, body) {
                Err(f) => final(table)@ == old(table)@ && r == failure_response(f),
                Ok(cmd) => final(table)@ == next_state(old(table)@, cmd) && exists|out: Outcome|
                    outcome_fits(old(table)@, cmd, out) && r.status == status_for(
                        cmd.spec_verb(),
                        out,
                    ) && r.body == body_for(out),
            },
        },
{
    let rt = match route(kind, method, path) {
        Ok(rt) => rt,
        Err(f) => return respond(Verb::List, Err(f)),
    };
    let cmd = match command(rt, body) {
        Ok(cmd) => cmd,
        Err(f) => return respond(Verb::List, Err(f)),
    };
    let verb = cmd.verb();
    let out = table.execute(cmd);
    respond(verb, out)
}

} // verus!
