//! A model of what the manager works on: the record, the tables and the
//! administrators, and how each of them answers a request.
//!
//! The model states what the host is trusted to do. Runs of the manager
//! against it are what the laws of the engine speak of.

use crate::migrations::manager::{Phase, Reply, Request, RunView, Stage, Verdict};
use crate::migrations::record::Migration;
use crate::migrations::steps::{Entry, Table, Task};
use crate::repository::RepositoryResult;
use crate::version::Version;
use vstd::prelude::*;

verus! {

/// The stored state that a migration reads and changes.
pub struct World {
    /// The row of the migration record, if there is one. The key of the row
    /// is fixed, so there is never a second one.
    pub record: Option<Migration>,
    /// The tables that exist.
    pub tables: Set<Table>,
    /// Whether the table of faeries has the column of login tokens.
    pub auth_token_column: bool,
    /// How many administrators the table of players holds.
    pub admins: nat,
}

/// How a run against the model ended.
pub struct Ending {
    /// The state that the run left behind.
    pub world: World,
    /// The result of the run; `None` where it was cut short.
    pub result: Option<RepositoryResult<()>>,
}

impl World {
    /// What holds of every stored state: a record lies in its table, and so
    /// do the administrators, whose number can be reported.
    pub open spec fn coherent(self) -> bool {
        &&& self.record_is_kept()
        &&& self.admins > 0 ==> self.tables.contains(Table::Players)
        &&& self.admins <= i64::MAX
    }

    /// The record, where there is one, lies in its table.
    pub open spec fn record_is_kept(self) -> bool {
        self.record.is_some() ==> self.tables.contains(Table::Migrations)
    }

    /// The current version on record, `None` where there is no record or it
    /// holds none.
    pub open spec fn current(self) -> Option<Version> {
        match self.record {
            Some(record) => record.current_version,
            None => None,
        }
    }

    /// The state after a table was created unless it existed. A new table of
    /// faeries has no column of login tokens.
    pub open spec fn with_table(self, table: Table) -> World {
        World {
            tables: self.tables.insert(table),
            auth_token_column: if table == Table::Faeries && !self.tables.contains(table) {
                false
            } else {
                self.auth_token_column
            },
            ..self
        }
    }

    /// The state after a request was carried out, and the reply to it.
    pub open spec fn answer(self, request: Request) -> (World, Reply) {
        match request {
            Request::LoadRecord => if self.tables.contains(Table::Migrations) {
                (self, Reply::Record(self.record))
            } else {
                (self, Reply::Failed)
            },
            Request::UpdateRecord(record) => if !self.tables.contains(Table::Migrations) {
                (self, Reply::Failed)
            } else if self.record.is_some() {
                (World { record: Some(record), ..self }, Reply::Rows(1))
            } else {
                (self, Reply::Rows(0))
            },
            Request::InsertRecord(record) => if self.tables.contains(Table::Migrations)
                && self.record.is_none() {
                (World { record: Some(record), ..self }, Reply::Done)
            } else {
                (self, Reply::Failed)
            },
            Request::CreateTable(table) => (self.with_table(table), Reply::Done),
            Request::ProbeAuthTokenColumn => if self.tables.contains(Table::Faeries) {
                (self, Reply::Present(self.auth_token_column))
            } else {
                (self, Reply::Failed)
            },
            Request::DropAuthTokenColumn => if self.tables.contains(Table::Faeries)
                && self.auth_token_column {
                (World { auth_token_column: false, ..self }, Reply::Done)
            } else {
                (self, Reply::Failed)
            },
            Request::CountAdmins => if self.tables.contains(Table::Players) && self.admins
                <= i64::MAX {
                (self, Reply::Count(self.admins as i64))
            } else {
                (self, Reply::Failed)
            },
            Request::InsertAdmin => if self.tables.contains(Table::Players) {
                (World { admins: self.admins + 1, ..self }, Reply::Done)
            } else {
                (self, Reply::Failed)
            },
            Request::Complete => (self, Reply::Done),
            Request::Abort(_, _) => (self, Reply::Done),
        }
    }

    /// As `answer`, unless a fault strikes: then nothing changes and the
    /// request fails.
    pub open spec fn answer_under(self, request: Request, fault: bool) -> (World, Reply) {
        if fault {
            (self, Reply::Failed)
        } else {
            self.answer(request)
        }
    }

    /// Whether a task succeeds on this state when no fault strikes.
    pub open spec fn admits(self, task: Task) -> bool {
        match task {
            Task::Save(_) => self.tables.contains(Table::Migrations),
            Task::CreateTable(_) => true,
            Task::DropAuthTokenColumn => self.tables.contains(Table::Faeries),
            Task::SeedAdmin => self.tables.contains(Table::Players) && self.admins <= i64::MAX,
        }
    }

    /// The state that a task leaves behind when no fault strikes. A task
    /// that does not succeed changes nothing.
    pub open spec fn after(self, task: Task) -> World {
        if !self.admits(task) {
            self
        } else {
            match task {
                Task::Save(record) => World { record: Some(record), ..self },
                Task::CreateTable(table) => self.with_table(table),
                Task::DropAuthTokenColumn => World { auth_token_column: false, ..self },
                Task::SeedAdmin => World {
                    admins: if self.admins == 0 {
                        1
                    } else {
                        self.admins
                    },
                    ..self
                },
            }
        }
    }
}

/// The faults of a run in which none strikes.
pub open spec fn no_faults() -> spec_fn(nat) -> bool {
    |tick: nat| false
}

/// Runs the manager against the model: the request is carried out, the reply
/// handed back, and so on until the manager stops or `fuel` requests were
/// carried out. `faults` tells which requests, counted from `tick`, fail by
/// a fault.
pub open spec fn drive(
    build: Version,
    run: RunView,
    request: Request,
    world: World,
    faults: spec_fn(nat) -> bool,
    tick: nat,
    fuel: nat,
) -> Ending
    decreases fuel,
{
    if request.is_final() || fuel == 0 {
        Ending { world, result: request.result() }
    } else {
        let (changed, reply) = world.answer_under(request, faults(tick));
        let (next, asked) = run.next(build, reply);
        drive(build, next, asked, changed, faults, tick + 1, (fuel - 1) as nat)
    }
}

/// The run that starts a migration: the table of the record was asked for.
pub open spec fn fresh_run() -> RunView {
    RunView { plan: Seq::empty(), cursor: 0, stage: Stage::First, phase: Phase::Preparing }
}

/// The request that every migration starts with.
pub open spec fn first_request() -> Request {
    Request::CreateTable(Table::Migrations)
}

/// A whole migration against the model.
pub open spec fn migration(
    build: Version,
    world: World,
    faults: spec_fn(nat) -> bool,
    fuel: nat,
) -> Ending {
    drive(build, fresh_run(), first_request(), world, faults, 0, fuel)
}

/// What a plan, from the entry at `cursor` on, makes of a state when no
/// fault strikes: the entries take effect in turn up to the first that does
/// not succeed, whose failure is the result.
pub open spec fn settle(world: World, entries: Seq<Entry>, cursor: nat) -> Ending
    decreases entries.len() - cursor,
{
    if cursor >= entries.len() {
        Ending { world, result: Some(Ok(())) }
    } else if world.admits(entries[cursor as int].task) {
        settle(world.after(entries[cursor as int].task), entries, cursor + 1)
    } else {
        Ending { world, result: Some(Err(entries[cursor as int].failure())) }
    }
}

/// The requests that a plan needs at most from the entry at `cursor` on.
pub open spec fn budget(entries: Seq<Entry>, cursor: nat) -> nat {
    if cursor >= entries.len() {
        0
    } else {
        (3 * (entries.len() - cursor)) as nat
    }
}

/// A run without faults makes of a state what the plan says, entry by
/// entry, whenever it is given the requests it needs.
pub proof fn lemma_run_settles(build: Version, run: RunView, world: World, tick: nat, fuel: nat)
    requires
        run.phase == Phase::Working,
        fuel >= budget(run.plan, run.cursor),
    ensures
        drive(build, run.enter().0, run.enter().1, world, no_faults(), tick, fuel) == settle(
            world,
            run.plan,
            run.cursor,
        ),
    decreases run.plan.len() - run.cursor,
{
    let faults = no_faults();
    if run.cursor >= run.plan.len() {
    } else {
        let entry = run.plan[run.cursor as int];
        let task = entry.task;
        let at = run.enter().0;
        let onward = RunView { cursor: run.cursor + 1, ..at };
        let first = task.request(Stage::First);
        let (w1, r1) = world.answer(first);
        let (s1, q1) = at.next(build, r1);
        assert(drive(build, at, first, world, faults, tick, fuel) == drive(
            build,
            s1,
            q1,
            w1,
            faults,
            tick + 1,
            (fuel - 1) as nat,
        ));
        match task.verdict(Stage::First, r1) {
            Verdict::Completed => {
                assert(w1 == world.after(task));
                lemma_run_settles(build, onward, w1, tick + 1, (fuel - 1) as nat);
            },
            Verdict::Failed => {
                assert(!world.admits(task));
            },
            Verdict::Proceed(second) => {
                let (w2, r2) = w1.answer(q1);
                let (s2, q2) = s1.next(build, r2);
                assert(drive(build, s1, q1, w1, faults, tick + 1, (fuel - 1) as nat) == drive(
                    build,
                    s2,
                    q2,
                    w2,
                    faults,
                    tick + 2,
                    (fuel - 2) as nat,
                ));
                match task.verdict(second, r2) {
                    Verdict::Completed => {
                        assert(w2 == world.after(task));
                        lemma_run_settles(build, onward, w2, tick + 2, (fuel - 2) as nat);
                    },
                    Verdict::Failed => {
                        assert(!world.admits(task));
                    },
                    Verdict::Proceed(third) => {
                        let (w3, r3) = w2.answer(q2);
                        let (s3, q3) = s2.next(build, r3);
                        assert(drive(build, s2, q2, w2, faults, tick + 2, (fuel - 2) as nat)
                            == drive(build, s3, q3, w3, faults, tick + 3, (fuel - 3) as nat));
                        assert(task.verdict(third, r3) == Verdict::Failed);
                        assert(!world.admits(task));
                        assert(w3 == world);
                    },
                }
            },
        }
    }
}

} // verus!
