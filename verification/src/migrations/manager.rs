//! The migration manager.
//!
//! The manager decides; the host acts. A run starts with a request for the
//! table of the record, and goes on to read the record. The host carries
//! each request out and hands back the reply, on which the manager answers
//! with the next request, until the request is to stop.

use crate::migrations::record::Migration;
use crate::migrations::steps::{
    draw_plan, is_current, plan, step_table, steps, Entry, Step, Table, Task,
};
use crate::player::Model;
use crate::repository::{RepositoryError, RepositoryResult};
use crate::version::Version;
use vstd::prelude::*;

verus! {

/// What the manager asks the host to do next.
#[derive(Clone, Copy, Debug, PartialEq, Eq, Structural)]
pub enum Request {
    /// Read the migration record.
    LoadRecord,
    /// Overwrite the row of the record; the reply tells how many rows changed.
    UpdateRecord(Migration),
    /// Insert the row of the record.
    InsertRecord(Migration),
    /// Create the table unless it exists.
    CreateTable(Table),
    /// Tell whether the table of faeries has a column of login tokens.
    ProbeAuthTokenColumn,
    /// Drop the column of login tokens from the table of faeries.
    DropAuthTokenColumn,
    /// Count the administrators.
    CountAdmins,
    /// Insert the seed administrator.
    InsertAdmin,
    /// Stop: the run succeeded.
    Complete,
    /// Stop: the step between the two versions failed.
    Abort(Version, Version),
}

/// What the host reports of the request it carried out.
#[derive(Clone, Copy, Debug, PartialEq, Eq, Structural)]
pub enum Reply {
    /// The record read, `None` where there is none.
    Record(Option<Migration>),
    /// The statement succeeded and changed that many rows.
    Rows(u64),
    /// The statement succeeded.
    Done,
    /// Whether what was probed for is there.
    Present(bool),
    /// The count asked for.
    Count(i64),
    /// The request failed.
    Failed,
}

/// How far the work on one task has come.
#[derive(Clone, Copy, Debug, PartialEq, Eq, Structural)]
pub enum Stage {
    First,
    Second,
    Third,
}

/// What a reply means for the task at hand.
#[derive(Clone, Copy, Debug, PartialEq, Eq, Structural)]
pub enum Verdict {
    /// The task goes on at the given stage.
    Proceed(Stage),
    /// The task is done.
    Completed,
    /// The task failed.
    Failed,
}

/// Where a run stands.
#[derive(Clone, Copy, Debug, PartialEq, Eq, Structural)]
pub enum Phase {
    /// The table of the record was asked for.
    Preparing,
    /// The record was asked for.
    Loading,
    /// The plan is being carried out.
    Working,
    /// The run ended in success.
    Completed,
    /// The run ended with the failure of a step between two versions.
    Aborted(Version, Version),
}

/// A run of the manager: the plan, the entry at hand and the stage reached in it.
#[derive(Debug)]
pub struct Run {
    pub plan: Vec<Entry>,
    pub cursor: usize,
    pub stage: Stage,
    pub phase: Phase,
}

/// A run as a value of the model.
pub struct RunView {
    pub plan: Seq<Entry>,
    pub cursor: nat,
    pub stage: Stage,
    pub phase: Phase,
}

impl View for Run {
    type V = RunView;

    open spec fn view(&self) -> RunView {
        RunView { plan: self.plan@, cursor: self.cursor as nat, stage: self.stage, phase: self.phase }
    }
}

impl Request {
    /// Whether the request ends the run.
    pub open spec fn is_final(self) -> bool {
        self is Complete || self is Abort
    }

    /// The result of the run that the request ends.
    pub open spec fn result(self) -> Option<RepositoryResult<()>> {
        match self {
            Request::Complete => Some(Ok(())),
            Request::Abort(from, to) => Some(Err(RepositoryError::MigrationFailed(from, to))),
            _ => None,
        }
    }

    /// The result of the run, once the request is to stop.
    pub fn outcome(&self) -> (outcome: Option<RepositoryResult<()>>)
        ensures
            outcome == self.result(),
    {
        match self {
            Request::Complete => Some(Ok(())),
            Request::Abort(from, to) => Some(Err(RepositoryError::MigrationFailed(*from, *to))),
            _ => None,
        }
    }
}

impl Task {
    /// The request that the task makes at a stage.
    ///
    /// A record is persisted by an update, then, where no row changed, by an
    /// insert, then, where the insert failed, by the update once more. The
    /// column is probed for, then dropped. The administrators are counted,
    /// then the seed is inserted.
    pub open spec fn request(self, stage: Stage) -> Request {
        match self {
            Task::Save(record) => match stage {
                Stage::Second => Request::InsertRecord(record),
                _ => Request::UpdateRecord(record),
            },
            Task::CreateTable(table) => Request::CreateTable(table),
            Task::DropAuthTokenColumn => match stage {
                Stage::First => Request::ProbeAuthTokenColumn,
                _ => Request::DropAuthTokenColumn,
            },
            Task::SeedAdmin => match stage {
                Stage::First => Request::CountAdmins,
                _ => Request::InsertAdmin,
            },
        }
    }

    /// What the reply to the request of a stage means for the task.
    pub open spec fn verdict(self, stage: Stage, reply: Reply) -> Verdict {
        match self {
            Task::Save(_) => match stage {
                Stage::First => if reply matches Reply::Rows(n) && n > 0 {
                    Verdict::Completed
                } else {
                    Verdict::Proceed(Stage::Second)
                },
                Stage::Second => if reply is Done {
                    Verdict::Completed
                } else {
                    Verdict::Proceed(Stage::Third)
                },
                Stage::Third => if reply matches Reply::Rows(n) && n > 0 {
                    Verdict::Completed
                } else {
                    Verdict::Failed
                },
            },
            Task::CreateTable(_) => if reply is Done {
                Verdict::Completed
            } else {
                Verdict::Failed
            },
            Task::DropAuthTokenColumn => match stage {
                Stage::First => match reply {
                    Reply::Present(true) => Verdict::Proceed(Stage::Second),
                    Reply::Present(false) => Verdict::Completed,
                    _ => Verdict::Failed,
                },
                _ => if reply is Done {
                    Verdict::Completed
                } else {
                    Verdict::Failed
                },
            },
            Task::SeedAdmin => match stage {
                Stage::First => match reply {
                    Reply::Count(count) => if count == 0 {
                        Verdict::Proceed(Stage::Second)
                    } else {
                        Verdict::Completed
                    },
                    _ => Verdict::Failed,
                },
                _ => if reply is Done {
                    Verdict::Completed
                } else {
                    Verdict::Failed
                },
            },
        }
    }

    /// The request that the task makes at a stage.
    pub fn ask(&self, stage: Stage) -> (request: Request)
        ensures
            request == self.request(stage),
    {
        match self {
            Task::Save(record) => match stage {
                Stage::Second => Request::InsertRecord(*record),
                _ => Request::UpdateRecord(*record),
            },
            Task::CreateTable(table) => Request::CreateTable(*table),
            Task::DropAuthTokenColumn => match stage {
                Stage::First => Request::ProbeAuthTokenColumn,
                _ => Request::DropAuthTokenColumn,
            },
            Task::SeedAdmin => match stage {
                Stage::First => Request::CountAdmins,
                _ => Request::InsertAdmin,
            },
        }
    }

    /// Judges the reply to the request of a stage.
    pub fn judge(&self, stage: Stage, reply: Reply) -> (verdict: Verdict)
        ensures
            verdict == self.verdict(stage, reply),
    {
        let done = match reply {
            Reply::Done => true,
            _ => false,
        };
        let changed = match reply {
            Reply::Rows(n) => n > 0,
            _ => false,
        };
        match self {
            Task::Save(_) => match stage {
                Stage::First => if changed {
                    Verdict::Completed
                } else {
                    Verdict::Proceed(Stage::Second)
                },
                Stage::Second => if done {
                    Verdict::Completed
                } else {
                    Verdict::Proceed(Stage::Third)
                },
                Stage::Third => if changed {
                    Verdict::Completed
                } else {
                    Verdict::Failed
                },
            },
            Task::CreateTable(_) => if done {
                Verdict::Completed
            } else {
                Verdict::Failed
            },
            Task::DropAuthTokenColumn => match stage {
                Stage::First => match reply {
                    Reply::Present(true) => Verdict::Proceed(Stage::Second),
                    Reply::Present(false) => Verdict::Completed,
                    _ => Verdict::Failed,
                },
                _ => if done {
                    Verdict::Completed
                } else {
                    Verdict::Failed
                },
            },
            Task::SeedAdmin => match stage {
                Stage::First => match reply {
                    Reply::Count(count) => if count == 0 {
                        Verdict::Proceed(Stage::Second)
                    } else {
                        Verdict::Completed
                    },
                    _ => Verdict::Failed,
                },
                _ => if done {
                    Verdict::Completed
                } else {
                    Verdict::Failed
                },
            },
        }
    }
}

/// The record that a reply to the loading of the record stands for: the
/// record read; where the store holds none, that of a schema with no
/// version that is to be taken to the build; and none where the store
/// could not be read, as nothing is known of it then.
pub open spec fn loaded(reply: Reply, build: Version) -> Option<Migration> {
    match reply {
        Reply::Record(Some(record)) => Some(record),
        Reply::Record(None) => Some(Migration { current_version: None, target_version: build }),
        _ => None,
    }
}

impl RunView {
    /// The run that is about to work through a plan.
    pub open spec fn over(entries: Seq<Entry>) -> RunView {
        RunView { plan: entries, cursor: 0, stage: Stage::First, phase: Phase::Working }
    }

    /// Turns to the entry under the cursor: its first request, or the end of
    /// the run where the plan is exhausted.
    pub open spec fn enter(self) -> (RunView, Request) {
        if self.cursor >= self.plan.len() {
            (RunView { stage: Stage::First, phase: Phase::Completed, ..self }, Request::Complete)
        } else {
            (
                RunView { stage: Stage::First, phase: Phase::Working, ..self },
                self.plan[self.cursor as int].task.request(Stage::First),
            )
        }
    }

    /// The run that gives up before it has a plan: nothing is known of the
    /// schema, so the failure is reported from `0.0.0` to the build.
    pub open spec fn give_up(self, build: Version) -> (RunView, Request) {
        (
            RunView { phase: Phase::Aborted(Version::origin(), build), ..self },
            Request::Abort(Version::origin(), build),
        )
    }

    /// The run after a reply, and the request it makes next. The table of
    /// the record comes first, then the record, then the plan drawn from
    /// it. Where the table cannot be had or the record cannot be read, the
    /// run gives up: it never writes over a record it has not read.
    pub open spec fn next(self, build: Version, reply: Reply) -> (RunView, Request) {
        match self.phase {
            Phase::Preparing => if reply is Done {
                (RunView { phase: Phase::Loading, ..self }, Request::LoadRecord)
            } else {
                self.give_up(build)
            },
            Phase::Loading => match loaded(reply, build) {
                Some(record) => RunView::over(plan(steps(), record, build)).enter(),
                None => self.give_up(build),
            },
            Phase::Working => if self.cursor >= self.plan.len() {
                (RunView { phase: Phase::Completed, ..self }, Request::Complete)
            } else {
                let entry = self.plan[self.cursor as int];
                match entry.task.verdict(self.stage, reply) {
                    Verdict::Proceed(stage) => (
                        RunView { stage, ..self },
                        entry.task.request(stage),
                    ),
                    Verdict::Completed => (RunView { cursor: self.cursor + 1, ..self }).enter(),
                    Verdict::Failed => (
                        RunView { phase: Phase::Aborted(entry.from, entry.to), ..self },
                        Request::Abort(entry.from, entry.to),
                    ),
                }
            },
            Phase::Completed => (self, Request::Complete),
            Phase::Aborted(from, to) => (self, Request::Abort(from, to)),
        }
    }
}

impl Run {
    /// Turns to the entry under the cursor.
    fn enter(self) -> (next: (Run, Request))
        ensures
            (next.0@, next.1) == self@.enter(),
    {
        if self.cursor >= self.plan.len() {
            (
                Run {
                    plan: self.plan,
                    cursor: self.cursor,
                    stage: Stage::First,
                    phase: Phase::Completed,
                },
                Request::Complete,
            )
        } else {
            let request = self.plan[self.cursor].task.ask(Stage::First);
            (
                Run {
                    plan: self.plan,
                    cursor: self.cursor,
                    stage: Stage::First,
                    phase: Phase::Working,
                },
                request,
            )
        }
    }

    /// A run over a plan, with its first request.
    pub fn over(entries: Vec<Entry>) -> (start: (Run, Request))
        ensures
            (start.0@, start.1) == RunView::over(entries@).enter(),
    {
        (Run { plan: entries, cursor: 0, stage: Stage::First, phase: Phase::Working }).enter()
    }
}

/// Decides what a migration does next.
#[derive(Debug)]
pub struct Manager {
    build_version: Version,
    admin_email: String,
}

impl Manager {
    /// The version of the build that the manager migrates to.
    pub closed spec fn build(&self) -> Version {
        self.build_version
    }

    /// The address of the seed administrator.
    pub closed spec fn seed_email(&self) -> Seq<char> {
        self.admin_email@
    }

    /// A manager for the build at `build_version`, which seeds an
    /// administrator with the address `admin_email`.
    pub fn new(build_version: Version, admin_email: String) -> (manager: Manager)
        ensures
            manager.build() == build_version,
            manager.seed_email() == admin_email@,
    {
        Manager { build_version, admin_email }
    }

    /// The version of the build.
    pub fn build_version(&self) -> (version: Version)
        ensures
            version == self.build(),
    {
        self.build_version
    }

    /// The address of the seed administrator.
    pub fn admin_email(&self) -> (email: &String)
        ensures
            email@ == self.seed_email(),
    {
        &self.admin_email
    }

    /// The administrator that is seeded where there is none: a player named
    /// `Admin User` with the address the manager was given.
    pub fn admin_seed(&self) -> (seed: Model)
        ensures
            seed.id.is_none(),
            seed.first_name@ == "Admin"@,
            seed.last_name@ == "User"@,
            seed.auth_email@ == self.seed_email(),
            seed.auth_token.is_none(),
            seed.auth_token_expires.is_none(),
            seed.mailing_address@ == "Address Example"@,
            seed.is_admin,
    {
        Model::new(
            None,
            "Admin".to_string(),
            "User".to_string(),
            self.admin_email.clone(),
            None,
            None,
            "Address Example".to_string(),
            true,
        )
    }

    /// Whether the schema of the record read falls short of the build. A
    /// schema without a record, or without a current version, does.
    pub fn needs_migration(&self, record: Option<Migration>) -> (needed: bool)
        ensures
            needed == !(record matches Some(read) && is_current(read, self.build())),
    {
        match record {
            Some(Migration { current_version: Some(version), .. }) => !version.satisfies(
                &self.build_version,
            ),
            _ => true,
        }
    }

    /// Starts a migration: the table of the record is to be created unless
    /// it exists, so that the record can be read.
    pub fn migrate(&self) -> (start: (Run, Request))
        ensures
            start.0@ == (RunView {
                plan: Seq::empty(),
                cursor: 0,
                stage: Stage::First,
                phase: Phase::Preparing,
            }),
            start.1 == Request::CreateTable(Table::Migrations),
    {
        (
            Run { plan: Vec::new(), cursor: 0, stage: Stage::First, phase: Phase::Preparing },
            Request::CreateTable(Table::Migrations),
        )
    }

    /// Gives the run up before it has a plan.
    fn give_up(&self, run: Run) -> (next: (Run, Request))
        ensures
            (next.0@, next.1) == run@.give_up(self.build()),
    {
        let from = Version::zero();
        (
            Run {
                plan: run.plan,
                cursor: run.cursor,
                stage: run.stage,
                phase: Phase::Aborted(from, self.build_version),
            },
            Request::Abort(from, self.build_version),
        )
    }

    /// Takes the reply to the last request and answers with the next one.
    pub fn advance(&self, run: Run, reply: Reply) -> (next: (Run, Request))
        ensures
            (next.0@, next.1) == run@.next(self.build(), reply),
    {
        match run.phase {
            Phase::Preparing => match reply {
                Reply::Done => (
                    Run {
                        plan: run.plan,
                        cursor: run.cursor,
                        stage: run.stage,
                        phase: Phase::Loading,
                    },
                    Request::LoadRecord,
                ),
                _ => self.give_up(run),
            },
            Phase::Loading => {
                let record = match reply {
                    Reply::Record(Some(record)) => record,
                    Reply::Record(None) => Migration::toward(self.build_version),
                    _ => {
                        return self.give_up(run);
                    },
                };
                let table = step_table();
                Run::over(draw_plan(&table, record, self.build_version))
            },
            Phase::Working => {
                if run.cursor >= run.plan.len() {
                    (
                        Run {
                            plan: run.plan,
                            cursor: run.cursor,
                            stage: run.stage,
                            phase: Phase::Completed,
                        },
                        Request::Complete,
                    )
                } else {
                    let entry = run.plan[run.cursor];
                    match entry.task.judge(run.stage, reply) {
                        Verdict::Proceed(stage) => (
                            Run { plan: run.plan, cursor: run.cursor, stage, phase: run.phase },
                            entry.task.ask(stage),
                        ),
                        Verdict::Completed => (Run {
                            plan: run.plan,
                            cursor: run.cursor + 1,
                            stage: run.stage,
                            phase: run.phase,
                        }).enter(),
                        Verdict::Failed => (
                            Run {
                                plan: run.plan,
                                cursor: run.cursor,
                                stage: run.stage,
                                phase: Phase::Aborted(entry.from, entry.to),
                            },
                            Request::Abort(entry.from, entry.to),
                        ),
                    }
                }
            },
            Phase::Completed => (run, Request::Complete),
            Phase::Aborted(from, to) => (run, Request::Abort(from, to)),
        }
    }

    /// The plan of the step from `0.0.0` to `0.2.1` run on its own: the table
    /// of the record first, then the step, completed at `completion_target`
    /// where one is given.
    pub open spec fn plan_0_to_021(completion_target: Option<Version>) -> Seq<Entry> {
        let step = steps()[0];
        let landing = match completion_target {
            Some(version) => version,
            None => step.to,
        };
        seq![step.entry(Task::CreateTable(Table::Migrations))] + step.bracketed(landing)
    }

    /// Starts the step from `0.0.0` to `0.2.1` on its own.
    pub fn migrate_0_to_021(&self, completion_target: Option<Version>) -> (start: (Run, Request))
        ensures
            (start.0@, start.1) == RunView::over(
                Manager::plan_0_to_021(completion_target),
            ).enter(),
    {
        let table = step_table();
        let step = table[0];
        let landing = match completion_target {
            Some(version) => version,
            None => step.to,
        };
        let mut entries: Vec<Entry> = Vec::new();
        entries.push(
            Entry { task: Task::CreateTable(Table::Migrations), from: step.from, to: step.to },
        );
        step.push_entries(landing, &mut entries);
        assert(entries@ =~= Manager::plan_0_to_021(completion_target));
        Run::over(entries)
    }

    /// Starts the step from `0.2.1` to `0.2.2` on its own.
    pub fn migrate_021_to_022(&self) -> (start: (Run, Request))
        ensures
            (start.0@, start.1) == RunView::over(steps()[1].entries()).enter(),
    {
        Manager::start_step(1)
    }

    /// Starts the step from `0.2.2` to `0.2.3` on its own.
    pub fn migrate_022_to_023(&self) -> (start: (Run, Request))
        ensures
            (start.0@, start.1) == RunView::over(steps()[2].entries()).enter(),
    {
        Manager::start_step(2)
    }

    /// Starts the step at `index` of the table on its own.
    fn start_step(index: usize) -> (start: (Run, Request))
        requires
            index < steps().len(),
        ensures
            (start.0@, start.1) == RunView::over(steps()[index as int].entries()).enter(),
    {
        let table = step_table();
        let step = table[index];
        let mut entries: Vec<Entry> = Vec::new();
        step.push_entries(step.to, &mut entries);
        assert(entries@ =~= step.entries());
        Run::over(entries)
    }
}

} // verus!
