//! The table of migration steps and the plan drawn from it.
//!
//! A step takes the schema from one version to the next. The table lists the
//! steps in the order of their versions; a plan is the list of tasks that
//! takes a given record to the version of the build.

use crate::migrations::record::Migration;
use crate::repository::RepositoryError;
use crate::version::Version;
use vstd::prelude::*;

verus! {

/// The tables whose creation the engine asks for.
#[derive(Clone, Copy, Debug, PartialEq, Eq, Structural)]
pub enum Table {
    Migrations,
    Faeries,
    Players,
}

/// The work that a step does on the schema and its data.
#[derive(Clone, Copy, Debug, PartialEq, Eq, Structural)]
pub enum Action {
    /// Create the table of faeries.
    CreateFaeries,
    /// Drop the column of login tokens from the table of faeries.
    DropFaeryAuthToken,
    /// Create the table of players and make sure that it holds an administrator.
    CreatePlayersAndSeedAdmin,
}

/// One transition of the schema, named by the versions it leads from and to.
#[derive(Clone, Copy, Debug, PartialEq, Eq, Structural)]
pub struct Step {
    pub from: Version,
    pub to: Version,
    pub action: Action,
}

/// One unit of work of a plan. Each is safe to carry out again.
#[derive(Clone, Copy, Debug, PartialEq, Eq, Structural)]
pub enum Task {
    /// Persist the record, whether or not a row exists.
    Save(Migration),
    /// Create the table unless it exists.
    CreateTable(Table),
    /// Drop the column of login tokens if the table of faeries still has it.
    DropAuthTokenColumn,
    /// Insert the seed administrator if no administrator exists.
    SeedAdmin,
}

/// A task of a plan, with the versions under which its failure is reported.
#[derive(Clone, Copy, Debug, PartialEq, Eq, Structural)]
pub struct Entry {
    pub task: Task,
    pub from: Version,
    pub to: Version,
}

impl Action {
    /// The tasks that make up the action, in order.
    pub open spec fn tasks(self) -> Seq<Task> {
        match self {
            Action::CreateFaeries => seq![Task::CreateTable(Table::Faeries)],
            Action::DropFaeryAuthToken => seq![Task::DropAuthTokenColumn],
            Action::CreatePlayersAndSeedAdmin => seq![
                Task::CreateTable(Table::Players),
                Task::SeedAdmin,
            ],
        }
    }
}

impl Entry {
    /// The error that reports a failure of this entry.
    pub open spec fn failure(self) -> RepositoryError {
        RepositoryError::MigrationFailed(self.from, self.to)
    }
}

impl Step {
    /// The record persisted before the action: the step is in flight.
    pub open spec fn started(self) -> Migration {
        Migration { current_version: Some(self.from), target_version: self.to }
    }

    /// The record persisted after the action: the schema is at `version`.
    pub open spec fn completed(version: Version) -> Migration {
        Migration { current_version: Some(version), target_version: version }
    }

    /// The step as entries of a plan: the record of the start, the tasks of
    /// the action, the record of the completion at `landing`.
    pub open spec fn bracketed(self, landing: Version) -> Seq<Entry> {
        seq![self.entry(Task::Save(self.started()))] + self.action.tasks().map_values(
            |task: Task| self.entry(task),
        ) + seq![self.entry(Task::Save(Step::completed(landing)))]
    }

    /// The step as entries of a plan.
    pub open spec fn entries(self) -> Seq<Entry> {
        self.bracketed(self.to)
    }

    /// A task under the versions of this step.
    pub open spec fn entry(self, task: Task) -> Entry {
        Entry { task, from: self.from, to: self.to }
    }

    /// Appends the entries of this step to a plan.
    pub fn push_entries(&self, landing: Version, plan: &mut Vec<Entry>)
        ensures
            final(plan)@ == old(plan)@ + self.bracketed(landing),
    {
        let ghost before = plan@;
        plan.push(
            Entry {
                task: Task::Save(
                    Migration { current_version: Some(self.from), target_version: self.to },
                ),
                from: self.from,
                to: self.to,
            },
        );
        match self.action {
            Action::CreateFaeries => {
                plan.push(
                    Entry { task: Task::CreateTable(Table::Faeries), from: self.from, to: self.to },
                );
            },
            Action::DropFaeryAuthToken => {
                plan.push(Entry { task: Task::DropAuthTokenColumn, from: self.from, to: self.to });
            },
            Action::CreatePlayersAndSeedAdmin => {
                plan.push(
                    Entry { task: Task::CreateTable(Table::Players), from: self.from, to: self.to },
                );
                plan.push(Entry { task: Task::SeedAdmin, from: self.from, to: self.to });
            },
        }
        plan.push(
            Entry {
                task: Task::Save(
                    Migration { current_version: Some(landing), target_version: landing },
                ),
                from: self.from,
                to: self.to,
            },
        );
        assert(plan@ =~= before + self.bracketed(landing));
    }
}

/// The steps that the service ever shipped, oldest first.
pub open spec fn steps() -> Seq<Step> {
    seq![
        Step {
            from: Version { major: 0, minor: 0, patch: 0 },
            to: Version { major: 0, minor: 2, patch: 1 },
            action: Action::CreateFaeries,
        },
        Step {
            from: Version { major: 0, minor: 2, patch: 1 },
            to: Version { major: 0, minor: 2, patch: 2 },
            action: Action::DropFaeryAuthToken,
        },
        Step {
            from: Version { major: 0, minor: 2, patch: 2 },
            to: Version { major: 0, minor: 2, patch: 3 },
            action: Action::CreatePlayersAndSeedAdmin,
        },
    ]
}

/// Whether the step at `index` of a list ends where the next one starts.
pub open spec fn joins(list: Seq<Step>, index: int) -> bool {
    list[index].to == list[index + 1].from
}

/// Whether every step of a list leads to a later version.
pub open spec fn leads_on(list: Seq<Step>) -> bool {
    forall|i: int| 0 <= i < list.len() ==> (#[trigger] list[i]).from.precedes(list[i].to)
}

/// A table is a chain when every step leads to a later version and each step
/// starts where the one before it ended.
pub open spec fn is_chain(table: Seq<Step>) -> bool {
    &&& leads_on(table)
    &&& forall|i: int| 0 <= i < table.len() - 1 ==> #[trigger] joins(table, i)
}

/// The steps of `table`, from index `index` on, that apply in turn to a
/// schema at version `at` without leading past `goal`.
pub open spec fn chain_from(table: Seq<Step>, at: Version, goal: Version, index: int) -> Seq<Step>
    decreases table.len() - index,
{
    if index < 0 || index >= table.len() {
        Seq::empty()
    } else if table[index].from == at && goal.at_least(table[index].to) {
        seq![table[index]] + chain_from(table, table[index].to, goal, index + 1)
    } else {
        chain_from(table, at, goal, index + 1)
    }
}

/// Whether the version at `index` of a table is the one a step leads to.
pub open spec fn ends_at(table: Seq<Step>, index: int, goal: Version) -> bool {
    0 <= index < table.len() && table[index].to == goal
}

/// Whether some step of the table leads to `goal`: the table knows the version.
pub open spec fn leads_to(table: Seq<Step>, goal: Version) -> bool {
    exists|i: int| #[trigger] ends_at(table, i, goal)
}

/// The steps that take a schema at version `at` to `goal`. A goal that no
/// step of the table leads to is unknown to the table, and no step applies.
pub open spec fn chain(table: Seq<Step>, at: Version, goal: Version) -> Seq<Step> {
    if leads_to(table, goal) {
        chain_from(table, at, goal, 0)
    } else {
        Seq::empty()
    }
}

/// The version that a schema at `at` is left at by a list of steps.
pub open spec fn landing(path: Seq<Step>, at: Version) -> Version {
    if path.len() == 0 {
        at
    } else {
        path.last().to
    }
}

/// The entries of a list of steps, step after step.
pub open spec fn path_entries(path: Seq<Step>) -> Seq<Entry>
    decreases path.len(),
{
    if path.len() == 0 {
        Seq::empty()
    } else {
        path_entries(path.drop_last()) + path.last().entries()
    }
}

/// Whether a record leaves nothing to do for a build at `build`.
pub open spec fn is_current(record: Migration, build: Version) -> bool {
    record.current_version matches Some(version) && version.at_least(build)
}

/// Whether a record is that of a schema on which nothing was ever installed
/// and nothing is in flight.
pub open spec fn is_new_install(record: Migration, build: Version) -> bool {
    record.current_version.is_none() && record.target_version == build
}

/// The plan of a new installation: the table of every domain, the seed
/// administrator, and the record of the build in one write.
pub open spec fn install_plan(build: Version) -> Seq<Entry> {
    let under = |task: Task| Entry { task, from: Version::origin(), to: build };
    seq![
        under(Task::CreateTable(Table::Players)),
        under(Task::CreateTable(Table::Faeries)),
        under(Task::SeedAdmin),
        under(Task::Save(Step::completed(build))),
    ]
}

/// The record that marks an upgrade to `build` as intended.
pub open spec fn in_flight(record: Migration, build: Version) -> Migration {
    Migration { current_version: record.current_version, target_version: build }
}

/// The head of every upgrade: the record that marks the intent.
pub open spec fn upgrade_head(record: Migration, build: Version) -> Seq<Entry> {
    seq![
        Entry { task: Task::Save(in_flight(record, build)), from: record.origin(), to: build },
    ]
}

/// The plan of an upgrade: the head, then each step that applies. Where the
/// table does not know the build, the plan is its head.
pub open spec fn upgrade_plan(table: Seq<Step>, record: Migration, build: Version) -> Seq<Entry> {
    upgrade_head(record, build) + path_entries(chain(table, record.origin(), build))
}

/// The plan that takes a schema with the given record to the build.
pub open spec fn plan(table: Seq<Step>, record: Migration, build: Version) -> Seq<Entry> {
    if is_current(record, build) {
        Seq::empty()
    } else if is_new_install(record, build) {
        install_plan(build)
    } else {
        upgrade_plan(table, record, build)
    }
}

/// The table of steps.
pub fn step_table() -> (table: Vec<Step>)
    ensures
        table@ == steps(),
{
    let table = vec![
        Step { from: Version::new(0, 0, 0), to: Version::new(0, 2, 1), action: Action::CreateFaeries },
        Step {
            from: Version::new(0, 2, 1),
            to: Version::new(0, 2, 2),
            action: Action::DropFaeryAuthToken,
        },
        Step {
            from: Version::new(0, 2, 2),
            to: Version::new(0, 2, 3),
            action: Action::CreatePlayersAndSeedAdmin,
        },
    ];
    assert(table@ =~= steps());
    table
}

/// The steps shipped form a chain.
pub proof fn steps_form_chain()
    ensures
        is_chain(steps()),
{
}

/// Whether some step of the table leads to `goal`.
pub fn knows(table: &Vec<Step>, goal: Version) -> (known: bool)
    ensures
        known == leads_to(table@, goal),
{
    let mut index: usize = 0;
    while index < table.len()
        invariant
            index <= table.len(),
            forall|i: int| 0 <= i < index ==> !ends_at(table@, i, goal),
        decreases table.len() - index,
    {
        if table[index].to == goal {
            assert(ends_at(table@, index as int, goal));
            return true;
        }
        index += 1;
    }
    false
}

/// Appends to `plan` the entries of the steps that take a schema at `at`
/// to `goal`.
pub fn push_chain(table: &Vec<Step>, at: Version, goal: Version, plan: &mut Vec<Entry>)
    ensures
        final(plan)@ == old(plan)@ + path_entries(chain(table@, at, goal)),
{
    let ghost before = plan@;
    if !knows(table, goal) {
        assert(path_entries(Seq::<Step>::empty()) =~= Seq::<Entry>::empty());
        assert(plan@ =~= before + path_entries(chain(table@, at, goal)));
        return ;
    }
    let ghost mut done: Seq<Step> = Seq::empty();
    let mut position = at;
    let mut index: usize = 0;
    while index < table.len()
        invariant
            index <= table.len(),
            plan@ == before + path_entries(done),
            chain(table@, at, goal) == done + chain_from(table@, position, goal, index as int),
        decreases table.len() - index,
    {
        let step = table[index];
        if step.from == position && goal.satisfies(&step.to) {
            step.push_entries(step.to, plan);
            proof {
                let grown = done.push(step);
                assert(grown.drop_last() =~= done);
                assert(plan@ =~= before + path_entries(grown));
                assert(done + (seq![step] + chain_from(table@, step.to, goal, index + 1))
                    =~= grown + chain_from(table@, step.to, goal, index + 1));
                done = grown;
            }
            position = step.to;
        }
        index += 1;
    }
    assert(chain(table@, at, goal) =~= done);
}

/// Draws the plan that takes a schema with the given record to the build.
pub fn draw_plan(table: &Vec<Step>, record: Migration, build: Version) -> (entries: Vec<Entry>)
    ensures
        entries@ == plan(table@, record, build),
{
    let mut entries: Vec<Entry> = Vec::new();
    match record.current_version {
        Some(version) => {
            if version.satisfies(&build) {
                assert(entries@ =~= plan(table@, record, build));
                return entries;
            }
        },
        None => {
            if record.target_version == build {
                let from = Version::zero();
                entries.push(Entry { task: Task::CreateTable(Table::Players), from, to: build });
                entries.push(Entry { task: Task::CreateTable(Table::Faeries), from, to: build });
                entries.push(Entry { task: Task::SeedAdmin, from, to: build });
                entries.push(
                    Entry {
                        task: Task::Save(
                            Migration { current_version: Some(build), target_version: build },
                        ),
                        from,
                        to: build,
                    },
                );
                assert(entries@ =~= install_plan(build));
                return entries;
            }
        },
    }
    let from = match record.current_version {
        Some(version) => version,
        None => Version::zero(),
    };
    entries.push(
        Entry {
            task: Task::Save(
                Migration { current_version: record.current_version, target_version: build },
            ),
            from,
            to: build,
        },
    );
    assert(entries@ =~= upgrade_head(record, build));
    push_chain(table, from, build, &mut entries);
    entries
}

} // verus!
