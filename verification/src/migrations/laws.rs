//! What holds of every migration: the laws of the engine, proved of the
//! manager running against the model of the stored state.

use crate::migrations::manager::{loaded, Phase, Reply, Request, RunView, Stage};
use crate::migrations::record::Migration;
use crate::migrations::steps::{
    chain, chain_from, ends_at, install_plan, is_current, is_new_install, joins, landing,
    leads_on, leads_to, path_entries, plan, steps, steps_form_chain, upgrade_head, Action, Entry,
    Step, Table, Task,
};
use crate::migrations::world::{
    budget, drive, first_request, fresh_run, lemma_run_settles, migration, no_faults, settle,
    Ending, World,
};
use crate::repository::RepositoryError;
use crate::version::Version;
use vstd::prelude::*;

verus! {

/// The record that a migration finds in a state: the record stored, or,
/// where none is stored, that of a schema with no version that is to be
/// taken to the build.
pub open spec fn found(world: World, build: Version) -> Migration {
    match world.record {
        Some(record) => record,
        None => Migration { current_version: None, target_version: build },
    }
}

/// The state once the table of the record is there.
pub open spec fn prepared(world: World) -> World {
    world.with_table(Table::Migrations)
}

/// The failure of a migration that gave up before it had a plan.
pub open spec fn gave_up(build: Version) -> Option<Result<(), RepositoryError>> {
    Some(Err(RepositoryError::MigrationFailed(Version::origin(), build)))
}

/// How a migration opens. Where the table of the record cannot be had, or
/// the record cannot be read, it gives up and has written nothing. Else it
/// goes on with the plan drawn from the record as it is stored.
pub proof fn lemma_migration_opens(
    build: Version,
    world: World,
    faults: spec_fn(nat) -> bool,
    fuel: nat,
)
    requires
        fuel >= 2,
    ensures
        faults(0) ==> migration(build, world, faults, fuel) == (Ending {
            world,
            result: gave_up(build),
        }),
        !faults(0) && faults(1) ==> migration(build, world, faults, fuel) == (Ending {
            world: prepared(world),
            result: gave_up(build),
        }),
        !faults(0) && !faults(1) ==> ({
            let start = RunView::over(plan(steps(), found(world, build), build)).enter();
            migration(build, world, faults, fuel) == drive(
                build,
                start.0,
                start.1,
                prepared(world),
                faults,
                2,
                (fuel - 2) as nat,
            )
        }),
{
    let (w1, r1) = world.answer_under(first_request(), faults(0));
    let (s1, q1) = fresh_run().next(build, r1);
    assert(migration(build, world, faults, fuel) == drive(
        build,
        s1,
        q1,
        w1,
        faults,
        1,
        (fuel - 1) as nat,
    ));
    if !faults(0) {
        let (w2, r2) = w1.answer_under(q1, faults(1));
        let (s2, q2) = s1.next(build, r2);
        assert(drive(build, s1, q1, w1, faults, 1, (fuel - 1) as nat) == drive(
            build,
            s2,
            q2,
            w2,
            faults,
            2,
            (fuel - 2) as nat,
        ));
        if !faults(1) {
            assert(w1.tables.contains(Table::Migrations));
            assert(loaded(r2, build) == Some(found(world, build)));
        }
    }
}

/// A migration on which no fault strikes makes of a state, once the table
/// of the record is there, what the plan drawn from the record found says.
pub proof fn law_migration_follows_plan(build: Version, world: World, fuel: nat)
    requires
        fuel >= budget(plan(steps(), found(world, build), build), 0) + 2,
    ensures
        migration(build, world, no_faults(), fuel) == settle(
            prepared(world),
            plan(steps(), found(world, build), build),
            0,
        ),
{
    let entries = plan(steps(), found(world, build), build);
    lemma_migration_opens(build, world, no_faults(), fuel);
    lemma_run_settles(build, RunView::over(entries), prepared(world), 2, (fuel - 2) as nat);
}

/// A plan is empty exactly where the record leaves nothing to do, which is
/// where no migration is needed.
pub proof fn law_only_a_current_schema_has_no_plan(table: Seq<Step>, record: Migration, build: Version)
    ensures
        plan(table, record, build).len() == 0 <==> is_current(record, build),
{
}

/// Idempotence. Where the record says that the schema is at the version of
/// the build, or past it, a migration leaves the state as it was, whatever
/// faults strike. With no fault on its two requests, for the table of the
/// record, which is there, and for the record, it succeeds on the reply to
/// the second: it asks for no write and for no action of any step.
pub proof fn law_current_schema_is_left_alone(
    build: Version,
    world: World,
    faults: spec_fn(nat) -> bool,
    fuel: nat,
)
    requires
        world.tables.contains(Table::Migrations),
        world.record matches Some(record) && is_current(record, build),
    ensures
        migration(build, world, faults, fuel).world == world,
        fuel >= 2 && !faults(0) && !faults(1) ==> migration(build, world, faults, fuel).result
            == Some(Ok::<(), RepositoryError>(())),
        ({
            let reading = fresh_run().next(build, world.answer(first_request()).1);
            let decided = reading.0.next(build, world.answer(reading.1).1);
            &&& reading.1 == Request::LoadRecord
            &&& decided.1 == Request::Complete
        }),
{
    let record = world.record.unwrap();
    assert(prepared(world).tables =~= world.tables);
    assert(prepared(world) == world);
    assert(plan(steps(), record, build) =~= Seq::<Entry>::empty());
    let first = first_request();
    let (w1, r1) = world.answer_under(first, faults(0));
    let (s1, q1) = fresh_run().next(build, r1);
    assert(w1 == world);
    if fuel >= 1 {
        assert(migration(build, world, faults, fuel) == drive(
            build,
            s1,
            q1,
            w1,
            faults,
            1,
            (fuel - 1) as nat,
        ));
        if fuel >= 2 {
            lemma_migration_opens(build, world, faults, fuel);
        }
    }
}

/// The seeding of the administrator is idempotent: on a state with the table
/// of players, carried out with no fault, it leaves one administrator where
/// there was none and changes nothing where there was one; carried out once
/// more it changes nothing.
pub proof fn law_admin_is_seeded_once(build: Version, entry: Entry, world: World, fuel: nat)
    requires
        entry.task == Task::SeedAdmin,
        world.tables.contains(Table::Players),
        world.admins <= i64::MAX,
        fuel >= 3,
    ensures
        ({
            let start = RunView::over(seq![entry]).enter();
            let once = drive(build, start.0, start.1, world, no_faults(), 0, fuel);
            let twice = drive(build, start.0, start.1, once.world, no_faults(), 0, fuel);
            &&& once.result == Some(Ok::<(), RepositoryError>(()))
            &&& once.world == World {
                admins: if world.admins == 0 {
                    1
                } else {
                    world.admins
                },
                ..world
            }
            &&& twice.result == Some(Ok::<(), RepositoryError>(()))
            &&& twice.world == once.world
        }),
{
    let entries = seq![entry];
    let over = RunView::over(entries);
    lemma_run_settles(build, over, world, 0, fuel);
    reveal_with_fuel(settle, 3);
    let once = settle(world, entries, 0);
    assert(once.world == world.after(Task::SeedAdmin));
    lemma_run_settles(build, over, once.world, 0, fuel);
    assert(settle(once.world, entries, 0).world == once.world.after(Task::SeedAdmin));
}

/// Admin bootstrap exactly once. The step that seeds the administrator,
/// run with no fault on a state that has the table of the record and no
/// administrator, succeeds and leaves exactly one; run once more on what
/// it left, it succeeds and leaves that one.
pub proof fn law_seeding_step_twice_leaves_one_admin(build: Version, world: World, fuel: nat)
    requires
        world.coherent(),
        world.tables.contains(Table::Migrations),
        world.admins == 0,
        fuel >= 12,
    ensures
        ({
            let start = RunView::over(steps()[2].entries()).enter();
            let once = drive(build, start.0, start.1, world, no_faults(), 0, fuel);
            let twice = drive(build, start.0, start.1, once.world, no_faults(), 0, fuel);
            &&& steps()[2].action == Action::CreatePlayersAndSeedAdmin
            &&& once.result == Some(Ok::<(), RepositoryError>(()))
            &&& once.world.admins == 1
            &&& twice.result == Some(Ok::<(), RepositoryError>(()))
            &&& twice.world.admins == 1
            &&& twice.world == once.world
        }),
{
    let entries = steps()[2].entries();
    let over = RunView::over(entries);
    assert(entries.len() == 4);
    lemma_run_settles(build, over, world, 0, fuel);
    reveal_with_fuel(settle, 5);
    let once = settle(world, entries, 0);
    assert(once.world.tables =~= world.tables.insert(Table::Players));
    lemma_run_settles(build, over, once.world, 0, fuel);
    let twice = settle(once.world, entries, 0);
    assert(twice.world.tables =~= once.world.tables);
}

/// The entries of a list of steps are those of its first step followed by
/// those of the others.
pub proof fn lemma_path_front(step: Step, rest: Seq<Step>)
    ensures
        path_entries(seq![step] + rest) == step.entries() + path_entries(rest),
    decreases rest.len(),
{
    let whole = seq![step] + rest;
    if rest.len() == 0 {
        assert(whole.drop_last() =~= Seq::<Step>::empty());
        assert(rest =~= Seq::<Step>::empty());
        assert(path_entries(Seq::<Step>::empty()) =~= Seq::<Entry>::empty());
        assert(whole.last() == step);
        assert(path_entries(whole) =~= step.entries() + path_entries(rest));
    } else {
        assert(whole.drop_last() =~= seq![step] + rest.drop_last());
        assert(whole.last() == rest.last());
        lemma_path_front(step, rest.drop_last());
        assert(path_entries(whole) =~= step.entries() + path_entries(rest));
    }
}

/// The version at the end of the table of steps.
pub open spec fn latest() -> Version {
    steps().last().to
}

/// New-install equivalence. Take a state without a record, without an
/// administrator and without a column of login tokens. A migration to the
/// latest version installs on it. On the same state with the record at
/// `0.0.0`, whatever its target, a migration runs every step of the table
/// in order. Both succeed and leave the same state behind: the record of
/// the latest version, every table, no column of login tokens and one
/// administrator.
pub proof fn law_install_matches_chain(world: World, target: Version, fuel: nat)
    requires
        world.record.is_none(),
        world.admins == 0,
        !(world.tables.contains(Table::Faeries) && world.auth_token_column),
        fuel >= 35,
    ensures
        ({
            let build = latest();
            let zero = Migration { current_version: Some(Version::origin()), target_version: target };
            let installed = migration(build, world, no_faults(), fuel);
            let stepped = migration(
                build,
                World { record: Some(zero), ..world },
                no_faults(),
                fuel,
            );
            &&& plan(steps(), found(world, build), build) == install_plan(build)
            &&& plan(steps(), zero, build) == upgrade_head(zero, build) + steps()[0].entries()
                + steps()[1].entries() + steps()[2].entries()
            &&& installed.result == Some(Ok::<(), RepositoryError>(()))
            &&& stepped.result == Some(Ok::<(), RepositoryError>(()))
            &&& installed.world == stepped.world
            &&& installed.world.record == Some(Step::completed(build))
            &&& installed.world.admins == 1
            &&& !installed.world.auth_token_column
            &&& installed.world.tables == world.tables.insert(Table::Migrations).insert(
                Table::Faeries,
            ).insert(Table::Players)
        }),
{
    let build = latest();
    let zero = Migration { current_version: Some(Version::origin()), target_version: target };
    let zeroed = World { record: Some(zero), ..world };
    let upgrade = plan(steps(), zero, build);
    let install = install_plan(build);
    lemma_chain_written_out(Version::origin(), build);
    lemma_entries_written_out(steps()[0], steps()[1], steps()[2]);
    let listed = upgrade_head(zero, build) + steps()[0].entries() + steps()[1].entries()
        + steps()[2].entries();
    assert(upgrade =~= listed);
    assert(upgrade.len() == 11);
    assert(plan(steps(), found(world, build), build) == install);
    assert(found(zeroed, build) == zero);
    law_migration_follows_plan(build, world, fuel);
    law_migration_follows_plan(build, zeroed, fuel);
    reveal_with_fuel(settle, 12);
    let installed = settle(prepared(world), install, 0);
    let stepped = settle(prepared(zeroed), upgrade, 0);
    let tables = world.tables.insert(Table::Migrations).insert(Table::Faeries).insert(
        Table::Players,
    );
    assert(installed.world.tables =~= tables);
    assert(stepped.world.tables =~= tables);
}

/// Which versions the table of steps knows: those its three steps lead to.
proof fn lemma_known_versions(goal: Version)
    ensures
        leads_to(steps(), goal) <==> (goal == steps()[0].to || goal == steps()[1].to || goal
            == steps()[2].to),
{
    let s = steps();
    if goal == s[0].to {
        assert(ends_at(s, 0, goal));
    } else if goal == s[1].to {
        assert(ends_at(s, 1, goal));
    } else if goal == s[2].to {
        assert(ends_at(s, 2, goal));
    } else {
        assert forall|i: int| !ends_at(s, i, goal) by {}
    }
}

/// The steps of the table that take a schema at `at` to `goal`, written
/// out: where the table knows `goal`, the steps from the one that starts at
/// `at` up to the one that leads to `goal`; else none.
proof fn lemma_chain_written_out(at: Version, goal: Version)
    ensures
        ({
            let s = steps();
            let path = chain(s, at, goal);
            if goal == s[2].to {
                if at == s[0].from {
                    path == seq![s[0], s[1], s[2]]
                } else if at == s[1].from {
                    path == seq![s[1], s[2]]
                } else if at == s[2].from {
                    path == seq![s[2]]
                } else {
                    path == Seq::<Step>::empty()
                }
            } else if goal == s[1].to {
                if at == s[0].from {
                    path == seq![s[0], s[1]]
                } else if at == s[1].from {
                    path == seq![s[1]]
                } else {
                    path == Seq::<Step>::empty()
                }
            } else if goal == s[0].to {
                if at == s[0].from {
                    path == seq![s[0]]
                } else {
                    path == Seq::<Step>::empty()
                }
            } else {
                path == Seq::<Step>::empty()
            }
        }),
{
    reveal_with_fuel(chain_from, 4);
    lemma_known_versions(goal);
    let s = steps();
    let path = chain(s, at, goal);
    if goal == s[2].to {
        if at == s[0].from {
            assert(path =~= seq![s[0], s[1], s[2]]);
        } else if at == s[1].from {
            assert(path =~= seq![s[1], s[2]]);
        } else if at == s[2].from {
            assert(path =~= seq![s[2]]);
        } else {
            assert(path =~= Seq::<Step>::empty());
        }
    } else if goal == s[1].to {
        if at == s[0].from {
            assert(path =~= seq![s[0], s[1]]);
        } else if at == s[1].from {
            assert(path =~= seq![s[1]]);
        } else {
            assert(path =~= Seq::<Step>::empty());
        }
    } else if goal == s[0].to {
        if at == s[0].from {
            assert(path =~= seq![s[0]]);
        } else {
            assert(path =~= Seq::<Step>::empty());
        }
    } else {
    }
}

/// The entries of up to three steps, written out.
proof fn lemma_entries_written_out(a: Step, b: Step, c: Step)
    ensures
        path_entries(Seq::<Step>::empty()) == Seq::<Entry>::empty(),
        path_entries(seq![a]) == a.entries(),
        path_entries(seq![a, b]) == a.entries() + b.entries(),
        path_entries(seq![a, b, c]) == a.entries() + b.entries() + c.entries(),
{
    assert(path_entries(Seq::<Step>::empty()) =~= Seq::<Entry>::empty());
    lemma_path_front(a, Seq::empty());
    assert(seq![a] =~= seq![a] + Seq::<Step>::empty());
    assert(path_entries(seq![a]) =~= a.entries());
    lemma_path_front(b, Seq::empty());
    assert(seq![b] =~= seq![b] + Seq::<Step>::empty());
    lemma_path_front(a, seq![b]);
    assert(seq![a, b] =~= seq![a] + seq![b]);
    assert(path_entries(seq![a, b]) =~= a.entries() + b.entries());
    lemma_path_front(c, Seq::empty());
    assert(seq![c] =~= seq![c] + Seq::<Step>::empty());
    lemma_path_front(b, seq![c]);
    assert(seq![b, c] =~= seq![b] + seq![c]);
    lemma_path_front(a, seq![b, c]);
    assert(seq![a, b, c] =~= seq![a] + seq![b, c]);
    assert(path_entries(seq![a, b, c]) =~= a.entries() + b.entries() + c.entries());
}

/// An unknown build runs no step. Where no step of the table leads to the
/// version of the build, the plan of an upgrade is the record that marks
/// the intent and nothing else, whatever the table and whatever the
/// record: no table, no column, no count and no seed is asked for.
pub proof fn law_unknown_build_plans_no_step(table: Seq<Step>, record: Migration, build: Version)
    requires
        !leads_to(table, build),
        !is_current(record, build),
        !is_new_install(record, build),
    ensures
        plan(table, record, build) == upgrade_head(record, build),
{
    assert(path_entries(Seq::<Step>::empty()) =~= Seq::<Entry>::empty());
    assert(plan(table, record, build) =~= upgrade_head(record, build));
}

/// An unknown build is no failure. Run with no fault on a state whose
/// record falls short of a build that the table of steps does not know,
/// the migration succeeds, marks the intent and leaves the current version
/// and everything but the table of the record as it was.
pub proof fn law_unknown_build_is_no_failure(
    record: Migration,
    build: Version,
    world: World,
    fuel: nat,
)
    requires
        !leads_to(steps(), build),
        world.record == Some(record),
        !is_current(record, build),
        !is_new_install(record, build),
        fuel >= 5,
    ensures
        migration(build, world, no_faults(), fuel) == (Ending {
            world: World {
                record: Some(Migration { target_version: build, ..record }),
                ..prepared(world)
            },
            result: Some(Ok(())),
        }),
{
    law_unknown_build_plans_no_step(steps(), record, build);
    law_migration_follows_plan(build, world, fuel);
    reveal_with_fuel(settle, 3);
}

/// Resumability. A crash inside a step leaves the record at the start of
/// that step, as does the completion of the step before it. Take a record
/// that stands at the start of a step, whatever its target, or one without
/// a current version that is no new installation, which stands at the start
/// of the first step; and a build at the version that this step or a later
/// one leads to. The next migration draws a plan that, after its head, runs
/// that very step before any later one; and with no fault it succeeds and
/// leaves the record completed at the version of the build, whether or not
/// the work of the step had been done before the crash: nothing is asked of
/// the column of login tokens, of the table of players or of whether an
/// administrator exists. All that is asked of the schema is what the steps
/// before left: the table of faeries for the step that alters it.
pub proof fn law_interrupted_step_runs_again(
    index: int,
    last: int,
    build: Version,
    world: World,
    fuel: nat,
)
    requires
        0 <= index <= last < steps().len(),
        build == steps()[last].to,
        world.record matches Some(record) && record.origin() == steps()[index].from
            && !is_new_install(record, build),
        world.admins <= i64::MAX,
        steps()[index].action == Action::DropFaeryAuthToken ==> world.tables.contains(
            Table::Faeries,
        ),
        fuel >= 35,
    ensures
        ({
            let step = steps()[index];
            let record = world.record.unwrap();
            let path = chain(steps(), step.from, build);
            let ending = migration(build, world, no_faults(), fuel);
            &&& path.len() > 0
            &&& path[0] == step
            &&& landing(path, step.from) == build
            &&& plan(steps(), record, build) == upgrade_head(record, build) + step.entries()
                + path_entries(path.drop_first())
            &&& ending.result == Some(Ok::<(), RepositoryError>(()))
            &&& ending.world.record == Some(Step::completed(build))
        }),
{
    let s = steps();
    let step = s[index];
    let record = world.record.unwrap();
    let path = chain(s, step.from, build);
    lemma_chain_written_out(step.from, build);
    lemma_entries_written_out(s[0], s[1], s[2]);
    lemma_entries_written_out(s[1], s[2], s[2]);
    lemma_entries_written_out(s[2], s[2], s[2]);
    assert(path.len() > 0 && path[0] == step);
    assert(path =~= seq![step] + path.drop_first());
    lemma_path_front(step, path.drop_first());
    assert(found(world, build) == record);
    let entries = plan(s, record, build);
    assert(entries =~= upgrade_head(record, build) + step.entries() + path_entries(
        path.drop_first(),
    ));
    assert(entries.len() <= 11);
    law_migration_follows_plan(build, world, fuel);
    reveal_with_fuel(settle, 12);
}

/// The order of current versions: an absent one comes before every other,
/// and a version comes before those that are at least as late.
pub open spec fn not_after(earlier: Option<Version>, later: Option<Version>) -> bool {
    match earlier {
        None => true,
        Some(version) => later matches Some(other) && other.at_least(version),
    }
}

/// The current version that an entry persists, for an entry that saves the record.
pub open spec fn saved(entry: Entry) -> Option<Version> {
    match entry.task {
        Task::Save(record) => record.current_version,
        _ => None,
    }
}

/// From the entry at `cursor` on, the records that a plan saves hold
/// current versions in rising order, none before `floor`.
pub open spec fn saves_rise(entries: Seq<Entry>, cursor: nat, floor: Option<Version>) -> bool {
    &&& forall|i: int|
        cursor <= i < entries.len() && (#[trigger] entries[i]).task is Save ==> not_after(
            floor,
            saved(entries[i]),
        )
    &&& forall|i: int, j: int|
        cursor <= i <= j < entries.len() && (#[trigger] entries[i]).task is Save && (
        #[trigger] entries[j]).task is Save ==> not_after(saved(entries[i]), saved(entries[j]))
}

/// The entries of a step save its start, then its end.
proof fn lemma_step_rises(step: Step)
    requires
        step.from.precedes(step.to),
    ensures
        saves_rise(step.entries(), 0, Some(step.from)),
        forall|i: int|
            0 <= i < step.entries().len() && (#[trigger] step.entries()[i]).task is Save
                ==> not_after(saved(step.entries()[i]), Some(step.to)),
{
    let entries = step.entries();
    assert(entries.len() == step.action.tasks().len() + 2);
    assert forall|i: int| 0 <= i < entries.len() && (#[trigger] entries[i]).task is Save implies i
        == 0 || i == entries.len() - 1 by {
        if 0 < i < entries.len() - 1 {
            assert(entries[i] == step.entry(step.action.tasks()[i - 1]));
        }
    }
    assert(saved(entries[0]) == Some(step.from));
    assert(saved(entries[entries.len() - 1]) == Some(step.to));
}

/// Two lists of entries whose saves rise, the first ending no later than
/// `middle` and the second starting no earlier, rise when joined.
proof fn lemma_joined_rise(
    front: Seq<Entry>,
    back: Seq<Entry>,
    floor: Option<Version>,
    middle: Option<Version>,
)
    requires
        saves_rise(front, 0, floor),
        saves_rise(back, 0, middle),
        not_after(floor, middle),
        forall|i: int|
            0 <= i < front.len() && (#[trigger] front[i]).task is Save ==> not_after(
                saved(front[i]),
                middle,
            ),
    ensures
        saves_rise(front + back, 0, floor),
{
    let joined = front + back;
    assert forall|i: int| 0 <= i < joined.len() && (#[trigger] joined[i]).task is Save implies not_after(
        floor,
        saved(joined[i]),
    ) by {
        if i >= front.len() {
            assert(joined[i] == back[i - front.len()]);
        } else {
            assert(joined[i] == front[i]);
        }
    }
    assert forall|i: int, j: int|
        0 <= i <= j < joined.len() && (#[trigger] joined[i]).task is Save && (
        #[trigger] joined[j]).task is Save implies not_after(saved(joined[i]), saved(joined[j])) by {
        if i >= front.len() {
            assert(joined[i] == back[i - front.len()]);
            assert(joined[j] == back[j - front.len()]);
        } else if j < front.len() {
            assert(joined[i] == front[i]);
            assert(joined[j] == front[j]);
        } else {
            assert(joined[i] == front[i]);
            assert(joined[j] == back[j - front.len()]);
        }
    }
}

/// A list of steps is linked from `at` when its first step starts at `at`,
/// each step starts where the one before it ended, and each leads to a
/// later version.
pub open spec fn linked(path: Seq<Step>, at: Version) -> bool {
    &&& path.len() > 0 ==> path[0].from == at
    &&& leads_on(path)
    &&& forall|i: int| 0 <= i < path.len() - 1 ==> #[trigger] joins(path, i)
}

/// Whatever the table, as long as each of its steps leads to a later
/// version, the steps chosen for a schema at `at` are linked from `at`.
pub proof fn lemma_chain_is_linked(table: Seq<Step>, at: Version, goal: Version, index: int)
    requires
        leads_on(table),
        0 <= index,
    ensures
        linked(chain_from(table, at, goal, index), at),
    decreases table.len() - index,
{
    if index < table.len() {
        let step = table[index];
        if step.from == at && goal.at_least(step.to) {
            let rest = chain_from(table, step.to, goal, index + 1);
            lemma_chain_is_linked(table, step.to, goal, index + 1);
            let path = seq![step] + rest;
            assert(path == chain_from(table, at, goal, index));
            assert forall|i: int| 0 <= i < path.len() implies (#[trigger] path[i]).from.precedes(
                path[i].to,
            ) by {
                if i > 0 {
                    assert(path[i] == rest[i - 1]);
                }
            }
            assert forall|i: int| 0 <= i < path.len() - 1 implies #[trigger] joins(path, i) by {
                assert(path[i + 1] == rest[i]);
                if i > 0 {
                    assert(path[i] == rest[i - 1]);
                    assert(joins(rest, i - 1));
                }
            }
        } else {
            lemma_chain_is_linked(table, at, goal, index + 1);
        }
    }
}

/// The entries of a linked list of steps save records whose current
/// versions rise from the start of the list to its end.
pub proof fn lemma_linked_path_rises(path: Seq<Step>, at: Version)
    requires
        linked(path, at),
    ensures
        landing(path, at).at_least(at),
        saves_rise(path_entries(path), 0, Some(at)),
        forall|i: int|
            0 <= i < path_entries(path).len() && (#[trigger] path_entries(path)[i]).task is Save
                ==> not_after(saved(path_entries(path)[i]), Some(landing(path, at))),
    decreases path.len(),
{
    if path.len() > 0 {
        let front = path.drop_last();
        let last = path.last();
        assert(linked(front, at)) by {
            assert forall|i: int| 0 <= i < front.len() - 1 implies #[trigger] joins(front, i) by {
                assert(front[i] == path[i]);
                assert(front[i + 1] == path[i + 1]);
                assert(joins(path, i));
            }
            assert forall|i: int| 0 <= i < front.len() implies (#[trigger] front[i]).from.precedes(
                front[i].to,
            ) by {
                assert(front[i] == path[i]);
            }
            if front.len() > 0 {
                assert(front[0] == path[0]);
            }
        }
        lemma_linked_path_rises(front, at);
        assert(landing(front, at) == last.from) by {
            if front.len() > 0 {
                assert(front.last() == path[path.len() - 2]);
                assert(joins(path, path.len() - 2));
            }
        }
        lemma_step_rises(last);
        let before = path_entries(front);
        lemma_joined_rise(before, last.entries(), Some(at), Some(last.from));
        let whole = path_entries(path);
        assert(whole == before + last.entries());
        assert forall|i: int| 0 <= i < whole.len() && (#[trigger] whole[i]).task is Save implies not_after(
            saved(whole[i]),
            Some(last.to),
        ) by {
            if i < before.len() {
                assert(whole[i] == before[i]);
            } else {
                assert(whole[i] == last.entries()[i - before.len()]);
            }
        }
    }
}

/// The plan drawn from a record saves records whose current versions rise
/// from that of the record, whatever the table, as long as each of its
/// steps leads to a later version.
pub proof fn lemma_plan_rises(table: Seq<Step>, record: Migration, build: Version)
    requires
        leads_on(table),
    ensures
        saves_rise(plan(table, record, build), 0, record.current_version),
{
    if is_current(record, build) {
    } else if is_new_install(record, build) {
    } else {
        let at = record.origin();
        let head = upgrade_head(record, build);
        let path = chain(table, at, build);
        if leads_to(table, build) {
            lemma_chain_is_linked(table, at, build, 0);
        }
        lemma_linked_path_rises(path, at);
        assert(saves_rise(head, 0, record.current_version));
        lemma_joined_rise(head, path_entries(path), record.current_version, Some(at));
    }
}

/// Whatever faults strike, a run that works through a plan whose saves rise
/// from the current version on record leaves a current version that is not
/// before it.
proof fn lemma_current_rises(
    build: Version,
    run: RunView,
    request: Request,
    world: World,
    faults: spec_fn(nat) -> bool,
    tick: nat,
    fuel: nat,
)
    requires
        request.is_final() || (run.phase == Phase::Working && run.cursor < run.plan.len()
            && request == run.plan[run.cursor as int].task.request(run.stage) && saves_rise(
            run.plan,
            run.cursor,
            world.current(),
        )),
    ensures
        not_after(world.current(), drive(build, run, request, world, faults, tick, fuel).world.current()),
    decreases fuel,
{
    if request.is_final() || fuel == 0 {
    } else {
        let entry = run.plan[run.cursor as int];
        let (changed, reply) = world.answer_under(request, faults(tick));
        let (next, asked) = run.next(build, reply);
        assert(changed.current() == world.current() || (entry.task is Save && changed.current()
            == saved(entry)));
        assert(not_after(world.current(), changed.current()));
        assert(saves_rise(run.plan, run.cursor, changed.current())) by {
            if changed.current() != world.current() {
                assert forall|i: int|
                    run.cursor <= i < run.plan.len() && (#[trigger] run.plan[i]).task is Save implies not_after(
                    changed.current(),
                    saved(run.plan[i]),
                ) by {
                    assert(run.plan[run.cursor as int].task is Save);
                }
            }
        }
        assert(next.plan == run.plan);
        assert(saves_rise(next.plan, next.cursor, changed.current()));
        lemma_current_rises(build, next, asked, changed, faults, tick + 1, (fuel - 1) as nat);
        let ending = drive(build, next, asked, changed, faults, tick + 1, (fuel - 1) as nat);
        assert(not_after(changed.current(), ending.world.current()));
    }
}

/// Monotonicity. Whatever the state, whatever faults strike, and however
/// the migration ends, the current version on record afterwards is not
/// before the one on record when it began.
pub proof fn law_current_version_never_falls(
    build: Version,
    world: World,
    faults: spec_fn(nat) -> bool,
    fuel: nat,
)
    ensures
        not_after(world.current(), migration(build, world, faults, fuel).world.current()),
{
    let first = first_request();
    let (w1, r1) = world.answer_under(first, faults(0));
    let (s1, q1) = fresh_run().next(build, r1);
    assert(w1.current() == world.current());
    if fuel >= 1 {
        assert(migration(build, world, faults, fuel) == drive(
            build,
            s1,
            q1,
            w1,
            faults,
            1,
            (fuel - 1) as nat,
        ));
        if fuel >= 2 && !faults(0) {
            let (w2, r2) = w1.answer_under(q1, faults(1));
            let (s2, q2) = s1.next(build, r2);
            assert(w2 == w1);
            assert(drive(build, s1, q1, w1, faults, 1, (fuel - 1) as nat) == drive(
                build,
                s2,
                q2,
                w2,
                faults,
                2,
                (fuel - 2) as nat,
            ));
            if !faults(1) {
                let record = found(world, build);
                assert(w1.tables.contains(Table::Migrations));
                assert(loaded(r2, build) == Some(record));
                assert(record.current_version == w2.current());
                steps_form_chain();
                lemma_plan_rises(steps(), record, build);
                lemma_current_rises(build, s2, q2, w2, faults, 2, (fuel - 2) as nat);
            }
        }
    }
}

/// One call of a migration: the version of the build that makes it, the
/// faults that strike during it, and the requests it is given time for.
pub struct Call {
    pub build: Version,
    pub faults: spec_fn(nat) -> bool,
    pub fuel: nat,
}

/// The state after a sequence of migrations, each starting where the one
/// before it ended.
pub open spec fn history(calls: Seq<Call>, world: World) -> World
    decreases calls.len(),
{
    if calls.len() == 0 {
        world
    } else {
        let call = calls.last();
        migration(call.build, history(calls.drop_last(), world), call.faults, call.fuel).world
    }
}

/// Monotonicity over any sequence of migrations, by builds of any
/// versions and with any faults: the current version on record after the
/// first `count` of them is not after the one on record after all of them.
pub proof fn law_history_never_falls(calls: Seq<Call>, world: World, count: int)
    requires
        0 <= count <= calls.len(),
    ensures
        not_after(history(calls.take(count), world).current(), history(calls, world).current()),
    decreases calls.len(),
{
    if count == calls.len() {
        assert(calls.take(count) =~= calls);
    } else {
        let call = calls.last();
        let earlier = calls.drop_last();
        let before = history(earlier, world);
        law_history_never_falls(earlier, world, count);
        assert(calls.take(count) =~= earlier.take(count));
        law_current_version_never_falls(call.build, before, call.faults, call.fuel);
    }
}

/// The save of the record is all or nothing, whatever faults strike: it
/// ends within three requests; where it succeeds, the state holds exactly
/// the record saved, whether or not a row existed before; where it fails,
/// the failure names the versions of its entry and the state is as it was.
/// With the table of the record in place it fails only by a fault.
pub proof fn law_save_is_all_or_nothing(
    build: Version,
    entry: Entry,
    world: World,
    faults: spec_fn(nat) -> bool,
    tick: nat,
    fuel: nat,
)
    requires
        entry.task is Save,
        fuel >= 3,
    ensures
        ({
            let start = RunView::over(seq![entry]).enter();
            let ending = drive(build, start.0, start.1, world, faults, tick, fuel);
            let record = entry.task->Save_0;
            &&& ending.result == Some(Ok::<(), RepositoryError>(())) || ending.result == Some(
                Err::<(), RepositoryError>(entry.failure()),
            )
            &&& ending.result == Some(Ok::<(), RepositoryError>(())) ==> ending.world == World {
                record: Some(record),
                ..world
            }
            &&& ending.result != Some(Ok::<(), RepositoryError>(())) ==> ending.world == world
            &&& world.tables.contains(Table::Migrations) && !faults(tick) && !faults(tick + 1)
                ==> ending.result == Some(Ok::<(), RepositoryError>(()))
        }),
{
    let (s0, q0) = RunView::over(seq![entry]).enter();
    let (w1, r1) = world.answer_under(q0, faults(tick));
    let (s1, q1) = s0.next(build, r1);
    assert(drive(build, s0, q0, world, faults, tick, fuel) == drive(
        build,
        s1,
        q1,
        w1,
        faults,
        tick + 1,
        (fuel - 1) as nat,
    ));
    if !q1.is_final() {
        let (w2, r2) = w1.answer_under(q1, faults(tick + 1));
        let (s2, q2) = s1.next(build, r2);
        assert(drive(build, s1, q1, w1, faults, tick + 1, (fuel - 1) as nat) == drive(
            build,
            s2,
            q2,
            w2,
            faults,
            tick + 2,
            (fuel - 2) as nat,
        ));
        if !q2.is_final() {
            let (w3, r3) = w2.answer_under(q2, faults(tick + 2));
            let (s3, q3) = s2.next(build, r3);
            assert(drive(build, s2, q2, w2, faults, tick + 2, (fuel - 2) as nat) == drive(
                build,
                s3,
                q3,
                w3,
                faults,
                tick + 3,
                (fuel - 3) as nat,
            ));
            assert(q3.is_final());
        }
    }
}

/// How many requests a run may still make before it stops: three for each
/// entry that is left, less those already made for the entry at hand.
pub open spec fn requests_left(run: RunView) -> int {
    3 * (run.plan.len() - run.cursor) - match run.stage {
        Stage::First => 0int,
        Stage::Second => 1int,
        Stage::Third => 2int,
    }
}

/// Whether a result is one that a plan can end in: success, or the failure
/// of one of its entries.
pub open spec fn ends_plan(result: Option<Result<(), RepositoryError>>, entries: Seq<Entry>) -> bool {
    ||| result == Some(Ok::<(), RepositoryError>(()))
    ||| exists|i: int|
        0 <= i < entries.len() && result == Some(
            Err::<(), RepositoryError>(#[trigger] entries[i].failure()),
        )
}

/// Whatever faults strike, a run that works through a plan stops within the
/// requests it has left, in success or in the failure of an entry.
proof fn lemma_run_ends(
    build: Version,
    run: RunView,
    request: Request,
    world: World,
    faults: spec_fn(nat) -> bool,
    tick: nat,
    fuel: nat,
)
    requires
        request == Request::Complete || (request is Abort && ends_plan(
            request.result(),
            run.plan,
        )) || (!request.is_final() && run.phase == Phase::Working && run.cursor
            < run.plan.len()),
        request.is_final() || fuel >= requests_left(run),
    ensures
        ends_plan(drive(build, run, request, world, faults, tick, fuel).result, run.plan),
    decreases fuel,
{
    if request.is_final() {
    } else {
        let entry = run.plan[run.cursor as int];
        let (changed, reply) = world.answer_under(request, faults(tick));
        let (next, asked) = run.next(build, reply);
        assert(next.plan == run.plan);
        assert(asked is Abort ==> asked.result() == Some(
            Err::<(), RepositoryError>(entry.failure()),
        ));
        assert(asked.is_final() || requests_left(next) < requests_left(run));
        lemma_run_ends(build, next, asked, changed, faults, tick + 1, (fuel - 1) as nat);
    }
}

/// No plan is longer than the head of an upgrade and the entries of every step.
proof fn lemma_plan_is_short(record: Migration, build: Version)
    ensures
        plan(steps(), record, build).len() <= 11,
{
    let s = steps();
    lemma_chain_written_out(record.origin(), build);
    lemma_entries_written_out(s[0], s[1], s[2]);
    lemma_entries_written_out(s[1], s[2], s[2]);
    lemma_entries_written_out(s[2], s[2], s[2]);
}

/// Every migration ends, whatever faults strike: within 35 requests it
/// stops, in success, in the failure of a step of its plan, named by the
/// versions the step leads from and to, or, where it gave up before it had
/// a plan, in the failure from `0.0.0` to the build.
pub proof fn law_migration_ends(
    build: Version,
    world: World,
    faults: spec_fn(nat) -> bool,
    fuel: nat,
)
    requires
        fuel >= 35,
    ensures
        ({
            let result = migration(build, world, faults, fuel).result;
            ||| result == gave_up(build)
            ||| ends_plan(result, plan(steps(), found(world, build), build))
        }),
{
    lemma_migration_opens(build, world, faults, fuel);
    if !faults(0) && !faults(1) {
        let entries = plan(steps(), found(world, build), build);
        lemma_plan_is_short(found(world, build), build);
        let start = RunView::over(entries).enter();
        assert(start.0.plan == entries);
        lemma_run_ends(build, start.0, start.1, prepared(world), faults, 2, (fuel - 2) as nat);
    }
}

/// What a run may make of the number of administrators: leave it, or take
/// it from none to one.
pub open spec fn kept_or_seeded(before: nat, after: nat) -> bool {
    after == before || (before == 0 && after == 1)
}

/// Whatever faults strike, a run asks for the seed only on a count of
/// none, so it leaves the number of administrators or takes it from none to
/// one.
pub proof fn lemma_run_seeds_at_most_once(
    build: Version,
    run: RunView,
    request: Request,
    world: World,
    faults: spec_fn(nat) -> bool,
    tick: nat,
    fuel: nat,
)
    requires
        request is InsertAdmin ==> world.admins == 0,
    ensures
        kept_or_seeded(world.admins, drive(build, run, request, world, faults, tick, fuel).world.admins),
    decreases fuel,
{
    if request.is_final() || fuel == 0 {
    } else {
        let (changed, reply) = world.answer_under(request, faults(tick));
        let (next, asked) = run.next(build, reply);
        assert(kept_or_seeded(world.admins, changed.admins));
        assert(asked is InsertAdmin ==> changed.admins == 0) by {
            if asked is InsertAdmin {
                assert(reply == Reply::Count(0));
                assert(request is CountAdmins);
            }
        }
        lemma_run_seeds_at_most_once(build, next, asked, changed, faults, tick + 1, (fuel - 1) as nat);
    }
}

/// Admin bootstrap at most once, whatever faults strike and however the
/// migration ends: it leaves the number of administrators as it was, or
/// takes it from none to one. A state with one administrator or none has
/// one or none afterwards.
pub proof fn law_migration_seeds_at_most_once(
    build: Version,
    world: World,
    faults: spec_fn(nat) -> bool,
    fuel: nat,
)
    ensures
        kept_or_seeded(world.admins, migration(build, world, faults, fuel).world.admins),
{
    lemma_run_seeds_at_most_once(build, fresh_run(), first_request(), world, faults, 0, fuel);
}

/// The same of a run over any plan, such as that of one step on its own.
pub proof fn law_plan_seeds_at_most_once(
    build: Version,
    entries: Seq<Entry>,
    world: World,
    faults: spec_fn(nat) -> bool,
    fuel: nat,
)
    ensures
        ({
            let start = RunView::over(entries).enter();
            kept_or_seeded(
                world.admins,
                drive(build, start.0, start.1, world, faults, 0, fuel).world.admins,
            )
        }),
{
    let start = RunView::over(entries).enter();
    lemma_run_seeds_at_most_once(build, start.0, start.1, world, faults, 0, fuel);
}

/// Over any sequence of migrations with any faults, a state with at most
/// one administrator never comes to hold more than one.
pub proof fn law_history_seeds_at_most_once(calls: Seq<Call>, world: World)
    ensures
        kept_or_seeded(world.admins, history(calls, world).admins),
    decreases calls.len(),
{
    if calls.len() > 0 {
        let call = calls.last();
        let before = history(calls.drop_last(), world);
        law_history_seeds_at_most_once(calls.drop_last(), world);
        law_migration_seeds_at_most_once(call.build, before, call.faults, call.fuel);
    }
}

} // verus!
