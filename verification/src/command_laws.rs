//! What holds of a batch of requests to the thread that owns the watch table.

use crate::fault::{IoErrorKind, OsError};
use crate::opening::{a_missing_path_is_answered_as_such, opening, taken_in, Surroundings};
use crate::paths::path_class;
use crate::port::PortCodes;
use crate::reports::{NotifyErrorKind, WatchFailure};
use crate::watch_entry::Metadata;
use crate::watch_table::{
    adding_keeps_agreement, after_command, command_action, dissociation, dropping_keeps_agreement,
    Command, CommandAction, RecursiveMode, TableModel,
};
use std::path::PathBuf;
use vstd::prelude::*;

verus! {

/// The table once `command` has been served.
pub open spec fn table_after_serving(
    table: TableModel,
    command: Command,
    system: Surroundings,
    codes: PortCodes,
) -> TableModel {
    match command_action(table, command) {
        CommandAction::Open(path) => taken_in(
            after_command(table, command),
            opening(path, system, codes),
        ).0,
        _ => after_command(table, command),
    }
}

/// What `command` is answered with; nothing if it is not one to answer.
pub open spec fn answer(
    table: TableModel,
    command: Command,
    system: Surroundings,
    codes: PortCodes,
) -> Option<Result<(), WatchFailure>> {
    match command_action(table, command) {
        CommandAction::Reply(reply) => Some(reply),
        CommandAction::Open(path) => Some(taken_in(table, opening(path, system, codes)).1),
        CommandAction::Dissociate { path, .. } => Some(
            dissociation(path, system.dissociated, codes),
        ),
        CommandAction::Stop => None,
    }
}

/// What serving a batch of requests comes to.
pub struct Served {
    pub table: TableModel,
    /// The answers given, in order.
    pub answers: Seq<Result<(), WatchFailure>>,
    /// The thread goes on.
    pub goes_on: bool,
}

/// What the thread makes of the requests `commands`: each is served on the table that those
/// before it left, until one stops the thread or there are no more.
pub open spec fn handle_commands(
    table: TableModel,
    commands: Seq<Command>,
    systems: Seq<Surroundings>,
    codes: PortCodes,
) -> Served
    decreases commands.len(),
{
    if commands.len() == 0 {
        Served { table, answers: Seq::empty(), goes_on: true }
    } else {
        match answer(table, commands[0], systems[0], codes) {
            None => Served { table, answers: Seq::empty(), goes_on: false },
            Some(first) => {
                let rest = handle_commands(
                    table_after_serving(table, commands[0], systems[0], codes),
                    commands.drop_first(),
                    systems.drop_first(),
                    codes,
                );
                Served { answers: seq![first] + rest.answers, ..rest }
            },
        }
    }
}

/// Whether `commands` hold one that stops the thread.
pub open spec fn has_shutdown(commands: Seq<Command>) -> bool {
    exists|i: int| 0 <= i < commands.len() && commands[i] is Shutdown
}

/// The requests ahead of the first that stops the thread; all of them if none does.
pub open spec fn ahead_of_shutdown(commands: Seq<Command>) -> nat
    decreases commands.len(),
{
    if commands.len() == 0 || commands[0] is Shutdown {
        0
    } else {
        1 + ahead_of_shutdown(commands.drop_first())
    }
}

/// The table once the first `count` of `commands` have been served.
pub open spec fn table_at(
    table: TableModel,
    commands: Seq<Command>,
    systems: Seq<Surroundings>,
    codes: PortCodes,
    count: nat,
) -> TableModel
    decreases count,
{
    if count == 0 {
        table
    } else {
        table_after_serving(
            table_at(table, commands, systems, codes, (count - 1) as nat),
            commands[count - 1],
            systems[count - 1],
            codes,
        )
    }
}

/// Serving the first request and then `count` more is serving one more than `count`.
proof fn table_at_shifts(
    table: TableModel,
    commands: Seq<Command>,
    systems: Seq<Surroundings>,
    codes: PortCodes,
    count: nat,
)
    requires
        count < commands.len(),
        commands.len() == systems.len(),
    ensures
        table_at(
            table_after_serving(table, commands[0], systems[0], codes),
            commands.drop_first(),
            systems.drop_first(),
            codes,
            count,
        ) == table_at(table, commands, systems, codes, count + 1),
    decreases count,
{
    reveal_with_fuel(table_at, 2);
    if count > 0 {
        table_at_shifts(table, commands, systems, codes, (count - 1) as nat);
    }
}

/// The first request that stops the thread stands where `ahead_of_shutdown` says.
proof fn shutdown_stands_there(commands: Seq<Command>)
    ensures
        ahead_of_shutdown(commands) <= commands.len(),
        has_shutdown(commands) == (ahead_of_shutdown(commands) < commands.len()),
        ahead_of_shutdown(commands) < commands.len()
            ==> commands[ahead_of_shutdown(commands) as int] is Shutdown,
        forall|i: int|
            0 <= i < ahead_of_shutdown(commands) ==> !((#[trigger] commands[i]) is Shutdown),
    decreases commands.len(),
{
    if commands.len() > 0 && !(commands[0] is Shutdown) {
        let rest = commands.drop_first();
        shutdown_stands_there(rest);
        assert forall|i: int| 0 <= i < ahead_of_shutdown(commands) implies !((
        #[trigger] commands[i]) is Shutdown) by {
            if i > 0 {
                assert(rest[i - 1] == commands[i]);
            }
        }
        if ahead_of_shutdown(rest) < rest.len() {
            let at = ahead_of_shutdown(rest) as int;
            assert(rest[at] == commands[at + 1]);
        }
        if has_shutdown(commands) {
            let i = choose|i: int| 0 <= i < commands.len() && commands[i] is Shutdown;
            assert(rest[i - 1] is Shutdown);
        }
    }
}

/// The requests ahead of the first that stops the thread are served one after the other, each on
/// the table that those before it left, and each is answered once; the thread goes on exactly if
/// none stops it.
pub proof fn a_batch_is_served_in_order(
    table: TableModel,
    commands: Seq<Command>,
    systems: Seq<Surroundings>,
    codes: PortCodes,
)
    requires
        commands.len() == systems.len(),
    ensures
        ({
            let served = handle_commands(table, commands, systems, codes);
            let count = ahead_of_shutdown(commands);
            &&& served.goes_on == !has_shutdown(commands)
            &&& count <= commands.len()
            &&& count < commands.len() ==> commands[count as int] is Shutdown
            &&& forall|i: int| 0 <= i < count ==> !((#[trigger] commands[i]) is Shutdown)
            &&& served.table == table_at(table, commands, systems, codes, count)
            &&& served.answers.len() == count
            &&& forall|i: int|
                0 <= i < count ==> Some(#[trigger] served.answers[i]) == answer(
                    table_at(table, commands, systems, codes, i as nat),
                    commands[i],
                    systems[i],
                    codes,
                )
        }),
    decreases commands.len(),
{
    shutdown_stands_there(commands);
    if commands.len() > 0 && !(commands[0] is Shutdown) {
        let next = table_after_serving(table, commands[0], systems[0], codes);
        let rest = commands.drop_first();
        let rest_systems = systems.drop_first();
        let count = ahead_of_shutdown(rest);
        let served = handle_commands(table, commands, systems, codes);
        let later = handle_commands(next, rest, rest_systems, codes);
        a_batch_is_served_in_order(next, rest, rest_systems, codes);
        shutdown_stands_there(rest);
        assert(table_at(table, commands, systems, codes, 0) == table);
        assert(table_at(table, commands, systems, codes, 1) == next);
        if count < commands.len() {
            table_at_shifts(table, commands, systems, codes, count);
        }
        assert forall|i: int| 0 <= i < count + 1 implies Some(#[trigger] served.answers[i])
            == answer(
            table_at(table, commands, systems, codes, i as nat),
            commands[i],
            systems[i],
            codes,
        ) by {
            if i > 0 {
                table_at_shifts(table, commands, systems, codes, (i - 1) as nat);
                assert(served.answers[i] == later.answers[i - 1]);
            }
        }
    }
}

/// What follows a request that stops the thread is not taken: it changes neither the table nor
/// the answers.
pub proof fn nothing_is_taken_after_a_shutdown(
    table: TableModel,
    commands: Seq<Command>,
    systems: Seq<Surroundings>,
    more: Seq<Command>,
    more_systems: Seq<Surroundings>,
    codes: PortCodes,
)
    requires
        commands.len() == systems.len(),
        has_shutdown(commands),
    ensures
        handle_commands(table, commands + more, systems + more_systems, codes) == handle_commands(
            table,
            commands,
            systems,
            codes,
        ),
    decreases commands.len(),
{
    if !(commands[0] is Shutdown) {
        let next = table_after_serving(table, commands[0], systems[0], codes);
        let rest = commands.drop_first();
        let rest_systems = systems.drop_first();
        let i = choose|i: int| 0 <= i < commands.len() && commands[i] is Shutdown;
        assert(rest[i - 1] is Shutdown);
        assert((commands + more).drop_first() =~= rest + more);
        assert((systems + more_systems).drop_first() =~= rest_systems + more_systems);
        nothing_is_taken_after_a_shutdown(next, rest, rest_systems, more, more_systems, codes);
    }
}

/// A request to watch a path that is not there is answered that the path was not found, about
/// that path, and nothing changes.
pub proof fn a_missing_path_is_answered_path_not_found(
    table: TableModel,
    path: PathBuf,
    system: Surroundings,
    codes: PortCodes,
    error: OsError,
)
    requires
        !table.watching(path),
        !system.bytes.contains(0u8),
        system.metadata == Err::<Metadata, OsError>(error),
        error.wf(),
        error.kind == IoErrorKind::NotFound,
    ensures
        ({
            let command = Command::Watch(path, RecursiveMode::NonRecursive);
            &&& answer(table, command, system, codes) matches Some(Err(failure))
            &&& failure.path == Some(path)
            &&& failure.kind.notify_kind() == NotifyErrorKind::PathNotFound
            &&& table_after_serving(table, command, system, codes) == table
        }),
{
    a_missing_path_is_answered_as_such(path, system, codes, error);
}

/// Serving a batch keeps the two tables in agreement, as long as each watch is opened at an
/// address at which the port knows nothing.
pub proof fn a_batch_keeps_agreement(
    table: TableModel,
    commands: Seq<Command>,
    systems: Seq<Surroundings>,
    codes: PortCodes,
    count: nat,
)
    requires
        table.agrees(),
        count <= commands.len(),
        commands.len() == systems.len(),
        forall|i: int|
            #![trigger systems[i]]
            0 <= i < count && command_action(
                table_at(table, commands, systems, codes, i as nat),
                commands[i],
            ) is Open ==> !table_at(
                table,
                commands,
                systems,
                codes,
                i as nat,
            ).objects.contains_key(systems[i].object),
    ensures
        table_at(table, commands, systems, codes, count).agrees(),
    decreases count,
{
    if count > 0 {
        let last = count - 1;
        let before = table_at(table, commands, systems, codes, last as nat);
        a_batch_keeps_agreement(table, commands, systems, codes, last as nat);
        match command_action(before, commands[last]) {
            CommandAction::Open(path) => match opening(path, systems[last], codes) {
                Ok(entry) => {
                    assert(!before.objects.contains_key(systems[last].object));
                    adding_keeps_agreement(before, entry);
                },
                Err(_) => {},
            },
            CommandAction::Dissociate { path, .. } => {
                dropping_keeps_agreement(before, path);
            },
            _ => {},
        }
    }
}

/// Serving a request to watch keeps every watch that is already held. The path is watched
/// afterwards exactly if it was before or could be opened, and then nothing else is new.
pub proof fn serving_a_watch_keeps_the_others(
    table: TableModel,
    path: PathBuf,
    mode: RecursiveMode,
    system: Surroundings,
    codes: PortCodes,
)
    requires
        table.agrees(),
        !table.objects.contains_key(system.object),
    ensures
        ({
            let command = Command::Watch(path, mode);
            let after = table_after_serving(table, command, system, codes);
            let opened = mode == RecursiveMode::NonRecursive && !table.watches.contains_key(
                path_class(path),
            ) && !system.bytes.contains(0u8) && system.metadata is Ok && system.associated is Ok;
            &&& forall|class: int| #[trigger]
                table.watches.contains_key(class) ==> after.watches.contains_key(class)
                    && after.watches[class] == table.watches[class]
            &&& forall|object: usize| #[trigger]
                table.objects.contains_key(object) ==> after.objects.contains_key(object)
                    && after.objects[object] == table.objects[object]
            &&& forall|class: int| #[trigger]
                after.watches.contains_key(class) <==> table.watches.contains_key(class) || (opened
                    && class == path_class(path))
            &&& forall|object: usize| #[trigger]
                after.objects.contains_key(object) <==> table.objects.contains_key(object) || (
                opened && object == system.object)
            &&& opened ==> after.watches[path_class(path)].path == path
                && after.watches[path_class(path)].object == system.object
                && after.objects[system.object] == path
            &&& answer(table, command, system, codes) is Some
            &&& answer(table, command, system, codes)->0 is Ok <==> opened || (mode
                == RecursiveMode::NonRecursive && table.watches.contains_key(path_class(path)))
        }),
{
}

/// Serving a request to give up a watch drops that watch and its address alone. It succeeds
/// exactly if the path was watched and the port let go of it or had nothing to let go of.
pub proof fn serving_an_unwatch_drops_one_watch(
    table: TableModel,
    path: PathBuf,
    system: Surroundings,
    codes: PortCodes,
)
    requires
        table.agrees(),
    ensures
        ({
            let command = Command::Unwatch(path);
            let after = table_after_serving(table, command, system, codes);
            &&& forall|class: int| #[trigger]
                after.watches.contains_key(class) <==> table.watches.contains_key(class) && class
                    != path_class(path)
            &&& forall|class: int| #[trigger]
                after.watches.contains_key(class) ==> after.watches[class] == table.watches[class]
            &&& forall|object: usize| #[trigger]
                after.objects.contains_key(object) <==> table.objects.contains_key(object)
                    && path_class(table.objects[object]) != path_class(path)
            &&& forall|object: usize| #[trigger]
                after.objects.contains_key(object) ==> after.objects[object]
                    == table.objects[object]
            &&& answer(table, command, system, codes) is Some
            &&& answer(table, command, system, codes)->0 is Ok <==> table.watches.contains_key(
                path_class(path),
            ) && (system.dissociated is Ok || system.dissociated->Err_0.code == Some(codes.missing))
        }),
{
}

/// A batch leaves every watch alone whose path none of its requests is about.
pub proof fn a_batch_leaves_other_watches_alone(
    table: TableModel,
    commands: Seq<Command>,
    systems: Seq<Surroundings>,
    codes: PortCodes,
    count: nat,
    class: int,
)
    requires
        count <= commands.len(),
        commands.len() == systems.len(),
        forall|i: int|
            0 <= i < count ==> match #[trigger] commands[i] {
                Command::Watch(path, _) => path_class(path) != class,
                Command::Unwatch(path) => path_class(path) != class,
                Command::Shutdown => true,
            },
    ensures
        table_at(table, commands, systems, codes, count).watches.contains_key(class)
            <==> table.watches.contains_key(class),
        table.watches.contains_key(class) ==> table_at(
            table,
            commands,
            systems,
            codes,
            count,
        ).watches[class] == table.watches[class],
    decreases count,
{
    if count > 0 {
        a_batch_leaves_other_watches_alone(
            table,
            commands,
            systems,
            codes,
            (count - 1) as nat,
            class,
        );
        assert(!(commands[count - 1] matches Command::Unwatch(path) && path_class(path) == class));
    }
}

/// A batch is served by serving and answering its first request and then the rest, on the table
/// that the first one left.
pub proof fn a_batch_is_served_one_by_one(
    table: TableModel,
    commands: Seq<Command>,
    systems: Seq<Surroundings>,
    codes: PortCodes,
)
    requires
        0 < commands.len() == systems.len(),
        !(commands[0] is Shutdown),
    ensures
        ({
            let served = handle_commands(table, commands, systems, codes);
            let rest = handle_commands(
                table_after_serving(table, commands[0], systems[0], codes),
                commands.drop_first(),
                systems.drop_first(),
                codes,
            );
            &&& served.table == rest.table
            &&& served.goes_on == rest.goes_on
            &&& served.answers.len() == rest.answers.len() + 1
            &&& Some(served.answers[0]) == answer(table, commands[0], systems[0], codes)
            &&& served.answers.drop_first() == rest.answers
        }),
{
}

} // verus!
