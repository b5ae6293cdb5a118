//! What `su` gives for what it was asked and what it found, result by result.
use vstd::prelude::*;
use vstd::utf8::encode_utf8;

use crate::bytes::{law_decimal_reads_back, numeral};
use crate::environment::law_last_value_wins;
use crate::message::IoError;
use crate::shells::restricted;
use crate::su_context::{
    base_environment, context, found_groups, gids, lemma_first_failure, not_listable, resolution,
    terminal_only, SuContext, SuContextView, HOME, LOGNAME, MAIL, ONLY_ROOT, PATH, ROOT, SHELL,
    TERM, USER,
};
use crate::su_laws::{
    lemma_found_groups_len, lemma_keeping, lemma_only_text, lemma_variables_differ,
};
use crate::su_types::{
    CommandProbe, Defaults, DefaultsView, Error, ErrorView, Group, GroupView, SuOptions,
    SuOptionsView, SystemFacts, SystemFactsView, User, UserView,
};

verus! {

/// The names that `su` knows are those that everyone knows.
pub proof fn law_known_names()
    ensures
        ROOT@ == "root"@,
        TERM@ == "TERM"@,
        PATH@ == "PATH"@,
        HOME@ == "HOME"@,
        SHELL@ == "SHELL"@,
        MAIL@ == "MAIL"@,
        USER@ == "USER"@,
        LOGNAME@ == "LOGNAME"@,
        ONLY_ROOT@ == "only root can specify alternative groups"@,
{
}

/// The user whom the command runs as is the one who was found by the name, with
/// nothing changed but the groups, and these only if groups were named. This is so
/// whoever asks.
pub proof fn law_command_runs_as_the_user(
    options: SuOptionsView,
    system: SystemFactsView,
    defaults: DefaultsView,
    probe: CommandProbe,
)
    requires
        system.answers(options),
        context(options, system, defaults, probe) is Ok,
    ensures
        ({
            let found = context(options, system, defaults, probe)->Ok_0.user;
            &&& system.target_user matches Ok(Some(target))
            &&& found.uid == target.uid
            &&& found.gid == target.gid
            &&& found.name == target.name
            &&& found.home == target.home
            &&& found.shell == target.shell
            &&& options.group.len() == 0 && options.supp_group.len() == 0 ==> found.groups
                == target.groups
        }),
{
    lemma_found_groups_len(options.group, system.groups);
    lemma_found_groups_len(options.supp_group, system.supp_groups);
}

/// Where no groups were named, the primary group is the one with the number that
/// the user has, whoever asks.
pub proof fn law_primary_group_is_that_of_the_user(
    options: SuOptionsView,
    system: SystemFactsView,
    defaults: DefaultsView,
    probe: CommandProbe,
)
    requires
        system.answers(options),
        context(options, system, defaults, probe) is Ok,
        options.group.len() == 0,
        options.supp_group.len() == 0,
    ensures
        system.primary_group == Ok::<Option<GroupView>, ErrorView>(
            Some(context(options, system, defaults, probe)->Ok_0.group),
        ),
{
    lemma_found_groups_len(options.group, system.groups);
    lemma_found_groups_len(options.supp_group, system.supp_groups);
}

/// Where groups were named, all of them were found, and their numbers are the
/// groups to have: first the groups, then the further groups, each in the order in
/// which they were named. The primary group is the last of the groups, or else the
/// first of the further groups.
pub proof fn law_groups_are_those_that_were_named(
    options: SuOptionsView,
    system: SystemFactsView,
    defaults: DefaultsView,
    probe: CommandProbe,
    i: int,
)
    requires
        system.answers(options),
        context(options, system, defaults, probe) is Ok,
        options.group.len() > 0 || options.supp_group.len() > 0,
    ensures
        ({
            let found = context(options, system, defaults, probe)->Ok_0;
            let count = options.group.len() as int;
            &&& system.real_uid == 0
            &&& found.user.groups.len() == count + options.supp_group.len()
            &&& 0 <= i < count ==> ({
                &&& system.groups[i] matches Ok(Some(group))
                &&& found.user.groups[i] == group.gid
            })
            &&& 0 <= i < options.supp_group.len() ==> ({
                &&& system.supp_groups[i] matches Ok(Some(group))
                &&& found.user.groups[count + i] == group.gid
            })
            &&& count > 0 ==> system.groups[count - 1] == Ok::<Option<GroupView>, ErrorView>(
                Some(found.group),
            )
            &&& count == 0 ==> system.supp_groups[0] == Ok::<Option<GroupView>, ErrorView>(
                Some(found.group),
            )
        }),
{
    lemma_found_groups_len(options.group, system.groups);
    lemma_found_groups_len(options.supp_group, system.supp_groups);
    let groups = found_groups(options.group, system.groups)->Ok_0;
    let supp_groups = found_groups(options.supp_group, system.supp_groups)->Ok_0;
    let found = context(options, system, defaults, probe)->Ok_0;
    assert(found.user.groups == gids(groups) + gids(supp_groups));
    if 0 <= i < groups.len() {
        assert(system.groups[i] == Ok::<Option<GroupView>, ErrorView>(Some(groups[i])));
    }
    if 0 <= i < supp_groups.len() {
        assert(system.supp_groups[i] == Ok::<Option<GroupView>, ErrorView>(Some(supp_groups[i])));
    }
    if groups.len() > 0 {
        assert(groups.last() == groups[groups.len() - 1]);
    } else {
        assert(supp_groups[0] == found.group);
    }
}

/// A shell that was asked for is run, whether this is a login or not and whether
/// the environment is kept or not, unless someone other than `root` asks and the
/// shell of the user is a restricted one.
pub proof fn law_shell_option_is_obeyed(
    options: SuOptionsView,
    system: SystemFactsView,
    defaults: DefaultsView,
    probe: CommandProbe,
    target: UserView,
    shell: Seq<u8>,
)
    requires
        system.answers(options),
        context(options, system, defaults, probe) is Ok,
        system.target_user == Ok::<Option<UserView>, ErrorView>(Some(target)),
        options.shell == Some(shell),
        system.real_uid == 0 || !restricted(target.shell, system.shells),
    ensures
        context(options, system, defaults, probe)->Ok_0.command == shell,
{
}

/// A restricted shell is run whatever was asked for, unless `root` asks.
pub proof fn law_restricted_shell_is_run(
    options: SuOptionsView,
    system: SystemFactsView,
    defaults: DefaultsView,
    probe: CommandProbe,
    target: UserView,
)
    requires
        system.answers(options),
        context(options, system, defaults, probe) is Ok,
        system.target_user == Ok::<Option<UserView>, ErrorView>(Some(target)),
        system.real_uid != 0,
        restricted(target.shell, system.shells),
    ensures
        context(options, system, defaults, probe)->Ok_0.command == target.shell,
{
}

/// Where no shell was asked for and the environment is not kept, the shell of the
/// user is run. The same holds for a login, which does not keep the variable.
pub proof fn law_own_shell_is_run(
    options: SuOptionsView,
    system: SystemFactsView,
    defaults: DefaultsView,
    probe: CommandProbe,
    target: UserView,
)
    requires
        system.answers(options),
        context(options, system, defaults, probe) is Ok,
        system.target_user == Ok::<Option<UserView>, ErrorView>(Some(target)),
        options.shell is None,
        !options.preserve_environment || options.login,
    ensures
        context(options, system, defaults, probe)->Ok_0.command == target.shell,
{
    if options.login {
        lemma_variables_differ();
        lemma_only_text(SHELL@);
        lemma_keeping(terminal_only(system), options.whitelist_environment, system.whitelisted);
        assert(!base_environment(options, system).contains_key(encode_utf8(SHELL@)));
    }
}

/// Where no shell was asked for and the environment is kept without a login, the
/// last value of the variable is run, or the shell of the user if there is no such
/// variable, unless the latter is restricted and someone other than `root` asks.
pub proof fn law_shell_variable_is_obeyed(
    options: SuOptionsView,
    system: SystemFactsView,
    defaults: DefaultsView,
    probe: CommandProbe,
    target: UserView,
    i: int,
)
    requires
        system.answers(options),
        context(options, system, defaults, probe) is Ok,
        system.target_user == Ok::<Option<UserView>, ErrorView>(Some(target)),
        options.shell is None,
        options.preserve_environment,
        !options.login,
        system.real_uid == 0 || !restricted(target.shell, system.shells),
    ensures
        ({
            let command = context(options, system, defaults, probe)->Ok_0.command;
            let variables = system.variables;
            &&& 0 <= i < variables.len() && variables[i].0 == encode_utf8("SHELL"@) && (forall|
                j: int,
            |
                i < j < variables.len() ==> (#[trigger] variables[j]).0 != encode_utf8("SHELL"@))
                ==> command == variables[i].1
            &&& (forall|j: int|
                0 <= j < variables.len() ==> (#[trigger] variables[j]).0 != encode_utf8("SHELL"@))
                ==> command == target.shell
        }),
{
    law_last_value_wins(system.variables, encode_utf8(SHELL@));
}

/// A command is passed to the shell as `-c` and the command, and takes the place of
/// all arguments. Without one, the shell gets the arguments that were given. No
/// other option matters, nor who asks.
pub proof fn law_arguments_for_the_shell(
    options: SuOptionsView,
    system: SystemFactsView,
    defaults: DefaultsView,
    probe: CommandProbe,
)
    requires
        system.answers(options),
        context(options, system, defaults, probe) is Ok,
    ensures
        ({
            let arguments = context(options, system, defaults, probe)->Ok_0.arguments;
            &&& options.command matches Some(command) ==> arguments == seq!["-c"@, command]
            &&& options.command is None ==> arguments == options.arguments
        }),
{
}

/// Who asks, what was asked and the process are handed on as they are.
pub proof fn law_facts_are_handed_on(
    options: SuOptionsView,
    system: SystemFactsView,
    defaults: DefaultsView,
    probe: CommandProbe,
)
    requires
        system.answers(options),
        context(options, system, defaults, probe) is Ok,
    ensures
        ({
            let found = context(options, system, defaults, probe)->Ok_0;
            &&& system.requesting_user == Ok::<UserView, ErrorView>(found.requesting_user)
            &&& found.options == options
            &&& found.process == system.process
        }),
{
}

/// What is run is what was worked out before the file of the command was looked
/// at, and it was noted whether this is a restricted shell that nobody asked for.
pub proof fn law_resolution_is_what_is_run(
    options: SuOptionsView,
    system: SystemFactsView,
    defaults: DefaultsView,
    probe: CommandProbe,
    target: UserView,
)
    requires
        system.answers(options),
        context(options, system, defaults, probe) is Ok,
        system.target_user == Ok::<Option<UserView>, ErrorView>(Some(target)),
    ensures
        ({
            let found = context(options, system, defaults, probe)->Ok_0;
            &&& resolution(options, system) matches Ok(resolved)
            &&& resolved.command == found.command
            &&& resolved.user == found.user
            &&& resolved.requesting_user == found.requesting_user
            &&& resolved.group == found.group
            &&& resolved.is_restricted <==> system.real_uid != 0 && restricted(
                target.shell,
                system.shells,
            )
        }),
{
}

/// The environment to start from. For a login it holds the type of the terminal and
/// the variables in the list, of which five are left out, each with the value that
/// was found last. Otherwise it holds the variables of the process, each with its
/// last value.
pub proof fn law_starting_environment(
    options: SuOptionsView,
    system: SystemFactsView,
    key: Seq<u8>,
)
    requires
        system.answers(options),
        resolution(options, system) is Ok,
    ensures
        ({
            let environment = resolution(options, system)->Ok_0.environment;
            starts_with(options, system, environment, key)
        }),
{
    let environment = base_environment(options, system);
    if options.login {
        let (names, values) = (options.whitelist_environment, system.whitelisted);
        lemma_keeping(terminal_only(system), names, values);
        assert forall|i: int|
            listed_at(options, key, i) && values[i] is Some && (forall|j: int|
                i < j && #[trigger] listed_at(options, key, j) ==> values[j]
                    is None) implies environment.contains_key(key) && values[i] == Some(
            environment[key],
        ) by {
            assert(encode_utf8(names[i]) == key);
            let j = choose|j: int|
                i <= j < names.len() && (#[trigger] names[j]) == names[i] && values[j] == Some(
                    environment[encode_utf8(names[i])],
                );
            assert(listed_at(options, key, j));
        }
        if environment.contains_key(key) && !(key == encode_utf8(TERM@) && system.term == Some(
            environment[key],
        )) {
            let i = choose|i: int|
                0 <= i < names.len() && encode_utf8(#[trigger] names[i]) == key && values[i]
                    == Some(environment[key]) && !not_listable(names[i]);
            lemma_only_text(names[i]);
            assert(listed_at(options, key, i));
        }
        if exists|i: int| #[trigger] listed_at(options, key, i) && values[i] is Some {
            let i = choose|i: int| #[trigger] listed_at(options, key, i) && values[i] is Some;
            assert(encode_utf8(names[i]) == key);
        }
    } else {
        law_last_value_wins(system.variables, key);
    }
}

/// Whether a variable stands at this place in the list of those not to reset, and
/// is none of the five for which the list is ignored.
pub open spec fn listed_at(options: SuOptionsView, key: Seq<u8>, i: int) -> bool {
    &&& 0 <= i < options.whitelist_environment.len()
    &&& encode_utf8(options.whitelist_environment[i]) == key
    &&& key != encode_utf8("HOME"@)
    &&& key != encode_utf8("SHELL"@)
    &&& key != encode_utf8("USER"@)
    &&& key != encode_utf8("LOGNAME"@)
    &&& key != encode_utf8("PATH"@)
}

/// Whether an environment has, of one variable, what the caller's environment
/// leaves of it.
pub open spec fn starts_with(
    options: SuOptionsView,
    system: SystemFactsView,
    environment: Map<Seq<u8>, Seq<u8>>,
    key: Seq<u8>,
) -> bool {
    if options.login {
        &&& environment.contains_key(key) <==> (key == encode_utf8("TERM"@) && system.term is Some)
            || exists|i: int| #[trigger]
            listed_at(options, key, i) && system.whitelisted[i] is Some
        &&& environment.contains_key(key) ==> (key == encode_utf8("TERM"@) && system.term == Some(
            environment[key],
        )) || exists|i: int| #[trigger]
            listed_at(options, key, i) && system.whitelisted[i] == Some(environment[key])
        &&& forall|i: int| #[trigger]
            listed_at(options, key, i) && system.whitelisted[i] is Some && (forall|j: int|
                i < j && #[trigger] listed_at(options, key, j) ==> system.whitelisted[j] is None)
                ==> environment.contains_key(key) && system.whitelisted[i] == Some(
                environment[key],
            )
    } else {
        &&& environment.contains_key(key) <==> exists|i: int|
            0 <= i < system.variables.len() && (#[trigger] system.variables[i]).0 == key
        &&& forall|i: int|
            0 <= i < system.variables.len() && (#[trigger] system.variables[i]).0 == key && (
            forall|j: int|
                i < j < system.variables.len() ==> (#[trigger] system.variables[j]).0 != key)
                ==> environment[key] == system.variables[i].1
    }
}

/// The environment of the command, variable by variable. A login sets the search
/// path. Unless the environment is kept, the home directory, the shell and the
/// mailbox are those of the user, and so are the names, but for `root` only in a
/// login. Every other variable is what the caller's environment leaves of it.
pub proof fn law_environment_of_the_command(
    options: SuOptionsView,
    system: SystemFactsView,
    defaults: DefaultsView,
    probe: CommandProbe,
    key: Seq<u8>,
)
    requires
        system.answers(options),
        context(options, system, defaults, probe) is Ok,
    ensures
        ({
            let found = context(options, system, defaults, probe)->Ok_0;
            let environment = found.environment;
            let named = options.user != "root"@ || options.login;
            if options.login && key == encode_utf8("PATH"@) {
                environment.contains_pair(
                    key,
                    encode_utf8(
                        if options.user == "root"@ {
                            defaults.root_path
                        } else {
                            defaults.path
                        },
                    ),
                )
            } else if !options.preserve_environment && key == encode_utf8("HOME"@) {
                environment.contains_pair(key, found.user.home)
            } else if !options.preserve_environment && key == encode_utf8("SHELL"@) {
                environment.contains_pair(key, found.command)
            } else if !options.preserve_environment && key == encode_utf8("MAIL"@) {
                environment.contains_pair(
                    key,
                    encode_utf8(defaults.mail_dir + "/"@ + found.user.name),
                )
            } else if !options.preserve_environment && named && (key == encode_utf8("USER"@) || key
                == encode_utf8("LOGNAME"@)) {
                environment.contains_pair(key, encode_utf8(options.user))
            } else {
                starts_with(options, system, environment, key)
            }
        }),
{
    lemma_variables_differ();
    law_starting_environment(options, system, key);
}

/// The first thing that went wrong is what is reported, in this order: who asks
/// could not be found out, whom to become could not or does not exist, groups were
/// named by someone other than `root`, the primary group could not be found out or
/// does not exist.
pub proof fn law_first_failure_is_reported(
    options: SuOptionsView,
    system: SystemFactsView,
    defaults: DefaultsView,
    probe: CommandProbe,
)
    requires
        system.answers(options),
    ensures
        ({
            let result = context(options, system, defaults, probe);
            let refused = system.real_uid != 0 && (options.group.len() > 0
                || options.supp_group.len() > 0);
            let known = system.requesting_user is Ok;
            let both_known = known && (system.target_user matches Ok(Some(_)));
            &&& system.requesting_user matches Err(err) ==> result == Err::<
                SuContextView,
                ErrorView,
            >(err)
            &&& known ==> (system.target_user matches Err(err) ==> result == Err::<
                SuContextView,
                ErrorView,
            >(err))
            &&& known && (system.target_user matches Ok(None)) ==> result == Err::<
                SuContextView,
                ErrorView,
            >(ErrorView::UserNotFound(options.user))
            &&& both_known && refused ==> result == Err::<SuContextView, ErrorView>(
                ErrorView::Options("only root can specify alternative groups"@),
            )
            &&& both_known && !refused ==> (system.primary_group matches Err(err) ==> result
                == Err::<SuContextView, ErrorView>(err))
            &&& both_known && !refused && (system.primary_group matches Ok(None)) ==> ({
                &&& result matches Err(ErrorView::GroupNotFound(name))
                &&& numeral(name) == system.target_user->Ok_0->0.gid
                &&& name.len() > 1 ==> name[0] != '0'
                &&& name.len() > 0
                &&& forall|i: int| 0 <= i < name.len() ==> '0' <= #[trigger] name[i] <= '9'
            })
        }),
{
    if let Ok(Some(target)) = system.target_user {
        law_decimal_reads_back(target.gid as nat);
    }
}

/// Groups that were looked up are all there is to find if each was found.
proof fn lemma_all_found(
    names: Seq<Seq<char>>,
    lookups: Seq<Result<Option<GroupView>, ErrorView>>,
)
    requires
        names.len() == lookups.len(),
        forall|i: int|
            0 <= i < lookups.len() ==> ((#[trigger] lookups[i]) matches Ok(Some(_))),
    ensures
        found_groups(names, lookups) is Ok,
    decreases names.len(),
{
    if names.len() > 0 {
        let (some_names, some_lookups) = (names.drop_last(), lookups.drop_last());
        assert forall|i: int| 0 <= i < some_lookups.len() implies ((
        #[trigger] some_lookups[i]) matches Ok(Some(_))) by {
            assert(some_lookups[i] == lookups[i]);
        }
        lemma_all_found(some_names, some_lookups);
        assert(lookups.last() == lookups[lookups.len() - 1]);
    }
}

/// The first of the groups that was not found is what failed.
proof fn lemma_failure_at(
    names: Seq<Seq<char>>,
    lookups: Seq<Result<Option<GroupView>, ErrorView>>,
    i: int,
)
    requires
        names.len() == lookups.len(),
        0 <= i < names.len(),
        forall|j: int| 0 <= j < i ==> ((#[trigger] lookups[j]) matches Ok(Some(_))),
        !(lookups[i] matches Ok(Some(_))),
    ensures
        found_groups(names, lookups) == Err::<Seq<GroupView>, ErrorView>(
            match lookups[i] {
                Err(err) => err,
                _ => ErrorView::GroupNotFound(names[i]),
            },
        ),
{
    let (some_names, some_lookups) = (names.take(i + 1), lookups.take(i + 1));
    assert(some_names.drop_last() =~= names.take(i));
    assert(some_lookups.drop_last() =~= lookups.take(i));
    assert forall|j: int| 0 <= j < lookups.take(i).len() implies ((#[trigger] lookups.take(
        i,
    )[j]) matches Ok(Some(_))) by {
        assert(lookups.take(i)[j] == lookups[j]);
    }
    lemma_all_found(names.take(i), lookups.take(i));
    assert(some_names.last() == names[i]);
    assert(some_lookups.last() == lookups[i]);
    lemma_first_failure(names, lookups, i + 1);
}

/// Where everything before went well, the first of the groups that was not found is
/// reported by its name, or by what went wrong.
pub proof fn law_first_missing_group_is_reported(
    options: SuOptionsView,
    system: SystemFactsView,
    defaults: DefaultsView,
    probe: CommandProbe,
    i: int,
)
    requires
        system.answers(options),
        system.requesting_user is Ok,
        system.target_user matches Ok(Some(_)),
        system.real_uid == 0,
        system.primary_group matches Ok(Some(_)),
        0 <= i < system.groups.len(),
        !(system.groups[i] matches Ok(Some(_))),
        forall|j: int| 0 <= j < i ==> ((#[trigger] system.groups[j]) matches Ok(Some(_))),
    ensures
        context(options, system, defaults, probe) == Err::<SuContextView, ErrorView>(
            match system.groups[i] {
                Err(err) => err,
                _ => ErrorView::GroupNotFound(options.group[i]),
            },
        ),
{
    lemma_failure_at(options.group, system.groups, i);
}

/// Where the groups were found too, the first of the further groups that was not
/// found is reported in the same way.
pub proof fn law_first_missing_further_group_is_reported(
    options: SuOptionsView,
    system: SystemFactsView,
    defaults: DefaultsView,
    probe: CommandProbe,
    i: int,
)
    requires
        system.answers(options),
        system.requesting_user is Ok,
        system.target_user matches Ok(Some(_)),
        system.real_uid == 0,
        system.primary_group matches Ok(Some(_)),
        forall|j: int|
            0 <= j < system.groups.len() ==> ((#[trigger] system.groups[j]) matches Ok(Some(_))),
        0 <= i < system.supp_groups.len(),
        !(system.supp_groups[i] matches Ok(Some(_))),
        forall|j: int| 0 <= j < i ==> ((#[trigger] system.supp_groups[j]) matches Ok(Some(_))),
    ensures
        context(options, system, defaults, probe) == Err::<SuContextView, ErrorView>(
            match system.supp_groups[i] {
                Err(err) => err,
                _ => ErrorView::GroupNotFound(options.supp_group[i]),
            },
        ),
{
    lemma_all_found(options.group, system.groups);
    lemma_failure_at(options.supp_group, system.supp_groups, i);
}

/// Where everyone and all groups were found and nobody but `root` named groups,
/// there is something to run. It is run if its file exists and can be executed, and
/// otherwise it is what is reported.
pub proof fn law_nothing_else_fails(
    options: SuOptionsView,
    system: SystemFactsView,
    defaults: DefaultsView,
    probe: CommandProbe,
)
    requires
        system.answers(options),
        system.requesting_user is Ok,
        system.target_user matches Ok(Some(_)),
        system.real_uid == 0 || (options.group.len() == 0 && options.supp_group.len() == 0),
        system.primary_group matches Ok(Some(_)),
        forall|j: int|
            0 <= j < system.groups.len() ==> ((#[trigger] system.groups[j]) matches Ok(Some(_))),
        forall|j: int|
            0 <= j < system.supp_groups.len() ==> ((#[trigger] system.supp_groups[j]) matches Ok(
                Some(_),
            )),
    ensures
        ({
            let fine = (CommandProbe { exists: true, valid: true });
            let result = context(options, system, defaults, probe);
            let command = context(options, system, defaults, fine)->Ok_0.command;
            &&& context(options, system, defaults, fine) is Ok
            &&& probe.exists && probe.valid ==> result == context(options, system, defaults, fine)
            &&& !probe.exists ==> result == Err::<SuContextView, ErrorView>(
                ErrorView::CommandNotFound(command),
            )
            &&& probe.exists && !probe.valid ==> result == Err::<SuContextView, ErrorView>(
                ErrorView::InvalidCommand(command),
            )
        }),
{
    lemma_all_found(options.group, system.groups);
    lemma_all_found(options.supp_group, system.supp_groups);
}

/// What a context answers for the command that was worked out is what was asked and
/// found.
pub proof fn law_answers_of_a_context(
    options: SuOptions,
    system: SystemFacts,
    defaults: Defaults,
    probe: CommandProbe,
    found: SuContext,
    command: Result<&Vec<u8>, IoError>,
    arguments: &Vec<String>,
    directory: Option<&Vec<u8>>,
    login: bool,
    pty: bool,
    pid: i32,
)
    requires
        call_ensures(SuContext::from_env, (options, &system, &defaults, probe), Ok(found)),
        call_ensures(SuContext::command, (&found,), command),
        call_ensures(SuContext::arguments, (&found,), arguments),
        call_ensures(SuContext::chdir, (&found,), directory),
        call_ensures(SuContext::is_login, (&found,), login),
        call_ensures(SuContext::use_pty, (&found,), pty),
        call_ensures(SuContext::pid, (&found,), pid),
    ensures
        directory is None,
        login == options.login,
        pty == options.pty,
        pid == system.process.pid,
        command is Ok,
        system.real_uid == 0 && options.shell is Some ==> command->Ok_0@ == options.shell->0@,
        options.command is Some ==> {
            &&& arguments@.len() == 2
            &&& arguments@[0]@ == "-c"@
            &&& arguments@[1]@ == options.command->0@
        },
        options.command is None ==> {
            &&& arguments@.len() == options.arguments@.len()
            &&& forall|i: int|
                0 <= i < arguments@.len() ==> (#[trigger] arguments@[i])@ == options.arguments@[i]@
        },
{
    let texts = found@.arguments;
    assert(texts.len() == arguments@.len());
    assert forall|i: int| 0 <= i < arguments@.len() implies (#[trigger] arguments@[i])@
        == texts[i] by {}
    if options.command is None {
        assert(texts == options@.arguments);
        assert forall|i: int| 0 <= i < arguments@.len() implies (#[trigger] arguments@[i])@
            == options.arguments@[i]@ by {
            assert(texts[i] == options@.arguments[i]);
        }
    } else {
        assert(texts == seq!["-c"@, options.command->0@]);
        assert(arguments@[0]@ == texts[0]);
        assert(arguments@[1]@ == texts[1]);
    }
}

/// Who is to be become, who asks and the primary group are answered as they were
/// found, with the groups that were named.
pub proof fn law_people_of_a_context(
    options: SuOptions,
    system: SystemFacts,
    defaults: Defaults,
    probe: CommandProbe,
    found: SuContext,
    user: &User,
    requesting_user: &User,
    group: &Group,
)
    requires
        system@.answers(options@),
        call_ensures(SuContext::from_env, (options, &system, &defaults, probe), Ok(found)),
        call_ensures(SuContext::user, (&found,), user),
        call_ensures(SuContext::requesting_user, (&found,), requesting_user),
        call_ensures(SuContext::group, (&found,), group),
    ensures
        system.target_user matches Ok(Some(_)),
        system.requesting_user is Ok,
        ({
            let target = system.target_user->Ok_0->0;
            &&& user.uid == target.uid
            &&& user.gid == target.gid
            &&& user.name@ == target.name@
            &&& user.home@ == target.home@
            &&& user.shell@ == target.shell@
        }),
        ({
            let asking = system.requesting_user->Ok_0;
            &&& requesting_user.uid == asking.uid
            &&& requesting_user.gid == asking.gid
            &&& requesting_user.name@ == asking.name@
            &&& requesting_user.home@ == asking.home@
            &&& requesting_user.shell@ == asking.shell@
            &&& requesting_user.groups@ == asking.groups@
        }),
        options.group@.len() == 0 && options.supp_group@.len() == 0 ==> ({
            let primary = system.primary_group->Ok_0->0;
            &&& user.groups@ == system.target_user->Ok_0->0.groups@
            &&& system.primary_group matches Ok(Some(_))
            &&& group.gid == primary.gid
            &&& group.name@ == primary.name@
        }),
{
    law_command_runs_as_the_user(options@, system@, defaults@, probe);
    law_facts_are_handed_on(options@, system@, defaults@, probe);
    if options.group@.len() == 0 && options.supp_group@.len() == 0 {
        law_primary_group_is_that_of_the_user(options@, system@, defaults@, probe);
    }
}

/// What was asked and what was found count as they are.
pub proof fn law_options_count_as_they_are(options: SuOptions, i: int)
    ensures
        options@.user == options.user@,
        options@.login == options.login,
        options@.pty == options.pty,
        options@.preserve_environment == options.preserve_environment,
        options.shell is Some <==> options@.shell is Some,
        options.shell is Some ==> options@.shell->0 == options.shell->0@,
        options.command is Some <==> options@.command is Some,
        options.command is Some ==> options@.command->0 == options.command->0@,
        options@.arguments.len() == options.arguments@.len(),
        options@.group.len() == options.group@.len(),
        options@.supp_group.len() == options.supp_group@.len(),
        options@.whitelist_environment.len() == options.whitelist_environment@.len(),
        0 <= i < options.arguments@.len() ==> options@.arguments[i] == options.arguments@[i]@,
        0 <= i < options.group@.len() ==> options@.group[i] == options.group@[i]@,
        0 <= i < options.supp_group@.len() ==> options@.supp_group[i] == options.supp_group@[i]@,
        0 <= i < options.whitelist_environment@.len() ==> options@.whitelist_environment[i]
            == options.whitelist_environment@[i]@,
{
}

/// See [`law_options_count_as_they_are`].
pub proof fn law_facts_count_as_they_are(system: SystemFacts, i: int)
    ensures
        system@.process == system.process,
        system@.real_uid == system.real_uid,
        system@.variables.len() == system.variables@.len(),
        0 <= i < system.variables@.len() ==> system@.variables[i] == (
            system.variables@[i].0@,
            system.variables@[i].1@,
        ),
        system.term is Some <==> system@.term is Some,
        system.term is Some ==> system@.term->0 == system.term->0@,
        system@.whitelisted.len() == system.whitelisted@.len(),
        0 <= i < system.whitelisted@.len() ==> (system@.whitelisted[i] is Some
            <==> system.whitelisted@[i] is Some),
        0 <= i < system.whitelisted@.len() && system.whitelisted@[i] is Some
            ==> system@.whitelisted[i]->0 == system.whitelisted@[i]->0@,
        system.shells is Some <==> system@.shells is Some,
        system.shells is Some ==> system@.shells->0 == system.shells->0@,
        system@.groups.len() == system.groups@.len(),
        system@.supp_groups.len() == system.supp_groups@.len(),
        0 <= i < system.groups@.len() ==> (system.groups@[i] matches Ok(Some(group))
            ==> system@.groups[i] == Ok::<Option<GroupView>, ErrorView>(
            Some(GroupView { gid: group.gid, name: group.name@ }),
        )),
        0 <= i < system.groups@.len() ==> (system.groups@[i] matches Ok(None)
            ==> system@.groups[i] == Ok::<Option<GroupView>, ErrorView>(None)),
        0 <= i < system.groups@.len() ==> (system.groups@[i] matches Err(err)
            ==> system@.groups[i] == Err::<Option<GroupView>, ErrorView>(err@)),
        0 <= i < system.supp_groups@.len() ==> (system.supp_groups@[i] matches Ok(Some(group))
            ==> system@.supp_groups[i] == Ok::<Option<GroupView>, ErrorView>(
            Some(GroupView { gid: group.gid, name: group.name@ }),
        )),
        0 <= i < system.supp_groups@.len() ==> (system.supp_groups@[i] matches Ok(None)
            ==> system@.supp_groups[i] == Ok::<Option<GroupView>, ErrorView>(None)),
        0 <= i < system.supp_groups@.len() ==> (system.supp_groups@[i] matches Err(err)
            ==> system@.supp_groups[i] == Err::<Option<GroupView>, ErrorView>(err@)),
{
}

/// See [`law_options_count_as_they_are`].
pub proof fn law_settings_count_as_they_are(defaults: Defaults, user: User, group: Group)
    ensures
        defaults@.mail_dir == defaults.mail_dir@,
        defaults@.path == defaults.path@,
        defaults@.root_path == defaults.root_path@,
        user@.uid == user.uid,
        user@.gid == user.gid,
        user@.name == user.name@,
        user@.home == user.home@,
        user@.shell == user.shell@,
        user@.groups == user.groups@,
        group@.gid == group.gid,
        group@.name == group.name@,
{
}

/// What went wrong is told apart as it is.
pub proof fn law_errors_count_as_they_are(err: Error)
    ensures
        err matches Error::UserNotFound(name) ==> err@ == ErrorView::UserNotFound(name@),
        err matches Error::GroupNotFound(name) ==> err@ == ErrorView::GroupNotFound(name@),
        err matches Error::CommandNotFound(path) ==> err@ == ErrorView::CommandNotFound(path@),
        err matches Error::InvalidCommand(path) ==> err@ == ErrorView::InvalidCommand(path@),
        err matches Error::Options(reason) ==> err@ == ErrorView::Options(reason@),
        err matches Error::Io(cause) ==> err@ == ErrorView::Io(cause),
{
}

} // verus!
