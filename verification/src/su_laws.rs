//! What holds of whatever `su` runs.
use vstd::prelude::*;
use vstd::utf8::{encode_utf8, encode_utf8_decode_utf8};

use crate::environment::gathered;
use crate::shells::restricted;
use crate::su_context::{
    base_environment, context, found_groups, gids, keeping, not_listable,
    requested_shell, resolution, terminal_only, SuContextView, HOME, LOGNAME, MAIL, ONLY_ROOT,
    PATH, ROOT, SHELL, TERM, USER,
};
use crate::su_types::{
    CommandProbe, DefaultsView, ErrorView, GroupView, SuOptionsView, SystemFactsView,
};

verus! {

/// The byte string of a text determines the text.
pub proof fn lemma_same_text(left: Seq<char>, right: Seq<char>)
    requires
        encode_utf8(left) == encode_utf8(right),
    ensures
        left == right,
{
    encode_utf8_decode_utf8(left);
    encode_utf8_decode_utf8(right);
}

/// Two texts that begin differently have different byte strings.
proof fn lemma_different_names(left: Seq<char>, right: Seq<char>)
    requires
        left.len() > 0,
        right.len() > 0,
        left[0] != right[0],
    ensures
        encode_utf8(left) != encode_utf8(right),
{
    if encode_utf8(left) == encode_utf8(right) {
        lemma_same_text(left, right);
    }
}

/// The variables that `su` knows by name are different ones.
pub proof fn lemma_variables_differ()
    ensures
        encode_utf8(TERM@) != encode_utf8(PATH@),
        encode_utf8(TERM@) != encode_utf8(HOME@),
        encode_utf8(TERM@) != encode_utf8(SHELL@),
        encode_utf8(TERM@) != encode_utf8(MAIL@),
        encode_utf8(TERM@) != encode_utf8(USER@),
        encode_utf8(TERM@) != encode_utf8(LOGNAME@),
        encode_utf8(PATH@) != encode_utf8(HOME@),
        encode_utf8(PATH@) != encode_utf8(SHELL@),
        encode_utf8(PATH@) != encode_utf8(MAIL@),
        encode_utf8(PATH@) != encode_utf8(USER@),
        encode_utf8(PATH@) != encode_utf8(LOGNAME@),
        encode_utf8(HOME@) != encode_utf8(SHELL@),
        encode_utf8(HOME@) != encode_utf8(MAIL@),
        encode_utf8(HOME@) != encode_utf8(USER@),
        encode_utf8(HOME@) != encode_utf8(LOGNAME@),
        encode_utf8(SHELL@) != encode_utf8(MAIL@),
        encode_utf8(SHELL@) != encode_utf8(USER@),
        encode_utf8(SHELL@) != encode_utf8(LOGNAME@),
        encode_utf8(MAIL@) != encode_utf8(USER@),
        encode_utf8(MAIL@) != encode_utf8(LOGNAME@),
        encode_utf8(USER@) != encode_utf8(LOGNAME@),
{
    reveal_strlit("TERM");
    reveal_strlit("PATH");
    reveal_strlit("HOME");
    reveal_strlit("SHELL");
    reveal_strlit("MAIL");
    reveal_strlit("USER");
    reveal_strlit("LOGNAME");
    lemma_different_names(TERM@, PATH@);
    lemma_different_names(TERM@, HOME@);
    lemma_different_names(TERM@, SHELL@);
    lemma_different_names(TERM@, MAIL@);
    lemma_different_names(TERM@, USER@);
    lemma_different_names(TERM@, LOGNAME@);
    lemma_different_names(PATH@, HOME@);
    lemma_different_names(PATH@, SHELL@);
    lemma_different_names(PATH@, MAIL@);
    lemma_different_names(PATH@, USER@);
    lemma_different_names(PATH@, LOGNAME@);
    lemma_different_names(HOME@, SHELL@);
    lemma_different_names(HOME@, MAIL@);
    lemma_different_names(HOME@, USER@);
    lemma_different_names(HOME@, LOGNAME@);
    lemma_different_names(SHELL@, MAIL@);
    lemma_different_names(SHELL@, USER@);
    lemma_different_names(SHELL@, LOGNAME@);
    lemma_different_names(MAIL@, USER@);
    lemma_different_names(MAIL@, LOGNAME@);
    lemma_different_names(USER@, LOGNAME@);
}

/// No other text has the byte string of a name.
pub proof fn lemma_only_text(name: Seq<char>)
    ensures
        forall|other: Seq<char>| #[trigger] encode_utf8(other) == encode_utf8(name) ==> other
            == name,
{
    assert forall|other: Seq<char>| #[trigger] encode_utf8(other) == encode_utf8(
        name,
    ) implies other == name by {
        lemma_same_text(other, name);
    }
}

/// Only `root` gets to run anything with groups other than the user's own.
/// Whoever else names groups is refused, as soon as both users are known.
pub proof fn law_only_root_names_groups(
    options: SuOptionsView,
    system: SystemFactsView,
    defaults: DefaultsView,
    probe: CommandProbe,
)
    requires
        system.answers(options),
        system.real_uid != 0,
    ensures
        context(options, system, defaults, probe) matches Ok(found) ==> {
            &&& options.group.len() == 0 && options.supp_group.len() == 0
            &&& found.user == system.target_user->Ok_0->0
            &&& found.group == system.primary_group->Ok_0->0
        },
        (options.group.len() > 0 || options.supp_group.len() > 0) && system.requesting_user is Ok
            && (system.target_user matches Ok(Some(_))) ==> context(options, system, defaults, probe) == Err::<SuContextView, ErrorView>(
            ErrorView::Options(ONLY_ROOT@),
        ),
{
}

/// What went wrong with groups is that one was not found, or what went wrong with
/// a lookup.
proof fn lemma_group_failure(
    names: Seq<Seq<char>>,
    lookups: Seq<Result<Option<GroupView>, ErrorView>>,
)
    requires
        names.len() == lookups.len(),
    ensures
        found_groups(names, lookups) matches Err(err) ==> err is GroupNotFound || exists|i: int|
            0 <= i < lookups.len() && #[trigger] lookups[i] == Err::<
                Option<GroupView>,
                ErrorView,
            >(err),
    decreases names.len(),
{
    if names.len() > 0 {
        let (some_names, some_lookups) = (names.drop_last(), lookups.drop_last());
        lemma_group_failure(some_names, some_lookups);
        if let Err(err) = found_groups(some_names, some_lookups) {
            if !(err is GroupNotFound) {
                let i = choose|i: int|
                    0 <= i < some_lookups.len() && #[trigger] some_lookups[i] == Err::<
                        Option<GroupView>,
                        ErrorView,
                    >(err);
                assert(lookups[i] == some_lookups[i]);
            }
        } else {
            assert(lookups.last() == lookups[lookups.len() - 1]);
        }
    }
}

/// Whether none of the lookups of groups failed for the options.
pub open spec fn lookups_accept_options(system: SystemFactsView) -> bool {
    &&& !(system.primary_group matches Err(ErrorView::Options(_)))
    &&& forall|i: int|
        0 <= i < system.groups.len() ==> !((#[trigger] system.groups[i]) matches Err(
            ErrorView::Options(_),
        ))
    &&& forall|i: int|
        0 <= i < system.supp_groups.len() ==> !((#[trigger] system.supp_groups[i]) matches Err(
            ErrorView::Options(_),
        ))
}

/// Once both users are known, the options are refused if and only if someone other
/// than `root` names groups. It matters neither who the user to become is nor
/// whether the groups exist.
pub proof fn law_options_are_refused_for_groups_alone(
    options: SuOptionsView,
    system: SystemFactsView,
    defaults: DefaultsView,
    probe: CommandProbe,
)
    requires
        system.answers(options),
        system.requesting_user is Ok,
        system.target_user matches Ok(Some(_)),
        lookups_accept_options(system),
    ensures
        (context(options, system, defaults, probe) matches Err(ErrorView::Options(_))) <==> (
        system.real_uid != 0 && (options.group.len() > 0 || options.supp_group.len() > 0)),
{
    lemma_group_failure(options.group, system.groups);
    lemma_group_failure(options.supp_group, system.supp_groups);
}

/// A user with a restricted shell runs that shell, whatever shell the options or
/// the environment ask for, unless it is `root` who asks.
pub proof fn law_restricted_shell_is_final(
    options: SuOptionsView,
    system: SystemFactsView,
    defaults: DefaultsView,
    probe: CommandProbe,
)
    requires
        system.answers(options),
        context(options, system, defaults, probe) is Ok,
    ensures
        ({
            let command = context(options, system, defaults, probe)->Ok_0.command;
            let shell = system.target_user->Ok_0->0.shell;
            if restricted(shell, system.shells) && system.real_uid != 0 {
                command == shell
            } else {
                command == requested_shell(
                    options,
                    base_environment(options, system),
                    shell,
                )
            }
        }),
{
}

/// What is run exists and can be executed.
pub proof fn law_command_was_checked(
    options: SuOptionsView,
    system: SystemFactsView,
    defaults: DefaultsView,
    probe: CommandProbe,
)
    requires
        system.answers(options),
    ensures
        context(options, system, defaults, probe) is Ok <==> resolution(options, system) is Ok
            && probe.exists && probe.valid,
{
}

/// The names of the groups were found, one after the other.
pub proof fn lemma_found_groups_len(
    names: Seq<Seq<char>>,
    lookups: Seq<Result<Option<GroupView>, ErrorView>>,
)
    requires
        names.len() == lookups.len(),
        found_groups(names, lookups) is Ok,
    ensures
        found_groups(names, lookups)->Ok_0.len() == names.len(),
        forall|i: int|
            0 <= i < names.len() ==> lookups[i] == Ok::<Option<GroupView>, ErrorView>(
                Some(#[trigger] found_groups(names, lookups)->Ok_0[i]),
            ),
    decreases names.len(),
{
    if names.len() > 0 {
        lemma_found_groups_len(names.drop_last(), lookups.drop_last());
        let earlier = found_groups(names.drop_last(), lookups.drop_last())->Ok_0;
        let groups = found_groups(names, lookups)->Ok_0;
        assert forall|i: int| 0 <= i < names.len() implies lookups[i] == Ok::<
            Option<GroupView>,
            ErrorView,
        >(Some(#[trigger] groups[i])) by {
            if i < names.len() - 1 {
                assert(groups[i] == earlier[i]);
                assert(lookups.drop_last()[i] == lookups[i]);
            }
        }
    }
}

/// Groups that `root` names take the place of all groups of the user, in the
/// order in which they were named. The last one of the groups is the primary
/// group, or else the first of the further groups.
pub proof fn law_named_groups_replace_those_of_the_user(
    options: SuOptionsView,
    system: SystemFactsView,
    defaults: DefaultsView,
    probe: CommandProbe,
)
    requires
        system.answers(options),
        context(options, system, defaults, probe) is Ok,
        options.group.len() > 0 || options.supp_group.len() > 0,
    ensures
        ({
            let found = context(options, system, defaults, probe)->Ok_0;
            let (groups, supp_groups) = (options.group.len() as int, options.supp_group.len() as int);
            &&& found.user.groups.len() == groups + supp_groups
            &&& forall|i: int|
                0 <= i < groups ==> (#[trigger] system.groups[i])->Ok_0->0.gid
                    == found.user.groups[i]
            &&& forall|i: int|
                0 <= i < supp_groups ==> (#[trigger] system.supp_groups[i])->Ok_0->0.gid
                    == found.user.groups[groups + i]
            &&& found.group == if groups > 0 {
                system.groups.last()->Ok_0->0
            } else {
                system.supp_groups[0]->Ok_0->0
            }
        }),
{
    lemma_found_groups_len(options.group, system.groups);
    lemma_found_groups_len(options.supp_group, system.supp_groups);
    let groups = found_groups(options.group, system.groups)->Ok_0;
    let supp_groups = found_groups(options.supp_group, system.supp_groups)->Ok_0;
    let found = context(options, system, defaults, probe)->Ok_0;
    assert(found.user.groups == gids(groups) + gids(supp_groups));
    assert forall|i: int| 0 <= i < groups.len() implies (#[trigger] system.groups[i])->Ok_0->0.gid
        == found.user.groups[i] by {
        assert(system.groups[i] == Ok::<Option<GroupView>, ErrorView>(Some(groups[i])));
    }
    assert forall|i: int| 0 <= i < supp_groups.len() implies (
    #[trigger] system.supp_groups[i])->Ok_0->0.gid == found.user.groups[groups.len() + i] by {
        assert(system.supp_groups[i] == Ok::<Option<GroupView>, ErrorView>(Some(supp_groups[i])));
    }
    if groups.len() > 0 {
        assert(groups.last() == groups[groups.len() - 1]);
    } else {
        assert(supp_groups[0] == system.supp_groups[0]->Ok_0->0);
    }
}

/// What the variables of a list contribute: each for which the list is not
/// ignored has the value that was found, and nothing else is added.
pub proof fn lemma_keeping(
    environment: Map<Seq<u8>, Seq<u8>>,
    names: Seq<Seq<char>>,
    values: Seq<Option<Seq<u8>>>,
)
    requires
        names.len() == values.len(),
    ensures
        forall|key: Seq<u8>| #[trigger]
            keeping(environment, names, values).contains_key(key) <==> environment.contains_key(key)
                || exists|i: int|
                0 <= i < names.len() && encode_utf8(#[trigger] names[i]) == key
                    && values[i] is Some && !not_listable(names[i]),
        forall|key: Seq<u8>| #[trigger]
            keeping(environment, names, values).contains_key(key) ==> (environment.contains_key(key)
                && keeping(environment, names, values)[key] == environment[key]) || exists|i: int|
                0 <= i < names.len() && encode_utf8(#[trigger] names[i]) == key && values[i]
                    == Some(keeping(environment, names, values)[key]) && !not_listable(names[i]),
        forall|i: int|
            0 <= i < names.len() && values[i] is Some && !not_listable(names[i]) ==> exists|j: int|
                i <= j < names.len() && (#[trigger] names[j]) == names[i] && values[j] == Some(
                    keeping(environment, names, values)[encode_utf8(#[trigger] names[i])],
                ),
    decreases names.len(),
{
    if names.len() > 0 {
        let (some_names, some_values) = (names.drop_last(), values.drop_last());
        let last = names.len() - 1;
        lemma_keeping(environment, some_names, some_values);
        let others = keeping(environment, some_names, some_values);
        let all = keeping(environment, names, values);
        assert(names.last() == names[last] && values.last() == values[last]);
        assert forall|key: Seq<u8>| #[trigger]
            all.contains_key(key) <==> environment.contains_key(key) || exists|i: int|
                0 <= i < names.len() && encode_utf8(#[trigger] names[i]) == key
                    && values[i] is Some && !not_listable(names[i]) by {
            if all.contains_key(key) && !environment.contains_key(key) {
                if others.contains_key(key) {
                    let i = choose|i: int|
                        0 <= i < some_names.len() && encode_utf8(#[trigger] some_names[i]) == key
                            && some_values[i] is Some && !not_listable(some_names[i]);
                    assert(encode_utf8(names[i]) == key && values[i] is Some);
                } else {
                    assert(encode_utf8(names[last]) == key && values[last] is Some);
                }
            }
            if environment.contains_key(key) {
                assert(others.contains_key(key));
            }
            if exists|i: int|
                0 <= i < names.len() && encode_utf8(#[trigger] names[i]) == key
                    && values[i] is Some && !not_listable(names[i]) {
                let i = choose|i: int|
                    0 <= i < names.len() && encode_utf8(#[trigger] names[i]) == key
                        && values[i] is Some && !not_listable(names[i]);
                if i < last {
                    assert(encode_utf8(some_names[i]) == key && some_values[i] is Some);
                    assert(others.contains_key(key));
                }
            }
        }
        assert forall|key: Seq<u8>| #[trigger] all.contains_key(key) implies (
        environment.contains_key(key) && all[key] == environment[key]) || exists|i: int|
            0 <= i < names.len() && encode_utf8(#[trigger] names[i]) == key && values[i] == Some(
                all[key],
            ) && !not_listable(names[i]) by {
            if values[last] is Some && !not_listable(names[last]) && encode_utf8(names[last])
                == key {
                assert(values[last] == Some(all[key]));
            } else {
                assert(others.contains_key(key) && others[key] == all[key]);
                if !(environment.contains_key(key) && all[key] == environment[key]) {
                    let i = choose|i: int|
                        0 <= i < some_names.len() && encode_utf8(#[trigger] some_names[i]) == key
                            && some_values[i] == Some(others[key]) && !not_listable(some_names[i]);
                    assert(encode_utf8(names[i]) == key && values[i] == Some(all[key]));
                }
            }
        }
        assert forall|i: int| 0 <= i < names.len() && values[i] is Some && !not_listable(names[i])
            implies exists|j: int|
            i <= j < names.len() && (#[trigger] names[j]) == names[i] && values[j] == Some(
                all[encode_utf8(#[trigger] names[i])],
            ) by {
            let key = encode_utf8(names[i]);
            if values[last] is Some && !not_listable(names[last]) && encode_utf8(names[last])
                == key {
                lemma_same_text(names[last], names[i]);
                assert(values[last] == Some(all[key]));
            } else {
                assert(some_names[i] == names[i] && some_values[i] == values[i]);
                let j = choose|j: int|
                    i <= j < some_names.len() && (#[trigger] some_names[j]) == some_names[i]
                        && some_values[j] == Some(others[encode_utf8(some_names[i])]);
                assert(names[j] == names[i] && values[j] == Some(all[key]));
            }
        }
    }
}

/// Whether a variable is one that a login keeps: the type of the terminal, or
/// one in the list, which is ignored for some.
pub open spec fn login_keeps(options: SuOptionsView, key: Seq<u8>) -> bool {
    key == encode_utf8(TERM@) || exists|i: int|
        0 <= i < options.whitelist_environment.len() && encode_utf8(
            #[trigger] options.whitelist_environment[i],
        ) == key && !not_listable(options.whitelist_environment[i])
}

/// Whether a variable is one that is set for the user to become.
pub open spec fn user_variable(key: Seq<u8>) -> bool {
    ||| key == encode_utf8(HOME@)
    ||| key == encode_utf8(SHELL@)
    ||| key == encode_utf8(MAIL@)
    ||| key == encode_utf8(USER@)
    ||| key == encode_utf8(LOGNAME@)
}

/// A login starts afresh: the command sees no variable but those that a login
/// keeps, the search path, and those set for the user.
pub proof fn law_login_resets_environment(
    options: SuOptionsView,
    system: SystemFactsView,
    defaults: DefaultsView,
    probe: CommandProbe,
    key: Seq<u8>,
)
    requires
        system.answers(options),
        options.login,
        context(options, system, defaults, probe) is Ok,
        context(options, system, defaults, probe)->Ok_0.environment.contains_key(key),
    ensures
        login_keeps(options, key) || key == encode_utf8(PATH@) || user_variable(key),
{
    let start = terminal_only(system);
    lemma_keeping(start, options.whitelist_environment, system.whitelisted);
    if !(key == encode_utf8(PATH@) || user_variable(key)) {
        assert(keeping(
            start,
            options.whitelist_environment,
            system.whitelisted,
        ).contains_key(key));
    }
}

/// A login does not reset the variables in the list: each that has a value
/// keeps it, unless the list is ignored for it or it is the mailbox, which is set
/// anyway where the environment is not to be kept.
pub proof fn law_login_keeps_listed_variables(
    options: SuOptionsView,
    system: SystemFactsView,
    defaults: DefaultsView,
    probe: CommandProbe,
    i: int,
)
    requires
        system.answers(options),
        options.login,
        context(options, system, defaults, probe) is Ok,
        0 <= i < options.whitelist_environment.len(),
        // One variable has one value.
        forall|j: int|
            0 <= j < options.whitelist_environment.len() && (
            #[trigger] options.whitelist_environment[j]) == options.whitelist_environment[i]
                ==> system.whitelisted[j] == system.whitelisted[i],
        options.whitelist_environment[i] == TERM@ ==> system.whitelisted[i] == system.term,
        options.whitelist_environment[i] != HOME@,
        options.whitelist_environment[i] != SHELL@,
        options.whitelist_environment[i] != USER@,
        options.whitelist_environment[i] != LOGNAME@,
        options.whitelist_environment[i] != PATH@,
        options.whitelist_environment[i] == MAIL@ ==> options.preserve_environment,
    ensures
        ({
            let key = encode_utf8(options.whitelist_environment[i]);
            let environment = context(options, system, defaults, probe)->Ok_0.environment;
            match system.whitelisted[i] {
                Some(value) => environment.contains_key(key) && environment[key] == value,
                None => !environment.contains_key(key),
            }
        }),
{
    let (names, values) = (options.whitelist_environment, system.whitelisted);
    let start = terminal_only(system);
    lemma_keeping(start, names, values);
    lemma_only_text(names[i]);
    let key = encode_utf8(names[i]);
    let kept = keeping(start, names, values);
    match values[i] {
        Some(value) => {
            assert(kept.contains_key(key));
            let j = choose|j: int|
                i <= j < names.len() && (#[trigger] names[j]) == names[i] && values[j] == Some(
                    kept[key],
                );
            assert(values[j] == values[i]);
        },
        None => {
            if key == encode_utf8(TERM@) {
                lemma_same_text(names[i], TERM@);
            }
            if kept.contains_key(key) {
                let j = choose|j: int|
                    0 <= j < names.len() && encode_utf8(#[trigger] names[j]) == key
                        && values[j] is Some;
                lemma_same_text(names[j], names[i]);
            }
        },
    }
}

/// A login does not reset the type of the terminal.
pub proof fn law_login_keeps_terminal_type(
    options: SuOptionsView,
    system: SystemFactsView,
    defaults: DefaultsView,
    probe: CommandProbe,
)
    requires
        system.answers(options),
        options.login,
        context(options, system, defaults, probe) is Ok,
        // One variable has one value.
        forall|j: int|
            0 <= j < options.whitelist_environment.len() && (
            #[trigger] options.whitelist_environment[j]) == TERM@ ==> system.whitelisted[j]
                == system.term,
    ensures
        ({
            let environment = context(options, system, defaults, probe)->Ok_0.environment;
            match system.term {
                Some(value) => environment.contains_pair(encode_utf8(TERM@), value),
                None => !environment.contains_key(encode_utf8(TERM@)),
            }
        }),
{
    lemma_variables_differ();
    let (names, values) = (options.whitelist_environment, system.whitelisted);
    let key = encode_utf8(TERM@);
    let start = terminal_only(system);
    lemma_keeping(start, names, values);
    let kept = keeping(start, names, values);
    assert(start.contains_key(key) ==> kept.contains_key(key));
    if kept.contains_key(key) && !(start.contains_key(key) && kept[key] == start[key]) {
        let j = choose|j: int|
            0 <= j < names.len() && encode_utf8(#[trigger] names[j]) == key && values[j] == Some(
                kept[key],
            );
        lemma_same_text(names[j], TERM@);
    }
}

/// The variables of a list for which the list is not ignored are all that counts
/// of it.
proof fn lemma_keeping_listable(
    environment: Map<Seq<u8>, Seq<u8>>,
    names: Seq<Seq<char>>,
    value_of: spec_fn(Seq<char>) -> Option<Seq<u8>>,
)
    ensures
        ({
            let listable = names.filter(|name: Seq<char>| !not_listable(name));
            keeping(environment, names, names.map_values(value_of)) == keeping(
                environment,
                listable,
                listable.map_values(value_of),
            )
        }),
    decreases names.len(),
{
    let heeded = |name: Seq<char>| !not_listable(name);
    reveal(Seq::filter);
    if names.len() > 0 {
        let some_names = names.drop_last();
        lemma_keeping_listable(environment, some_names, value_of);
        assert(names.map_values(value_of).drop_last() =~= some_names.map_values(value_of));
        if heeded(names.last()) {
            let listable = names.filter(heeded);
            assert(listable.drop_last() =~= some_names.filter(heeded));
            assert(listable.map_values(value_of).drop_last() =~= listable.drop_last().map_values(
                value_of,
            ));
        }
    }
}

/// The list of variables not to reset is ignored for the home directory, the
/// shell, the names of the user and the search path. Two lists that differ only in
/// these give the same result for the same caller: the same error, or the same
/// command with the same environment, user and groups.
pub proof fn law_list_is_ignored_for_fixed_variables(
    options: SuOptionsView,
    other_list: Seq<Seq<char>>,
    system: SystemFactsView,
    value_of: spec_fn(Seq<char>) -> Option<Seq<u8>>,
    defaults: DefaultsView,
    probe: CommandProbe,
)
    requires
        system.answers(options),
        // What the variables of the caller are.
        system.whitelisted == options.whitelist_environment.map_values(value_of),
        options.whitelist_environment.filter(|name: Seq<char>| !not_listable(name))
            == other_list.filter(|name: Seq<char>| !not_listable(name)),
    ensures
        ({
            let other_options = SuOptionsView { whitelist_environment: other_list, ..options };
            let other_system = SystemFactsView {
                whitelisted: other_list.map_values(value_of),
                ..system
            };
            &&& base_environment(options, system) == base_environment(other_options, other_system)
            &&& resolution(options, system) == resolution(other_options, other_system)
            &&& match context(options, system, defaults, probe) {
                Ok(found) => context(other_options, other_system, defaults, probe) == Ok::<
                    SuContextView,
                    ErrorView,
                >(SuContextView { options: other_options, ..found }),
                Err(err) => context(other_options, other_system, defaults, probe) == Err::<
                    SuContextView,
                    ErrorView,
                >(err),
            }
        }),
{
    lemma_keeping_listable(terminal_only(system), options.whitelist_environment, value_of);
    lemma_keeping_listable(terminal_only(system), other_list, value_of);
}

/// A login sets the search path, whatever it was. It sets the home directory, the
/// shell and the names of the user too, or, where the environment is to be kept,
/// leaves the command without them.
pub proof fn law_login_sets_fixed_variables(
    options: SuOptionsView,
    system: SystemFactsView,
    defaults: DefaultsView,
    probe: CommandProbe,
)
    requires
        system.answers(options),
        options.login,
        context(options, system, defaults, probe) is Ok,
    ensures
        ({
            let found = context(options, system, defaults, probe)->Ok_0;
            let name = encode_utf8(options.user);
            &&& found.environment.contains_pair(
                encode_utf8(PATH@),
                encode_utf8(
                    if options.user == ROOT@ {
                        defaults.root_path
                    } else {
                        defaults.path
                    },
                ),
            )
            &&& if options.preserve_environment {
                &&& !found.environment.contains_key(encode_utf8(HOME@))
                &&& !found.environment.contains_key(encode_utf8(SHELL@))
                &&& !found.environment.contains_key(encode_utf8(USER@))
                &&& !found.environment.contains_key(encode_utf8(LOGNAME@))
            } else {
                &&& found.environment.contains_pair(encode_utf8(HOME@), found.user.home)
                &&& found.environment.contains_pair(encode_utf8(SHELL@), found.command)
                &&& found.environment.contains_pair(encode_utf8(USER@), name)
                &&& found.environment.contains_pair(encode_utf8(LOGNAME@), name)
                &&& found.environment.contains_pair(
                    encode_utf8(MAIL@),
                    encode_utf8(defaults.mail_dir + "/"@ + found.user.name),
                )
            }
        }),
{
    lemma_variables_differ();
    lemma_keeping(terminal_only(system), options.whitelist_environment, system.whitelisted);
    lemma_only_text(HOME@);
    lemma_only_text(SHELL@);
    lemma_only_text(USER@);
    lemma_only_text(LOGNAME@);
}

/// Without a login, an environment that is to be kept is left exactly as it is.
pub proof fn law_kept_environment_is_untouched(
    options: SuOptionsView,
    system: SystemFactsView,
    defaults: DefaultsView,
    probe: CommandProbe,
)
    requires
        system.answers(options),
        !options.login,
        options.preserve_environment,
        context(options, system, defaults, probe) is Ok,
    ensures
        context(options, system, defaults, probe)->Ok_0.environment == gathered(system.variables),
{
}

/// Without a login, only the variables of the user change, and those of the name
/// not for `root`. All others are inherited.
pub proof fn law_other_variables_are_inherited(
    options: SuOptionsView,
    system: SystemFactsView,
    defaults: DefaultsView,
    probe: CommandProbe,
    key: Seq<u8>,
)
    requires
        system.answers(options),
        !options.login,
        context(options, system, defaults, probe) is Ok,
        key != encode_utf8(HOME@) && key != encode_utf8(SHELL@) && key != encode_utf8(MAIL@),
        options.user == ROOT@ || (key != encode_utf8(USER@) && key != encode_utf8(LOGNAME@)),
    ensures
        ({
            let environment = context(options, system, defaults, probe)->Ok_0.environment;
            let inherited = gathered(system.variables);
            &&& environment.contains_key(key) == inherited.contains_key(key)
            &&& inherited.contains_key(key) ==> environment[key] == inherited[key]
        }),
{
    lemma_variables_differ();
}

/// Unless the environment is to be kept, the home directory, the shell and the
/// mailbox are those of the user to become.
pub proof fn law_user_variables_are_set(
    options: SuOptionsView,
    system: SystemFactsView,
    defaults: DefaultsView,
    probe: CommandProbe,
)
    requires
        system.answers(options),
        !options.preserve_environment,
        context(options, system, defaults, probe) is Ok,
    ensures
        ({
            let found = context(options, system, defaults, probe)->Ok_0;
            let name = encode_utf8(options.user);
            &&& found.environment.contains_pair(encode_utf8(HOME@), found.user.home)
            &&& found.environment.contains_pair(encode_utf8(SHELL@), found.command)
            &&& found.environment.contains_pair(
                encode_utf8(MAIL@),
                encode_utf8(defaults.mail_dir + "/"@ + found.user.name),
            )
            &&& options.user != ROOT@ ==> found.environment.contains_pair(encode_utf8(USER@), name)
            &&& options.user != ROOT@ ==> found.environment.contains_pair(
                encode_utf8(LOGNAME@),
                name,
            )
        }),
{
    lemma_variables_differ();
}

} // verus!
