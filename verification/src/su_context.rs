//! How `su` works out what to run: as which user, with which groups, shell,
//! arguments and environment.
use vstd::prelude::*;
use vstd::string::{StrSliceExecFns, StringExecFns};
use vstd::utf8::encode_utf8;

use crate::bytes::{copy_bytes, copy_strings, decimal, texts, to_decimal};
use crate::environment::{gathered, Environment};
use crate::message::{IoError, ProcessId};
use crate::shells::{is_restricted, restricted};
use crate::su_types::{
    bytes_option, group_lookup, group_lookups, CommandProbe, Defaults, DefaultsView, Error,
    ErrorView, Group, GroupView, Process, SuOptions, SuOptionsView, SystemFacts, SystemFactsView,
    User, UserView,
};

verus! {

/// The name of the user who may do everything.
pub const ROOT: &'static str = "root";

/// The variable for the type of the terminal.
pub const TERM: &'static str = "TERM";

/// The variable for the search path for commands.
pub const PATH: &'static str = "PATH";

/// The variable for the home directory.
pub const HOME: &'static str = "HOME";

/// The variable for the shell.
pub const SHELL: &'static str = "SHELL";

/// The variable for the mailbox.
pub const MAIL: &'static str = "MAIL";

/// The variable for the name of the user.
pub const USER: &'static str = "USER";

/// The variable for the name that the user logged in with.
pub const LOGNAME: &'static str = "LOGNAME";

/// Why groups were refused.
pub const ONLY_ROOT: &'static str = "only root can specify alternative groups";

/// Whether the list of variables not to reset is ignored for a variable.
pub open spec fn not_listable(name: Seq<char>) -> bool {
    ||| name == HOME@
    ||| name == SHELL@
    ||| name == USER@
    ||| name == LOGNAME@
    ||| name == PATH@
}

/// The environment, with the variables of the list that have a value. The list
/// is ignored for some variables.
pub open spec fn keeping(
    environment: Map<Seq<u8>, Seq<u8>>,
    names: Seq<Seq<char>>,
    values: Seq<Option<Seq<u8>>>,
) -> Map<Seq<u8>, Seq<u8>>
    decreases names.len(),
{
    if names.len() == 0 {
        environment
    } else {
        let others = keeping(environment, names.drop_last(), values.drop_last());
        match values.last() {
            Some(value) if !not_listable(names.last()) => others.insert(
                encode_utf8(names.last()),
                value,
            ),
            _ => others,
        }
    }
}

/// The environment with only the type of the terminal, if it has one.
pub open spec fn terminal_only(system: SystemFactsView) -> Map<Seq<u8>, Seq<u8>> {
    match system.term {
        Some(value) => Map::empty().insert(encode_utf8(TERM@), value),
        None => Map::empty(),
    }
}

/// The environment to start from: that of the process or, for a login, only the
/// type of the terminal and the variables not to reset.
pub open spec fn base_environment(options: SuOptionsView, system: SystemFactsView) -> Map<
    Seq<u8>,
    Seq<u8>,
> {
    if options.login {
        keeping(
            terminal_only(system),
            options.whitelist_environment,
            system.whitelisted,
        )
    } else {
        gathered(system.variables)
    }
}

/// The groups of these names, or what came of the first that could not be
/// found.
pub open spec fn found_groups(
    names: Seq<Seq<char>>,
    lookups: Seq<Result<Option<GroupView>, ErrorView>>,
) -> Result<Seq<GroupView>, ErrorView>
    decreases names.len(),
{
    if names.len() == 0 {
        Ok(seq![])
    } else {
        match found_groups(names.drop_last(), lookups.drop_last()) {
            Err(err) => Err(err),
            Ok(groups) => match lookups.last() {
                Err(err) => Err(err),
                Ok(None) => Err(ErrorView::GroupNotFound(names.last())),
                Ok(Some(group)) => Ok(groups.push(group)),
            },
        }
    }
}

/// The numbers of groups.
pub open spec fn gids(groups: Seq<GroupView>) -> Seq<u32> {
    groups.map_values(|group: GroupView| group.gid)
}

/// Whether the options name any groups.
pub open spec fn names_groups(options: SuOptionsView) -> bool {
    options.group.len() > 0 || options.supp_group.len() > 0
}

/// The user to become, and the primary group. Groups that the options name take
/// the place of all groups of the user. The primary group is the last of the
/// groups, else the first of the further groups, else that of the user.
pub open spec fn with_groups(
    user: UserView,
    primary_group: GroupView,
    groups: Seq<GroupView>,
    supp_groups: Seq<GroupView>,
) -> (UserView, GroupView) {
    (
        if groups.len() > 0 || supp_groups.len() > 0 {
            UserView { groups: gids(groups) + gids(supp_groups), ..user }
        } else {
            user
        },
        if groups.len() > 0 {
            groups.last()
        } else if supp_groups.len() > 0 {
            supp_groups[0]
        } else {
            primary_group
        },
    )
}

/// The shell that was asked for: by the option, else by the variable if the
/// environment is kept, else the one of the user.
pub open spec fn requested_shell(
    options: SuOptionsView,
    environment: Map<Seq<u8>, Seq<u8>>,
    user_shell: Seq<u8>,
) -> Seq<u8> {
    match options.shell {
        Some(shell) => shell,
        None => if options.preserve_environment && environment.contains_key(
            encode_utf8(SHELL@),
        ) {
            environment[encode_utf8(SHELL@)]
        } else {
            user_shell
        },
    }
}

/// The mathematical counterpart of [`Resolution`].
pub struct ResolutionView {
    pub user: UserView,
    pub requesting_user: UserView,
    pub group: GroupView,
    pub environment: Map<Seq<u8>, Seq<u8>>,
    pub command: Seq<u8>,
    pub is_restricted: bool,
}

/// What is run, up to whether it can be: see [`SuContext::resolve`].
pub open spec fn resolution(options: SuOptionsView, system: SystemFactsView) -> Result<
    ResolutionView,
    ErrorView,
> {
    let environment = base_environment(options, system);
    let is_current_root = system.real_uid == 0;
    match system.requesting_user {
        Err(err) => Err(err),
        Ok(requesting_user) => match system.target_user {
            Err(err) => Err(err),
            Ok(None) => Err(ErrorView::UserNotFound(options.user)),
            Ok(Some(target)) => if !is_current_root && names_groups(options) {
                Err(ErrorView::Options(ONLY_ROOT@))
            } else {
                match system.primary_group {
                    Err(err) => Err(err),
                    Ok(None) => Err(ErrorView::GroupNotFound(decimal(target.gid as nat))),
                    Ok(Some(primary_group)) => match found_groups(options.group, system.groups) {
                        Err(err) => Err(err),
                        Ok(groups) => match found_groups(options.supp_group, system.supp_groups) {
                            Err(err) => Err(err),
                            Ok(supp_groups) => {
                                let (user, group) = with_groups(
                                    target,
                                    primary_group,
                                    groups,
                                    supp_groups,
                                );
                                let is_restricted = restricted(target.shell, system.shells)
                                    && !is_current_root;
                                Ok(
                                    ResolutionView {
                                        user,
                                        requesting_user,
                                        group,
                                        environment,
                                        command: if is_restricted {
                                            target.shell
                                        } else {
                                            requested_shell(
                                                options,
                                                environment,
                                                target.shell,
                                            )
                                        },
                                        is_restricted,
                                    },
                                )
                            },
                        },
                    },
                }
            },
        },
    }
}

/// The arguments for the shell: the command if there is one, else those given.
pub open spec fn shell_arguments(options: SuOptionsView) -> Seq<Seq<char>> {
    match options.command {
        Some(command) => seq!["-c"@, command],
        None => options.arguments,
    }
}

/// The environment of the command. A login sets the search path. Unless the
/// environment is kept, the variables of the user are set too, but their name
/// not if they are `root` and this is no login.
pub open spec fn command_environment(
    environment: Map<Seq<u8>, Seq<u8>>,
    options: SuOptionsView,
    user: UserView,
    command: Seq<u8>,
    defaults: DefaultsView,
) -> Map<Seq<u8>, Seq<u8>> {
    let is_target_root = options.user == ROOT@;
    let with_path = if options.login {
        environment.insert(
            encode_utf8(PATH@),
            encode_utf8(
                if is_target_root {
                    defaults.root_path
                } else {
                    defaults.path
                },
            ),
        )
    } else {
        environment
    };
    if options.preserve_environment {
        with_path
    } else {
        let fixed = with_path.insert(encode_utf8(HOME@), user.home).insert(
            encode_utf8(SHELL@),
            command,
        ).insert(encode_utf8(MAIL@), encode_utf8(defaults.mail_dir + "/"@ + user.name));
        if !is_target_root || options.login {
            fixed.insert(encode_utf8(USER@), encode_utf8(options.user)).insert(
                encode_utf8(LOGNAME@),
                encode_utf8(options.user),
            )
        } else {
            fixed
        }
    }
}

/// The mathematical counterpart of [`SuContext`].
pub struct SuContextView {
    pub command: Seq<u8>,
    pub arguments: Seq<Seq<char>>,
    pub options: SuOptionsView,
    pub environment: Map<Seq<u8>, Seq<u8>>,
    pub user: UserView,
    pub requesting_user: UserView,
    pub group: GroupView,
    pub process: Process,
}

/// What is run, if it can be: see [`SuContext::from_env`].
pub open spec fn context(
    options: SuOptionsView,
    system: SystemFactsView,
    defaults: DefaultsView,
    probe: CommandProbe,
) -> Result<SuContextView, ErrorView> {
    match resolution(options, system) {
        Err(err) => Err(err),
        Ok(resolved) => if !probe.exists {
            Err(ErrorView::CommandNotFound(resolved.command))
        } else if !probe.valid {
            Err(ErrorView::InvalidCommand(resolved.command))
        } else {
            Ok(
                SuContextView {
                    command: resolved.command,
                    arguments: shell_arguments(options),
                    options,
                    environment: command_environment(
                        resolved.environment,
                        options,
                        resolved.user,
                        resolved.command,
                        defaults,
                    ),
                    user: resolved.user,
                    requesting_user: resolved.requesting_user,
                    group: resolved.group,
                    process: system.process,
                },
            )
        },
    }
}

/// What is run, before it is known whether it can be.
#[derive(Debug)]
pub struct Resolution {
    /// The user to become, with the groups to have.
    pub user: User,
    /// The user who runs the program.
    pub requesting_user: User,
    /// The primary group to have.
    pub group: Group,
    /// The environment to start from.
    pub environment: Environment,
    /// The shell to run.
    pub command: Vec<u8>,
    /// Whether the user's own shell is run because it is a restricted one.
    pub is_restricted: bool,
}

impl View for Resolution {
    type V = ResolutionView;

    open spec fn view(&self) -> ResolutionView {
        ResolutionView {
            user: self.user@,
            requesting_user: self.requesting_user@,
            group: self.group@,
            environment: self.environment@,
            command: self.command@,
            is_restricted: self.is_restricted,
        }
    }
}

/// A command to run as another user.
#[derive(Debug)]
pub struct SuContext {
    pub command: Vec<u8>,
    pub arguments: Vec<String>,
    pub options: SuOptions,
    pub environment: Environment,
    pub user: User,
    pub requesting_user: User,
    pub group: Group,
    pub process: Process,
}

impl View for SuContext {
    type V = SuContextView;

    open spec fn view(&self) -> SuContextView {
        SuContextView {
            command: self.command@,
            arguments: texts(self.arguments@),
            options: self.options@,
            environment: self.environment@,
            user: self.user@,
            requesting_user: self.requesting_user@,
            group: self.group@,
            process: self.process,
        }
    }
}

/// Whether the list of variables not to reset is ignored for a variable.
fn is_not_listable(name: &String) -> (ignored: bool)
    ensures
        ignored == not_listable(name@),
{
    *name == HOME.to_owned() || *name == SHELL.to_owned() || *name == USER.to_owned() || *name
        == LOGNAME.to_owned() || *name == PATH.to_owned()
}

/// Keeps the variables of a list that have a value, but for those for which the
/// list is ignored.
fn keep_variables(environment: &mut Environment, names: &Vec<String>, values: &Vec<Option<Vec<u8>>>)
    requires
        old(environment).wf(),
        names@.len() == values@.len(),
    ensures
        final(environment).wf(),
        final(environment)@ == keeping(
            old(environment)@,
            texts(names@),
            values@.map_values(|value: Option<Vec<u8>>| bytes_option(value)),
        ),
{
    let ghost start = environment@;
    let ghost all_names = texts(names@);
    let ghost all_values = values@.map_values(
        |value: Option<Vec<u8>>| bytes_option(value),
    );
    let mut i: usize = 0;
    while i < names.len()
        invariant
            i <= names.len(),
            names@.len() == values@.len(),
            all_names == texts(names@),
            all_values == values@.map_values(
                |value: Option<Vec<u8>>| bytes_option(value),
            ),
            environment.wf(),
            environment@ == keeping(start, all_names.take(i as int), all_values.take(i as int)),
        decreases names.len() - i,
    {
        proof {
            let (more_names, more_values) = (all_names.take(i + 1), all_values.take(i + 1));
            assert(more_names.drop_last() =~= all_names.take(i as int));
            assert(more_values.drop_last() =~= all_values.take(i as int));
            assert(more_names.last() == names@[i as int]@);
        }
        if let Some(value) = &values[i] {
            if !is_not_listable(&names[i]) {
                environment.insert(names[i].as_str().as_bytes_vec(), copy_bytes(value));
            }
        }
        i += 1;
    }
    assert(all_names.take(i as int) =~= all_names);
    assert(all_values.take(i as int) =~= all_values);
}

/// Works out the environment to start from.
fn initial_environment(options: &SuOptions, system: &SystemFacts) -> (environment: Environment)
    requires
        system@.answers(options@),
    ensures
        environment.wf(),
        environment@ == base_environment(options@, system@),
{
    if options.login {
        let mut environment = Environment::new();
        if let Some(value) = &system.term {
            environment.insert(TERM.as_bytes_vec(), copy_bytes(value));
        }
        keep_variables(
            &mut environment,
            &options.whitelist_environment,
            &system.whitelisted,
        );
        environment
    } else {
        Environment::collect(&system.variables)
    }
}

/// Takes the groups that were looked up, if all of them were found.
fn find_groups(names: &Vec<String>, lookups: &Vec<Result<Option<Group>, Error>>) -> (result: Result<
    Vec<Group>,
    Error,
>)
    requires
        names@.len() == lookups@.len(),
    ensures
        match result {
            Ok(groups) => found_groups(texts(names@), group_lookups(lookups@)) == Ok::<
                Seq<GroupView>,
                ErrorView,
            >(groups@.map_values(|group: Group| group@)),
            Err(err) => found_groups(texts(names@), group_lookups(lookups@)) == Err::<
                Seq<GroupView>,
                ErrorView,
            >(err@),
        },
{
    let ghost all_names = texts(names@);
    let ghost all_lookups = group_lookups(lookups@);
    let mut groups: Vec<Group> = Vec::new();
    let mut i: usize = 0;
    assert(groups@.map_values(|group: Group| group@) =~= seq![]);
    while i < names.len()
        invariant
            i <= names.len(),
            names@.len() == lookups@.len(),
            all_names == texts(names@),
            all_lookups == group_lookups(lookups@),
            found_groups(all_names.take(i as int), all_lookups.take(i as int)) == Ok::<
                Seq<GroupView>,
                ErrorView,
            >(groups@.map_values(|group: Group| group@)),
        decreases names.len() - i,
    {
        let ghost before = groups@;
        proof {
            let (more_names, more_lookups) = (all_names.take(i + 1), all_lookups.take(i + 1));
            assert(more_names.drop_last() =~= all_names.take(i as int));
            assert(more_lookups.drop_last() =~= all_lookups.take(i as int));
            assert(more_names.last() == names@[i as int]@);
            assert(more_lookups.last() == group_lookup(lookups@[i as int]));
        }
        match &lookups[i] {
            Ok(Some(group)) => {
                groups.push(group.clone());
                assert(groups@.map_values(|group: Group| group@) =~= before.map_values(
                    |group: Group| group@,
                ).push(group@));
            },
            Ok(None) => {
                let err = Error::GroupNotFound(names[i].clone());
                proof {
                    lemma_first_failure(all_names, all_lookups, i + 1);
                }
                return Err(err);
            },
            Err(err) => {
                proof {
                    lemma_first_failure(all_names, all_lookups, i + 1);
                }
                return Err(err.clone());
            },
        }
        i += 1;
    }
    assert(all_names.take(i as int) =~= all_names);
    assert(all_lookups.take(i as int) =~= all_lookups);
    Ok(groups)
}

/// What failed among the first groups is what failed among all of them.
pub proof fn lemma_first_failure(
    names: Seq<Seq<char>>,
    lookups: Seq<Result<Option<GroupView>, ErrorView>>,
    count: int,
)
    requires
        names.len() == lookups.len(),
        0 <= count <= names.len(),
        found_groups(names.take(count), lookups.take(count)) is Err,
    ensures
        found_groups(names, lookups) == found_groups(names.take(count), lookups.take(count)),
    decreases names.len() - count,
{
    if count == names.len() {
        assert(names.take(count) =~= names);
        assert(lookups.take(count) =~= lookups);
    } else {
        let (more_names, more_lookups) = (names.take(count + 1), lookups.take(count + 1));
        assert(more_names.drop_last() =~= names.take(count));
        assert(more_lookups.drop_last() =~= lookups.take(count));
        lemma_first_failure(names, lookups, count + 1);
    }
}

/// Gives the user the groups that the options name, and picks the primary group.
fn apply_groups(user: User, primary_group: Group, groups: &Vec<Group>, supp_groups: &Vec<Group>) -> (
result: (User, Group))
    ensures
        (result.0@, result.1@) == with_groups(
            user@,
            primary_group@,
            groups@.map_values(|group: Group| group@),
            supp_groups@.map_values(|group: Group| group@),
        ),
{
    let ghost group_views = groups@.map_values(|group: Group| group@);
    let ghost supp_views = supp_groups@.map_values(|group: Group| group@);
    let ghost target = user@;
    if groups.len() == 0 && supp_groups.len() == 0 {
        return (user, primary_group);
    }
    let mut user = user;
    let mut group = primary_group;
    let mut numbers: Vec<u32> = Vec::new();
    let mut i: usize = 0;
    while i < groups.len()
        invariant
            i <= groups.len(),
            group_views == groups@.map_values(|group: Group| group@),
            numbers@ == gids(group_views.take(i as int)),
            i > 0 ==> group@ == group_views[i - 1],
            i == 0 ==> group == primary_group,
        decreases groups.len() - i,
    {
        // The last argument is the primary group.
        group = groups[i].clone();
        numbers.push(groups[i].gid);
        assert(numbers@ =~= gids(group_views.take(i + 1)));
        i += 1;
    }
    let mut index: usize = 0;
    while index < supp_groups.len()
        invariant
            index <= supp_groups.len(),
            group_views == groups@.map_values(|group: Group| group@),
            supp_views == supp_groups@.map_values(|group: Group| group@),
            numbers@ == gids(group_views) + gids(supp_views.take(index as int)),
            groups.len() > 0 ==> group@ == group_views.last(),
            groups.len() == 0 && index > 0 ==> group@ == supp_views[0],
        decreases supp_groups.len() - index,
    {
        // Set the primary group if none was provided.
        if index == 0 && groups.len() == 0 {
            group = supp_groups[index].clone();
        }
        numbers.push(supp_groups[index].gid);
        assert(numbers@ =~= gids(group_views) + gids(supp_views.take(index + 1)));
        index += 1;
    }
    assert(supp_views.take(index as int) =~= supp_views);
    user.groups = numbers;
    (user, group)
}

/// Picks the shell that was asked for.
fn choose_shell(
    options: &SuOptions,
    environment: &Environment,
    user_shell: &Vec<u8>,
) -> (shell: Vec<u8>)
    requires
        environment.wf(),
    ensures
        shell@ == requested_shell(options@, environment@, user_shell@),
{
    match &options.shell {
        Some(shell) => copy_bytes(shell),
        None => {
            if options.preserve_environment {
                match environment.get(SHELL.as_bytes()) {
                    Some(shell) => copy_bytes(shell),
                    None => copy_bytes(user_shell),
                }
            } else {
                copy_bytes(user_shell)
            }
        },
    }
}

/// Works out the arguments for the shell.
fn choose_arguments(options: &SuOptions) -> (arguments: Vec<String>)
    ensures
        texts(arguments@) == shell_arguments(options@),
{
    match &options.command {
        Some(command) => {
            let mut arguments: Vec<String> = Vec::new();
            arguments.push("-c".to_owned());
            arguments.push(command.clone());
            assert(texts(arguments@) =~= shell_arguments(options@));
            arguments
        },
        None => copy_strings(&options.arguments),
    }
}

/// Whether a name is that of `root`.
fn is_root_name(name: &String) -> (is_root: bool)
    ensures
        is_root == (name@ == ROOT@),
{
    *name == ROOT.to_owned()
}

/// Sets the variables that a login or the user to become call for.
fn extend_environment(
    environment: &mut Environment,
    options: &SuOptions,
    user: &User,
    command: &Vec<u8>,
    defaults: &Defaults,
)
    requires
        old(environment).wf(),
    ensures
        final(environment).wf(),
        final(environment)@ == command_environment(
            old(environment)@,
            options@,
            user@,
            command@,
            defaults@,
        ),
{
    let is_target_root = is_root_name(&options.user);
    if options.login {
        let path = if is_target_root {
            defaults.root_path.as_str().as_bytes_vec()
        } else {
            defaults.path.as_str().as_bytes_vec()
        };
        environment.insert(PATH.as_bytes_vec(), path);
    }
    if !options.preserve_environment {
        environment.insert(HOME.as_bytes_vec(), copy_bytes(&user.home));
        environment.insert(SHELL.as_bytes_vec(), copy_bytes(command));
        let mut mail = defaults.mail_dir.clone();
        mail.append("/");
        mail.append(user.name.as_str());
        environment.insert(MAIL.as_bytes_vec(), mail.as_str().as_bytes_vec());
        if !is_target_root || options.login {
            environment.insert(USER.as_bytes_vec(), options.user.as_str().as_bytes_vec());
            environment.insert(LOGNAME.as_bytes_vec(), options.user.as_str().as_bytes_vec());
        }
    }
}

impl SuContext {
    /// Whether the environment holds no name twice.
    pub open spec fn wf(self) -> bool {
        self.environment.wf()
    }

    /// Works out what to run, up to the point where the command's file has to be
    /// looked at.
    ///
    /// Only `root` may name groups. If the user to become has a restricted shell,
    /// then it is run whatever was asked for, unless by `root`.
    pub fn resolve(options: &SuOptions, system: &SystemFacts) -> (result: Result<Resolution, Error>)
        requires
            system@.answers(options@),
        ensures
            match result {
                Ok(resolved) => resolved.environment.wf() && resolution(options@, system@) == Ok::<
                    ResolutionView,
                    ErrorView,
                >(resolved@),
                Err(err) => resolution(options@, system@) == Err::<ResolutionView, ErrorView>(err@),
            },
    {
        let environment = initial_environment(options, system);
        let requesting_user = match &system.requesting_user {
            Ok(user) => user.clone(),
            Err(err) => return Err(err.clone()),
        };
        let target_user = match &system.target_user {
            Ok(Some(user)) => user.clone(),
            Ok(None) => return Err(Error::UserNotFound(options.user.clone())),
            Err(err) => return Err(err.clone()),
        };
        let is_current_root = system.real_uid == 0;
        // Only root can set an additional group.
        if !is_current_root && (options.supp_group.len() != 0 || options.group.len() != 0) {
            return Err(Error::Options(ONLY_ROOT.to_owned()));
        }
        let primary_group = match &system.primary_group {
            Ok(Some(group)) => group.clone(),
            Ok(None) => return Err(Error::GroupNotFound(to_decimal(target_user.gid))),
            Err(err) => return Err(err.clone()),
        };
        let groups = match find_groups(&options.group, &system.groups) {
            Ok(groups) => groups,
            Err(err) => return Err(err),
        };
        let supp_groups = match find_groups(&options.supp_group, &system.supp_groups) {
            Ok(groups) => groups,
            Err(err) => return Err(err),
        };
        let user_shell = copy_bytes(&target_user.shell);
        let (user, group) = apply_groups(target_user, primary_group, &groups, &supp_groups);
        let requested = choose_shell(options, &environment, &user_shell);
        let is_restricted = is_restricted(&user_shell, &system.shells) && !is_current_root;
        let command = if is_restricted {
            user_shell
        } else {
            requested
        };
        Ok(Resolution { user, requesting_user, group, environment, command, is_restricted })
    }

    /// Works out what to run.
    ///
    /// `probe` is what was found out about the file of the command that
    /// [`SuContext::resolve`] gives.
    pub fn from_env(
        options: SuOptions,
        system: &SystemFacts,
        defaults: &Defaults,
        probe: CommandProbe,
    ) -> (result: Result<SuContext, Error>)
        requires
            system@.answers(options@),
        ensures
            match result {
                Ok(found) => found.wf() && found.options == options && context(
                    options@,
                    system@,
                    defaults@,
                    probe,
                ) == Ok::<SuContextView, ErrorView>(found@),
                Err(err) => context(options@, system@, defaults@, probe) == Err::<
                    SuContextView,
                    ErrorView,
                >(err@),
            },
    {
        let resolved = match Self::resolve(&options, system) {
            Ok(resolved) => resolved,
            Err(err) => return Err(err),
        };
        if !probe.exists {
            return Err(Error::CommandNotFound(resolved.command));
        }
        if !probe.valid {
            return Err(Error::InvalidCommand(resolved.command));
        }
        let arguments = choose_arguments(&options);
        let mut environment = resolved.environment;
        extend_environment(
            &mut environment,
            &options,
            &resolved.user,
            &resolved.command,
            defaults,
        );
        Ok(
            SuContext {
                command: resolved.command,
                arguments,
                options,
                environment,
                user: resolved.user,
                requesting_user: resolved.requesting_user,
                group: resolved.group,
                process: system.process,
            },
        )
    }

    /// The program to run. It is always known.
    pub fn command(&self) -> (command: Result<&Vec<u8>, IoError>)
        ensures
            command == Ok::<&Vec<u8>, IoError>(&self.command),
    {
        Ok(&self.command)
    }

    /// The arguments of the program.
    pub fn arguments(&self) -> (arguments: &Vec<String>)
        ensures
            *arguments == self.arguments,
    {
        &self.arguments
    }

    /// The directory to change to: there is none.
    pub fn chdir(&self) -> (directory: Option<&Vec<u8>>)
        ensures
            directory is None,
    {
        None
    }

    /// Whether the program is run as a login shell.
    pub fn is_login(&self) -> (login: bool)
        ensures
            login == self.options.login,
    {
        self.options.login
    }

    /// The user to become.
    pub fn user(&self) -> (user: &User)
        ensures
            *user == self.user,
    {
        &self.user
    }

    /// The user who runs the program.
    pub fn requesting_user(&self) -> (user: &User)
        ensures
            *user == self.requesting_user,
    {
        &self.requesting_user
    }

    /// The primary group to have.
    pub fn group(&self) -> (group: &Group)
        ensures
            *group == self.group,
    {
        &self.group
    }

    /// The identifier of the process.
    pub fn pid(&self) -> (pid: ProcessId)
        ensures
            pid == self.process.pid,
    {
        self.process.pid
    }

    /// Whether the program is run in a pseudo-terminal.
    pub fn use_pty(&self) -> (pty: bool)
        ensures
            pty == self.options.pty,
    {
        self.options.pty
    }
}

} // verus!
