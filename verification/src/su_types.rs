//! What `su` is asked for, what it finds out about the system, and what can go
//! wrong.
//!
//! Names and arguments are text. Paths and the values of variables are byte
//! strings, as the operating system has them.
use vstd::prelude::*;

use crate::bytes::{copy_bytes, texts};
use crate::environment::pairs;
use crate::message::{IoError, ProcessId};

verus! {

/// A user, as the user database has it.
#[derive(Debug, PartialEq, Eq)]
pub struct User {
    pub uid: u32,
    pub gid: u32,
    pub name: String,
    pub home: Vec<u8>,
    pub shell: Vec<u8>,
    /// The groups of the user besides `gid`.
    pub groups: Vec<u32>,
}

/// The mathematical counterpart of [`User`].
pub struct UserView {
    pub uid: u32,
    pub gid: u32,
    pub name: Seq<char>,
    pub home: Seq<u8>,
    pub shell: Seq<u8>,
    pub groups: Seq<u32>,
}

impl View for User {
    type V = UserView;

    open spec fn view(&self) -> UserView {
        UserView {
            uid: self.uid,
            gid: self.gid,
            name: self.name@,
            home: self.home@,
            shell: self.shell@,
            groups: self.groups@,
        }
    }
}

impl Clone for User {
    fn clone(&self) -> (copy: User)
        ensures
            copy@ == self@,
    {
        let groups = self.groups.clone();
        assert(groups@ =~= self.groups@);
        User {
            uid: self.uid,
            gid: self.gid,
            name: self.name.clone(),
            home: copy_bytes(&self.home),
            shell: copy_bytes(&self.shell),
            groups,
        }
    }
}

/// A group, as the group database has it.
#[derive(Debug, PartialEq, Eq)]
pub struct Group {
    pub gid: u32,
    pub name: String,
}

/// The mathematical counterpart of [`Group`].
pub struct GroupView {
    pub gid: u32,
    pub name: Seq<char>,
}

impl View for Group {
    type V = GroupView;

    open spec fn view(&self) -> GroupView {
        GroupView { gid: self.gid, name: self.name@ }
    }
}

impl Clone for Group {
    fn clone(&self) -> (copy: Group)
        ensures
            copy@ == self@,
    {
        Group { gid: self.gid, name: self.name.clone() }
    }
}

/// The process that the program runs in.
#[derive(Clone, Copy, Debug, PartialEq, Eq)]
pub struct Process {
    pub pid: ProcessId,
}

/// What went wrong.
#[derive(Debug, PartialEq, Eq)]
pub enum Error {
    /// There is no user of this name.
    UserNotFound(String),
    /// There is no group of this name or number.
    GroupNotFound(String),
    /// There is no file at this path.
    CommandNotFound(Vec<u8>),
    /// The file at this path cannot be executed.
    InvalidCommand(Vec<u8>),
    /// The options may not be given as they are.
    Options(String),
    /// The system could not be asked.
    Io(IoError),
}

/// The mathematical counterpart of [`Error`].
pub enum ErrorView {
    UserNotFound(Seq<char>),
    GroupNotFound(Seq<char>),
    CommandNotFound(Seq<u8>),
    InvalidCommand(Seq<u8>),
    Options(Seq<char>),
    Io(IoError),
}

impl View for Error {
    type V = ErrorView;

    open spec fn view(&self) -> ErrorView {
        match *self {
            Error::UserNotFound(name) => ErrorView::UserNotFound(name@),
            Error::GroupNotFound(name) => ErrorView::GroupNotFound(name@),
            Error::CommandNotFound(path) => ErrorView::CommandNotFound(path@),
            Error::InvalidCommand(path) => ErrorView::InvalidCommand(path@),
            Error::Options(reason) => ErrorView::Options(reason@),
            Error::Io(err) => ErrorView::Io(err),
        }
    }
}

impl Clone for Error {
    fn clone(&self) -> (copy: Error)
        ensures
            copy@ == self@,
    {
        match self {
            Error::UserNotFound(name) => Error::UserNotFound(name.clone()),
            Error::GroupNotFound(name) => Error::GroupNotFound(name.clone()),
            Error::CommandNotFound(path) => Error::CommandNotFound(copy_bytes(path)),
            Error::InvalidCommand(path) => Error::InvalidCommand(copy_bytes(path)),
            Error::Options(reason) => Error::Options(reason.clone()),
            Error::Io(err) => Error::Io(*err),
        }
    }
}

/// What `su` is asked for.
#[derive(Debug, PartialEq, Eq)]
pub struct SuOptions {
    /// The user to become.
    pub user: String,
    /// Start the shell as a login shell, with an environment of its own.
    pub login: bool,
    /// Run the command in a pseudo-terminal.
    pub pty: bool,
    /// Keep the environment as it is.
    pub preserve_environment: bool,
    /// The shell to run instead of the user's own.
    pub shell: Option<Vec<u8>>,
    /// A command to pass to the shell.
    pub command: Option<String>,
    /// Arguments for the shell.
    pub arguments: Vec<String>,
    /// The groups to have. The last one is the primary group.
    pub group: Vec<String>,
    /// Further groups to have.
    pub supp_group: Vec<String>,
    /// Variables not to reset for a login.
    pub whitelist_environment: Vec<String>,
}

/// The mathematical counterpart of [`SuOptions`].
pub struct SuOptionsView {
    pub user: Seq<char>,
    pub login: bool,
    pub pty: bool,
    pub preserve_environment: bool,
    pub shell: Option<Seq<u8>>,
    pub command: Option<Seq<char>>,
    pub arguments: Seq<Seq<char>>,
    pub group: Seq<Seq<char>>,
    pub supp_group: Seq<Seq<char>>,
    pub whitelist_environment: Seq<Seq<char>>,
}

impl View for SuOptions {
    type V = SuOptionsView;

    open spec fn view(&self) -> SuOptionsView {
        SuOptionsView {
            user: self.user@,
            login: self.login,
            pty: self.pty,
            preserve_environment: self.preserve_environment,
            shell: bytes_option(self.shell),
            command: text_option(self.command),
            arguments: texts(self.arguments@),
            group: texts(self.group@),
            supp_group: texts(self.supp_group@),
            whitelist_environment: texts(self.whitelist_environment@),
        }
    }
}

/// The byte string in an option.
pub open spec fn bytes_option(option: Option<Vec<u8>>) -> Option<Seq<u8>> {
    match option {
        Some(bytes) => Some(bytes@),
        None => None,
    }
}

/// The text in an option.
pub open spec fn text_option(option: Option<String>) -> Option<Seq<char>> {
    match option {
        Some(string) => Some(string@),
        None => None,
    }
}

/// What came of looking up a user.
pub open spec fn user_lookup(lookup: Result<Option<User>, Error>) -> Result<
    Option<UserView>,
    ErrorView,
> {
    match lookup {
        Ok(Some(user)) => Ok(Some(user@)),
        Ok(None) => Ok(None),
        Err(err) => Err(err@),
    }
}

/// What came of looking up a group.
pub open spec fn group_lookup(lookup: Result<Option<Group>, Error>) -> Result<
    Option<GroupView>,
    ErrorView,
> {
    match lookup {
        Ok(Some(group)) => Ok(Some(group@)),
        Ok(None) => Ok(None),
        Err(err) => Err(err@),
    }
}

/// What came of looking up some groups.
pub open spec fn group_lookups(lookups: Seq<Result<Option<Group>, Error>>) -> Seq<
    Result<Option<GroupView>, ErrorView>,
> {
    lookups.map_values(|lookup: Result<Option<Group>, Error>| group_lookup(lookup))
}

/// What was found out about the system.
#[derive(Debug)]
pub struct SystemFacts {
    /// The process that the program runs in.
    pub process: Process,
    /// All variables of the process.
    pub variables: Vec<(Vec<u8>, Vec<u8>)>,
    /// The value of the variable `TERM`.
    pub term: Option<Vec<u8>>,
    /// The value of each variable in the list of those not to reset.
    pub whitelisted: Vec<Option<Vec<u8>>>,
    /// The user who runs the program.
    pub requesting_user: Result<User, Error>,
    /// The real user identifier of the process.
    pub real_uid: u32,
    /// The user to become.
    pub target_user: Result<Option<User>, Error>,
    /// The group with the `gid` of the user to become.
    pub primary_group: Result<Option<Group>, Error>,
    /// Each of the groups to have.
    pub groups: Vec<Result<Option<Group>, Error>>,
    /// Each of the further groups to have.
    pub supp_groups: Vec<Result<Option<Group>, Error>>,
    /// The list of valid login shells, if it could be read as text.
    pub shells: Option<String>,
}

/// The mathematical counterpart of [`SystemFacts`].
pub struct SystemFactsView {
    pub process: Process,
    pub variables: Seq<(Seq<u8>, Seq<u8>)>,
    pub term: Option<Seq<u8>>,
    pub whitelisted: Seq<Option<Seq<u8>>>,
    pub requesting_user: Result<UserView, ErrorView>,
    pub real_uid: u32,
    pub target_user: Result<Option<UserView>, ErrorView>,
    pub primary_group: Result<Option<GroupView>, ErrorView>,
    pub groups: Seq<Result<Option<GroupView>, ErrorView>>,
    pub supp_groups: Seq<Result<Option<GroupView>, ErrorView>>,
    pub shells: Option<Seq<char>>,
}

impl View for SystemFacts {
    type V = SystemFactsView;

    open spec fn view(&self) -> SystemFactsView {
        SystemFactsView {
            process: self.process,
            variables: pairs(self.variables@),
            term: bytes_option(self.term),
            whitelisted: self.whitelisted@.map_values(
                |value: Option<Vec<u8>>| bytes_option(value),
            ),
            requesting_user: match self.requesting_user {
                Ok(user) => Ok(user@),
                Err(err) => Err(err@),
            },
            real_uid: self.real_uid,
            target_user: user_lookup(self.target_user),
            primary_group: group_lookup(self.primary_group),
            groups: group_lookups(self.groups@),
            supp_groups: group_lookups(self.supp_groups@),
            shells: text_option(self.shells),
        }
    }
}

impl SystemFactsView {
    /// Whether there is an answer for each name in the options.
    pub open spec fn answers(self, options: SuOptionsView) -> bool {
        &&& self.whitelisted.len() == options.whitelist_environment.len()
        &&& self.groups.len() == options.group.len()
        &&& self.supp_groups.len() == options.supp_group.len()
    }
}

/// The settings of the installation.
#[derive(Debug)]
pub struct Defaults {
    /// The directory of the mailboxes.
    pub mail_dir: String,
    /// The search path for commands.
    pub path: String,
    /// The search path for commands of the user `root`.
    pub root_path: String,
}

/// The mathematical counterpart of [`Defaults`].
pub struct DefaultsView {
    pub mail_dir: Seq<char>,
    pub path: Seq<char>,
    pub root_path: Seq<char>,
}

impl View for Defaults {
    type V = DefaultsView;

    open spec fn view(&self) -> DefaultsView {
        DefaultsView { mail_dir: self.mail_dir@, path: self.path@, root_path: self.root_path@ }
    }
}

/// What was found out about the file of a command.
#[derive(Clone, Copy, Debug, PartialEq, Eq)]
pub struct CommandProbe {
    /// Whether it exists.
    pub exists: bool,
    /// Whether it can be executed.
    pub valid: bool,
}

} // verus!
