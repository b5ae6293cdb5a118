use privilege_switch::message::IoError;
use privilege_switch::su_context::SuContext;
use privilege_switch::su_types::{
    CommandProbe, Defaults, Error, Group, Process, SuOptions, SystemFacts, User,
};

fn get_options(args: &[&str]) -> SuOptions {
    let mut options = SuOptions {
        user: "root".to_string(),
        login: false,
        pty: false,
        preserve_environment: false,
        shell: None,
        command: None,
        arguments: vec![],
        group: vec![],
        supp_group: vec![],
        whitelist_environment: vec![],
    };
    let mut args = args.iter();
    while let Some(arg) = args.next() {
        match *arg {
            "-l" => options.login = true,
            "-P" => options.pty = true,
            "-p" => options.preserve_environment = true,
            "-s" => options.shell = Some(args.next().unwrap().as_bytes().to_vec()),
            "-c" => options.command = Some(args.next().unwrap().to_string()),
            "-g" => options.group.push(args.next().unwrap().to_string()),
            "-G" => options.supp_group.push(args.next().unwrap().to_string()),
            "-w" => options
                .whitelist_environment
                .push(args.next().unwrap().to_string()),
            user => {
                options.user = user.to_string();
                options.arguments = args.by_ref().map(|arg| arg.to_string()).collect();
            }
        }
    }
    options
}

fn group(gid: u32, name: &str) -> Group {
    Group {
        gid,
        name: name.to_string(),
    }
}

fn find_group(name: &str) -> Result<Option<Group>, Error> {
    match name {
        "root" => Ok(Some(group(0, "root"))),
        "wheel" => Ok(Some(group(10, "wheel"))),
        "audio" => Ok(Some(group(63, "audio"))),
        "broken" => Err(Error::Io(no_access())),
        _ => Ok(None),
    }
}

fn find_user(name: &str) -> Result<Option<User>, Error> {
    match name {
        "root" => Ok(Some(User {
            uid: 0,
            gid: 0,
            name: "root".to_string(),
            home: b"/root".to_vec(),
            shell: b"/bin/bash".to_vec(),
            groups: vec![0],
        })),
        "ferris" => Ok(Some(User {
            uid: 1000,
            gid: 1000,
            name: "ferris".to_string(),
            home: b"/home/ferris".to_vec(),
            shell: b"/bin/zsh".to_vec(),
            groups: vec![1000, 63],
        })),
        "kiosk" => Ok(Some(User {
            uid: 1001,
            gid: 4242,
            name: "kiosk".to_string(),
            home: b"/home/kiosk".to_vec(),
            shell: b"/opt/kiosk".to_vec(),
            groups: vec![],
        })),
        "broken" => Err(Error::Io(no_access())),
        _ => Ok(None),
    }
}

fn no_access() -> IoError {
    IoError {
        raw_os_error: Some(13),
        interrupted: false,
    }
}

fn caller_variables() -> Vec<(Vec<u8>, Vec<u8>)> {
    [
        ("TERM", "xterm"),
        ("HOME", "/home/ferris"),
        ("SHELL", "/bin/fish"),
        ("USER", "ferris"),
        ("LOGNAME", "ferris"),
        ("MAIL", "/var/mail/ferris"),
        ("PATH", "/home/ferris/bin"),
        ("EDITOR", "vi"),
        ("LANG", "C"),
    ]
    .iter()
    .map(|(name, value)| (name.as_bytes().to_vec(), value.as_bytes().to_vec()))
    .collect()
}

fn variable(name: &str) -> Option<Vec<u8>> {
    caller_variables()
        .into_iter()
        .find(|(known, _)| known == name.as_bytes())
        .map(|(_, value)| value)
}

fn system(options: &SuOptions, real_uid: u32) -> SystemFacts {
    let caller = if real_uid == 0 { "root" } else { "ferris" };
    let target_user = find_user(&options.user);
    let primary_group = match &target_user {
        Ok(Some(user)) if user.gid == 4242 => Ok(None),
        Ok(Some(user)) => Ok(Some(group(user.gid, &user.name))),
        _ => Ok(None),
    };
    SystemFacts {
        process: Process { pid: 321 },
        variables: caller_variables(),
        term: variable("TERM"),
        whitelisted: options
            .whitelist_environment
            .iter()
            .map(|name| variable(name))
            .collect(),
        requesting_user: Ok(find_user(caller).unwrap().unwrap()),
        real_uid,
        target_user,
        primary_group,
        groups: options.group.iter().map(|name| find_group(name)).collect(),
        supp_groups: options
            .supp_group
            .iter()
            .map(|name| find_group(name))
            .collect(),
        shells: Some("/bin/sh\n/bin/bash\n/bin/zsh\n".to_string()),
    }
}

fn defaults() -> Defaults {
    Defaults {
        mail_dir: "/var/mail".to_string(),
        path: "/usr/bin:/bin".to_string(),
        root_path: "/usr/sbin:/usr/bin:/sbin:/bin".to_string(),
    }
}

fn probe(command: &[u8]) -> CommandProbe {
    CommandProbe {
        exists: !command.starts_with(b"/not/"),
        valid: command != b"/etc/passwd",
    }
}

fn from_env_as(options: SuOptions, real_uid: u32) -> Result<SuContext, Error> {
    let system = system(&options, real_uid);
    from_env_with(options, &system)
}

fn from_env_with(options: SuOptions, system: &SystemFacts) -> Result<SuContext, Error> {
    let resolution = SuContext::resolve(&options, system)?;
    let probe = probe(&resolution.command);
    SuContext::from_env(options, system, &defaults(), probe)
}

fn text(context: &SuContext, name: &str) -> Option<String> {
    context
        .environment
        .get(name.as_bytes())
        .map(|value| String::from_utf8(value.clone()).unwrap())
}

#[test]
fn su_to_root() {
    let options = get_options(&["root"]);
    let context = from_env_as(options, 1000).unwrap();

    assert_eq!(context.user.name, "root");
}

#[test]
fn group_as_non_root() {
    let options = get_options(&["-g", "root"]);
    let result = from_env_as(options, 1000);
    let expected = Error::Options("only root can specify alternative groups".to_owned());

    assert!(result.is_err());
    assert_eq!(result.err().unwrap(), expected);
}

#[test]
fn invalid_shell() {
    let options = get_options(&["-s", "/not/a/shell"]);
    let result = from_env_as(options, 1000);
    let expected = Error::CommandNotFound(b"/not/a/shell".to_vec());

    assert!(result.is_err());
    assert_eq!(result.err().unwrap(), expected);
}

#[test]
fn context_answers_for_the_run() {
    let options = get_options(&["-l", "-P", "ferris", "one", "two"]);
    let context = from_env_as(options, 0).unwrap();
    assert_eq!(context.command(), Ok(&b"/bin/zsh".to_vec()));
    assert_eq!(context.arguments(), &vec!["one".to_string(), "two".to_string()]);
    assert_eq!(context.chdir(), None);
    assert!(context.is_login());
    assert_eq!(context.user().name, "ferris");
    assert_eq!(context.user().groups, vec![1000, 63]);
    assert_eq!(context.requesting_user().name, "root");
    assert_eq!(context.group(), &group(1000, "ferris"));
    assert_eq!(context.pid(), 321);
    assert!(context.use_pty());

    let context = from_env_as(get_options(&["ferris"]), 0).unwrap();
    assert!(!context.is_login());
    assert!(!context.use_pty());
}

#[test]
fn command_is_passed_to_the_shell() {
    let context = from_env_as(get_options(&["-c", "ls -l", "root", "ignored"]), 1000).unwrap();
    assert_eq!(context.arguments, vec!["-c".to_string(), "ls -l".to_string()]);
}

#[test]
fn unknown_user() {
    assert_eq!(
        from_env_as(get_options(&["nobody"]), 0).err().unwrap(),
        Error::UserNotFound("nobody".to_string())
    );
}

#[test]
fn failing_lookups() {
    assert_eq!(
        from_env_as(get_options(&["broken"]), 0).err().unwrap(),
        Error::Io(no_access())
    );
    let options = get_options(&["root"]);
    let mut system = system(&options, 1000);
    system.requesting_user = Err(Error::UserNotFound("ferris".to_string()));
    assert_eq!(
        from_env_with(options, &system).err().unwrap(),
        Error::UserNotFound("ferris".to_string())
    );
}

#[test]
fn missing_primary_group_is_named_by_its_number() {
    assert_eq!(
        from_env_as(get_options(&["kiosk"]), 0).err().unwrap(),
        Error::GroupNotFound("4242".to_string())
    );
    let options = get_options(&["kiosk"]);
    let mut system = system(&options, 0);
    system.primary_group = Err(Error::Io(no_access()));
    assert_eq!(
        from_env_with(options, &system).err().unwrap(),
        Error::Io(no_access())
    );
}

#[test]
fn groups_are_refused_before_they_are_looked_up() {
    for options in [
        get_options(&["-g", "missing"]),
        get_options(&["-G", "broken"]),
        get_options(&["-g", "wheel", "kiosk"]),
    ] {
        assert_eq!(
            from_env_as(options, 1000).err().unwrap(),
            Error::Options("only root can specify alternative groups".to_string())
        );
    }
}

#[test]
fn last_group_is_the_primary_one() {
    let options = get_options(&["-g", "wheel", "-g", "audio", "-G", "root", "ferris"]);
    let context = from_env_as(options, 0).unwrap();
    assert_eq!(context.group, group(63, "audio"));
    assert_eq!(context.user.groups, vec![10, 63, 0]);
    assert_eq!(context.user.gid, 1000);
}

#[test]
fn first_further_group_is_the_primary_one() {
    let options = get_options(&["-G", "wheel", "-G", "audio", "ferris"]);
    let context = from_env_as(options, 0).unwrap();
    assert_eq!(context.group, group(10, "wheel"));
    assert_eq!(context.user.groups, vec![10, 63]);
}

#[test]
fn first_missing_group_is_reported() {
    let options = get_options(&["-g", "wheel", "-g", "one", "-g", "broken", "-G", "two"]);
    assert_eq!(
        from_env_as(options, 0).err().unwrap(),
        Error::GroupNotFound("one".to_string())
    );
    let options = get_options(&["-g", "wheel", "-g", "broken", "-G", "two"]);
    assert_eq!(
        from_env_as(options, 0).err().unwrap(),
        Error::Io(no_access())
    );
    let options = get_options(&["-g", "wheel", "-G", "two"]);
    assert_eq!(
        from_env_as(options, 0).err().unwrap(),
        Error::GroupNotFound("two".to_string())
    );
}

#[test]
fn shell_option_comes_first() {
    let context = from_env_as(get_options(&["-p", "-s", "/bin/sh", "root"]), 0).unwrap();
    assert_eq!(context.command, b"/bin/sh".to_vec());
}

#[test]
fn shell_variable_counts_where_the_environment_is_kept() {
    let context = from_env_as(get_options(&["-p", "root"]), 0).unwrap();
    assert_eq!(context.command, b"/bin/fish".to_vec());
    let context = from_env_as(get_options(&["-p", "root"]), 1000).unwrap();
    assert_eq!(context.command, b"/bin/fish".to_vec());
    let context = from_env_as(get_options(&["root"]), 0).unwrap();
    assert_eq!(context.command, b"/bin/bash".to_vec());

    let options = get_options(&["-p", "root"]);
    let mut system = system(&options, 0);
    system.variables.clear();
    let context = from_env_with(options, &system).unwrap();
    assert_eq!(context.command, b"/bin/bash".to_vec());
}

#[test]
fn restricted_shell_is_final_for_the_variable_too() {
    let options = get_options(&["-p", "kiosk"]);
    let mut facts = system(&options, 1000);
    facts.primary_group = Ok(Some(group(4242, "kiosk")));
    let resolution = SuContext::resolve(&options, &facts).unwrap();
    assert!(resolution.is_restricted);
    assert_eq!(resolution.command, b"/opt/kiosk".to_vec());

    let mut facts = system(&options, 0);
    facts.primary_group = Ok(Some(group(4242, "kiosk")));
    let resolution = SuContext::resolve(&options, &facts).unwrap();
    assert!(!resolution.is_restricted);
    assert_eq!(resolution.command, b"/bin/fish".to_vec());
}

#[test]
fn groups_are_refused_whoever_the_target_is() {
    for args in [
        &["-g", "wheel", "root"],
        &["-g", "wheel", "ferris"],
        &["-g", "none", "ferris"],
        &["-G", "broken", "ferris"],
    ] {
        assert_eq!(
            from_env_as(get_options(args), 1000).err().unwrap(),
            Error::Options("only root can specify alternative groups".to_string())
        );
    }
    assert!(from_env_as(get_options(&["-g", "wheel", "ferris"]), 0).is_ok());
    assert!(from_env_as(get_options(&["ferris"]), 1000).is_ok());
}

#[test]
fn restricted_shell_is_final() {
    let options = get_options(&["-s", "/bin/sh", "kiosk"]);
    let mut facts = system(&options, 1000);
    facts.primary_group = Ok(Some(group(4242, "kiosk")));
    let resolution = SuContext::resolve(&options, &facts).unwrap();
    assert!(resolution.is_restricted);
    assert_eq!(resolution.command, b"/opt/kiosk".to_vec());
    let context = from_env_with(options, &facts).unwrap();
    assert_eq!(context.command, b"/opt/kiosk".to_vec());

    // Root may run another shell.
    let options = get_options(&["-s", "/bin/sh", "kiosk"]);
    let mut facts = system(&options, 0);
    facts.primary_group = Ok(Some(group(4242, "kiosk")));
    assert!(!SuContext::resolve(&options, &facts).unwrap().is_restricted);
    let context = from_env_with(options, &facts).unwrap();
    assert_eq!(context.command, b"/bin/sh".to_vec());
}

#[test]
fn command_that_cannot_be_executed() {
    assert_eq!(
        from_env_as(get_options(&["-s", "/etc/passwd"]), 1000)
            .err()
            .unwrap(),
        Error::InvalidCommand(b"/etc/passwd".to_vec())
    );
}

#[test]
fn environment_for_another_user() {
    let context = from_env_as(get_options(&["ferris"]), 0).unwrap();
    assert_eq!(text(&context, "HOME").unwrap(), "/home/ferris");
    assert_eq!(text(&context, "SHELL").unwrap(), "/bin/zsh");
    assert_eq!(text(&context, "MAIL").unwrap(), "/var/mail/ferris");
    assert_eq!(text(&context, "USER").unwrap(), "ferris");
    assert_eq!(text(&context, "LOGNAME").unwrap(), "ferris");
    assert_eq!(text(&context, "PATH").unwrap(), "/home/ferris/bin");
    assert_eq!(text(&context, "EDITOR").unwrap(), "vi");
    assert_eq!(context.environment.entries().len(), 9);
}

#[test]
fn environment_for_root_keeps_the_name() {
    let context = from_env_as(get_options(&["root"]), 1000).unwrap();
    assert_eq!(text(&context, "HOME").unwrap(), "/root");
    assert_eq!(text(&context, "SHELL").unwrap(), "/bin/bash");
    assert_eq!(text(&context, "MAIL").unwrap(), "/var/mail/root");
    assert_eq!(text(&context, "USER").unwrap(), "ferris");
    assert_eq!(text(&context, "LOGNAME").unwrap(), "ferris");
}

#[test]
fn kept_environment_is_untouched() {
    let context = from_env_as(get_options(&["-p", "root"]), 1000).unwrap();
    assert_eq!(*context.environment.entries(), caller_variables());
}

#[test]
fn login_resets_the_environment() {
    let context = from_env_as(get_options(&["-l", "ferris"]), 0).unwrap();
    assert_eq!(text(&context, "TERM").unwrap(), "xterm");
    assert_eq!(text(&context, "PATH").unwrap(), "/usr/bin:/bin");
    assert_eq!(text(&context, "USER").unwrap(), "ferris");
    assert_eq!(text(&context, "EDITOR"), None);
    assert_eq!(text(&context, "LANG"), None);
    assert_eq!(context.environment.entries().len(), 7);

    let context = from_env_as(get_options(&["-l", "root"]), 1000).unwrap();
    assert_eq!(
        text(&context, "PATH").unwrap(),
        "/usr/sbin:/usr/bin:/sbin:/bin"
    );
    assert_eq!(text(&context, "USER").unwrap(), "root");
    assert_eq!(text(&context, "LOGNAME").unwrap(), "root");
}

#[test]
fn login_keeps_listed_variables() {
    let options = get_options(&[
        "-l", "-w", "EDITOR", "-w", "NONE", "-w", "HOME", "-w", "SHELL", "-w", "USER", "-w",
        "LOGNAME", "-w", "PATH", "-w", "TERM", "root",
    ]);
    let context = from_env_as(options, 1000).unwrap();
    assert_eq!(text(&context, "EDITOR").unwrap(), "vi");
    assert_eq!(text(&context, "NONE"), None);
    assert_eq!(text(&context, "TERM").unwrap(), "xterm");
    // The list is ignored for these.
    assert_eq!(text(&context, "HOME").unwrap(), "/root");
    assert_eq!(text(&context, "SHELL").unwrap(), "/bin/bash");
    assert_eq!(text(&context, "USER").unwrap(), "root");
    assert_eq!(text(&context, "LOGNAME").unwrap(), "root");
    assert_eq!(
        text(&context, "PATH").unwrap(),
        "/usr/sbin:/usr/bin:/sbin:/bin"
    );
}

#[test]
fn login_that_keeps_the_environment_sets_the_path_alone() {
    let context = from_env_as(get_options(&["-l", "-p", "-w", "HOME", "root"]), 1000).unwrap();
    assert_eq!(text(&context, "HOME"), None);
    assert_eq!(text(&context, "TERM").unwrap(), "xterm");
    assert_eq!(
        text(&context, "PATH").unwrap(),
        "/usr/sbin:/usr/bin:/sbin:/bin"
    );
    assert_eq!(text(&context, "USER"), None);
    assert_eq!(context.environment.entries().len(), 2);
}

#[test]
fn list_is_ignored_for_fixed_variables() {
    for uid in [0, 1000] {
        let listed = get_options(&[
            "-l", "-p", "-w", "HOME", "-w", "SHELL", "-w", "EDITOR", "-w", "USER", "-w", "LOGNAME",
            "-w", "PATH", "-w", "MAIL", "root",
        ]);
        let listed = from_env_as(listed, uid).unwrap();
        let plain = get_options(&["-l", "-p", "-w", "EDITOR", "-w", "MAIL", "root"]);
        let plain = from_env_as(plain, uid).unwrap();
        assert_eq!(listed.environment.entries(), plain.environment.entries());
        assert_eq!(listed.command, b"/bin/bash".to_vec());
        assert_eq!(plain.command, b"/bin/bash".to_vec());
        assert_eq!(text(&listed, "EDITOR").unwrap(), "vi");
        assert_eq!(text(&listed, "MAIL").unwrap(), "/var/mail/ferris");
        assert_eq!(text(&listed, "SHELL"), None);
    }
}

#[test]
fn values_need_not_be_text() {
    let options = get_options(&["ferris"]);
    let mut system = system(&options, 0);
    system
        .variables
        .push((b"RAW".to_vec(), vec![0xff, 0xfe]));
    let context = from_env_with(options, &system).unwrap();
    assert_eq!(context.environment.get(b"RAW"), Some(&vec![0xff, 0xfe]));
}
