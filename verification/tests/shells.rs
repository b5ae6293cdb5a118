use privilege_switch::shells::{is_restricted, FALLBACK_LOGIN_SHELL, VALID_LOGIN_SHELLS_LIST};

fn restricted(shell: &[u8], list: Option<&str>) -> bool {
    is_restricted(&shell.to_vec(), &list.map(|list| list.to_string()))
}

#[test]
fn listed_shells_are_not_restricted() {
    let list = "# valid login shells\n/bin/sh\n/bin/bash\n/usr/bin/zsh\n";
    assert!(!restricted(b"/bin/sh", Some(list)));
    assert!(!restricted(b"/bin/bash", Some(list)));
    assert!(!restricted(b"/usr/bin/zsh", Some(list)));
    assert!(restricted(b"/bin/rbash", Some(list)));
    assert!(restricted(b"/bin/ba", Some(list)));
    assert!(restricted(b"", Some(list)));
}

#[test]
fn line_endings_do_not_belong_to_the_lines() {
    let list = "/bin/sh\r\n\n/bin/bash\r\n/bin/ksh\r";
    assert!(!restricted(b"/bin/sh", Some(list)));
    assert!(restricted(b"/bin/sh\r", Some(list)));
    assert!(!restricted(b"/bin/bash", Some(list)));
    assert!(!restricted(b"", Some(list)));
    assert!(!restricted(b"/bin/ksh\r", Some(list)));
    assert!(restricted(b"/bin/ksh", Some(list)));
}

#[test]
fn lines_are_those_of_the_standard_library() {
    for list in ["", "\n", "\r\n", "a", "a\nb", "a\n\nb\n", "a\r\r\nb\r", "\ra\n\r"] {
        for shell in ["", "\r", "a", "b", "a\r", "b\r", "\ra", "a\nb", "\n"] {
            assert_eq!(
                restricted(shell.as_bytes(), Some(list)),
                !list.lines().any(|line| line == shell)
            );
        }
    }
}

#[test]
fn no_list_leaves_the_fallback() {
    assert_eq!(VALID_LOGIN_SHELLS_LIST, "/etc/shells");
    assert_eq!(FALLBACK_LOGIN_SHELL, "/bin/sh");
    assert!(!restricted(b"/bin/sh", None));
    assert!(restricted(b"/bin/bash", None));
    assert!(restricted(b"", None));
}

#[test]
fn shells_that_are_no_text_are_restricted() {
    assert!(restricted(b"/bin/\xff", Some("/bin/sh\n/bin/\u{ff}\n")));
    assert!(restricted(b"/bin/\xff", None));
    assert!(!restricted("/bin/\u{ff}".as_bytes(), Some("/bin/sh\n/bin/\u{ff}\n")));
}
