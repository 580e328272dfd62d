use cargo_remote::config::{lookup_entry, resolve_remote, resolve_setting, ConfigError, SourceEntry, EXIT_NO_REMOTE};

fn s(x: &str) -> String {
    x.to_string()
}

#[test]
fn project_config_wins_over_user_config() {
    let project = lookup_entry("remote = \"A\"\n", "remote");
    let user = lookup_entry("remote = \"B\"\n", "remote");
    assert_eq!(project, SourceEntry::Defined(s("A")));
    assert_eq!(resolve_remote(&None, &vec![project, user]), Ok(s("A")));
}

#[test]
fn explicit_remote_wins_over_every_source() {
    let entries = vec![SourceEntry::Defined(s("A")), SourceEntry::Defined(s("B"))];
    assert_eq!(resolve_remote(&Some(s("C")), &entries), Ok(s("C")));
    let reversed = vec![SourceEntry::Defined(s("B")), SourceEntry::Defined(s("A"))];
    assert_eq!(resolve_remote(&Some(s("C")), &reversed), Ok(s("C")));
    assert_eq!(resolve_setting(&Some(s("C")), &entries, &Some(s("D"))), Some(s("C")));
}

#[test]
fn no_remote_anywhere_is_an_error() {
    let entries = vec![lookup_entry("other = 1\n", "remote"), SourceEntry::Missing];
    let r = resolve_remote(&None, &entries);
    assert_eq!(r, Err(ConfigError::NoRemoteServer));
    let e = r.unwrap_err();
    assert_eq!(e.exit_code(), -3);
    assert_eq!(EXIT_NO_REMOTE, -3);
    assert_eq!(
        e.message(),
        "No remote build server was defined (use config file or --remote flag)"
    );
    assert_eq!(resolve_remote(&None, &vec![]), Err(ConfigError::NoRemoteServer));
}

#[test]
fn malformed_project_config_falls_through_to_user_config() {
    let project = lookup_entry("remote = \n[[[", "remote");
    assert_eq!(project, SourceEntry::Malformed);
    let user = lookup_entry("remote = \"B\"\n", "remote");
    assert_eq!(resolve_remote(&None, &vec![project.clone(), user]), Ok(s("B")));
    assert_eq!(
        resolve_setting(&None, &vec![project], &Some(s("stable"))),
        Some(s("stable"))
    );
}

#[test]
fn lookup_entry_kinds() {
    assert_eq!(lookup_entry("remote = 5\n", "remote"), SourceEntry::Undefined);
    assert_eq!(lookup_entry("", "remote"), SourceEntry::Undefined);
    assert_eq!(lookup_entry("other = \"x\"\n", "remote"), SourceEntry::Undefined);
    assert_eq!(
        lookup_entry("remote = \"user@host\"\nother = 1\n", "remote"),
        SourceEntry::Defined(s("user@host"))
    );
    assert_eq!(lookup_entry("= =", "remote"), SourceEntry::Malformed);
}

#[test]
fn resolve_setting_precedence() {
    let missing = SourceEntry::Missing;
    assert_eq!(resolve_setting(&None, &vec![missing.clone()], &None), None);
    assert_eq!(
        resolve_setting(&None, &vec![missing, SourceEntry::Undefined], &Some(s("d"))),
        Some(s("d"))
    );
    assert_eq!(
        resolve_setting(
            &None,
            &vec![SourceEntry::Undefined, SourceEntry::Defined(s("x")), SourceEntry::Defined(s("y"))],
            &Some(s("d"))
        ),
        Some(s("x"))
    );
}
