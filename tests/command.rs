use cargo_remote::command::{render_command, RemoteCommands};
use cargo_remote::text::{decimal_string, join_words};

fn words(x: &[&str]) -> Vec<String> {
    x.iter().map(|w| w.to_string()).collect()
}

#[test]
fn remote_command_has_fixed_order() {
    let cmd = render_command(
        "/etc/profile",
        "stable",
        "~/remote-builds/123/",
        &words(&["RUST_BACKTRACE=1"]),
        &words(&["build", "--release"]),
    );
    assert_eq!(
        cmd,
        "source /etc/profile; rustup default stable; cd ~/remote-builds/123/; RUST_BACKTRACE=1 cargo build --release"
    );
}

#[test]
fn remote_command_keeps_duplicates_and_does_not_quote() {
    let cmd = render_command(
        "~/.profile",
        "nightly",
        "~/remote-builds/7/",
        &words(&["A=1", "A=2"]),
        &words(&["test", "*glob*"]),
    );
    assert_eq!(
        cmd,
        "source ~/.profile; rustup default nightly; cd ~/remote-builds/7/; A=1 A=2 cargo test *glob*"
    );
    let bare = render_command("p", "t", "b", &vec![], &vec![]);
    assert_eq!(bare, "source p; rustup default t; cd b;  cargo ");
}

#[test]
fn join_words_cases() {
    assert_eq!(join_words(&vec![], " "), "");
    assert_eq!(join_words(&words(&["a"]), " "), "a");
    assert_eq!(join_words(&words(&["a", "b", "c"]), ", "), "a, b, c");
}

#[test]
fn decimal_rendering() {
    assert_eq!(decimal_string(0), "0");
    assert_eq!(decimal_string(9), "9");
    assert_eq!(decimal_string(10), "10");
    assert_eq!(decimal_string(1234567890), "1234567890");
    assert_eq!(decimal_string(u64::MAX), u64::MAX.to_string());
}

#[test]
fn remote_commands_are_passed_through() {
    let c = RemoteCommands::Commands(words(&["build", "--release", "--all"]));
    assert_eq!(c.into_commands(), words(&["build", "--release", "--all"]));
}
