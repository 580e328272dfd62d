//! The remote command line.
//!
//! The build environment and the pass-through arguments are joined with single
//! spaces and not quoted: the operator is trusted to hand over shell-safe
//! values, and shell expansion on the remote side is kept on purpose.
use vstd::prelude::*;
use crate::text::{joined, views, join_words};

verus! {

/// The cargo subcommand and its arguments, forwarded unchanged to the remote
/// cargo.
#[derive(Debug)]
pub enum RemoteCommands {
    Commands(Vec<String>),
}

impl RemoteCommands {
    /// The words of the subcommand, in order.
    pub open spec fn words(&self) -> Seq<String> {
        match self {
            RemoteCommands::Commands(cmds) => cmds@,
        }
    }

    /// Converts into the raw commands.
    pub fn into_commands(self) -> (r: Vec<String>)
        ensures
            r@ == self.words(),
    {
        let RemoteCommands::Commands(cmds) = self;
        cmds
    }
}

/// The command run on the build server: source the profile, select the
/// toolchain, enter the build directory, then run cargo with the build
/// environment as a prefix.
pub open spec fn remote_command(
    env_profile: Seq<char>,
    toolchain: Seq<char>,
    build_path: Seq<char>,
    build_env: Seq<Seq<char>>,
    args: Seq<Seq<char>>,
) -> Seq<char> {
    "source "@ + env_profile + "; rustup default "@ + toolchain + "; cd "@ + build_path + "; "@
        + joined(build_env, " "@) + " cargo "@ + joined(args, " "@)
}

/// Renders the command run on the build server.
pub fn render_command(
    env_profile: &str,
    toolchain: &str,
    build_path: &str,
    build_env: &Vec<String>,
    args: &Vec<String>,
) -> (r: String)
    ensures
        r@ == remote_command(env_profile@, toolchain@, build_path@, views(build_env@), views(args@)),
{
    let mut r = String::from_str("source ");
    r.append(env_profile);
    r.append("; rustup default ");
    r.append(toolchain);
    r.append("; cd ");
    r.append(build_path);
    r.append("; ");
    let env = join_words(build_env, " ");
    r.append(env.as_str());
    r.append(" cargo ");
    let words = join_words(args, " ");
    r.append(words.as_str());
    r
}

} // verus!
