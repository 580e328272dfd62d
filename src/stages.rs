//! The resolved options of a run and the process invocation of each stage.
use vstd::prelude::*;
use crate::build_path::{build_path, build_path_of};
use crate::command::{remote_command, render_command};
use crate::config::{entry_values, opt_view, resolve_remote, resolved, ConfigError, SourceEntry};
use crate::pipeline::{Stage, StagePlan};
use crate::text::views;

verus! {

/// The resolved options of a run; they do not change once built.
pub struct BuildOptions {
    /// The ssh host of the build server, optionally `user@host`.
    pub build_server: String,
    /// `KEY=VALUE` words set for the remote cargo, in order.
    pub build_env: Vec<String>,
    /// The rustup toolchain made default on the server.
    pub toolchain: String,
    /// The shell profile sourced before the build.
    pub env_profile: String,
    /// What to copy back from the remote `target` directory: `None` for
    /// nothing, an empty selector for all of it.
    pub copy_back: Option<String>,
    /// Whether the lockfile is copied back.
    pub copy_lock: bool,
    /// Whether dot-prefixed entries are transferred.
    pub transfer_hidden: bool,
    /// The cargo subcommand and its arguments.
    pub pass_through_args: Vec<String>,
}

/// Builds the options of a run from the command-line values and what the
/// configuration sources, in search order, say of `remote`. Fails exactly when
/// no build server is given anywhere.
pub fn resolve_options(
    remote: Option<String>,
    remote_entries: &Vec<SourceEntry>,
    build_env: Vec<String>,
    toolchain: String,
    env_profile: String,
    copy_back: Option<String>,
    no_copy_lock: bool,
    transfer_hidden: bool,
    pass_through_args: Vec<String>,
) -> (r: Result<BuildOptions, ConfigError>)
    ensures
        r is Err <==> resolved(opt_view(remote), entry_values(remote_entries@), None) is None,
        r matches Err(e) ==> e == ConfigError::NoRemoteServer,
        r matches Ok(o) ==> {
            &&& Some(o.build_server@) == resolved(
                opt_view(remote),
                entry_values(remote_entries@),
                None,
            )
            &&& o.build_env@ == build_env@
            &&& o.toolchain@ == toolchain@
            &&& o.env_profile@ == env_profile@
            &&& o.copy_back == copy_back
            &&& o.copy_lock == !no_copy_lock
            &&& o.transfer_hidden == transfer_hidden
            &&& o.pass_through_args@ == pass_through_args@
        },
{
    match resolve_remote(&remote, remote_entries) {
        Ok(build_server) => Ok(
            BuildOptions {
                build_server,
                build_env,
                toolchain,
                env_profile,
                copy_back,
                copy_lock: !no_copy_lock,
                transfer_hidden,
                pass_through_args,
            },
        ),
        Err(e) => Err(e),
    }
}

/// The local project of a run.
pub struct ProjectContext {
    /// The local workspace root.
    pub root: String,
    /// The remote working directory derived from `root`.
    pub build_path: String,
    /// The manifest that located the workspace root.
    pub manifest_path: String,
}

impl ProjectContext {
    /// The context of the project at `root`, with its remote directory.
    pub fn new(root: String, manifest_path: String) -> (r: ProjectContext)
        ensures
            r.root@ == root@,
            r.build_path@ == build_path_of(root@),
            r.manifest_path@ == manifest_path@,
    {
        let bp = build_path(root.as_str());
        ProjectContext { root, build_path: bp, manifest_path }
    }
}

impl StagePlan {
    /// The optional stages that `opts` asks for.
    pub fn of(opts: &BuildOptions) -> (r: StagePlan)
        ensures
            r.copy_artifacts == opts.copy_back is Some,
            r.copy_lock == opts.copy_lock,
    {
        StagePlan { copy_artifacts: opts.copy_back.is_some(), copy_lock: opts.copy_lock }
    }
}

/// A process to run: a program and its arguments.
pub struct Invocation {
    pub program: String,
    pub args: Vec<String>,
}

/// The program that runs a stage.
pub open spec fn stage_program(stage: Stage) -> Seq<char> {
    match stage {
        Stage::RemoteExecute => "ssh"@,
        _ => "rsync"@,
    }
}

/// The rsync flags of every stage: archive, mirror deletions, compress,
/// report overall progress.
pub open spec fn rsync_flags() -> Seq<Seq<char>> {
    seq!["-a"@, "--delete"@, "--compress"@, "--info=progress2"@]
}

/// `host:path` for rsync.
pub open spec fn remote_target(server: Seq<char>, path: Seq<char>) -> Seq<char> {
    server + ":"@ + path
}

/// The selector of the artifacts copied back.
pub open spec fn selector(copy_back: Option<String>) -> Seq<char> {
    match copy_back {
        Some(s) => s@,
        None => Seq::empty(),
    }
}

/// The arguments of a stage's program.
pub open spec fn stage_args(opts: BuildOptions, ctx: ProjectContext, stage: Stage) -> Seq<
    Seq<char>,
> {
    let server = opts.build_server@;
    let bp = ctx.build_path@;
    let root = ctx.root@;
    match stage {
        Stage::Transfer => rsync_flags() + seq!["--exclude"@, "target"@] + (if opts.transfer_hidden {
            Seq::empty()
        } else {
            seq!["--exclude"@, ".*"@]
        }) + seq![
            "--rsync-path"@,
            "mkdir -p remote-builds && rsync"@,
            root + "/"@,
            remote_target(server, bp),
        ],
        Stage::RemoteExecute => seq![
            "-t"@,
            server,
            remote_command(
                opts.env_profile@,
                opts.toolchain@,
                bp,
                views(opts.build_env@),
                views(opts.pass_through_args@),
            ),
        ],
        Stage::CopyArtifacts => rsync_flags() + seq![
            remote_target(server, bp + "/target/"@ + selector(opts.copy_back)),
            root + "/target/"@ + selector(opts.copy_back),
        ],
        Stage::CopyLock => rsync_flags() + seq![
            remote_target(server, bp + "/Cargo.lock"@),
            root + "/Cargo.lock"@,
        ],
    }
}

fn concat2(a: &str, b: &str) -> (r: String)
    ensures
        r@ == a@ + b@,
{
    let mut r = String::from_str(a);
    r.append(b);
    r
}

fn concat3(a: &str, b: &str, c: &str) -> (r: String)
    ensures
        r@ == a@ + b@ + c@,
{
    let mut r = String::from_str(a);
    r.append(b);
    r.append(c);
    r
}

fn push_rsync_flags(args: &mut Vec<String>)
    ensures
        views(final(args)@) == views(old(args)@) + rsync_flags(),
{
    args.push(String::from_str("-a"));
    args.push(String::from_str("--delete"));
    args.push(String::from_str("--compress"));
    args.push(String::from_str("--info=progress2"));
    assert(views(final(args)@) =~= views(old(args)@) + rsync_flags());
}

/// The process that runs `stage` for the project `ctx` with options `opts`.
pub fn invocation(opts: &BuildOptions, ctx: &ProjectContext, stage: Stage) -> (r: Invocation)
    ensures
        r.program@ == stage_program(stage),
        views(r.args@) == stage_args(*opts, *ctx, stage),
{
    let server = opts.build_server.as_str();
    let bp = ctx.build_path.as_str();
    let root = ctx.root.as_str();
    let mut args: Vec<String> = Vec::new();
    match stage {
        Stage::Transfer => {
            push_rsync_flags(&mut args);
            args.push(String::from_str("--exclude"));
            args.push(String::from_str("target"));
            if !opts.transfer_hidden {
                args.push(String::from_str("--exclude"));
                args.push(String::from_str(".*"));
            }
            args.push(String::from_str("--rsync-path"));
            args.push(String::from_str("mkdir -p remote-builds && rsync"));
            args.push(concat2(root, "/"));
            args.push(concat3(server, ":", bp));
            assert(views(args@) =~= stage_args(*opts, *ctx, stage));
            Invocation { program: String::from_str("rsync"), args }
        },
        Stage::RemoteExecute => {
            args.push(String::from_str("-t"));
            args.push(String::from_str(server));
            args.push(
                render_command(
                    opts.env_profile.as_str(),
                    opts.toolchain.as_str(),
                    bp,
                    &opts.build_env,
                    &opts.pass_through_args,
                ),
            );
            assert(views(args@) =~= stage_args(*opts, *ctx, stage));
            Invocation { program: String::from_str("ssh"), args }
        },
        Stage::CopyArtifacts => {
            let sel: &str = match &opts.copy_back {
                Some(s) => s.as_str(),
                None => "",
            };
            proof {
                reveal_strlit("");
            }
            assert(sel@ == selector(opts.copy_back));
            push_rsync_flags(&mut args);
            let remote_dir = concat3(bp, "/target/", sel);
            args.push(concat3(server, ":", remote_dir.as_str()));
            args.push(concat3(root, "/target/", sel));
            assert(views(args@) =~= stage_args(*opts, *ctx, stage));
            Invocation { program: String::from_str("rsync"), args }
        },
        Stage::CopyLock => {
            push_rsync_flags(&mut args);
            let remote_file = concat2(bp, "/Cargo.lock");
            args.push(concat3(server, ":", remote_file.as_str()));
            args.push(concat2(root, "/Cargo.lock"));
            assert(views(args@) =~= stage_args(*opts, *ctx, stage));
            Invocation { program: String::from_str("rsync"), args }
        },
    }
}

} // verus!
