use crate::docker_client::{build_args, help_args, opt_view, run_args, DockerClient};
use crate::invocation::{copy_args, seq_views, Invocation, StdinMode};
use crate::rails_new::{opt_string_view, Cli};
use crate::workdir::{canonicalize_os_path, os_path};
use crate::{unix, windows};
use vstd::prelude::*;

verus! {

/// The exit status of the tool when it fails before or between the two
/// processes (a spawn, the payload or the working directory failed).
pub const ORCHESTRATION_FAILURE: i32 = 125;

/// The exit status of the tool when a process ended without an exit code.
pub const ABNORMAL_EXIT: i32 = 1;

/// The host family, which decides the image definition, whether the caller's
/// identity is passed to the build and whether paths come in verbatim form.
#[derive(Debug, Clone, Copy, PartialEq, Eq, Structural)]
pub enum Platform {
    Unix,
    Windows,
}

impl Platform {
    /// Whether canonical paths on this platform may carry the `\\?\` prefix.
    pub open spec fn spec_verbatim_paths(self) -> bool {
        self == Platform::Windows
    }

    /// Whether canonical paths on this platform may carry the `\\?\` prefix.
    pub fn verbatim_paths(self) -> (r: bool)
        ensures
            r == self.spec_verbatim_paths(),
    {
        match self {
            Platform::Unix => false,
            Platform::Windows => true,
        }
    }

    /// The image definition for this platform.
    pub fn dockerfile_content(self) -> (r: &'static str)
        ensures
            r@ == match self {
                Platform::Unix => unix::unix_dockerfile(),
                Platform::Windows => windows::windows_dockerfile(),
            },
    {
        match self {
            Platform::Unix => unix::dockerfile_content(),
            Platform::Windows => windows::dockerfile_content(),
        }
    }
}

/// Where the workflow stands.
#[derive(Debug, Clone, Copy, PartialEq, Eq, Structural)]
pub enum Stage {
    /// Nothing has been started.
    Idle,
    /// The build process runs and receives the image definition.
    Building,
    /// The build succeeded; the working directory is being resolved.
    Resolving,
    /// The run (or help) process runs.
    Running,
    /// The tool has its exit status.
    Done,
}

/// What happened outside since the last step.
#[derive(Debug)]
pub enum Event {
    /// The tool starts.
    Start,
    /// A process could not be spawned.
    SpawnFailed,
    /// Writing the image definition to the build process failed.
    PayloadWriteFailed,
    /// The build process ended, with its exit code if it had one.
    BuildExited(Option<i32>),
    /// The working directory, as the file system canonicalized it.
    WorkdirResolved(String),
    /// The working directory could not be determined or canonicalized.
    WorkdirFailed,
    /// The run process ended, with its exit code if it had one.
    RunExited(Option<i32>),
}

/// What the caller has to do next.
#[derive(Debug)]
pub enum Action {
    /// Spawn the build with a piped standard input, write the image
    /// definition to it while waiting, and report how it ended.
    SpawnBuild(Invocation),
    /// Canonicalize the current working directory and report it.
    ResolveWorkdir,
    /// Spawn the run with inherited standard streams and report how it ended.
    SpawnRun(Invocation),
    /// Exit with this status.
    Exit(i32),
}

/// The tool's exit status for a process that ended with `code`.
pub open spec fn status_of(code: Option<i32>) -> i32 {
    match code {
        Some(c) => c,
        None => ABNORMAL_EXIT,
    }
}

/// The tool's exit status for a process that ended with `code`: the code
/// itself, or `ABNORMAL_EXIT` where there is none.
pub fn exit_status(code: Option<i32>) -> (r: i32)
    ensures
        r == status_of(code),
{
    match code {
        Some(c) => c,
        None => ABNORMAL_EXIT,
    }
}

/// Whether `a` spawns a build with exactly these arguments.
pub open spec fn spawns_build(a: Action, args: Seq<Seq<char>>) -> bool {
    match a {
        Action::SpawnBuild(i) => i.program@ == "docker"@ && i.arg_views() == args
            && i.stdin == StdinMode::Piped,
        _ => false,
    }
}

/// Whether `a` spawns a run with exactly these arguments.
pub open spec fn spawns_run(a: Action, args: Seq<Seq<char>>) -> bool {
    match a {
        Action::SpawnRun(i) => i.program@ == "docker"@ && i.arg_views() == args
            && i.stdin == StdinMode::Inherited,
        _ => false,
    }
}

/// The two-phase workflow: build the image, then run `rails new` (or its
/// help) in it, and exit as the last process did.
#[derive(Debug)]
pub struct Workflow {
    pub cli: Cli,
    pub platform: Platform,
    pub user_id: Option<u32>,
    pub group_id: Option<u32>,
    pub stage: Stage,
}

impl Workflow {
    /// The caller's identity is passed to the build on POSIX-like hosts, and
    /// never on Windows hosts.
    pub open spec fn wf(&self) -> bool {
        match self.platform {
            Platform::Unix => self.user_id is Some && self.group_id is Some,
            Platform::Windows => self.user_id is None && self.group_id is None,
        }
    }

    /// The arguments of this workflow's build.
    pub open spec fn spec_build_args(&self) -> Seq<Seq<char>> {
        build_args(
            self.cli.ruby_version@,
            opt_string_view(self.cli.rails_version),
            self.user_id,
            self.group_id,
            self.cli.rebuild,
        )
    }

    /// The arguments of this workflow's help run.
    pub open spec fn spec_help_args(&self) -> Seq<Seq<char>> {
        help_args(self.cli.ruby_version@, opt_string_view(self.cli.rails_version))
    }

    /// The arguments of this workflow's run in the canonical directory `dir`.
    pub open spec fn spec_run_args(&self, dir: Seq<char>) -> Seq<Seq<char>> {
        run_args(
            self.cli.ruby_version@,
            opt_string_view(self.cli.rails_version),
            os_path(dir, self.platform.spec_verbatim_paths()),
            seq_views(self.cli.args@),
        )
    }

    /// A workflow that has not started, with the caller's identity as the
    /// platform provides it.
    pub fn new(cli: Cli, platform: Platform) -> (r: Workflow)
        ensures
            r.wf(),
            r.cli == cli,
            r.platform == platform,
            r.stage == Stage::Idle,
    {
        let (user_id, group_id) = match platform {
            Platform::Unix => (unix::get_user_id(), unix::get_group_id()),
            Platform::Windows => (windows::get_user_id(), windows::get_group_id()),
        };
        Workflow { cli, platform, user_id, group_id, stage: Stage::Idle }
    }

    fn finish(&mut self, status: i32) -> (a: Action)
        ensures
            final(self).stage == Stage::Done,
            final(self).cli == old(self).cli,
            final(self).platform == old(self).platform,
            final(self).user_id == old(self).user_id,
            final(self).group_id == old(self).group_id,
            a == Action::Exit(status),
    {
        self.stage = Stage::Done;
        Action::Exit(status)
    }

    /// Takes the workflow one step on from what happened outside: the build
    /// comes first, the run only after a successful build, and the tool exits
    /// as the failing or the last process did. An event that the stage does
    /// not expect ends the workflow as a failure.
    pub fn step(&mut self, event: Event) -> (a: Action)
        ensures
            final(self).cli == old(self).cli,
            final(self).platform == old(self).platform,
            final(self).user_id == old(self).user_id,
            final(self).group_id == old(self).group_id,
            match (old(self).stage, event) {
                (Stage::Idle, Event::Start) => final(self).stage == Stage::Building
                    && spawns_build(a, old(self).spec_build_args()),
                (Stage::Building, Event::BuildExited(code)) => if code == Some(0i32) {
                    if old(self).cli.wants_help() {
                        final(self).stage == Stage::Running
                            && spawns_run(a, old(self).spec_help_args())
                    } else {
                        final(self).stage == Stage::Resolving && a == Action::ResolveWorkdir
                    }
                } else {
                    final(self).stage == Stage::Done && a == Action::Exit(status_of(code))
                },
                (Stage::Resolving, Event::WorkdirResolved(dir)) => final(self).stage
                    == Stage::Running && spawns_run(a, old(self).spec_run_args(dir@)),
                (Stage::Running, Event::RunExited(code)) => final(self).stage == Stage::Done
                    && a == Action::Exit(status_of(code)),
                _ => final(self).stage == Stage::Done && a == Action::Exit(
                    ORCHESTRATION_FAILURE,
                ),
            },
    {
        match (self.stage, event) {
            (Stage::Idle, Event::Start) => {
                let inv = DockerClient::build_image(
                    self.cli.ruby_version.as_str(),
                    self.cli.rails_version_str(),
                    self.user_id,
                    self.group_id,
                    self.cli.rebuild,
                );
                self.stage = Stage::Building;
                Action::SpawnBuild(inv)
            },
            (Stage::Building, Event::BuildExited(code)) => {
                match code {
                    Some(0i32) => {
                        if self.cli.is_help() {
                            let inv = DockerClient::get_help(
                                self.cli.ruby_version.as_str(),
                                self.cli.rails_version_str(),
                            );
                            self.stage = Stage::Running;
                            Action::SpawnRun(inv)
                        } else {
                            self.stage = Stage::Resolving;
                            Action::ResolveWorkdir
                        }
                    },
                    _ => self.finish(exit_status(code)),
                }
            },
            (Stage::Resolving, Event::WorkdirResolved(dir)) => {
                let workdir = canonicalize_os_path(dir.as_str(), self.platform.verbatim_paths());
                let args = copy_args(&self.cli.args);
                let inv = DockerClient::run_image(
                    self.cli.ruby_version.as_str(),
                    self.cli.rails_version_str(),
                    workdir.as_str(),
                    args,
                );
                self.stage = Stage::Running;
                Action::SpawnRun(inv)
            },
            (Stage::Running, Event::RunExited(code)) => self.finish(exit_status(code)),
            _ => self.finish(ORCHESTRATION_FAILURE),
        }
    }
}

} // verus!
