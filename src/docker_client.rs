use crate::invocation::{append_args, push_arg, push_str, seq_views, Invocation, StdinMode};
use vstd::prelude::*;

verus! {

/// The digit character for `d` (below ten).
pub open spec fn digit_char(d: nat) -> char {
    seq!['0', '1', '2', '3', '4', '5', '6', '7', '8', '9'][d as int]
}

/// The decimal notation of `n`, without sign or leading zeros.
pub open spec fn decimal(n: nat) -> Seq<char>
    decreases n,
{
    if n < 10 {
        seq![digit_char(n)]
    } else {
        decimal(n / 10) + seq![digit_char(n % 10)]
    }
}

/// The lifted view of an optional string slice.
pub open spec fn opt_view(o: Option<&str>) -> Option<Seq<char>> {
    match o {
        Some(s) => Some(s@),
        None => None,
    }
}

/// The image tag for a pair of versions: `rails-new-<ruby>` or
/// `rails-new-<ruby>-<rails>`.
pub open spec fn image_name(ruby: Seq<char>, rails: Option<Seq<char>>) -> Seq<char> {
    match rails {
        Some(v) => "rails-new-"@ + ruby + "-"@ + v,
        None => "rails-new-"@ + ruby,
    }
}

/// The pair `--build-arg KEY=value`.
pub open spec fn build_arg(key: Seq<char>, value: Seq<char>) -> Seq<Seq<char>> {
    seq!["--build-arg"@, key + "="@ + value]
}

/// A build argument that is present only when its value is.
pub open spec fn opt_build_arg(key: Seq<char>, value: Option<Seq<char>>) -> Seq<Seq<char>> {
    match value {
        Some(v) => build_arg(key, v),
        None => Seq::empty(),
    }
}

/// The decimal notation of an optional identity.
pub open spec fn opt_decimal(id: Option<u32>) -> Option<Seq<char>> {
    match id {
        Some(n) => Some(decimal(n as nat)),
        None => None,
    }
}

/// The arguments of the build invocation, in the order the engine expects.
pub open spec fn build_args(
    ruby: Seq<char>,
    rails: Option<Seq<char>>,
    user_id: Option<u32>,
    group_id: Option<u32>,
    rebuild: bool,
) -> Seq<Seq<char>> {
    seq!["build"@]
        + (if rebuild { seq!["--no-cache"@] } else { Seq::empty() })
        + build_arg("RUNTIME_VERSION"@, ruby)
        + opt_build_arg("FRAMEWORK_VERSION"@, rails)
        + opt_build_arg("USER_ID"@, opt_decimal(user_id))
        + opt_build_arg("GROUP_ID"@, opt_decimal(group_id))
        + seq!["-t"@, image_name(ruby, rails), "-"@]
}

/// The fixed command that the container runs: `rails new`.
pub open spec fn rails_new_prefix() -> Seq<Seq<char>> {
    seq!["rails"@, "new"@]
}

/// The arguments of the run invocation: the working directory is bound at the
/// same path inside the container and used as its working directory, and the
/// generator arguments follow `rails new` verbatim.
pub open spec fn run_args(
    ruby: Seq<char>,
    rails: Option<Seq<char>>,
    workdir: Seq<char>,
    generator_args: Seq<Seq<char>>,
) -> Seq<Seq<char>> {
    seq!["run"@, "--rm"@, "-v"@, workdir + ":"@ + workdir, "-w"@, workdir, image_name(ruby, rails)]
        + rails_new_prefix() + generator_args
}

/// The arguments of the help invocation: `rails new --help`, with no binding.
pub open spec fn help_args(ruby: Seq<char>, rails: Option<Seq<char>>) -> Seq<Seq<char>> {
    seq!["run"@, "--rm"@, image_name(ruby, rails)] + rails_new_prefix() + seq!["--help"@]
}

/// The image name is determined by the two versions alone: builds that differ
/// only in identities or in the cache flag tag the same image. A framework
/// version only appends `-<version>` to the name it would have without one.
pub proof fn lemma_image_name_suffix(
    ruby: Seq<char>,
    rails: Seq<char>,
    user_id: Option<u32>,
    group_id: Option<u32>,
    rebuild: bool,
)
    ensures
        image_name(ruby, None) == "rails-new-"@ + ruby,
        image_name(ruby, Some(rails)) == image_name(ruby, None) + "-"@ + rails,
        ({
            let a = build_args(ruby, Some(rails), user_id, group_id, rebuild);
            let b = build_args(ruby, Some(rails), None, None, false);
            a[a.len() - 2] == b[b.len() - 2]
        }),
        ({
            let a = build_args(ruby, None, user_id, group_id, rebuild);
            let b = build_args(ruby, None, None, None, false);
            a[a.len() - 2] == b[b.len() - 2]
        }),
{
}

/// The tag that a build gives its image is the image name that a run and a
/// help invocation with the same versions start.
pub proof fn lemma_build_tag_is_run_image(
    ruby: Seq<char>,
    rails: Option<Seq<char>>,
    user_id: Option<u32>,
    group_id: Option<u32>,
    rebuild: bool,
    workdir: Seq<char>,
    generator_args: Seq<Seq<char>>,
)
    ensures
        ({
            let b = build_args(ruby, rails, user_id, group_id, rebuild);
            &&& b[b.len() - 3] == "-t"@
            &&& b[b.len() - 2] == image_name(ruby, rails)
            &&& b[b.len() - 2] == run_args(ruby, rails, workdir, generator_args)[6]
            &&& b[b.len() - 2] == help_args(ruby, rails)[2]
        }),
{
}

/// In a run and in a help invocation the image name stands immediately before
/// `rails new`.
pub proof fn lemma_image_name_precedes_rails_new(
    ruby: Seq<char>,
    rails: Option<Seq<char>>,
    workdir: Seq<char>,
    generator_args: Seq<Seq<char>>,
)
    ensures
        ({
            let r = run_args(ruby, rails, workdir, generator_args);
            &&& r[6] == image_name(ruby, rails)
            &&& r.subrange(7, 9) == rails_new_prefix()
        }),
        ({
            let h = help_args(ruby, rails);
            &&& h[2] == image_name(ruby, rails)
            &&& h.subrange(3, 5) == rails_new_prefix()
        }),
{
    let r = run_args(ruby, rails, workdir, generator_args);
    let h = help_args(ruby, rails);
    assert(r.subrange(7, 9) =~= rails_new_prefix());
    assert(h.subrange(3, 5) =~= rails_new_prefix());
}

/// A help invocation ends with `rails new --help`, whatever generator
/// arguments a run would have been given.
pub proof fn lemma_help_ends_with_help_flag(ruby: Seq<char>, rails: Option<Seq<char>>)
    ensures
        ({
            let h = help_args(ruby, rails);
            h.subrange(h.len() - 3, h.len() as int) == rails_new_prefix() + seq!["--help"@]
        }),
{
    let h = help_args(ruby, rails);
    assert(h.subrange(h.len() - 3, h.len() as int) =~= rails_new_prefix() + seq!["--help"@]);
}

/// The one-character string of the digit `d`.
fn digit_str(d: u32) -> (r: &'static str)
    requires
        d < 10,
    ensures
        r@ == seq![digit_char(d as nat)],
{
    let digits = "0123456789";
    proof {
        reveal_strlit("0123456789");
    }
    digits.substring_char(d as usize, d as usize + 1)
}

/// The decimal notation of `n`, without sign or leading zeros.
fn decimal_string(n: u32) -> (r: String)
    ensures
        r@ == decimal(n as nat),
{
    let mut rest: u32 = n;
    let mut out = String::new();
    assert(decimal(n as nat) =~= decimal(n as nat) + out@);
    while rest >= 10
        invariant
            decimal(n as nat) == decimal(rest as nat) + out@,
        decreases rest,
    {
        let mut next = String::from_str(digit_str(rest % 10));
        next.append(out.as_str());
        assert(decimal((rest / 10) as nat) + next@ =~= decimal(rest as nat) + out@);
        out = next;
        rest = rest / 10;
    }
    let mut r = String::from_str(digit_str(rest));
    r.append(out.as_str());
    assert(r@ =~= decimal(rest as nat) + out@);
    r
}

/// Builds the container-engine invocations.
pub struct DockerClient {}

impl DockerClient {
    /// `docker build` of the image for the given versions, reading its
    /// definition from standard input.
    pub fn build_image(
        ruby_version: &str,
        maybe_rails_version: Option<&str>,
        user_id: Option<u32>,
        group_id: Option<u32>,
        rebuild: bool,
    ) -> (r: Invocation)
        ensures
            r.program@ == "docker"@,
            r.arg_views() == build_args(
                ruby_version@,
                opt_view(maybe_rails_version),
                user_id,
                group_id,
                rebuild,
            ),
            r.stdin == StdinMode::Piped,
    {
        let mut args: Vec<String> = Vec::new();
        push_str(&mut args, "build");
        if rebuild {
            push_str(&mut args, "--no-cache");
        }
        Self::set_build_arg(&mut args, "RUNTIME_VERSION", ruby_version);
        if let Some(rails_version) = maybe_rails_version {
            Self::set_build_arg(&mut args, "FRAMEWORK_VERSION", rails_version);
        }
        if let Some(id) = user_id {
            let value = decimal_string(id);
            Self::set_build_arg(&mut args, "USER_ID", value.as_str());
        }
        if let Some(id) = group_id {
            let value = decimal_string(id);
            Self::set_build_arg(&mut args, "GROUP_ID", value.as_str());
        }
        push_str(&mut args, "-t");
        Self::set_image_name(&mut args, ruby_version, maybe_rails_version);
        push_str(&mut args, "-");
        proof {
            let rails = opt_view(maybe_rails_version);
            assert(seq_views(args@) =~= build_args(ruby_version@, rails, user_id, group_id, rebuild));
        }
        Invocation { program: String::from_str("docker"), args, stdin: StdinMode::Piped }
    }

    /// `docker run` of the image for the given versions: binds `workdir` into
    /// the container and runs `rails new` there with `args`.
    pub fn run_image(
        ruby_version: &str,
        rails_version: Option<&str>,
        workdir: &str,
        args: Vec<String>,
    ) -> (r: Invocation)
        ensures
            r.program@ == "docker"@,
            r.arg_views() == run_args(
                ruby_version@,
                opt_view(rails_version),
                workdir@,
                seq_views(args@),
            ),
            r.stdin == StdinMode::Inherited,
    {
        let mut command = Self::run();
        Self::set_workdir(&mut command, workdir);
        Self::set_image_name(&mut command, ruby_version, rails_version);
        Self::set_rails_new(&mut command, args);
        proof {
            assert(seq_views(command@) =~= run_args(
                ruby_version@,
                opt_view(rails_version),
                workdir@,
                seq_views(args@),
            ));
        }
        Invocation { program: String::from_str("docker"), args: command, stdin: StdinMode::Inherited }
    }

    /// `docker run` of the image for the given versions, printing
    /// `rails new --help`.
    pub fn get_help(ruby_version: &str, rails_version: Option<&str>) -> (r: Invocation)
        ensures
            r.program@ == "docker"@,
            r.arg_views() == help_args(ruby_version@, opt_view(rails_version)),
            r.stdin == StdinMode::Inherited,
    {
        let mut command = Self::run();
        Self::set_image_name(&mut command, ruby_version, rails_version);
        let mut help: Vec<String> = Vec::new();
        push_str(&mut help, "--help");
        Self::set_rails_new(&mut command, help);
        proof {
            assert(seq_views(command@) =~= help_args(ruby_version@, opt_view(rails_version)));
        }
        Invocation { program: String::from_str("docker"), args: command, stdin: StdinMode::Inherited }
    }

    fn run() -> (r: Vec<String>)
        ensures
            seq_views(r@) == seq!["run"@, "--rm"@],
    {
        let mut args: Vec<String> = Vec::new();
        push_str(&mut args, "run");
        push_str(&mut args, "--rm");
        proof {
            assert(seq_views(args@) =~= seq!["run"@, "--rm"@]);
        }
        args
    }

    fn set_build_arg(args: &mut Vec<String>, key: &str, value: &str)
        ensures
            seq_views(final(args)@) == seq_views(old(args)@) + build_arg(key@, value@),
    {
        push_str(args, "--build-arg");
        let mut pair = String::from_str(key);
        pair.append("=");
        pair.append(value);
        push_arg(args, pair);
        assert(seq_views(args@) =~= seq_views(old(args)@) + build_arg(key@, value@));
    }

    fn set_workdir(args: &mut Vec<String>, workdir: &str)
        ensures
            seq_views(final(args)@) == seq_views(old(args)@) + seq![
                "-v"@,
                workdir@ + ":"@ + workdir@,
                "-w"@,
                workdir@,
            ],
    {
        push_str(args, "-v");
        let mut binding = String::from_str(workdir);
        binding.append(":");
        binding.append(workdir);
        push_arg(args, binding);
        push_str(args, "-w");
        push_str(args, workdir);
        assert(seq_views(args@) =~= seq_views(old(args)@) + seq![
            "-v"@,
            workdir@ + ":"@ + workdir@,
            "-w"@,
            workdir@,
        ]);
    }

    fn set_image_name(args: &mut Vec<String>, ruby_version: &str, maybe_rails_version: Option<&str>)
        ensures
            seq_views(final(args)@) == seq_views(old(args)@).push(
                image_name(ruby_version@, opt_view(maybe_rails_version)),
            ),
    {
        let mut name = String::from_str("rails-new-");
        name.append(ruby_version);
        if let Some(rails_version) = maybe_rails_version {
            name.append("-");
            name.append(rails_version);
        }
        push_arg(args, name);
    }

    fn set_rails_new(args: &mut Vec<String>, more: Vec<String>)
        ensures
            seq_views(final(args)@) == seq_views(old(args)@) + rails_new_prefix() + seq_views(more@),
    {
        push_str(args, "rails");
        push_str(args, "new");
        append_args(args, &more);
        assert(seq_views(args@) =~= seq_views(old(args)@) + rails_new_prefix() + seq_views(more@));
    }
}

} // verus!
