use vstd::prelude::*;

verus! {

/// How the standard input of a spawned process is connected.
#[derive(Clone, Copy, Debug, PartialEq, Eq, Structural)]
pub enum StdinMode {
    /// The process reads from a pipe that the caller writes to.
    Piped,
    /// The process shares the caller's standard input.
    Inherited,
}

/// A fully specified external process invocation: the program, its ordered
/// arguments and how its standard input is connected.
#[derive(Debug)]
pub struct Invocation {
    pub program: String,
    pub args: Vec<String>,
    pub stdin: StdinMode,
}

/// The character sequences of a list of strings.
pub open spec fn seq_views(v: Seq<String>) -> Seq<Seq<char>> {
    v.map_values(|s: String| s@)
}

impl Invocation {
    /// The arguments as character sequences.
    pub open spec fn arg_views(&self) -> Seq<Seq<char>> {
        seq_views(self.args@)
    }
}

/// Appends one argument.
pub fn push_arg(args: &mut Vec<String>, arg: String)
    ensures
        seq_views(final(args)@) == seq_views(old(args)@).push(arg@),
{
    args.push(arg);
    assert(seq_views(args@) =~= seq_views(old(args)@).push(arg@));
}

/// Appends one argument given as a string slice.
pub fn push_str(args: &mut Vec<String>, arg: &str)
    ensures
        seq_views(final(args)@) == seq_views(old(args)@).push(arg@),
{
    push_arg(args, String::from_str(arg));
}

/// Appends every string of `more`, in order.
pub fn append_args(args: &mut Vec<String>, more: &Vec<String>)
    ensures
        seq_views(final(args)@) == seq_views(old(args)@) + seq_views(more@),
{
    let n: usize = more.len();
    let mut i: usize = 0;
    while i < n
        invariant
            n == more@.len(),
            i <= n,
            seq_views(args@) == seq_views(old(args)@) + seq_views(more@.subrange(0, i as int)),
        decreases n - i,
    {
        push_arg(args, more[i].clone());
        proof {
            assert(more@.subrange(0, i + 1) =~= more@.subrange(0, i as int).push(more@[i as int]));
            assert(seq_views(more@.subrange(0, i + 1)) =~= seq_views(more@.subrange(0, i as int)).push(more@[i as int]@));
        }
        i = i + 1;
    }
    assert(more@.subrange(0, n as int) =~= more@);
    assert(seq_views(args@) =~= seq_views(old(args)@) + seq_views(more@));
}

/// A copy of a list of arguments.
pub fn copy_args(v: &Vec<String>) -> (r: Vec<String>)
    ensures
        seq_views(r@) == seq_views(v@),
{
    let mut r: Vec<String> = Vec::new();
    append_args(&mut r, v);
    assert(seq_views(r@) =~= seq_views(v@));
    r
}

} // verus!
