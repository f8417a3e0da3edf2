use vstd::prelude::*;
use vstd::string::*;

verus! {

/// Where the standard output of a command goes.
#[derive(Clone, Copy, Debug, PartialEq, Eq, Structural)]
pub enum OutputMode {
    Inherit,
    Capture,
    Discard,
}

/// An external command as the caller is to run it.
pub struct CommandSpec {
    pub program: String,
    pub args: Vec<String>,
    /// Value for the SSH transport options variable of the copy tool, if set.
    pub transport_options: Option<String>,
    pub stdout: OutputMode,
}

/// Mathematical model of a command.
pub struct CommandView {
    pub program: Seq<char>,
    pub args: Seq<Seq<char>>,
    pub transport_options: Option<Seq<char>>,
    pub stdout: OutputMode,
}

pub open spec fn strs(v: Seq<String>) -> Seq<Seq<char>> {
    v.map_values(|s: String| s@)
}

pub open spec fn opt_str(o: Option<String>) -> Option<Seq<char>> {
    match o {
        Some(s) => Some(s@),
        None => None,
    }
}

impl View for CommandSpec {
    type V = CommandView;

    open spec fn view(&self) -> CommandView {
        CommandView {
            program: self.program@,
            args: strs(self.args@),
            transport_options: opt_str(self.transport_options),
            stdout: self.stdout,
        }
    }
}

/// How an external command ended, as the caller observed it.
pub enum ProcessOutcome {
    /// The command could not be started.
    StartFailed(std::io::Error),
    /// The command started, but waiting for it or reading its output failed.
    RunFailed(std::io::Error),
    /// The command ended; `code` is `None` when it did not exit normally.
    /// `stdout` is empty unless the output was captured.
    Exited { code: Option<i32>, stdout: Vec<u8> },
}

/// Appends a copy of `s` to `v`.
pub fn push_str(v: &mut Vec<String>, s: &str)
    ensures
        strs(final(v)@) == strs(old(v)@).push(s@),
{
    v.push(String::from_str(s));
    assert(strs(final(v)@) =~= strs(old(v)@).push(s@));
}

/// Appends copies of every element of `extra` to `v`, in order.
pub fn extend_strs(v: &mut Vec<String>, extra: &Vec<String>)
    ensures
        strs(final(v)@) == strs(old(v)@) + strs(extra@),
{
    let mut i: usize = 0;
    while i < extra.len()
        invariant
            i <= extra@.len(),
            strs(v@) == strs(old(v)@) + strs(extra@.subrange(0, i as int)),
        decreases extra@.len() - i,
    {
        push_str(v, extra[i].as_str());
        assert(strs(extra@.subrange(0, i + 1)) =~= strs(extra@.subrange(0, i as int)).push(
            extra@[i as int]@,
        ));
        i = i + 1;
    }
    assert(extra@.subrange(0, extra@.len() as int) =~= extra@);
}


/// Whether `prefix` is a prefix of `s`.
pub open spec fn has_prefix(s: Seq<char>, prefix: Seq<char>) -> bool {
    prefix.len() <= s.len() && s.subrange(0, prefix.len() as int) == prefix
}

/// Relies on str::starts_with with a string pattern: true exactly when the
/// pattern is a prefix of the string.
#[verifier::external_body]
fn starts_with(s: &str, prefix: &str) -> (r: bool)
    ensures
        r == has_prefix(s@, prefix@),
{
    s.starts_with(prefix)
}

/// A profile path outside the store names a content-addressed derivation.
pub open spec fn is_ca_path(path: Seq<char>) -> bool {
    !has_prefix(path, "/nix/store"@)
}

pub fn is_content_addressed(path: &str) -> (r: bool)
    ensures
        r == is_ca_path(path@),
{
    !starts_with(path, "/nix/store")
}

/// The attribute of a node's profile in the repository's flake.
pub open spec fn ca_target(repo: Seq<char>, node: Seq<char>, profile: Seq<char>) -> Seq<char> {
    repo + "#deploy.nodes."@ + node + ".profiles."@ + profile + ".path"@
}

pub fn ca_build_target(repo: &str, node: &str, profile: &str) -> (r: String)
    ensures
        r@ == ca_target(repo@, node@, profile@),
{
    let mut t = String::from_str(repo);
    t.append("#deploy.nodes.");
    t.append(node);
    t.append(".profiles.");
    t.append(profile);
    t.append(".path");
    t
}

pub open spec fn result_dir(result_path: Option<Seq<char>>) -> Seq<char> {
    match result_path {
        Some(p) => p,
        None => "./.deploy-gc"@,
    }
}

/// Where the retained build result of one node's profile is linked.
pub open spec fn out_link(result_path: Option<Seq<char>>, node: Seq<char>, profile: Seq<char>) -> Seq<char> {
    result_dir(result_path) + "/"@ + node + "/"@ + profile
}

pub fn out_link_path(result_path: &Option<String>, node: &str, profile: &str) -> (r: String)
    ensures
        r@ == out_link(opt_str(*result_path), node@, profile@),
{
    let mut t = match result_path {
        Some(p) => p.clone(),
        None => String::from_str("./.deploy-gc"),
    };
    t.append("/");
    t.append(node);
    t.append("/");
    t.append(profile);
    t
}

/// Link policy flags of a build: an out-link when the result is kept, else the
/// dialect's flag that suppresses the link.
pub open spec fn link_flags(
    keep_result: bool,
    supports_flakes: bool,
    result_path: Option<Seq<char>>,
    node: Seq<char>,
    profile: Seq<char>,
) -> Seq<Seq<char>> {
    if keep_result {
        seq!["--out-link"@, out_link(result_path, node, profile)]
    } else if supports_flakes {
        seq!["--no-link"@]
    } else {
        seq!["--no-out-link"@]
    }
}

pub fn push_link_flags(
    v: &mut Vec<String>,
    keep_result: bool,
    supports_flakes: bool,
    result_path: &Option<String>,
    node: &str,
    profile: &str,
)
    ensures
        strs(final(v)@) == strs(old(v)@) + link_flags(
            keep_result,
            supports_flakes,
            opt_str(*result_path),
            node@,
            profile@,
        ),
{
    let ghost flags = link_flags(keep_result, supports_flakes, opt_str(*result_path), node@, profile@);
    if keep_result {
        push_str(v, "--out-link");
        let link = out_link_path(result_path, node, profile);
        push_str(v, link.as_str());
    } else if supports_flakes {
        push_str(v, "--no-link");
    } else {
        push_str(v, "--no-out-link");
    }
    assert(strs(v@) =~= strs(old(v)@) + flags);
}

/// Options joined with single spaces, without quoting.
pub open spec fn joined(opts: Seq<Seq<char>>) -> Seq<char>
    decreases opts.len(),
{
    if opts.len() == 0 {
        Seq::empty()
    } else if opts.len() == 1 {
        opts[0]
    } else {
        joined(opts.drop_last()) + " "@ + opts.last()
    }
}

pub fn join_ssh_opts(opts: &Vec<String>) -> (r: String)
    ensures
        r@ == joined(strs(opts@)),
{
    let mut r = String::new();
    let mut i: usize = 0;
    while i < opts.len()
        invariant
            i <= opts@.len(),
            r@ == joined(strs(opts@).subrange(0, i as int)),
        decreases opts@.len() - i,
    {
        let ghost before = strs(opts@).subrange(0, i as int);
        let ghost after = strs(opts@).subrange(0, i + 1);
        assert(after.drop_last() =~= before);
        if i > 0 {
            r.append(" ");
        }
        r.append(opts[i].as_str());
        if i == 0 {
            assert(r@ =~= joined(after));
        }
        i = i + 1;
    }
    assert(strs(opts@).subrange(0, opts@.len() as int) =~= strs(opts@));
    r
}

} // verus!
