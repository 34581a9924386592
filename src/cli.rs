//! Turning command-line options, once read, into a run configuration.

use vstd::prelude::*;
use vstd::string::*;

verus! {

/// The characters of each string.
pub open spec fn strings(v: Seq<String>) -> Seq<Seq<char>> {
    v.map_values(|s: String| s@)
}

/// `s` cut at every comma; `n` commas give `n + 1` pieces, empty ones kept.
pub open spec fn split_commas(s: Seq<char>) -> Seq<Seq<char>>
    decreases s.len(),
{
    if s.len() == 0 {
        seq![Seq::empty()]
    } else {
        let parts = split_commas(s.drop_last());
        if s.last() == ',' {
            parts.push(Seq::empty())
        } else {
            parts.update(parts.len() - 1, parts.last().push(s.last()))
        }
    }
}

/// `s` with every `.` taken out.
pub open spec fn no_dots(s: Seq<char>) -> Seq<char>
    decreases s.len(),
{
    if s.len() == 0 {
        s
    } else if s.last() == '.' {
        no_dots(s.drop_last())
    } else {
        no_dots(s.drop_last()).push(s.last())
    }
}

/// The glob that watches files with extension `ext`.
pub open spec fn ext_glob(ext: Seq<char>) -> Seq<char> {
    "*."@ + no_dots(ext)
}

/// A glob for each non-empty extension, in order.
pub open spec fn globs_of(exts: Seq<Seq<char>>) -> Seq<Seq<char>>
    decreases exts.len(),
{
    if exts.len() == 0 {
        Seq::empty()
    } else if exts.last().len() == 0 {
        globs_of(exts.drop_last())
    } else {
        globs_of(exts.drop_last()).push(ext_glob(exts.last()))
    }
}

/// The globs for every comma-separated list of extensions, in order.
pub open spec fn ext_filters(lists: Seq<Seq<char>>) -> Seq<Seq<char>>
    decreases lists.len(),
{
    if lists.len() == 0 {
        Seq::empty()
    } else {
        ext_filters(lists.drop_last()) + globs_of(split_commas(lists.last()))
    }
}

/// Cuts `s` at every comma.
pub fn split_on_commas(s: &str) -> (r: Vec<String>)
    ensures
        strings(r@) == split_commas(s@),
{
    let n = s.unicode_len();
    let mut parts: Vec<String> = Vec::new();
    let mut cur = String::new();
    let mut i: usize = 0;
    while i < n
        invariant
            n == s@.len(),
            0 <= i <= n,
            strings(parts@).push(cur@) == split_commas(s@.take(i as int)),
        decreases n - i,
    {
        let c = s.get_char(i);
        let ghost before = strings(parts@);
        let ghost piece = cur@;
        proof {
            assert(s@.take(i + 1).drop_last() =~= s@.take(i as int));
            assert(s@.take(i + 1).last() == c);
        }
        if c == ',' {
            parts.push(cur);
            cur = String::new();
            proof {
                assert(strings(parts@) =~= before.push(piece));
                assert(strings(parts@).push(cur@) =~= before.push(piece).push(Seq::empty()));
            }
        } else {
            cur.append(s.substring_char(i, i + 1));
            proof {
                assert(cur@ =~= piece.push(c));
                assert(strings(parts@).push(cur@) =~= before.push(piece).update(
                    before.len() as int,
                    piece.push(c),
                ));
            }
        }
        i = i + 1;
    }
    let ghost before = strings(parts@);
    let ghost piece = cur@;
    parts.push(cur);
    proof {
        assert(s@.take(n as int) =~= s@);
        assert(strings(parts@) =~= before.push(piece));
    }
    parts
}

/// `s` with every `.` taken out.
pub fn strip_dots(s: &str) -> (r: String)
    ensures
        r@ == no_dots(s@),
{
    let n = s.unicode_len();
    let mut r = String::new();
    let mut i: usize = 0;
    while i < n
        invariant
            n == s@.len(),
            0 <= i <= n,
            r@ == no_dots(s@.take(i as int)),
        decreases n - i,
    {
        let c = s.get_char(i);
        proof {
            assert(s@.take(i + 1).drop_last() =~= s@.take(i as int));
            assert(s@.take(i + 1).last() == c);
        }
        if c != '.' {
            let ghost before = r@;
            r.append(s.substring_char(i, i + 1));
            proof {
                assert(r@ =~= before.push(c));
            }
        }
        i = i + 1;
    }
    proof {
        assert(s@.take(n as int) =~= s@);
    }
    r
}

/// Appends the globs for one comma-separated list of extensions to `out`.
fn push_ext_globs(out: &mut Vec<String>, list: &str)
    ensures
        strings(final(out)@) == strings(old(out)@) + globs_of(split_commas(list@)),
{
    let parts = split_on_commas(list);
    let ghost start = strings(out@);
    let mut i: usize = 0;
    while i < parts.len()
        invariant
            0 <= i <= parts.len(),
            strings(parts@) == split_commas(list@),
            strings(out@) == start + globs_of(strings(parts@).take(i as int)),
        decreases parts.len() - i,
    {
        let part = &parts[i];
        proof {
            assert(strings(parts@).take(i + 1).drop_last() =~= strings(parts@).take(i as int));
            assert(strings(parts@).take(i + 1).last() == part@);
        }
        if part.unicode_len() != 0 {
            let ghost before = strings(out@);
            let mut glob = "*.".to_owned();
            glob.append(strip_dots(part.as_str()).as_str());
            out.push(glob);
            proof {
                assert(strings(out@) =~= before.push(ext_glob(part@)));
            }
        }
        i = i + 1;
    }
    proof {
        assert(strings(parts@).take(parts@.len() as int) =~= strings(parts@));
    }
}

/// The globs that watch files with the given extensions: each list is cut at
/// commas, empty pieces are dropped, dots are taken out, and `*.` is put in
/// front.
pub fn extension_filters(lists: &Vec<String>) -> (r: Vec<String>)
    ensures
        strings(r@) == ext_filters(strings(lists@)),
{
    let mut out: Vec<String> = Vec::new();
    let mut i: usize = 0;
    while i < lists.len()
        invariant
            0 <= i <= lists.len(),
            strings(out@) == ext_filters(strings(lists@).take(i as int)),
        decreases lists.len() - i,
    {
        proof {
            assert(strings(lists@).take(i + 1).drop_last() =~= strings(lists@).take(i as int));
            assert(strings(lists@).take(i + 1).last() == lists@[i as int]@);
        }
        push_ext_globs(&mut out, lists[i].as_str());
        i = i + 1;
    }
    proof {
        assert(strings(lists@).take(lists@.len() as int) =~= strings(lists@));
    }
    out
}

/// Appends a copy of each string of `src` to `dst`.
fn append_strings(dst: &mut Vec<String>, src: &Vec<String>)
    ensures
        strings(final(dst)@) == strings(old(dst)@) + strings(src@),
{
    let ghost start = strings(dst@);
    let mut i: usize = 0;
    while i < src.len()
        invariant
            0 <= i <= src.len(),
            strings(dst@) == start + strings(src@).take(i as int),
        decreases src.len() - i,
    {
        let ghost before = strings(dst@);
        dst.push(src[i].clone());
        proof {
            assert(strings(dst@) =~= before.push(src@[i as int]@));
            assert(strings(src@).take(i + 1) =~= strings(src@).take(i as int).push(
                src@[i as int]@,
            ));
        }
        i = i + 1;
    }
    proof {
        assert(strings(src@).take(src@.len() as int) =~= strings(src@));
    }
}

/// How much the runner reports.
#[derive(Clone, Copy, Debug, PartialEq, Eq, Structural)]
pub enum LogLevel {
    Warn,
    Info,
    Debug,
}

/// The command-line options as given, before defaults are applied.
#[derive(Clone, Debug)]
pub struct ParsedArgs {
    /// The command to run, word by word.
    pub command: Vec<String>,
    /// Each occurrence of the extensions option: a comma-separated list.
    pub extensions: Vec<String>,
    /// Paths to watch; none given means the current directory.
    pub paths: Vec<String>,
    pub clear: bool,
    pub restart: bool,
    pub signal: Option<String>,
    /// Kill rather than signal; a given signal takes precedence.
    pub kill: bool,
    pub debounce: Option<u64>,
    pub verbose: bool,
    pub changes_only: bool,
    pub filters: Vec<String>,
    pub ignores: Vec<String>,
    pub no_vcs_ignore: bool,
    pub no_ignore: bool,
    pub no_default_ignore: bool,
    pub postpone: bool,
    /// The polling interval, where polling is forced.
    pub poll: Option<u32>,
    pub no_shell: bool,
    pub no_meta: bool,
    pub no_environment: bool,
    pub once: bool,
    pub watch_when_idle: bool,
}

/// What the runner does.
#[derive(Clone, Debug)]
pub struct Config {
    pub cmd: Vec<String>,
    pub paths: Vec<String>,
    pub filters: Vec<String>,
    pub ignores: Vec<String>,
    pub clear_screen: bool,
    pub signal: Option<String>,
    pub restart: bool,
    pub debounce: u64,
    pub run_initially: bool,
    pub no_shell: bool,
    pub no_meta: bool,
    pub no_environment: bool,
    pub no_vcs_ignore: bool,
    pub no_ignore: bool,
    pub poll: bool,
    pub poll_interval: u32,
    pub watch_when_idle: bool,
    pub once: bool,
}

pub const DEFAULT_DEBOUNCE: u64 = 500;

pub const DEFAULT_POLL_INTERVAL: u32 = 1000;

/// Files ignored unless told otherwise; `sep` separates path components.
pub open spec fn default_ignores(sep: Seq<char>) -> Seq<Seq<char>> {
    seq![
        "**"@ + sep + ".DS_Store"@,
        "*.py[co]"@,
        "#*#"@,
        ".#*"@,
        ".*.kate-swp"@,
        ".*.sw?"@,
        ".*.sw?x"@,
        "**"@ + sep + ".git"@ + sep + "**"@,
        "**"@ + sep + ".hg"@ + sep + "**"@,
        "**"@ + sep + ".svn"@ + sep + "**"@,
    ]
}

pub open spec fn log_level(a: &ParsedArgs) -> LogLevel {
    if a.verbose {
        LogLevel::Debug
    } else if a.changes_only {
        LogLevel::Info
    } else {
        LogLevel::Warn
    }
}

pub open spec fn signal_of(a: &ParsedArgs) -> Option<Seq<char>> {
    match a.signal {
        Some(s) => Some(s@),
        None => if a.kill {
            Some("SIGKILL"@)
        } else {
            None
        },
    }
}

pub open spec fn opt_view(o: Option<String>) -> Option<Seq<char>> {
    match o {
        Some(s) => Some(s@),
        None => None,
    }
}

/// `c` is the configuration that options `a` give, with `sep` separating
/// path components.
pub open spec fn config_of(c: &Config, a: &ParsedArgs, sep: Seq<char>) -> bool {
    &&& strings(c.cmd@) == strings(a.command@)
    &&& strings(c.paths@) == if a.paths.len() == 0 {
        seq!["."@]
    } else {
        strings(a.paths@)
    }
    &&& strings(c.filters@) == strings(a.filters@) + ext_filters(strings(a.extensions@))
    &&& strings(c.ignores@) == if a.no_default_ignore {
        strings(a.ignores@)
    } else {
        default_ignores(sep) + strings(a.ignores@)
    }
    &&& opt_view(c.signal) == signal_of(a)
    &&& c.clear_screen == a.clear
    &&& c.restart == a.restart
    &&& c.run_initially == !a.postpone
    &&& c.no_shell == a.no_shell
    &&& c.no_meta == a.no_meta
    &&& c.no_environment == a.no_environment
    &&& c.no_vcs_ignore == a.no_vcs_ignore
    &&& c.no_ignore == a.no_ignore
    &&& c.poll == a.poll.is_some()
    &&& c.poll_interval == (match a.poll {
        Some(p) => p,
        None => DEFAULT_POLL_INTERVAL,
    })
    &&& c.debounce == (match a.debounce {
        Some(d) => d,
        None => DEFAULT_DEBOUNCE,
    })
    &&& c.watch_when_idle == a.watch_when_idle
    &&& c.once == a.once
}

/// `a`, then `sep`, then `b`.
fn joined(a: &str, sep: &str, b: &str) -> (r: String)
    ensures
        r@ == a@ + sep@ + b@,
{
    let mut r = a.to_owned();
    r.append(sep);
    r.append(b);
    r
}

/// The files ignored unless told otherwise.
pub fn default_ignore_list(sep: &str) -> (r: Vec<String>)
    ensures
        strings(r@) == default_ignores(sep@),
{
    let mut r: Vec<String> = Vec::new();
    r.push(joined("**", sep, ".DS_Store"));
    r.push("*.py[co]".to_owned());
    r.push("#*#".to_owned());
    r.push(".#*".to_owned());
    r.push(".*.kate-swp".to_owned());
    r.push(".*.sw?".to_owned());
    r.push(".*.sw?x".to_owned());
    let git = joined("**", sep, ".git");
    r.push(joined(git.as_str(), sep, "**"));
    let hg = joined("**", sep, ".hg");
    r.push(joined(hg.as_str(), sep, "**"));
    let svn = joined("**", sep, ".svn");
    r.push(joined(svn.as_str(), sep, "**"));
    proof {
        assert(strings(r@) =~= default_ignores(sep@));
    }
    r
}

/// The configuration and report level that options `args` give, with `sep`
/// separating path components.
pub fn config_from(args: &ParsedArgs, sep: &str) -> (r: (Config, LogLevel))
    ensures
        config_of(&r.0, args, sep@),
        r.1 == log_level(args),
{
    let mut cmd: Vec<String> = Vec::new();
    append_strings(&mut cmd, &args.command);
    let mut paths: Vec<String> = Vec::new();
    if args.paths.len() == 0 {
        paths.push(".".to_owned());
        proof {
            assert(strings(paths@) =~= seq!["."@]);
        }
    } else {
        append_strings(&mut paths, &args.paths);
        proof {
            assert(strings(paths@) =~= strings(args.paths@));
        }
    }
    let mut filters: Vec<String> = Vec::new();
    append_strings(&mut filters, &args.filters);
    let globs = extension_filters(&args.extensions);
    append_strings(&mut filters, &globs);
    let mut ignores: Vec<String> = Vec::new();
    if !args.no_default_ignore {
        let defaults = default_ignore_list(sep);
        append_strings(&mut ignores, &defaults);
    }
    append_strings(&mut ignores, &args.ignores);
    proof {
        assert(strings(cmd@) =~= strings(args.command@));
        assert(strings(filters@) =~= strings(args.filters@) + ext_filters(strings(args.extensions@)));
        if args.no_default_ignore {
            assert(strings(ignores@) =~= strings(args.ignores@));
        }
    }
    let signal = match &args.signal {
        Some(s) => Some(s.clone()),
        None => if args.kill {
            Some("SIGKILL".to_owned())
        } else {
            None
        },
    };
    let poll_interval = match args.poll {
        Some(p) => p,
        None => DEFAULT_POLL_INTERVAL,
    };
    let debounce = match args.debounce {
        Some(d) => d,
        None => DEFAULT_DEBOUNCE,
    };
    let config = Config {
        cmd,
        paths,
        filters,
        ignores,
        clear_screen: args.clear,
        signal,
        restart: args.restart,
        debounce,
        run_initially: !args.postpone,
        no_shell: args.no_shell,
        no_meta: args.no_meta,
        no_environment: args.no_environment,
        no_vcs_ignore: args.no_vcs_ignore,
        no_ignore: args.no_ignore,
        poll: args.poll.is_some(),
        poll_interval,
        watch_when_idle: args.watch_when_idle,
        once: args.once,
    };
    let level = if args.verbose {
        LogLevel::Debug
    } else if args.changes_only {
        LogLevel::Info
    } else {
        LogLevel::Warn
    };
    (config, level)
}

/// Relies on std::path::MAIN_SEPARATOR: `/`, or `\` on Windows.
#[verifier::external_body]
fn main_separator() -> (r: String)
    ensures
        r@ == "/"@ || r@ == "\\"@,
{
    std::path::MAIN_SEPARATOR.to_string()
}

/// The configuration and report level that options `args` give on this
/// platform.
pub fn get_args(args: &ParsedArgs) -> (r: (Config, LogLevel))
    ensures
        config_of(&r.0, args, "/"@) || config_of(&r.0, args, "\\"@),
        r.1 == log_level(args),
{
    let sep = main_separator();
    config_from(args, sep.as_str())
}

} // verus!
