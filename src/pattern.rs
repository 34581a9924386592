//! Comparison operators and the patterns they compare against.

use vstd::prelude::*;
use vstd::string::*;

verus! {

#[verifier::external_type_specification]
#[verifier::external_body]
pub struct ExRegex(regex::Regex);

#[verifier::external_type_specification]
#[verifier::external_body]
pub struct ExGlobSet(globset::GlobSet);

/// Relies on regex::Regex's Clone, which copies the compiled expression.
pub assume_specification[ <regex::Regex as Clone>::clone ](r: &regex::Regex) -> regex::Regex;

/// Relies on globset::GlobSet's Clone (derived), which copies the compiled
/// matching strategies.
pub assume_specification[ <globset::GlobSet as Clone>::clone ](
    m: &globset::GlobSet,
) -> globset::GlobSet;

/// Whether `source` is a regular expression that the regex crate accepts
/// with its default syntax and size limits.
pub uninterp spec fn regex_valid(source: Seq<char>) -> bool;

/// Whether the regular expression written `source` finds a match in `subject`.
pub uninterp spec fn regex_accepts(source: Seq<char>, subject: Seq<char>) -> bool;

/// Whether `source` is a glob that the globset crate accepts, with its
/// default options for the target platform, and whose matcher it can then
/// build within its regex size and nesting limits.
pub uninterp spec fn glob_valid(source: Seq<char>) -> bool;

/// Whether the glob written `source` matches the whole of `subject`, read as
/// a path of the target platform, as a set of that one glob decides.
pub uninterp spec fn glob_accepts(source: Seq<char>, subject: Seq<char>) -> bool;

/// Relies on regex::Regex::new: it succeeds exactly on valid syntax, which
/// depends on the source text alone.
#[verifier::external_body]
fn compile_regex(source: &str) -> (r: Option<regex::Regex>)
    ensures
        r.is_some() == regex_valid(source@),
{
    regex::Regex::new(source).ok()
}

/// The longest glob, in characters, that `GlobPattern::new` compiles.
///
/// Building a glob set makes literal searchers for a glob's prefixes and
/// suffixes, and globset unwraps their construction; it fails only when an
/// automaton nears 2^31 states, far beyond what a glob this long gives.
pub const MAX_GLOB_LEN: usize = 100000;

/// Relies on globset::Glob::new and GlobSetBuilder::build on that one glob:
/// both report failure as an error (build also compiles the glob's regex, so
/// its size and nesting limits are checked here), and the outcome depends on
/// the source text alone. The length bound keeps build's literal searchers,
/// whose construction it unwraps, within their limits.
#[verifier::external_body]
fn compile_glob(source: &str) -> (r: Option<globset::GlobSet>)
    requires
        source@.len() <= MAX_GLOB_LEN,
    ensures
        r.is_some() == glob_valid(source@),
{
    match globset::Glob::new(source) {
        Ok(glob) => globset::GlobSetBuilder::new().add(glob).build().ok(),
        Err(_) => None,
    }
}

/// A compiled regular expression together with the text it was compiled from.
#[derive(Debug)]
pub struct RegexPattern {
    source: String,
    compiled: regex::Regex,
}

impl Clone for RegexPattern {
    fn clone(&self) -> (r: Self)
        ensures
            r.text() == self.text(),
    {
        RegexPattern { source: self.source.clone(), compiled: self.compiled.clone() }
    }
}

impl RegexPattern {
    /// Compiles `source`; `None` where it is not a valid regular expression.
    pub fn new(source: &str) -> (r: Option<RegexPattern>)
        ensures
            r.is_some() == regex_valid(source@),
            r matches Some(p) ==> p.text() == source@,
    {
        match compile_regex(source) {
            Some(compiled) => Some(RegexPattern { source: source.to_owned(), compiled }),
            None => None,
        }
    }

    pub closed spec fn text(&self) -> Seq<char> {
        self.source@
    }

    pub fn as_str(&self) -> (r: &str)
        ensures
            r@ == self.text(),
    {
        self.source.as_str()
    }

    /// Relies on regex::Regex::is_match, on the expression compiled from
    /// `self.source` by `new`.
    #[verifier::external_body]
    pub(crate) fn is_match(&self, subject: &str) -> (r: bool)
        ensures
            r == regex_accepts(self.text(), subject@),
    {
        self.compiled.is_match(subject)
    }
}

/// A compiled glob together with the text it was compiled from.
#[derive(Debug)]
pub struct GlobPattern {
    source: String,
    compiled: globset::GlobSet,
}

impl Clone for GlobPattern {
    fn clone(&self) -> (r: Self)
        ensures
            r.text() == self.text(),
    {
        GlobPattern { source: self.source.clone(), compiled: self.compiled.clone() }
    }
}

impl GlobPattern {
    /// Compiles `source`; `None` where it is not a valid glob or is longer
    /// than `MAX_GLOB_LEN` characters.
    pub fn new(source: &str) -> (r: Option<GlobPattern>)
        ensures
            r.is_some() == (source@.len() <= MAX_GLOB_LEN && glob_valid(source@)),
            r matches Some(p) ==> p.text() == source@,
    {
        if source.unicode_len() > MAX_GLOB_LEN {
            return None;
        }
        match compile_glob(source) {
            Some(compiled) => Some(GlobPattern { source: source.to_owned(), compiled }),
            None => None,
        }
    }

    pub closed spec fn text(&self) -> Seq<char> {
        self.source@
    }

    pub fn as_str(&self) -> (r: &str)
        ensures
            r@ == self.text(),
    {
        self.source.as_str()
    }

    /// Relies on globset::GlobSet::is_match, on the set of the one glob
    /// compiled from `self.source` by `new`: it matches the whole subject,
    /// as GlobMatcher::is_match does (globset's own tests hold the two to the
    /// same answers).
    #[verifier::external_body]
    pub(crate) fn is_match(&self, subject: &str) -> (r: bool)
        ensures
            r == glob_accepts(self.text(), subject@),
    {
        self.compiled.is_match(subject)
    }
}

/// How a rule compares the subject it extracts from a tag with its pattern.
///
/// `Auto` stands for an operator still to be chosen from the pattern; a rule
/// handed to the filterer carries one of the other, concrete operators.
#[derive(Debug, Clone, Copy, PartialEq, Eq, Structural)]
#[non_exhaustive]
pub enum Op {
    Auto,
    Equal,
    NotEqual,
    Regex,
    NotRegex,
    Glob,
    NotGlob,
    InSet,
    NotInSet,
}

/// The value a rule compares against.
#[derive(Debug)]
#[non_exhaustive]
pub enum Pattern {
    Exact(String),
    Regex(RegexPattern),
    Glob(GlobPattern),
    /// A set of literal strings; order and repetition carry no meaning.
    StringSet(Vec<String>),
}

/// `subject` is one of the strings of `set`.
pub open spec fn set_contains(set: Seq<String>, subject: Seq<char>) -> bool {
    exists|i: int| 0 <= i < set.len() && #[trigger] set[i]@ == subject
}

/// The two sets hold the same strings.
pub open spec fn same_members(a: Seq<String>, b: Seq<String>) -> bool {
    forall|s: Seq<char>| set_contains(a, s) == set_contains(b, s)
}

/// Patterns are equal when they are of one kind and written alike: regexes
/// and globs by their source text, sets by their members.
pub open spec fn pattern_eq(a: &Pattern, b: &Pattern) -> bool {
    match (a, b) {
        (Pattern::Exact(l), Pattern::Exact(r)) => l@ == r@,
        (Pattern::Regex(l), Pattern::Regex(r)) => l.text() == r.text(),
        (Pattern::Glob(l), Pattern::Glob(r)) => l.text() == r.text(),
        (Pattern::StringSet(l), Pattern::StringSet(r)) => same_members(l@, r@),
        _ => false,
    }
}

/// Whether `subject` is one of the strings of `set`.
pub fn set_has(set: &Vec<String>, subject: &String) -> (r: bool)
    ensures
        r == set_contains(set@, subject@),
{
    let mut i: usize = 0;
    while i < set.len()
        invariant
            0 <= i <= set.len(),
            forall|j: int| 0 <= j < i ==> set@[j]@ != subject@,
        decreases set.len() - i,
    {
        if set[i] == *subject {
            return true;
        }
        i = i + 1;
    }
    proof {
        assert forall|j: int| 0 <= j < set.len() implies #[trigger] set@[j]@ != subject@ by {}
    }
    false
}

/// Whether every string of `a` is in `b`.
fn all_in(a: &Vec<String>, b: &Vec<String>) -> (r: bool)
    ensures
        r == (forall|s: Seq<char>| set_contains(a@, s) ==> set_contains(b@, s)),
{
    let mut i: usize = 0;
    while i < a.len()
        invariant
            0 <= i <= a.len(),
            forall|j: int| 0 <= j < i ==> set_contains(b@, #[trigger] a@[j]@),
        decreases a.len() - i,
    {
        if !set_has(b, &a[i]) {
            assert(set_contains(a@, a@[i as int]@));
            return false;
        }
        i = i + 1;
    }
    proof {
        assert forall|s: Seq<char>| set_contains(a@, s) implies set_contains(b@, s) by {
            let j = choose|j: int| 0 <= j < a.len() && #[trigger] a@[j]@ == s;
            assert(set_contains(b@, a@[j]@));
        }
    }
    true
}

/// A copy of each string, in order.
pub fn copy_strings(v: &Vec<String>) -> (r: Vec<String>)
    ensures
        r@ == v@,
{
    let mut r: Vec<String> = Vec::new();
    let mut i: usize = 0;
    while i < v.len()
        invariant
            0 <= i <= v.len(),
            r@ == v@.take(i as int),
        decreases v.len() - i,
    {
        r.push(v[i].clone());
        proof {
            assert(v@.take(i + 1) =~= v@.take(i as int).push(v@[i as int]));
        }
        i = i + 1;
    }
    proof {
        assert(v@.take(v@.len() as int) =~= v@);
    }
    r
}

impl Clone for Pattern {
    fn clone(&self) -> (r: Pattern)
        ensures
            pattern_eq(&r, self),
    {
        let r = match self {
            Pattern::Exact(s) => Pattern::Exact(s.clone()),
            Pattern::Regex(p) => Pattern::Regex(p.clone()),
            Pattern::Glob(p) => Pattern::Glob(p.clone()),
            Pattern::StringSet(v) => Pattern::StringSet(copy_strings(v)),
        };
        proof {
            if let Pattern::StringSet(v) = self {
                assert(r matches Pattern::StringSet(w) && w@ == v@);
            }
        }
        r
    }
}

impl PartialEq for Pattern {
    fn eq(&self, other: &Pattern) -> (r: bool) {
        match (self, other) {
            (Pattern::Exact(l), Pattern::Exact(r)) => str_eq(l.as_str(), r.as_str()),
            (Pattern::Regex(l), Pattern::Regex(r)) => str_eq(l.as_str(), r.as_str()),
            (Pattern::Glob(l), Pattern::Glob(r)) => str_eq(l.as_str(), r.as_str()),
            (Pattern::StringSet(l), Pattern::StringSet(r)) => {
                let forward = all_in(l, r);
                let backward = all_in(r, l);
                proof {
                    if forward && backward {
                        assert forall|s: Seq<char>|
                            set_contains(l@, s) == set_contains(r@, s) by {
                            if set_contains(l@, s) {
                                assert(set_contains(r@, s));
                            }
                            if set_contains(r@, s) {
                                assert(set_contains(l@, s));
                            }
                        }
                    } else if !forward {
                        let s = choose|s: Seq<char>| set_contains(l@, s) && !set_contains(r@, s);
                        assert(set_contains(l@, s) != set_contains(r@, s));
                    } else {
                        let s = choose|s: Seq<char>| set_contains(r@, s) && !set_contains(l@, s);
                        assert(set_contains(l@, s) != set_contains(r@, s));
                    }
                }
                forward && backward
            },
            _ => false,
        }
    }
}

impl vstd::std_specs::cmp::PartialEqSpecImpl for Pattern {
    open spec fn obeys_eq_spec() -> bool {
        true
    }

    open spec fn eq_spec(&self, other: &Pattern) -> bool {
        pattern_eq(self, other)
    }
}

impl Eq for Pattern {}

/// Two regex patterns are equal exactly when their source texts are, and
/// so are two glob patterns; compiled matchers play no part.
pub proof fn pattern_equality_by_source(a: RegexPattern, b: RegexPattern, g: GlobPattern, h: GlobPattern)
    ensures
        pattern_eq(&Pattern::Regex(a), &Pattern::Regex(b)) == (a.text() == b.text()),
        pattern_eq(&Pattern::Glob(g), &Pattern::Glob(h)) == (g.text() == h.text()),
{
}

/// Whether two strings hold the same characters.
pub fn str_eq(a: &str, b: &str) -> (r: bool)
    ensures
        r == (a@ == b@),
{
    a.to_owned() == b.to_owned()
}

} // verus!
