//! Rules: which facet of a tag they look at, and how they judge it.

use vstd::prelude::*;

use crate::pattern::{
    glob_accepts, pattern_eq, regex_accepts, set_contains, set_has, str_eq, Op, Pattern,
};

verus! {

/// The facet of an event that a rule targets.
///
/// `Tag` targets the name of a tag's kind and so applies to tags of every
/// kind; each other dimension applies to the tags of its own kind only.
#[derive(Clone, Copy, Debug, Eq, PartialEq, Hash, Structural)]
#[non_exhaustive]
pub enum Matcher {
    Tag,
    Path,
    FileEventKind,
    Source,
    Process,
    Signal,
    ProcessCompletion,
}

/// A single rule.
#[derive(Debug)]
pub struct Filter {
    /// Directory the rule is anchored to; stored, not yet consulted.
    pub in_path: Option<String>,
    /// Which facet of a tag the rule applies to.
    pub on: Matcher,
    /// The comparison to perform on the extracted subject.
    pub op: Op,
    /// The value compared against.
    pub pat: Pattern,
    /// If true, a positive match overrides earlier failures on the same tag,
    /// and a miss is ignored.
    pub negate: bool,
}

/// What `op` against `pat` says of `subject`. Pairs that do not fit together
/// never match.
pub open spec fn op_matches(op: Op, pat: &Pattern, subject: Seq<char>) -> bool {
    match (op, pat) {
        (Op::Equal, Pattern::Exact(p)) => subject == p@,
        (Op::NotEqual, Pattern::Exact(p)) => subject != p@,
        (Op::Regex, Pattern::Regex(p)) => regex_accepts(p.text(), subject),
        (Op::NotRegex, Pattern::Regex(p)) => !regex_accepts(p.text(), subject),
        (Op::Glob, Pattern::Glob(p)) => glob_accepts(p.text(), subject),
        (Op::NotGlob, Pattern::Glob(p)) => !glob_accepts(p.text(), subject),
        (Op::InSet, Pattern::StringSet(s)) => set_contains(s@, subject),
        (Op::InSet, Pattern::Exact(p)) => subject == p@,
        (Op::NotInSet, Pattern::StringSet(s)) => !set_contains(s@, subject),
        (Op::NotInSet, Pattern::Exact(p)) => subject != p@,
        _ => false,
    }
}

/// What the rule says of `subject`.
pub open spec fn filter_matches(f: &Filter, subject: Seq<char>) -> bool {
    op_matches(f.op, &f.pat, subject)
}

pub open spec fn path_eq(a: Option<String>, b: Option<String>) -> bool {
    match (a, b) {
        (Some(l), Some(r)) => l@ == r@,
        (None, None) => true,
        _ => false,
    }
}

/// Rules are equal when all their fields are, patterns compared by
/// `pattern_eq`.
pub open spec fn filter_eq(a: &Filter, b: &Filter) -> bool {
    &&& path_eq(a.in_path, b.in_path)
    &&& a.on == b.on
    &&& a.op == b.op
    &&& pattern_eq(&a.pat, &b.pat)
    &&& a.negate == b.negate
}

impl Filter {
    /// Applies the rule's operator and pattern to `subject`.
    pub fn matches(&self, subject: &str) -> (r: bool)
        ensures
            r == filter_matches(self, subject@),
    {
        match (self.op, &self.pat) {
            (Op::Equal, Pattern::Exact(p)) => str_eq(subject, p.as_str()),
            (Op::NotEqual, Pattern::Exact(p)) => !str_eq(subject, p.as_str()),
            (Op::Regex, Pattern::Regex(p)) => p.is_match(subject),
            (Op::NotRegex, Pattern::Regex(p)) => !p.is_match(subject),
            (Op::Glob, Pattern::Glob(p)) => p.is_match(subject),
            (Op::NotGlob, Pattern::Glob(p)) => !p.is_match(subject),
            (Op::InSet, Pattern::StringSet(s)) => set_has(s, &subject.to_owned()),
            (Op::InSet, Pattern::Exact(p)) => str_eq(subject, p.as_str()),
            (Op::NotInSet, Pattern::StringSet(s)) => !set_has(s, &subject.to_owned()),
            (Op::NotInSet, Pattern::Exact(p)) => !str_eq(subject, p.as_str()),
            _ => false,
        }
    }
}

impl Clone for Filter {
    fn clone(&self) -> (r: Filter)
        ensures
            filter_eq(&r, self),
    {
        let in_path = match &self.in_path {
            Some(p) => Some(p.clone()),
            None => None,
        };
        Filter { in_path, on: self.on, op: self.op, pat: self.pat.clone(), negate: self.negate }
    }
}

impl PartialEq for Filter {
    fn eq(&self, other: &Filter) -> (r: bool) {
        let same_path = match (&self.in_path, &other.in_path) {
            (Some(l), Some(r)) => str_eq(l.as_str(), r.as_str()),
            (None, None) => true,
            _ => false,
        };
        same_path && self.on == other.on && self.op == other.op && self.pat.eq(&other.pat)
            && self.negate == other.negate
    }
}

impl vstd::std_specs::cmp::PartialEqSpecImpl for Filter {
    open spec fn obeys_eq_spec() -> bool {
        true
    }

    open spec fn eq_spec(&self, other: &Filter) -> bool {
        filter_eq(self, other)
    }
}

impl Eq for Filter {}

} // verus!
