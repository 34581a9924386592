//! Events and their tags, and the subject each rule dimension reads off a tag.

use vstd::prelude::*;
use vstd::string::*;

use crate::filter::Matcher;

verus! {

/// Where an event came from.
#[derive(Clone, Copy, Debug, PartialEq, Eq, Hash, Structural)]
#[non_exhaustive]
pub enum Source {
    Filesystem,
    Keyboard,
    Mouse,
    Os,
    Time,
    Internal,
}

/// One fact about an event.
#[derive(Clone, Debug)]
#[non_exhaustive]
pub enum Tag {
    /// A filesystem path.
    Path(String),
    /// The kind of change, as rendered by the watcher that saw it.
    FileEventKind(String),
    /// Where the event came from.
    Source(Source),
    /// A process identifier.
    Process(u32),
    /// A signal delivered, by number.
    Signal(i32),
    /// A process ended, with its exit code where it has one.
    ProcessCompletion(Option<i32>),
}

/// An observed occurrence: its tags, in order.
#[derive(Clone, Debug)]
pub struct Event {
    pub tags: Vec<Tag>,
}

pub open spec fn source_name(s: Source) -> Seq<char> {
    match s {
        Source::Filesystem => "filesystem"@,
        Source::Keyboard => "keyboard"@,
        Source::Mouse => "mouse"@,
        Source::Os => "os"@,
        Source::Time => "time"@,
        Source::Internal => "internal"@,
    }
}

impl Source {
    /// The source's lower-case name.
    pub fn name(&self) -> (r: &'static str)
        ensures
            r@ == source_name(*self),
    {
        match self {
            Source::Filesystem => "filesystem",
            Source::Keyboard => "keyboard",
            Source::Mouse => "mouse",
            Source::Os => "os",
            Source::Time => "time",
            Source::Internal => "internal",
        }
    }
}

/// The name of the tag's kind, the subject of the `Matcher::Tag` dimension.
pub open spec fn kind_name(t: &Tag) -> Seq<char> {
    match t {
        Tag::Path(_) => "Path"@,
        Tag::FileEventKind(_) => "FileEventKind"@,
        Tag::Source(_) => "Source"@,
        Tag::Process(_) => "Process"@,
        Tag::Signal(_) => "Signal"@,
        Tag::ProcessCompletion(_) => "ProcessCompletion"@,
    }
}

/// The dimension that a tag of this kind belongs to.
pub open spec fn tag_matcher(t: &Tag) -> Matcher {
    match t {
        Tag::Path(_) => Matcher::Path,
        Tag::FileEventKind(_) => Matcher::FileEventKind,
        Tag::Source(_) => Matcher::Source,
        Tag::Process(_) => Matcher::Process,
        Tag::Signal(_) => Matcher::Signal,
        Tag::ProcessCompletion(_) => Matcher::ProcessCompletion,
    }
}

pub open spec fn digit_char(d: nat) -> char {
    if d == 0 { '0' }
    else if d == 1 { '1' }
    else if d == 2 { '2' }
    else if d == 3 { '3' }
    else if d == 4 { '4' }
    else if d == 5 { '5' }
    else if d == 6 { '6' }
    else if d == 7 { '7' }
    else if d == 8 { '8' }
    else { '9' }
}

/// `n` in decimal digits, without sign or leading zeros.
pub open spec fn decimal(n: nat) -> Seq<char>
    decreases n,
{
    if n < 10 {
        seq![digit_char(n)]
    } else {
        decimal(n / 10).push(digit_char(n % 10))
    }
}

/// `n` in decimal digits.
fn decimal_string(n: u32) -> (r: String)
    ensures
        r@ == decimal(n as nat),
    decreases n,
{
    let digits = "0123456789";
    proof {
        reveal_strlit("0123456789");
    }
    let d = (n % 10) as usize;
    let digit = digits.substring_char(d, d + 1);
    proof {
        assert(digit@ =~= seq![digit_char(d as nat)]);
    }
    if n < 10 {
        digit.to_owned()
    } else {
        let mut r = decimal_string(n / 10);
        r.append(digit);
        proof {
            assert(r@ =~= decimal((n / 10) as nat).push(digit_char((n % 10) as nat)));
        }
        r
    }
}

/// What a rule on dimension `on` compares against for this tag; `None` where
/// the pair has no defined subject, and the rule is then skipped.
pub open spec fn tag_subject(t: &Tag, on: Matcher) -> Option<Seq<char>> {
    match (t, on) {
        (_, Matcher::Tag) => Some(kind_name(t)),
        (Tag::FileEventKind(k), Matcher::FileEventKind) => Some(k@),
        (Tag::Source(s), Matcher::Source) => Some(source_name(*s)),
        (Tag::Process(p), Matcher::Process) => Some(decimal(*p as nat)),
        _ => None,
    }
}

impl Tag {
    /// The name of the tag's kind.
    pub fn discriminant_name(&self) -> (r: &'static str)
        ensures
            r@ == kind_name(self),
    {
        match self {
            Tag::Path(_) => "Path",
            Tag::FileEventKind(_) => "FileEventKind",
            Tag::Source(_) => "Source",
            Tag::Process(_) => "Process",
            Tag::Signal(_) => "Signal",
            Tag::ProcessCompletion(_) => "ProcessCompletion",
        }
    }

    /// The dimension of this tag's kind.
    pub fn matcher(&self) -> (r: Matcher)
        ensures
            r == tag_matcher(self),
    {
        match self {
            Tag::Path(_) => Matcher::Path,
            Tag::FileEventKind(_) => Matcher::FileEventKind,
            Tag::Source(_) => Matcher::Source,
            Tag::Process(_) => Matcher::Process,
            Tag::Signal(_) => Matcher::Signal,
            Tag::ProcessCompletion(_) => Matcher::ProcessCompletion,
        }
    }

    /// The subject a rule on dimension `on` reads off this tag, if any.
    pub fn subject(&self, on: Matcher) -> (r: Option<String>)
        ensures
            r matches Some(s) ==> tag_subject(self, on) == Some(s@),
            r is None ==> tag_subject(self, on) is None,
    {
        match (self, on) {
            (_, Matcher::Tag) => Some(self.discriminant_name().to_owned()),
            (Tag::FileEventKind(k), Matcher::FileEventKind) => Some(k.clone()),
            (Tag::Source(s), Matcher::Source) => Some(s.name().to_owned()),
            (Tag::Process(p), Matcher::Process) => Some(decimal_string(*p)),
            _ => None,
        }
    }
}

impl<'a> From<&'a Tag> for Matcher {
    fn from(tag: &'a Tag) -> (r: Matcher) {
        tag.matcher()
    }
}

impl<'a> vstd::std_specs::convert::FromSpecImpl<&'a Tag> for Matcher {
    open spec fn obeys_from_spec() -> bool {
        true
    }

    open spec fn from_spec(tag: &'a Tag) -> Matcher {
        tag_matcher(tag)
    }
}

} // verus!
