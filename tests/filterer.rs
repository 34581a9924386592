use watchexec::event::{Event, Source, Tag};
use watchexec::filter::{Filter, Matcher};
use watchexec::pattern::{GlobPattern, Op, Pattern, RegexPattern};
use watchexec::store::Rules;
use watchexec::tagged::TaggedFilterer;

fn rule(on: Matcher, op: Op, pat: Pattern, negate: bool) -> Filter {
    Filter { in_path: None, on, op, pat, negate }
}

fn exact(s: &str) -> Pattern {
    Pattern::Exact(s.to_string())
}

fn set(items: &[&str]) -> Pattern {
    Pattern::StringSet(items.iter().map(|s| s.to_string()).collect())
}

fn filterer() -> TaggedFilterer {
    TaggedFilterer::new("/project".to_string(), "/project".to_string())
}

fn event(tags: Vec<Tag>) -> Event {
    Event { tags }
}

#[test]
fn empty_store_admits_everything() {
    let f = filterer();
    assert!(f.check_event(&event(vec![])));
    assert!(f.check_event(&event(vec![Tag::Process(1), Tag::Source(Source::Keyboard)])));
    assert!(f.check_event(&event(vec![Tag::Path("/a/b".to_string()), Tag::Signal(9)])));
}

#[test]
fn single_failing_rule_rejects() {
    let mut f = filterer();
    f.add_filter(rule(Matcher::FileEventKind, Op::Equal, exact("x"), false));
    let ev = event(vec![Tag::Source(Source::Filesystem), Tag::FileEventKind("y".to_string())]);
    assert!(!f.check_event(&ev));
    let ok = event(vec![Tag::Source(Source::Filesystem), Tag::FileEventKind("x".to_string())]);
    assert!(f.check_event(&ok));
}

#[test]
fn negation_overrides_same_dimension() {
    let mut f = filterer();
    f.add_filter(rule(Matcher::FileEventKind, Op::Equal, exact("a"), false));
    f.add_filter(rule(Matcher::FileEventKind, Op::Equal, exact("b"), true));
    assert!(f.check_event(&event(vec![Tag::FileEventKind("b".to_string())])));
    assert!(f.check_event(&event(vec![Tag::FileEventKind("a".to_string())])));
    assert!(!f.check_event(&event(vec![Tag::FileEventKind("c".to_string())])));
}

#[test]
fn first_failing_tag_rejects_event() {
    let mut f = filterer();
    f.add_filter(rule(Matcher::Source, Op::Equal, exact("filesystem"), false));
    f.add_filter(rule(Matcher::Process, Op::Equal, exact("42"), false));
    // The third tag would pass; the second already fails.
    let ev = event(vec![
        Tag::Source(Source::Filesystem),
        Tag::Process(7),
        Tag::Process(42),
    ]);
    assert!(!f.check_event(&ev));
    let later = event(vec![Tag::Source(Source::Filesystem), Tag::Process(42), Tag::Process(7)]);
    assert!(!f.check_event(&later));
    let all = event(vec![Tag::Source(Source::Filesystem), Tag::Process(42)]);
    assert!(f.check_event(&all));
}

#[test]
fn rule_order_changes_outcome() {
    let plain = rule(Matcher::FileEventKind, Op::Equal, exact("a"), false);
    let negated = rule(Matcher::FileEventKind, Op::Equal, exact("b"), true);
    let mut first = filterer();
    first.add_filter(plain.clone());
    first.add_filter(negated.clone());
    let mut second = filterer();
    second.add_filter(negated);
    second.add_filter(plain);
    let ev = event(vec![Tag::FileEventKind("b".to_string())]);
    assert!(first.check_event(&ev));
    assert!(!second.check_event(&ev));
}

#[test]
fn snapshot_is_unchanged_by_later_add() {
    let mut f = filterer();
    f.add_filter(rule(Matcher::Source, Op::Equal, exact("keyboard"), true));
    let snapshot = f.clone();
    f.add_filter(rule(Matcher::Process, Op::Equal, exact("1"), false));
    let ev = event(vec![Tag::Process(2)]);
    assert!(snapshot.check_event(&ev));
    assert!(!f.check_event(&ev));
}

#[test]
fn add_then_remove_restores() {
    let mut f = filterer();
    let kept = rule(Matcher::Process, Op::NotEqual, exact("3"), false);
    f.add_filter(kept.clone());
    let r = rule(Matcher::Process, Op::InSet, set(&["1", "2"]), false);
    f.add_filter(r.clone());
    assert_eq!(f.filters().get(Matcher::Process).len(), 2);
    f.remove_filter(&r);
    let left = f.filters().get(Matcher::Process);
    assert_eq!(left.len(), 1);
    assert!(left[0] == kept);
    assert!(f.check_event(&event(vec![Tag::Process(5)])));
}

#[test]
fn remove_takes_every_equal_rule() {
    let mut rules = Rules::new();
    let r = rule(Matcher::Source, Op::Equal, exact("os"), false);
    rules.add(r.clone());
    rules.add(rule(Matcher::Source, Op::Equal, exact("time"), false));
    rules.add(r.clone());
    rules.remove(&r);
    assert_eq!(rules.get(Matcher::Source).len(), 1);
    assert!(!rules.is_empty());
}

#[test]
fn clear_filters_empties_store() {
    let mut f = filterer();
    f.add_filter(rule(Matcher::Process, Op::Equal, exact("1"), false));
    assert!(!f.check_event(&event(vec![Tag::Process(2)])));
    f.clear_filters();
    assert!(f.filters().is_empty());
    assert!(f.check_event(&event(vec![Tag::Process(2)])));
}

#[test]
fn pattern_equality_by_source_text() {
    let a = Pattern::Regex(RegexPattern::new("a+b").unwrap());
    let b = Pattern::Regex(RegexPattern::new("a+b").unwrap());
    let c = Pattern::Regex(RegexPattern::new("aa*b").unwrap());
    assert!(a == b);
    assert!(a != c);
    let g = Pattern::Glob(GlobPattern::new("*.rs").unwrap());
    let h = Pattern::Glob(GlobPattern::new("*.rs").unwrap());
    let k = Pattern::Glob(GlobPattern::new("*.[r]s").unwrap());
    assert!(g == h);
    assert!(g != k);
    assert!(exact("a+b") != a);
    assert!(set(&["x", "y"]) == set(&["y", "x", "y"]));
    assert!(set(&["x"]) != set(&["x", "y"]));
}

#[test]
fn invalid_patterns_are_refused() {
    assert!(RegexPattern::new("(").is_none());
    assert!(GlobPattern::new("a[").is_none());
}

#[test]
fn deeply_nested_glob_is_refused_not_panicking() {
    let depth = 200;
    let mut source = String::new();
    for _ in 0..depth {
        source.push_str("{a,");
    }
    source.push('a');
    for _ in 0..depth {
        source.push('}');
    }
    assert!(GlobPattern::new(&source).is_none());
}

#[test]
fn overlong_glob_is_refused() {
    let limit = watchexec::pattern::MAX_GLOB_LEN;
    let long = "a".repeat(limit + 1);
    assert!(GlobPattern::new(&long).is_none());
    let longest = "a".repeat(limit);
    let p = GlobPattern::new(&longest).unwrap();
    assert_eq!(p.as_str().len(), limit);
}

#[test]
fn operator_table() {
    let m = |op: Op, pat: Pattern, s: &str| rule(Matcher::Source, op, pat, false).matches(s);
    assert!(m(Op::Equal, exact("x"), "x"));
    assert!(!m(Op::Equal, exact("x"), "y"));
    assert!(m(Op::NotEqual, exact("x"), "y"));
    assert!(!m(Op::NotEqual, exact("x"), "x"));
    let re = || Pattern::Regex(RegexPattern::new("^ab+c$").unwrap());
    assert!(m(Op::Regex, re(), "abbc"));
    assert!(!m(Op::Regex, re(), "ac"));
    assert!(m(Op::NotRegex, re(), "ac"));
    let gl = || Pattern::Glob(GlobPattern::new("*.rs").unwrap());
    assert!(m(Op::Glob, gl(), "main.rs"));
    assert!(!m(Op::Glob, gl(), "main.go"));
    assert!(m(Op::NotGlob, gl(), "main.go"));
    assert!(m(Op::InSet, set(&["a", "b"]), "b"));
    assert!(!m(Op::InSet, set(&["a", "b"]), "c"));
    assert!(m(Op::NotInSet, set(&["a", "b"]), "c"));
    assert!(m(Op::InSet, exact("a"), "a"));
    assert!(m(Op::NotInSet, exact("a"), "b"));
    // Pairs that do not fit never match.
    assert!(!m(Op::Regex, exact("x"), "x"));
    assert!(!m(Op::Equal, set(&["x"]), "x"));
    assert!(!m(Op::Auto, exact("x"), "x"));
    assert!(!m(Op::Glob, re(), "abc"));
}

#[test]
fn tag_subjects() {
    assert_eq!(Tag::Process(1234).subject(Matcher::Process), Some("1234".to_string()));
    assert_eq!(Tag::Process(0).subject(Matcher::Process), Some("0".to_string()));
    assert_eq!(
        Tag::Source(Source::Filesystem).subject(Matcher::Source),
        Some("filesystem".to_string())
    );
    assert_eq!(
        Tag::FileEventKind("Create(File)".to_string()).subject(Matcher::FileEventKind),
        Some("Create(File)".to_string())
    );
    assert_eq!(Tag::Signal(1).subject(Matcher::Tag), Some("Signal".to_string()));
    assert_eq!(Tag::Path("/x".to_string()).subject(Matcher::Path), None);
    assert_eq!(Tag::Signal(1).subject(Matcher::Signal), None);
    assert_eq!(Tag::ProcessCompletion(Some(0)).subject(Matcher::ProcessCompletion), None);
    assert_eq!(Tag::Process(1).subject(Matcher::Source), None);
    assert_eq!(Matcher::from(&Tag::Process(1)), Matcher::Process);
    assert_eq!(Tag::ProcessCompletion(None).discriminant_name(), "ProcessCompletion");
}

#[test]
fn undefined_extraction_skips_rule() {
    let mut f = filterer();
    f.add_filter(rule(Matcher::Path, Op::Equal, exact("/nope"), false));
    f.add_filter(rule(Matcher::Signal, Op::Equal, exact("nope"), false));
    let ev = event(vec![Tag::Path("/x".to_string()), Tag::Signal(15)]);
    assert!(f.check_event(&ev));
}

#[test]
fn process_regex_rule() {
    let mut f = filterer();
    let re = RegexPattern::new("^1[0-9]$").unwrap();
    f.add_filter(rule(Matcher::Process, Op::Regex, Pattern::Regex(re), false));
    assert!(f.check_event(&event(vec![Tag::Process(15)])));
    assert!(!f.check_event(&event(vec![Tag::Process(150)])));
}
