//! The filterer: judges an event's tags against the rule set.

use vstd::prelude::*;

use crate::event::{tag_matcher, tag_subject, Event, Tag};
use crate::filter::{filter_eq, filter_matches, Filter, Matcher};
use crate::pattern::{set_contains, Op, Pattern};
use crate::store::{equivalent, Rules};

verus! {

/// Folds one rule into a tag's verdict so far. A rule with no subject on
/// this tag leaves it alone; a negated rule that matches forces a pass and
/// one that misses leaves it alone; any other rule must match as well.
pub open spec fn step(acc: bool, f: &Filter, t: &Tag) -> bool {
    match tag_subject(t, f.on) {
        None => acc,
        Some(s) => if f.negate {
            acc || filter_matches(f, s)
        } else {
            acc && filter_matches(f, s)
        },
    }
}

/// A tag's verdict after the first `n` of `rules`, in order.
pub open spec fn verdict_after(rules: Seq<Filter>, t: &Tag, n: nat) -> bool
    decreases n,
{
    if n == 0 {
        true
    } else {
        step(verdict_after(rules, t, (n - 1) as nat), &rules[n - 1], t)
    }
}

/// Whether a tag passes the rules that stand under its own dimension.
pub open spec fn tag_passes(rules: &Rules, t: Tag) -> bool {
    let rs = rules.rules_for(tag_matcher(&t));
    verdict_after(rs, &t, rs.len())
}

/// Whether an event is admitted: every one of its tags passes.
pub open spec fn event_passes(rules: &Rules, tags: Seq<Tag>) -> bool {
    forall|i: int| 0 <= i < tags.len() ==> tag_passes(rules, #[trigger] tags[i])
}

/// Judges events against a set of rules that can be edited between checks.
#[derive(Debug)]
pub struct TaggedFilterer {
    /// The directory the project is in, its root.
    root: String,
    /// Where the program is running from.
    workdir: String,
    /// All rules, in order, by dimension.
    filters: Rules,
}

/// What `f` says of `tag`: `None` where it has no subject on the tag.
fn match_tag(f: &Filter, tag: &Tag) -> (r: Option<bool>)
    ensures
        r == (match tag_subject(tag, f.on) {
            None => None,
            Some(s) => Some(filter_matches(f, s)),
        }),
{
    match tag.subject(f.on) {
        None => None,
        Some(s) => Some(f.matches(s.as_str())),
    }
}

/// Whether `tag` passes `rules`, taken in order.
fn check_tag(rules: &Vec<Filter>, tag: &Tag) -> (r: bool)
    ensures
        r == verdict_after(rules@, tag, rules@.len()),
{
    let mut tag_match = true;
    let mut i: usize = 0;
    while i < rules.len()
        invariant
            0 <= i <= rules.len(),
            tag_match == verdict_after(rules@, tag, i as nat),
        decreases rules.len() - i,
    {
        let f = &rules[i];
        match match_tag(f, tag) {
            Some(applies) => {
                if f.negate {
                    if applies {
                        tag_match = true;
                    }
                } else {
                    tag_match = tag_match && applies;
                }
            },
            None => {},
        }
        i = i + 1;
    }
    tag_match
}

/// The two rule sets hold, dimension by dimension, rules equal one for one.
pub open spec fn equivalent_rules(a: &Rules, b: &Rules) -> bool {
    forall|m: Matcher| equivalent(#[trigger] a.rules_for(m), b.rules_for(m))
}

impl Clone for TaggedFilterer {
    /// A snapshot: later edits of either copy leave the other alone.
    fn clone(&self) -> (r: TaggedFilterer)
        ensures
            equivalent_rules(&r.rules(), &self.rules()),
            r.root_path() == self.root_path(),
            r.workdir_path() == self.workdir_path(),
    {
        TaggedFilterer {
            root: self.root.clone(),
            workdir: self.workdir.clone(),
            filters: self.filters.clone(),
        }
    }
}

impl TaggedFilterer {
    pub closed spec fn rules(&self) -> Rules {
        self.filters
    }

    pub closed spec fn root_path(&self) -> Seq<char> {
        self.root@
    }

    pub closed spec fn workdir_path(&self) -> Seq<char> {
        self.workdir@
    }

    /// A filterer with no rules, for the project at `root` run from `workdir`.
    pub fn new(root: String, workdir: String) -> (r: TaggedFilterer)
        ensures
            r.rules().is_empty_spec(),
            r.root_path() == root@,
            r.workdir_path() == workdir@,
    {
        TaggedFilterer { root, workdir, filters: Rules::new() }
    }

    /// The rule set this filterer judges by.
    pub fn filters(&self) -> (r: &Rules)
        ensures
            *r == self.rules(),
    {
        &self.filters
    }

    /// Whether the event is admitted. With no rules at all every event is;
    /// otherwise tags are judged in order and the first that fails rejects
    /// the event.
    pub fn check_event(&self, event: &Event) -> (r: bool)
        ensures
            r == event_passes(&self.rules(), event.tags@),
    {
        if self.filters.is_empty() {
            proof {
                assert forall|i: int| 0 <= i < event.tags@.len() implies tag_passes(
                    &self.rules(),
                    #[trigger] event.tags@[i],
                ) by {
                    assert(self.rules().rules_for(tag_matcher(&event.tags@[i])).len() == 0);
                }
            }
            return true;
        }
        let mut i: usize = 0;
        while i < event.tags.len()
            invariant
                0 <= i <= event.tags.len(),
                forall|j: int| 0 <= j < i ==> tag_passes(&self.rules(), #[trigger] event.tags@[j]),
            decreases event.tags.len() - i,
        {
            let tag = &event.tags[i];
            let rules = self.filters.get(tag.matcher());
            if !check_tag(rules, tag) {
                return false;
            }
            i = i + 1;
        }
        true
    }

    /// Appends `filter` to the rules of the dimension it targets.
    pub fn add_filter(&mut self, filter: Filter)
        ensures
            final(self).rules().rules_for(filter.on) == old(self).rules().rules_for(
                filter.on,
            ).push(filter),
            forall|m: Matcher|
                m != filter.on ==> #[trigger] final(self).rules().rules_for(m) == old(
                    self,
                ).rules().rules_for(m),
            final(self).root_path() == old(self).root_path(),
            final(self).workdir_path() == old(self).workdir_path(),
    {
        self.filters.add(filter);
    }

    /// Removes every rule equal to `filter` from the rules of the dimension it
    /// targets; the others keep their order.
    pub fn remove_filter(&mut self, filter: &Filter)
        ensures
            final(self).rules().rules_for(filter.on) == crate::store::without(
                old(self).rules().rules_for(filter.on),
                filter,
            ),
            forall|m: Matcher|
                m != filter.on ==> #[trigger] final(self).rules().rules_for(m) == old(
                    self,
                ).rules().rules_for(m),
            final(self).root_path() == old(self).root_path(),
            final(self).workdir_path() == old(self).workdir_path(),
    {
        self.filters.remove(filter);
    }

    /// Removes all rules.
    pub fn clear_filters(&mut self)
        ensures
            final(self).rules().is_empty_spec(),
            final(self).root_path() == old(self).root_path(),
            final(self).workdir_path() == old(self).workdir_path(),
    {
        self.filters = Rules::new();
    }
}

/// With no rules at all, every event is admitted.
pub proof fn empty_store_admits_everything(rules: &Rules, tags: Seq<Tag>)
    requires
        rules.is_empty_spec(),
    ensures
        event_passes(rules, tags),
{
    assert forall|i: int| 0 <= i < tags.len() implies tag_passes(rules, #[trigger] tags[i]) by {
        assert(rules.rules_for(tag_matcher(&tags[i])).len() == 0);
    }
}

/// A plain equality rule whose literal differs from what the tag gives, last
/// among the rules of the tag's dimension, fails that tag, and with it the
/// whole event whatever its other tags are.
pub proof fn failing_rule_rejects(rules: &Rules, tags: Seq<Tag>, i: int, x: Seq<char>, y: Seq<char>)
    requires
        0 <= i < tags.len(),
        rules.rules_for(tag_matcher(&tags[i])).len() > 0,
        ({
            let r = rules.rules_for(tag_matcher(&tags[i])).last();
            &&& r.on == tag_matcher(&tags[i])
            &&& r.op == Op::Equal
            &&& r.pat matches Pattern::Exact(p) && p@ == x
            &&& !r.negate
        }),
        tag_subject(&tags[i], tag_matcher(&tags[i])) == Some(y),
        x != y,
    ensures
        !tag_passes(rules, tags[i]),
        !event_passes(rules, tags),
{
}

/// A negated rule that matches, last among the rules of the tag's
/// dimension, passes the tag whatever the rules before it said.
pub proof fn negation_overrides(rules: &Rules, t: Tag, s: Seq<char>)
    requires
        rules.rules_for(tag_matcher(&t)).len() > 0,
        rules.rules_for(tag_matcher(&t)).last().negate,
        tag_subject(&t, rules.rules_for(tag_matcher(&t)).last().on) == Some(s),
        filter_matches(&rules.rules_for(tag_matcher(&t)).last(), s),
    ensures
        tag_passes(rules, t),
{
}

/// Once a tag fails, the tags after it do not matter: any two events that
/// agree up to and including that tag are both rejected.
pub proof fn first_failing_tag_decides(rules: &Rules, tags: Seq<Tag>, other: Seq<Tag>, i: int)
    requires
        0 <= i < tags.len(),
        i < other.len(),
        tags.take(i + 1) == other.take(i + 1),
        !tag_passes(rules, tags[i]),
    ensures
        !event_passes(rules, tags),
        !event_passes(rules, other),
{
    assert(tags[i] == tags.take(i + 1)[i]);
    assert(other[i] == other.take(i + 1)[i]);
}

/// Equal rules say the same of every subject.
pub proof fn equal_rules_match_alike(f: &Filter, g: &Filter, s: Seq<char>)
    requires
        filter_eq(f, g),
    ensures
        filter_matches(f, s) == filter_matches(g, s),
{
    if let (Pattern::StringSet(a), Pattern::StringSet(b)) = (f.pat, g.pat) {
        assert(set_contains(a@, s) == set_contains(b@, s));
    }
}

/// Rules equal one for one give every tag the same verdict.
pub proof fn equivalent_rules_judge_alike(a: Seq<Filter>, b: Seq<Filter>, t: &Tag, n: nat)
    requires
        equivalent(a, b),
        n <= a.len(),
    ensures
        verdict_after(a, t, n) == verdict_after(b, t, n),
    decreases n,
{
    if n > 0 {
        equivalent_rules_judge_alike(a, b, t, (n - 1) as nat);
        let f = a[n - 1];
        let g = b[n - 1];
        assert(filter_eq(&f, &g));
        match tag_subject(t, f.on) {
            Some(s) => equal_rules_match_alike(&f, &g, s),
            None => {},
        }
    }
}

/// A snapshot judges every event as the rule set it was taken from did at
/// that moment, whatever edits follow.
pub proof fn snapshot_judges_alike(snapshot: &Rules, taken_from: &Rules, tags: Seq<Tag>)
    requires
        equivalent_rules(snapshot, taken_from),
    ensures
        event_passes(snapshot, tags) == event_passes(taken_from, tags),
{
    assert forall|i: int| 0 <= i < tags.len() implies tag_passes(snapshot, #[trigger] tags[i])
        == tag_passes(taken_from, tags[i]) by {
        let m = tag_matcher(&tags[i]);
        assert(equivalent(snapshot.rules_for(m), taken_from.rules_for(m)));
        equivalent_rules_judge_alike(
            snapshot.rules_for(m),
            taken_from.rules_for(m),
            &tags[i],
            snapshot.rules_for(m).len(),
        );
    }
}

} // verus!
