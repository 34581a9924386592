//! The rule set: for each dimension, its rules in the order they were added.

use vstd::prelude::*;

use crate::filter::{filter_eq, Filter, Matcher};

verus! {

/// `rules` without those equal to `f`, the others kept in order.
pub open spec fn without(rules: Seq<Filter>, f: &Filter) -> Seq<Filter>
    decreases rules.len(),
{
    if rules.len() == 0 {
        rules
    } else {
        let rest = without(rules.drop_last(), f);
        if filter_eq(&rules.last(), f) {
            rest
        } else {
            rest.push(rules.last())
        }
    }
}

/// Every one of `rules` targets `m`.
pub open spec fn all_on(rules: Seq<Filter>, m: Matcher) -> bool {
    forall|i: int| 0 <= i < rules.len() ==> (#[trigger] rules[i]).on == m
}

/// The two hold rules equal one for one, in the same order.
pub open spec fn equivalent(a: Seq<Filter>, b: Seq<Filter>) -> bool {
    &&& a.len() == b.len()
    &&& forall|i: int| 0 <= i < a.len() ==> filter_eq(&#[trigger] a[i], &b[i])
}

/// A copy of each rule, in order.
fn copy_rules(v: &Vec<Filter>) -> (r: Vec<Filter>)
    ensures
        equivalent(r@, v@),
{
    let mut r: Vec<Filter> = Vec::new();
    let mut i: usize = 0;
    while i < v.len()
        invariant
            0 <= i <= v.len(),
            r@.len() == i,
            forall|j: int| 0 <= j < i ==> filter_eq(&#[trigger] r@[j], &v@[j]),
        decreases v.len() - i,
    {
        r.push(v[i].clone());
        i = i + 1;
    }
    r
}

/// Rules grouped by the dimension they target. A dimension with no rules is
/// the same as one absent from the mapping.
#[derive(Debug)]
pub struct Rules {
    tag: Vec<Filter>,
    path: Vec<Filter>,
    file_event_kind: Vec<Filter>,
    source: Vec<Filter>,
    process: Vec<Filter>,
    signal: Vec<Filter>,
    process_completion: Vec<Filter>,
}

/// Removes from `rules` every rule equal to `f`, keeping the others in order.
fn retain_unequal(rules: &mut Vec<Filter>, f: &Filter)
    ensures
        final(rules)@ == without(old(rules)@, f),
{
    let ghost all = rules@;
    let mut rest: Vec<Filter> = Vec::new();
    std::mem::swap(rules, &mut rest);
    let mut kept: Vec<Filter> = Vec::new();
    let ghost mut done: int = 0;
    while rest.len() > 0
        invariant
            0 <= done <= all.len(),
            rest@ == all.skip(done),
            kept@ == without(all.take(done), f),
        decreases rest.len(),
    {
        let x = rest.remove(0);
        proof {
            assert(x == all[done]);
            assert(all.take(done + 1).drop_last() =~= all.take(done));
            assert(all.take(done + 1).last() == all[done]);
        }
        if !x.eq(f) {
            kept.push(x);
        }
        proof {
            done = done + 1;
            assert(rest@ =~= all.skip(done));
        }
    }
    proof {
        assert(all.take(done) =~= all);
    }
    *rules = kept;
}

impl Clone for Rules {
    fn clone(&self) -> (r: Rules)
        ensures
            forall|m: Matcher| equivalent(#[trigger] r.rules_for(m), self.rules_for(m)),
    {
        proof {
            use_type_invariant(self);
        }
        Rules {
            tag: copy_rules(&self.tag),
            path: copy_rules(&self.path),
            file_event_kind: copy_rules(&self.file_event_kind),
            source: copy_rules(&self.source),
            process: copy_rules(&self.process),
            signal: copy_rules(&self.signal),
            process_completion: copy_rules(&self.process_completion),
        }
    }
}

impl Rules {
    /// The rules that target `m`, in the order they were added.
    pub closed spec fn rules_for(&self, m: Matcher) -> Seq<Filter> {
        match m {
            Matcher::Tag => self.tag@,
            Matcher::Path => self.path@,
            Matcher::FileEventKind => self.file_event_kind@,
            Matcher::Source => self.source@,
            Matcher::Process => self.process@,
            Matcher::Signal => self.signal@,
            Matcher::ProcessCompletion => self.process_completion@,
        }
    }

    /// Every rule stands under the dimension it targets.
    #[verifier::type_invariant]
    closed spec fn wf(&self) -> bool {
        &&& all_on(self.tag@, Matcher::Tag)
        &&& all_on(self.path@, Matcher::Path)
        &&& all_on(self.file_event_kind@, Matcher::FileEventKind)
        &&& all_on(self.source@, Matcher::Source)
        &&& all_on(self.process@, Matcher::Process)
        &&& all_on(self.signal@, Matcher::Signal)
        &&& all_on(self.process_completion@, Matcher::ProcessCompletion)
    }

    /// No dimension has a rule.
    pub open spec fn is_empty_spec(&self) -> bool {
        forall|m: Matcher| #[trigger] self.rules_for(m).len() == 0
    }

    /// The two hold the same rules, in the same order, for every dimension.
    pub open spec fn same_as(&self, other: &Rules) -> bool {
        forall|m: Matcher| #[trigger] self.rules_for(m) == other.rules_for(m)
    }

    /// An empty rule set.
    pub fn new() -> (r: Rules)
        ensures
            r.is_empty_spec(),
    {
        Rules {
            tag: Vec::new(),
            path: Vec::new(),
            file_event_kind: Vec::new(),
            source: Vec::new(),
            process: Vec::new(),
            signal: Vec::new(),
            process_completion: Vec::new(),
        }
    }

    /// Whether no dimension has a rule.
    pub fn is_empty(&self) -> (r: bool)
        ensures
            r == self.is_empty_spec(),
    {
        let r = self.tag.len() == 0 && self.path.len() == 0 && self.file_event_kind.len() == 0
            && self.source.len() == 0 && self.process.len() == 0 && self.signal.len() == 0
            && self.process_completion.len() == 0;
        proof {
            if !r {
                if self.tag.len() != 0 {
                    assert(self.rules_for(Matcher::Tag).len() != 0);
                } else if self.path.len() != 0 {
                    assert(self.rules_for(Matcher::Path).len() != 0);
                } else if self.file_event_kind.len() != 0 {
                    assert(self.rules_for(Matcher::FileEventKind).len() != 0);
                } else if self.source.len() != 0 {
                    assert(self.rules_for(Matcher::Source).len() != 0);
                } else if self.process.len() != 0 {
                    assert(self.rules_for(Matcher::Process).len() != 0);
                } else if self.signal.len() != 0 {
                    assert(self.rules_for(Matcher::Signal).len() != 0);
                } else {
                    assert(self.rules_for(Matcher::ProcessCompletion).len() != 0);
                }
            }
        }
        r
    }

    /// The rules that target `m`.
    pub fn get(&self, m: Matcher) -> (r: &Vec<Filter>)
        ensures
            r@ == self.rules_for(m),
    {
        match m {
            Matcher::Tag => &self.tag,
            Matcher::Path => &self.path,
            Matcher::FileEventKind => &self.file_event_kind,
            Matcher::Source => &self.source,
            Matcher::Process => &self.process,
            Matcher::Signal => &self.signal,
            Matcher::ProcessCompletion => &self.process_completion,
        }
    }

    /// Takes the rules of dimension `m` out, leaving none there.
    fn take(&mut self, m: Matcher) -> (r: Vec<Filter>)
        ensures
            r@ == old(self).rules_for(m),
            final(self).rules_for(m) == Seq::<Filter>::empty(),
            forall|n: Matcher| n != m ==> #[trigger] final(self).rules_for(n) == old(self).rules_for(n),
            all_on(r@, m),
    {
        proof {
            use_type_invariant(&*self);
        }
        let mut r: Vec<Filter> = Vec::new();
        match m {
            Matcher::Tag => std::mem::swap(&mut self.tag, &mut r),
            Matcher::Path => std::mem::swap(&mut self.path, &mut r),
            Matcher::FileEventKind => std::mem::swap(&mut self.file_event_kind, &mut r),
            Matcher::Source => std::mem::swap(&mut self.source, &mut r),
            Matcher::Process => std::mem::swap(&mut self.process, &mut r),
            Matcher::Signal => std::mem::swap(&mut self.signal, &mut r),
            Matcher::ProcessCompletion => std::mem::swap(&mut self.process_completion, &mut r),
        }
        r
    }

    /// Puts `rules` back as the rules of dimension `m`, which has none.
    fn put(&mut self, m: Matcher, rules: Vec<Filter>)
        requires
            old(self).rules_for(m) == Seq::<Filter>::empty(),
            all_on(rules@, m),
        ensures
            final(self).rules_for(m) == rules@,
            forall|n: Matcher| n != m ==> #[trigger] final(self).rules_for(n) == old(self).rules_for(n),
    {
        proof {
            use_type_invariant(&*self);
        }
        let mut rules = rules;
        match m {
            Matcher::Tag => std::mem::swap(&mut self.tag, &mut rules),
            Matcher::Path => std::mem::swap(&mut self.path, &mut rules),
            Matcher::FileEventKind => std::mem::swap(&mut self.file_event_kind, &mut rules),
            Matcher::Source => std::mem::swap(&mut self.source, &mut rules),
            Matcher::Process => std::mem::swap(&mut self.process, &mut rules),
            Matcher::Signal => std::mem::swap(&mut self.signal, &mut rules),
            Matcher::ProcessCompletion => std::mem::swap(&mut self.process_completion, &mut rules),
        }
    }

    /// Appends `f` to the rules of the dimension it targets.
    pub fn add(&mut self, f: Filter)
        ensures
            final(self).rules_for(f.on) == old(self).rules_for(f.on).push(f),
            forall|m: Matcher|
                m != f.on ==> #[trigger] final(self).rules_for(m) == old(self).rules_for(m),
    {
        let m = f.on;
        let mut slot = self.take(m);
        slot.push(f);
        self.put(m, slot);
    }

    /// Removes every rule equal to `f` from the rules of the dimension it
    /// targets.
    pub fn remove(&mut self, f: &Filter)
        ensures
            final(self).rules_for(f.on) == without(old(self).rules_for(f.on), f),
            forall|m: Matcher|
                m != f.on ==> #[trigger] final(self).rules_for(m) == old(self).rules_for(m),
    {
        let m = f.on;
        let mut slot = self.take(m);
        let ghost before = slot@;
        retain_unequal(&mut slot, f);
        proof {
            lemma_without_subseq(before, f);
            assert forall|i: int| 0 <= i < slot@.len() implies (#[trigger] slot@[i]).on == m by {
                let j = choose|j: int| 0 <= j < before.len() && #[trigger] slot@[i] == before[j];
                assert(before[j].on == m);
            }
        }
        self.put(m, slot);
    }
}

/// Every rule left by `without` was in `rules`.
pub proof fn lemma_without_subseq(rules: Seq<Filter>, f: &Filter)
    ensures
        forall|i: int|
            0 <= i < without(rules, f).len() ==> exists|j: int|
                0 <= j < rules.len() && #[trigger] without(rules, f)[i] == rules[j],
    decreases rules.len(),
{
    if rules.len() > 0 {
        lemma_without_subseq(rules.drop_last(), f);
        let rest = without(rules.drop_last(), f);
        assert forall|i: int| 0 <= i < without(rules, f).len() implies exists|j: int|
            0 <= j < rules.len() && #[trigger] without(rules, f)[i] == rules[j] by {
            if i < rest.len() {
                let j = choose|j: int|
                    0 <= j < rules.drop_last().len() && #[trigger] rest[i]
                        == rules.drop_last()[j];
                assert(without(rules, f)[i] == rules[j]);
            } else {
                assert(without(rules, f)[i] == rules[rules.len() - 1]);
            }
        }
    }
}

/// Every rule equals itself.
pub proof fn filter_eq_reflexive(f: &Filter)
    ensures
        filter_eq(f, f),
{
}

/// Removing a rule that the sequence does not hold changes nothing.
pub proof fn without_absent(rules: Seq<Filter>, f: &Filter)
    requires
        forall|i: int| 0 <= i < rules.len() ==> !filter_eq(&#[trigger] rules[i], f),
    ensures
        without(rules, f) == rules,
    decreases rules.len(),
{
    if rules.len() > 0 {
        without_absent(rules.drop_last(), f);
        assert(!filter_eq(&rules[rules.len() - 1], f));
        assert(rules.drop_last().push(rules.last()) =~= rules);
    }
}

/// Adding a rule that is not yet there and then removing it gives back the
/// rule set as it was, dimension by dimension and in order.
pub proof fn add_then_remove_restores(before: &Rules, added: &Rules, after: &Rules, r: &Filter)
    requires
        forall|i: int|
            0 <= i < before.rules_for(r.on).len() ==> !filter_eq(
                &#[trigger] before.rules_for(r.on)[i],
                r,
            ),
        added.rules_for(r.on) == before.rules_for(r.on).push(*r),
        forall|m: Matcher| m != r.on ==> #[trigger] added.rules_for(m) == before.rules_for(m),
        after.rules_for(r.on) == without(added.rules_for(r.on), r),
        forall|m: Matcher| m != r.on ==> #[trigger] after.rules_for(m) == added.rules_for(m),
    ensures
        after.same_as(before),
{
    let s = before.rules_for(r.on);
    assert(s.push(*r).drop_last() =~= s);
    filter_eq_reflexive(r);
    without_absent(s, r);
    assert forall|m: Matcher| #[trigger] after.rules_for(m) == before.rules_for(m) by {
        if m != r.on {
            assert(added.rules_for(m) == before.rules_for(m));
        }
    }
}

} // verus!
