//! The filters, and what is done with each item that a walk yields.
//!
//! The name filter applies to entries of every kind alike (directories,
//! files, links and others), and always to the base name, never to the
//! full path.

use crate::config::Config;
use crate::entry::{kind_type, type_selects, Action, EntryInfo, EntryKind, EntryType, WalkEvent};
use crate::pattern::pattern_matches;
use vstd::prelude::*;

verus! {

/// The type filter: no filters, or one of them selects the kind.
pub open spec fn type_passes(types: Seq<EntryType>, k: EntryKind) -> bool {
    types.len() == 0 || exists|i: int| 0 <= i < types.len() && type_selects(#[trigger] types[i], k)
}

/// The name filter: no patterns, or one of them matches the base name.
pub open spec fn name_passes(names: Seq<Seq<char>>, base: Seq<char>) -> bool {
    names.len() == 0 || exists|i: int|
        0 <= i < names.len() && pattern_matches(#[trigger] names[i], base)
}

/// Whether an entry is written: it passes both filters.
pub open spec fn entry_passes(names: Seq<Seq<char>>, types: Seq<EntryType>, e: EntryInfo) -> bool {
    type_passes(types, e.kind) && name_passes(names, e.name@)
}

/// What is done with one item of a walk: a passing entry's path goes to
/// standard output, an error's description to standard error.
pub open spec fn action_for(names: Seq<Seq<char>>, types: Seq<EntryType>, ev: WalkEvent) -> Action {
    match ev {
        WalkEvent::Entry(e) => if entry_passes(names, types, e) {
            Action::Print(e.path)
        } else {
            Action::Skip
        },
        WalkEvent::Failed(m) => Action::Report(m),
    }
}

/// What is done with each item of a walk, in order.
pub open spec fn actions_for(names: Seq<Seq<char>>, types: Seq<EntryType>, evs: Seq<WalkEvent>) -> Seq<
    Action,
> {
    evs.map_values(|ev: WalkEvent| action_for(names, types, ev))
}

impl Config {
    /// Whether an entry of kind `k` passes the type filter.
    pub fn type_filter_passes(&self, k: EntryKind) -> (r: bool)
        ensures
            r == type_passes(self.types_view(), k),
    {
        let types = self.entry_types();
        if types.len() == 0 {
            return true;
        }
        let mut i: usize = 0;
        while i < types.len()
            invariant
                0 <= i <= types@.len(),
                types@ == self.types_view(),
                forall|j: int| 0 <= j < i ==> !type_selects(#[trigger] types@[j], k),
            decreases types.len() - i,
        {
            if types[i].selects(k) {
                return true;
            }
            i += 1;
        }
        false
    }

    /// Whether an entry with base name `base` passes the name filter.
    pub fn name_filter_passes(&self, base: &str) -> (r: bool)
        ensures
            r == name_passes(self.names_view(), base@),
    {
        let n = self.pattern_count();
        if n == 0 {
            return true;
        }
        let mut i: usize = 0;
        while i < n
            invariant
                0 <= i <= n,
                n == self.names_view().len(),
                forall|j: int| 0 <= j < i ==> !pattern_matches(#[trigger] self.names_view()[j], base@),
            decreases n - i,
        {
            if self.pattern(i).is_match(base) {
                return true;
            }
            i += 1;
        }
        false
    }

    /// Whether an entry passes both filters.
    pub fn passes(&self, e: &EntryInfo) -> (r: bool)
        ensures
            r == entry_passes(self.names_view(), self.types_view(), *e),
    {
        self.type_filter_passes(e.kind) && self.name_filter_passes(e.name.as_str())
    }

    /// Decides what is done with one item of a walk.
    pub fn route(&self, ev: &WalkEvent) -> (r: Action)
        ensures
            r == action_for(self.names_view(), self.types_view(), *ev),
    {
        match ev {
            WalkEvent::Entry(e) => if self.passes(e) {
                Action::Print(e.path.clone())
            } else {
                Action::Skip
            },
            WalkEvent::Failed(m) => Action::Report(m.clone()),
        }
    }

    /// Decides what is done with each item of a walk, in order.
    pub fn route_all(&self, evs: &Vec<WalkEvent>) -> (r: Vec<Action>)
        ensures
            r@ == actions_for(self.names_view(), self.types_view(), evs@),
    {
        let mut out: Vec<Action> = Vec::new();
        let mut i: usize = 0;
        while i < evs.len()
            invariant
                0 <= i <= evs@.len(),
                out@ == actions_for(self.names_view(), self.types_view(), evs@.take(i as int)),
            decreases evs.len() - i,
        {
            let a = self.route(&evs[i]);
            out.push(a);
            i += 1;
            assert(evs@.take(i as int) =~= evs@.take(i - 1).push(evs@[i - 1]));
            assert(out@ =~= actions_for(self.names_view(), self.types_view(), evs@.take(i as int)));
        }
        assert(evs@.take(evs@.len() as int) =~= evs@);
        out
    }
}

} // verus!

verus! {

/// With no type filters, an entry is written exactly when its base name
/// passes the name filter.
pub proof fn lemma_no_type_filter(names: Seq<Seq<char>>, types: Seq<EntryType>, e: EntryInfo)
    requires
        types.len() == 0,
    ensures
        action_for(names, types, WalkEvent::Entry(e)) == if name_passes(names, e.name@) {
            Action::Print(e.path)
        } else {
            Action::Skip
        },
{
}

/// With no name patterns, an entry is written exactly when its kind passes
/// the type filter.
pub proof fn lemma_no_name_filter(names: Seq<Seq<char>>, types: Seq<EntryType>, e: EntryInfo)
    requires
        names.len() == 0,
    ensures
        action_for(names, types, WalkEvent::Entry(e)) == if type_passes(types, e.kind) {
            Action::Print(e.path)
        } else {
            Action::Skip
        },
{
}

/// With type filters given, a directory, regular file or link is written
/// exactly when its own type is among the filters and its base name passes
/// the name filter.
pub proof fn lemma_type_membership(names: Seq<Seq<char>>, types: Seq<EntryType>, e: EntryInfo)
    requires
        types.len() > 0,
        e.kind != EntryKind::Other,
    ensures
        action_for(names, types, WalkEvent::Entry(e)) == if types.contains(
            kind_type(e.kind).unwrap(),
        ) && name_passes(names, e.name@) {
            Action::Print(e.path)
        } else {
            Action::Skip
        },
{
    let t = kind_type(e.kind).unwrap();
    if type_passes(types, e.kind) {
        let i = choose|i: int| 0 <= i < types.len() && type_selects(#[trigger] types[i], e.kind);
        assert(types[i] == t);
    }
    if types.contains(t) {
        let i = choose|i: int| 0 <= i < types.len() && types[i] == t;
        assert(type_selects(types[i], e.kind));
    }
}

/// Walks that yield the same items, in any order, lead to the same lines
/// on each stream, each as many times.
pub proof fn lemma_same_items_same_output(
    names: Seq<Seq<char>>,
    types: Seq<EntryType>,
    evs1: Seq<WalkEvent>,
    evs2: Seq<WalkEvent>,
)
    requires
        evs1.to_multiset() == evs2.to_multiset(),
    ensures
        actions_for(names, types, evs1).to_multiset() == actions_for(names, types, evs2).to_multiset(),
{
    lemma_map_keeps_permutation(evs1, evs2, |ev: WalkEvent| action_for(names, types, ev));
}

proof fn lemma_map_keeps_permutation<A, B>(s1: Seq<A>, s2: Seq<A>, f: spec_fn(A) -> B)
    requires
        s1.to_multiset() == s2.to_multiset(),
    ensures
        s1.map_values(f).to_multiset() == s2.map_values(f).to_multiset(),
    decreases s1.len(),
{
    broadcast use vstd::seq_lib::group_to_multiset_ensures;

    if s1.len() == 0 {
        vstd::seq_lib::to_multiset_len(s1);
        vstd::seq_lib::to_multiset_len(s2);
        assert(s2.len() == 0);
        assert(s1.map_values(f) =~= s2.map_values(f));
    } else {
        let x = s1.last();
        let r1 = s1.drop_last();
        assert(s1 =~= r1.push(x));
        assert(s2.to_multiset().contains(x));
        assert(s2.contains(x));
        let j = choose|j: int| 0 <= j < s2.len() && s2[j] == x;
        let r2 = s2.remove(j);
        vstd::seq_lib::to_multiset_remove(s2, j);
        vstd::seq_lib::to_multiset_build(r1, x);
        assert(r1.to_multiset() =~= r2.to_multiset());
        lemma_map_keeps_permutation(r1, r2, f);
        assert(s1.map_values(f) =~= r1.map_values(f).push(f(x)));
        vstd::seq_lib::to_multiset_build(r1.map_values(f), f(x));
        assert(r2.map_values(f) =~= s2.map_values(f).remove(j));
        vstd::seq_lib::to_multiset_remove(s2.map_values(f), j);
        assert(s2.map_values(f).to_multiset() =~= s2.map_values(f).to_multiset().remove(
            f(x),
        ).insert(f(x)));
    }
}

/// An error in the walk adds exactly one line to standard error, in its
/// place, and changes nothing else that is written.
pub proof fn lemma_error_isolation(
    names: Seq<Seq<char>>,
    types: Seq<EntryType>,
    evs: Seq<WalkEvent>,
    k: int,
    m: String,
)
    requires
        0 <= k <= evs.len(),
    ensures
        actions_for(names, types, evs.insert(k, WalkEvent::Failed(m))) == actions_for(
            names,
            types,
            evs,
        ).insert(k, Action::Report(m)),
        actions_for(names, types, evs.insert(k, WalkEvent::Failed(m))).to_multiset()
            == actions_for(names, types, evs).to_multiset().insert(Action::Report(m)),
{
    assert(actions_for(names, types, evs.insert(k, WalkEvent::Failed(m))) =~= actions_for(
        names,
        types,
        evs,
    ).insert(k, Action::Report(m)));
    vstd::seq_lib::to_multiset_insert(actions_for(names, types, evs), k, Action::Report(m));
}

} // verus!
