//! The catalog: which benchmarks are registered, each under its name with its
//! header.

use vstd::prelude::*;
use crate::text::same_text;
use crate::types::{
    BenchError, BenchErrorView, BenchHeader, BenchHeaderView, BenchId, HistoryView,
    IndividualBenchInfo,
};

verus! {

/// The mapping that a list of named headers stands for. Where a name comes
/// twice, its last header counts.
pub open spec fn listed(entries: Seq<(Seq<char>, BenchHeaderView)>) -> Map<
    Seq<char>,
    BenchHeaderView,
>
    decreases entries.len(),
{
    if entries.len() == 0 {
        Map::empty()
    } else {
        listed(entries.drop_last()).insert(entries.last().0, entries.last().1)
    }
}

/// No name comes twice in the list.
pub open spec fn distinct_names(entries: Seq<(Seq<char>, BenchHeaderView)>) -> bool {
    forall|i: int, j: int|
        0 <= i < j < entries.len() ==> (#[trigger] entries[i]).0 != (#[trigger] entries[j]).0
}

/// A name is in the mapping exactly if the list holds it.
proof fn lemma_listed_names(entries: Seq<(Seq<char>, BenchHeaderView)>, name: Seq<char>)
    ensures
        listed(entries).contains_key(name) <==> exists|i: int|
            0 <= i < entries.len() && (#[trigger] entries[i]).0 == name,
    decreases entries.len(),
{
    if entries.len() > 0 {
        let front = entries.drop_last();
        lemma_listed_names(front, name);
        if listed(front).contains_key(name) {
            let i = choose|i: int| 0 <= i < front.len() && (#[trigger] front[i]).0 == name;
            assert(entries[i].0 == name);
        }
        if exists|i: int| 0 <= i < entries.len() && (#[trigger] entries[i]).0 == name {
            let i = choose|i: int| 0 <= i < entries.len() && (#[trigger] entries[i]).0 == name;
            if i < entries.len() - 1 {
                assert(front[i].0 == name);
            }
        }
    }
}

/// Where no name comes twice, each entry of the list is what the mapping
/// holds under its name.
proof fn lemma_listed_entry(entries: Seq<(Seq<char>, BenchHeaderView)>, i: int)
    requires
        distinct_names(entries),
        0 <= i < entries.len(),
    ensures
        listed(entries).contains_key(entries[i].0),
        listed(entries)[entries[i].0] == entries[i].1,
    decreases entries.len(),
{
    if i < entries.len() - 1 {
        let front = entries.drop_last();
        assert(distinct_names(front));
        lemma_listed_entry(front, i);
        assert(entries[i].0 != entries.last().0);
    }
}

/// Where no name comes twice, the list without one entry stands for the
/// mapping without that entry's name.
proof fn lemma_listed_without(entries: Seq<(Seq<char>, BenchHeaderView)>, i: int)
    requires
        distinct_names(entries),
        0 <= i < entries.len(),
    ensures
        distinct_names(entries.remove(i)),
        listed(entries.remove(i)) == listed(entries).remove(entries[i].0),
{
    let rest = entries.remove(i);
    let name = entries[i].0;
    // where an entry of the shorter list stands in the longer one
    let origin = |a: int| if a < i { a } else { a + 1 };
    assert forall|a: int| 0 <= a < rest.len() implies #[trigger] rest[a] == entries[origin(a)] by {}
    assert(distinct_names(rest));
    assert forall|k: Seq<char>| listed(rest).contains_key(k) <==> (k != name && listed(
        entries,
    ).contains_key(k)) by {
        lemma_listed_names(rest, k);
        lemma_listed_names(entries, k);
        if listed(entries).contains_key(k) && k != name {
            let at = choose|a: int| 0 <= a < entries.len() && (#[trigger] entries[a]).0 == k;
            let a = if at < i { at } else { at - 1 };
            assert(rest[a].0 == k);
        }
    }
    assert forall|k: Seq<char>| listed(rest).contains_key(k) implies listed(rest)[k] == listed(
        entries,
    )[k] by {
        lemma_listed_names(rest, k);
        let a = choose|a: int| 0 <= a < rest.len() && (#[trigger] rest[a]).0 == k;
        lemma_listed_entry(rest, a);
        lemma_listed_entry(entries, origin(a));
    }
    assert(listed(rest) =~= listed(entries).remove(name));
}

/// The registered benchmarks, each name with its header. No name is held
/// twice, and a header that is registered stays as it is: a catalog grows by
/// [`create_new_individual_benchmark`] and in no other way.
#[derive(Debug)]
pub struct TopLevelBenchInfo {
    entries: Vec<(BenchId, BenchHeader)>,
}

impl View for TopLevelBenchInfo {
    type V = Map<Seq<char>, BenchHeaderView>;

    closed spec fn view(&self) -> Map<Seq<char>, BenchHeaderView> {
        listed(self.entries.deep_view())
    }
}

/// A copy of a header.
fn copy_header(header: &BenchHeader) -> (copy: BenchHeader)
    ensures
        copy@ == header@,
{
    BenchHeader {
        source_root: header.source_root.clone(),
        source_bin: header.source_bin.clone(),
        description: header.description.clone(),
    }
}

impl TopLevelBenchInfo {
    #[verifier::type_invariant]
    spec fn well_formed(self) -> bool {
        distinct_names(self.entries.deep_view())
    }

    /// A catalog without any benchmark.
    pub fn new() -> (benches: TopLevelBenchInfo)
        ensures
            benches@ == Map::<Seq<char>, BenchHeaderView>::empty(),
    {
        TopLevelBenchInfo { entries: Vec::new() }
    }

    /// Where the list holds the name, if it does.
    fn position(&self, name: &str) -> (at: Option<usize>)
        ensures
            match at {
                Some(i) => i < self.entries.len() && self.entries.deep_view()[i as int].0
                    == name@,
                None => !self@.contains_key(name@),
            },
    {
        let mut i: usize = 0;
        while i < self.entries.len()
            invariant
                i <= self.entries.len(),
                forall|k: int| 0 <= k < i ==> (#[trigger] self.entries.deep_view()[k]).0 != name@,
            decreases self.entries.len() - i,
        {
            if same_text(self.entries[i].0.as_str(), name) {
                return Some(i);
            }
            i = i + 1;
        }
        proof {
            lemma_listed_names(self.entries.deep_view(), name@);
        }
        None
    }

    /// The header that is registered under a name, if there is one.
    pub fn get(&self, name: &str) -> (found: Option<&BenchHeader>)
        ensures
            match found {
                Some(header) => self@.contains_key(name@) && self@[name@] == header@,
                None => !self@.contains_key(name@),
            },
    {
        match self.position(name) {
            Some(i) => {
                proof {
                    use_type_invariant(self);
                    lemma_listed_entry(self.entries.deep_view(), i as int);
                }
                Some(&self.entries[i].1)
            },
            None => None,
        }
    }

    /// Puts a header under a name, in place of the one that was there, if any.
    fn insert(&mut self, name: BenchId, header: BenchHeader)
        ensures
            final(self)@ == old(self)@.insert(name@, header@),
    {
        proof {
            use_type_invariant(&*self);
        }
        let ghost before = self.entries.deep_view();
        let at = self.position(name.as_str());
        let mut entries: Vec<(BenchId, BenchHeader)> = Vec::new();
        std::mem::swap(&mut self.entries, &mut entries);
        match at {
            Some(i) => {
                proof {
                    lemma_listed_without(before, i as int);
                }
                entries.remove(i);
                assert(entries.deep_view() =~= before.remove(i as int));
            },
            None => {},
        }
        let ghost rest = entries.deep_view();
        let ghost entry = (name@, header@);
        proof {
            lemma_listed_names(rest, name@);
        }
        entries.push((name, header));
        proof {
            let after = entries.deep_view();
            assert(after.drop_last() =~= rest);
            assert(distinct_names(after)) by {
                assert forall|a: int, b: int| 0 <= a < b < after.len() implies (
                #[trigger] after[a]).0 != (#[trigger] after[b]).0 by {
                    assert(after[a] == rest[a]);
                    if b < rest.len() {
                        assert(after[b] == rest[b]);
                    }
                }
            }
        }
        std::mem::swap(&mut self.entries, &mut entries);
    }

    /// The benchmarks as a list, each name once.
    pub fn entries(&self) -> (list: Vec<(BenchId, BenchHeader)>)
        ensures
            distinct_names(list.deep_view()),
            listed(list.deep_view()) == self@,
    {
        proof {
            use_type_invariant(self);
        }
        let mut list: Vec<(BenchId, BenchHeader)> = Vec::new();
        let mut i: usize = 0;
        while i < self.entries.len()
            invariant
                i <= self.entries.len(),
                list.len() == i,
                forall|k: int|
                    0 <= k < i ==> (#[trigger] list@[k]).deep_view()
                        == self.entries.deep_view()[k],
            decreases self.entries.len() - i,
        {
            let entry = &self.entries[i];
            list.push((entry.0.clone(), copy_header(&entry.1)));
            i = i + 1;
        }
        assert(list.deep_view() =~= self.entries.deep_view());
        list
    }
}

impl Clone for TopLevelBenchInfo {
    /// A catalog that holds the same benchmarks.
    fn clone(&self) -> (copy: TopLevelBenchInfo)
        ensures
            copy@ == self@,
    {
        let entries = self.entries();
        TopLevelBenchInfo { entries }
    }
}

/// Takes in what the store holds as the catalog: `None` where it holds
/// nothing yet, which is an empty catalog and no error.
pub fn read_top_level_config(found: Option<Vec<(BenchId, BenchHeader)>>) -> (benches:
    TopLevelBenchInfo)
    ensures
        benches@ == match found {
            Some(list) => listed(list.deep_view()),
            None => Map::empty(),
        },
{
    let mut benches = TopLevelBenchInfo::new();
    match found {
        None => benches,
        Some(list) => {
            let ghost all = list.deep_view();
            for entry in it: list
                invariant
                    it.seq().len() == all.len(),
                    forall|k: int| 0 <= k < all.len() ==> (#[trigger] it.seq()[k]).deep_view() == all[k],
                    benches@ == listed(all.take(it.index() as int)),
            {
                proof {
                    let seen = all.take(it.index() + 1);
                    assert(seen.drop_last() =~= all.take(it.index() as int));
                }
                benches.insert(entry.0, entry.1);
            }
            assert(all.take(all.len() as int) =~= all);
            benches
        },
    }
}

/// Looks a benchmark up by its name and hands out a copy of its header.
pub fn lookup_benchmark(benches: &TopLevelBenchInfo, name: &str) -> (found: Option<BenchHeader>)
    ensures
        match found {
            Some(header) => benches@.contains_key(name@) && benches@[name@] == header@,
            None => !benches@.contains_key(name@),
        },
{
    match benches.get(name) {
        Some(header) => Some(copy_header(header)),
        None => None,
    }
}

/// Registers a new benchmark and hands out the empty history that it starts
/// with. A name that is registered already is refused, and the catalog stays
/// as it was.
pub fn create_new_individual_benchmark(
    benches: &mut TopLevelBenchInfo,
    name: BenchId,
    header: BenchHeader,
) -> (r: Result<IndividualBenchInfo, BenchError>)
    ensures
        match r {
            Ok(info) => {
                &&& !old(benches)@.contains_key(name@)
                &&& final(benches)@ == old(benches)@.insert(name@, header@)
                &&& info@ == HistoryView::empty()
            },
            Err(e) => {
                &&& old(benches)@.contains_key(name@)
                &&& e@ == BenchErrorView::AlreadyExists
                &&& final(benches)@ == old(benches)@
            },
        },
{
    match benches.get(name.as_str()) {
        Some(_) => Err(BenchError::AlreadyExists),
        None => {
            benches.insert(name, header);
            Ok(IndividualBenchInfo::new())
        },
    }
}

} // verus!
