use vstd::prelude::*;
use indexmap::IndexMap;
use crate::keyed::KeyedList;
use crate::marker::MarkerSet;
use crate::timer::TimerFile;
use std::sync::Arc;

verus! {

broadcast use vstd::seq_lib::group_to_multiset_ensures;

/// `indexmap::IndexMap`, an insertion-ordered hash map; opaque here, its
/// entries are named by `category_entries`.
#[verifier::external_type_specification]
#[verifier::external_body]
#[verifier::reject_recursive_types(K)]
#[verifier::reject_recursive_types(V)]
#[verifier::reject_recursive_types(S)]
pub struct ExIndexMap<K, V, S>(IndexMap<K, V, S>);

/// The entries of a category index, in the map's order: each category's name
/// and the indices of the items filed under it.
pub uninterp spec fn category_entries(m: IndexMap<String, Vec<usize>>) -> Seq<(Seq<char>, Seq<usize>)>;

/// The position of the first entry for key `k` among the first `n` entries.
pub open spec fn find_key(e: Seq<(Seq<char>, Seq<usize>)>, k: Seq<char>, n: int) -> Option<int>
    decreases n,
{
    if n <= 0 {
        None
    } else {
        match find_key(e, k, n - 1) {
            Some(j) => Some(j),
            None => if e[n - 1].0 == k {
                Some(n - 1)
            } else {
                None
            },
        }
    }
}

/// The entries after `item` is filed under key `k`: appended to the key's
/// list where the key is present, else a new entry at the end.
pub open spec fn filed(e: Seq<(Seq<char>, Seq<usize>)>, k: Seq<char>, item: usize) -> Seq<(Seq<char>, Seq<usize>)> {
    match find_key(e, k, e.len() as int) {
        Some(j) => e.update(j, (k, e[j].1.push(item))),
        None => e.push((k, seq![item])),
    }
}

/// The entries after `v` is stored under key `k`: the key keeps its place
/// where present, else a new entry comes at the end.
pub open spec fn inserted(e: Seq<(Seq<char>, Seq<usize>)>, k: Seq<char>, v: Seq<usize>) -> Seq<(Seq<char>, Seq<usize>)> {
    match find_key(e, k, e.len() as int) {
        Some(j) => e.update(j, (k, v)),
        None => e.push((k, v)),
    }
}

/// `a` comes before `b` in the order of strings: lexicographic by character.
pub open spec fn chars_lt(a: Seq<char>, b: Seq<char>) -> bool
    decreases a.len(),
{
    if a.len() == 0 {
        b.len() > 0
    } else if b.len() == 0 {
        false
    } else if a[0] != b[0] {
        (a[0] as u32) < (b[0] as u32)
    } else {
        chars_lt(a.drop_first(), b.drop_first())
    }
}

/// The entries' keys are in ascending order.
pub open spec fn sorted_by_key(e: Seq<(Seq<char>, Seq<usize>)>) -> bool {
    forall|i: int, j: int| 0 <= i < j < e.len() ==> !chars_lt(#[trigger] e[j].0, #[trigger] e[i].0)
}

/// Calls `IndexMap::new`: an empty map.
#[verifier::external_body]
fn index_new() -> (r: IndexMap<String, Vec<usize>>)
    ensures
        category_entries(r) == Seq::<(Seq<char>, Seq<usize>)>::empty(),
{
    IndexMap::new()
}

/// Calls `IndexMap::clear`: the map is emptied.
#[verifier::external_body]
fn index_clear(m: &mut IndexMap<String, Vec<usize>>)
    ensures
        category_entries(*final(m)) == Seq::<(Seq<char>, Seq<usize>)>::empty(),
{
    m.clear()
}

/// Calls `IndexMap::entry`, `Entry::or_default` and `Vec::push`: `item` is
/// appended to the list of `key`, which is created empty, last in order,
/// where the key is new. (The map's keys are distinct, so the first entry
/// for the key is the one.)
#[verifier::external_body]
fn index_file(m: &mut IndexMap<String, Vec<usize>>, key: String, item: usize)
    ensures
        category_entries(*final(m)) == filed(category_entries(*old(m)), key@, item),
{
    m.entry(key).or_default().push(item)
}

/// Calls `IndexMap::insert`: an existing key keeps its place and takes the
/// new value; a new key comes last. The old value is dropped.
#[verifier::external_body]
fn index_insert(m: &mut IndexMap<String, Vec<usize>>, key: String, value: Vec<usize>)
    ensures
        category_entries(*final(m)) == inserted(category_entries(*old(m)), key@, value@),
{
    m.insert(key, value);
}

/// Calls `IndexMap::sort_keys`: the entries are reordered, none added or
/// lost, so that the keys ascend in the order of `String`, which compares
/// lexicographically by character.
#[verifier::external_body]
fn index_sort_keys(m: &mut IndexMap<String, Vec<usize>>)
    ensures
        category_entries(*final(m)).to_multiset() == category_entries(*old(m)).to_multiset(),
        sorted_by_key(category_entries(*final(m))),
{
    m.sort_keys()
}

/// Calls `IndexMap::iter`: the entries in order, each key and list copied out.
#[verifier::external_body]
fn index_entries(m: &IndexMap<String, Vec<usize>>) -> (r: Vec<(String, Vec<usize>)>)
    ensures
        r@.map_values(|e: (String, Vec<usize>)| (e.0@, e.1@)) == category_entries(*m),
{
    let mut out = Vec::new();
    for (k, v) in m.iter() {
        out.push((k.clone(), v.clone()));
    }
    out
}

/// The entries after the items `start..n` are filed in turn, item `i` under
/// `keys[i]`.
pub open spec fn file_all(e: Seq<(Seq<char>, Seq<usize>)>, keys: Seq<Seq<char>>, start: int, n: int) -> Seq<
    (Seq<char>, Seq<usize>),
>
    decreases n - start,
{
    if n <= start {
        e
    } else {
        filed(file_all(e, keys, start, n - 1), keys[n - 1], (n - 1) as usize)
    }
}

/// The indices, in order, of the items among the first `n` whose key is `k`.
pub open spec fn indices_with(keys: Seq<Seq<char>>, k: Seq<char>, n: int) -> Seq<usize>
    decreases n,
{
    if n <= 0 {
        Seq::empty()
    } else if keys[n - 1] == k {
        indices_with(keys, k, n - 1).push((n - 1) as usize)
    } else {
        indices_with(keys, k, n - 1)
    }
}

/// The categories of the timers, in order.
pub open spec fn timer_categories<P, S, C>(timers: Seq<Arc<TimerFile<P, S, C>>>) -> Seq<Seq<char>> {
    timers.map_values(|t: Arc<TimerFile<P, S, C>>| t.category@)
}

/// `std::sync::Arc::clone`: another handle on the same timer.
#[verifier::external_body]
fn share_timer<P, S, C>(t: &Arc<TimerFile<P, S, C>>) -> (r: Arc<TimerFile<P, S, C>>)
    ensures
        r == *t,
{
    Arc::clone(t)
}

/// The timer tab: the loaded timers; every timer the index has filed, the
/// ones of earlier loads first; an index of those by category (indices into
/// `filed`, categories in ascending order); and the selected timer.
pub struct TimerTabState<P, S, C> {
    pub timers: Vec<Arc<TimerFile<P, S, C>>>,
    pub filed: Vec<Arc<TimerFile<P, S, C>>>,
    pub categories: IndexMap<String, Vec<usize>>,
    pub timer_selection: Option<usize>,
}

impl<P, S, C> TimerTabState<P, S, C> {
    /// No timers, no categories, nothing selected.
    pub fn new() -> (r: Self)
        ensures
            r.timers@.len() == 0,
            r.filed@.len() == 0,
            category_entries(r.categories).len() == 0,
            r.timer_selection is None,
    {
        TimerTabState { timers: Vec::new(), filed: Vec::new(), categories: index_new(), timer_selection: None }
    }

    /// Takes newly loaded timers, which become the tab's timers. Each is
    /// filed under its category after what the index already held, which
    /// keeps naming the timers of earlier loads; then the categories are
    /// sorted.
    pub fn timers_update(&mut self, timers: Vec<Arc<TimerFile<P, S, C>>>)
        requires
            old(self).filed@.len() + timers@.len() <= usize::MAX,
        ensures
            final(self).timers@ == timers@,
            final(self).filed@ == old(self).filed@ + timers@,
            final(self).timer_selection == old(self).timer_selection,
            category_entries(final(self).categories).to_multiset() == file_all(
                category_entries(old(self).categories),
                timer_categories(final(self).filed@),
                old(self).filed@.len() as int,
                final(self).filed@.len() as int,
            ).to_multiset(),
            sorted_by_key(category_entries(final(self).categories)),
    {
        let start = self.filed.len();
        let ghost entries = category_entries(self.categories);
        let ghost all = self.filed@ + timers@;
        self.timers = timers;
        let m = self.timers.len();
        let mut k: usize = 0;
        while k < m
            invariant
                m == self.timers@.len(),
                self.timers@ == timers@,
                k <= m,
                self.filed@ == old(self).filed@ + timers@.subrange(0, k as int),
                old(self).filed@.len() == start,
                self.categories == old(self).categories,
                self.timer_selection == old(self).timer_selection,
            decreases m - k,
        {
            let t = share_timer(&self.timers[k]);
            self.filed.push(t);
            proof {
                assert(old(self).filed@ + timers@.subrange(0, k + 1) =~= (old(self).filed@ + timers@.subrange(
                    0,
                    k as int,
                )).push(timers@[k as int]));
            }
            k = k + 1;
        }
        proof {
            assert(timers@.subrange(0, m as int) =~= timers@);
        }
        let n = self.filed.len();
        let mut i: usize = start;
        while i < n
            invariant
                n == self.filed@.len(),
                self.filed@ == all,
                self.timers@ == timers@,
                self.timer_selection == old(self).timer_selection,
                start <= i <= n,
                category_entries(self.categories) == file_all(entries, timer_categories(all), start as int, i as int),
            decreases n - i,
        {
            let key = self.filed[i].category.clone();
            index_file(&mut self.categories, key, i);
            i = i + 1;
        }
        index_sort_keys(&mut self.categories);
    }

    /// The categories with the indices of their timers, in order.
    pub fn category_list(&self) -> (r: Vec<(String, Vec<usize>)>)
        ensures
            r@.map_values(|e: (String, Vec<usize>)| (e.0@, e.1@)) == category_entries(self.categories),
    {
        index_entries(&self.categories)
    }
}

/// The marker tab: the loaded marker sets, an index of them by category
/// (indices into `sets`, categories in ascending order) and the selected set.
pub struct MarkerTabState<P> {
    pub sets: Vec<MarkerSet<P>>,
    pub markers: IndexMap<String, Vec<usize>>,
    pub marker_selection: Option<usize>,
}

/// The entries the marker tab files: category by category as `grouped`
/// lists them, each with the indices its sets take in the flattened list.
pub open spec fn marker_entries<P>(grouped: Seq<(Seq<char>, Vec<MarkerSet<P>>)>, n: int, start: int) -> Seq<(Seq<char>, Seq<usize>)>
    decreases n,
{
    if n <= 0 {
        Seq::empty()
    } else {
        let before = marker_entries(grouped, n - 1, start);
        let offset = start + set_count(grouped, n - 1);
        inserted(
            before,
            grouped[n - 1].0,
            Seq::new(grouped[n - 1].1@.len(), |j: int| (offset + j) as usize),
        )
    }
}

/// How many sets the first `n` categories hold.
pub open spec fn set_count<P>(grouped: Seq<(Seq<char>, Vec<MarkerSet<P>>)>, n: int) -> int
    decreases n,
{
    if n <= 0 {
        0
    } else {
        set_count(grouped, n - 1) + grouped[n - 1].1@.len()
    }
}

/// The sets of the first `n` categories, in order.
pub open spec fn flattened<P>(grouped: Seq<(Seq<char>, Vec<MarkerSet<P>>)>, n: int) -> Seq<MarkerSet<P>>
    decreases n,
{
    if n <= 0 {
        Seq::empty()
    } else {
        flattened(grouped, n - 1) + grouped[n - 1].1@
    }
}

impl<P> MarkerTabState<P> {
    /// No sets, no categories, nothing selected.
    pub fn new() -> (r: Self)
        ensures
            r.sets@.len() == 0,
            category_entries(r.markers).len() == 0,
            r.marker_selection is None,
    {
        MarkerTabState { sets: Vec::new(), markers: index_new(), marker_selection: None }
    }

    /// Takes the marker sets grouped by category: the index is rebuilt with
    /// one entry per category, listing its sets, and the categories are
    /// sorted.
    pub fn marker_update(&mut self, markers: KeyedList<Vec<MarkerSet<P>>>)
        requires
            set_count(markers.entries().map_values(|e: (String, Vec<MarkerSet<P>>)| (e.0@, e.1)), markers.entries().len() as int)
                <= usize::MAX,
        ensures
            ({
                let grouped = markers.entries().map_values(|e: (String, Vec<MarkerSet<P>>)| (e.0@, e.1));
                &&& final(self).sets@ == flattened(grouped, grouped.len() as int)
                &&& category_entries(final(self).markers).to_multiset() == marker_entries(
                    grouped,
                    grouped.len() as int,
                    0,
                ).to_multiset()
                &&& sorted_by_key(category_entries(final(self).markers))
            }),
            final(self).marker_selection == old(self).marker_selection,
    {
        let ghost grouped = markers.entries().map_values(|e: (String, Vec<MarkerSet<P>>)| (e.0@, e.1));
        index_clear(&mut self.markers);
        let mut sets: Vec<MarkerSet<P>> = Vec::new();
        let entries = markers.into_entries();
        let n = entries.len();
        let mut rest = entries;
        let mut i: usize = 0;
        proof {
            lemma_set_count_mono(grouped, n as int);
        }
        while i < n
            invariant
                n == grouped.len(),
                self.marker_selection == old(self).marker_selection,
                i <= n,
                rest@.len() == n - i,
                forall|j: int| 0 <= j < n - i ==> (#[trigger] rest@[j]).0@ == grouped[i + j].0 && rest@[j].1 == grouped[i + j].1,
                sets@ == flattened(grouped, i as int),
                sets@.len() == set_count(grouped, i as int),
                set_count(grouped, n as int) <= usize::MAX,
                forall|k: int| 0 <= k <= n ==> set_count(grouped, k) <= set_count(grouped, n as int),
                category_entries(self.markers) == marker_entries(grouped, i as int, 0),
            decreases n - i,
        {
            let ghost before = rest@;
            let (name, list) = rest.remove(0);
            let start = sets.len();
            let count = list.len();
            proof {
                assert(set_count(grouped, i + 1) == set_count(grouped, i as int) + count);
            }
            let idx = Self::index_range(start, count);
            let mut list = list;
            sets.append(&mut list);
            index_insert(&mut self.markers, name, idx);
            i = i + 1;
            proof {
                assert(sets@ =~= flattened(grouped, i as int));
                assert forall|j: int| 0 <= j < n - i implies (#[trigger] rest@[j]).0@ == grouped[i + j].0 && rest@[j].1
                    == grouped[i + j].1 by {
                    assert(rest@[j] == before[j + 1]);
                }
            }
        }
        self.sets = sets;
        index_sort_keys(&mut self.markers);
    }

    fn index_range(start: usize, count: usize) -> (r: Vec<usize>)
        requires
            start + count <= usize::MAX,
        ensures
            r@ == Seq::new(count as nat, |j: int| (start + j) as usize),
    {
        let mut r: Vec<usize> = Vec::new();
        let mut j: usize = 0;
        while j < count
            invariant
                j <= count,
                start + count <= usize::MAX,
                r@ == Seq::new(j as nat, |k: int| (start + k) as usize),
            decreases count - j,
        {
            r.push(start + j);
            j = j + 1;
            assert(r@ =~= Seq::new(j as nat, |k: int| (start + k) as usize));
        }
        r
    }

    /// The categories with the indices of their sets, in order.
    pub fn category_list(&self) -> (r: Vec<(String, Vec<usize>)>)
        ensures
            r@.map_values(|e: (String, Vec<usize>)| (e.0@, e.1@)) == category_entries(self.markers),
    {
        index_entries(&self.markers)
    }
}

proof fn lemma_set_count_mono<P>(grouped: Seq<(Seq<char>, Vec<MarkerSet<P>>)>, n: int)
    requires
        0 <= n,
    ensures
        forall|k: int| 0 <= k <= n ==> set_count(grouped, k) <= set_count(grouped, n),
        forall|k: int| 0 <= k <= n ==> 0 <= #[trigger] set_count(grouped, k),
    decreases n,
{
    if n > 0 {
        lemma_set_count_mono(grouped, n - 1);
        assert(0 <= set_count(grouped, n - 1));
        assert(set_count(grouped, n) == set_count(grouped, n - 1) + grouped[n - 1].1@.len());
    } else {
        assert(set_count(grouped, 0) == 0);
    }
}

proof fn lemma_find_key(e: Seq<(Seq<char>, Seq<usize>)>, k: Seq<char>, n: int)
    requires
        0 <= n <= e.len(),
    ensures
        find_key(e, k, n) matches Some(j) ==> 0 <= j < n && e[j].0 == k,
        find_key(e, k, n) is None ==> forall|j: int| 0 <= j < n ==> (#[trigger] e[j]).0 != k,
    decreases n,
{
    if n > 0 {
        lemma_find_key(e, k, n - 1);
    }
}

proof fn lemma_indices_with_absent(keys: Seq<Seq<char>>, k: Seq<char>, n: int)
    requires
        0 <= n <= keys.len(),
        forall|i: int| 0 <= i < n ==> keys[i] != k,
    ensures
        indices_with(keys, k, n) == Seq::<usize>::empty(),
    decreases n,
{
    if n > 0 {
        lemma_indices_with_absent(keys, k, n - 1);
    }
}

/// What filing the first `n` items into an empty index gives: each entry
/// lists the indices of its key's items, in order; every item's key has an
/// entry; every entry's key is some item's; no key has two entries.
proof fn lemma_file_all(keys: Seq<Seq<char>>, n: int)
    requires
        0 <= n <= keys.len(),
        keys.len() <= usize::MAX,
    ensures
        ({
            let f = file_all(Seq::empty(), keys, 0, n);
            &&& forall|j: int| 0 <= j < f.len() ==> (#[trigger] f[j]).1 == indices_with(keys, f[j].0, n)
            &&& forall|i: int| #![trigger keys[i]] 0 <= i < n ==> exists|j: int| 0 <= j < f.len() && (#[trigger] f[j]).0 == keys[i]
            &&& forall|j: int| 0 <= j < f.len() ==> exists|i: int| 0 <= i < n && keys[i] == (#[trigger] f[j]).0
            &&& forall|a: int, b: int| 0 <= a < f.len() && 0 <= b < f.len() && a != b ==> (#[trigger] f[a]).0 != (#[trigger] f[b]).0
        }),
    decreases n,
{
    if n > 0 {
        lemma_file_all(keys, n - 1);
        let f0 = file_all(Seq::empty(), keys, 0, n - 1);
        let f = file_all(Seq::empty(), keys, 0, n);
        let k = keys[n - 1];
        lemma_find_key(f0, k, f0.len() as int);
        match find_key(f0, k, f0.len() as int) {
            Some(j) => {
                assert(f == f0.update(j, (k, f0[j].1.push((n - 1) as usize))));
                assert forall|x: int| 0 <= x < f.len() implies (#[trigger] f[x]).1 == indices_with(keys, f[x].0, n) by {
                    if x != j {
                        assert(f[x] == f0[x]);
                        assert(f0[x].0 != k);
                    }
                }
                assert forall|i: int| #![trigger keys[i]] 0 <= i < n implies exists|x: int| 0 <= x < f.len() && (#[trigger] f[x]).0 == keys[i] by {
                    if i < n - 1 {
                        let x = choose|x: int| 0 <= x < f0.len() && (#[trigger] f0[x]).0 == keys[i];
                        assert(f[x].0 == keys[i]);
                    } else {
                        assert(f[j].0 == keys[i]);
                    }
                }
                assert forall|x: int| 0 <= x < f.len() implies exists|i: int| 0 <= i < n && keys[i] == (#[trigger] f[x]).0 by {
                    let i = choose|i: int| 0 <= i < n - 1 && keys[i] == (#[trigger] f0[x]).0;
                    assert(keys[i] == f[x].0);
                }
                assert forall|a: int, b: int| 0 <= a < f.len() && 0 <= b < f.len() && a != b implies (#[trigger] f[a]).0
                    != (#[trigger] f[b]).0 by {
                    assert(f[a].0 == f0[a].0);
                    assert(f[b].0 == f0[b].0);
                }
            },
            None => {
                assert(f == f0.push((k, seq![(n - 1) as usize])));
                assert forall|i: int| 0 <= i < n - 1 implies keys[i] != k by {
                    let x = choose|x: int| 0 <= x < f0.len() && (#[trigger] f0[x]).0 == keys[i];
                }
                lemma_indices_with_absent(keys, k, n - 1);
                assert forall|x: int| 0 <= x < f.len() implies (#[trigger] f[x]).1 == indices_with(keys, f[x].0, n) by {
                    if x < f0.len() {
                        assert(f[x] == f0[x]);
                        assert(f0[x].0 != k);
                    } else {
                        assert(indices_with(keys, k, n) =~= seq![(n - 1) as usize]);
                    }
                }
                assert forall|i: int| #![trigger keys[i]] 0 <= i < n implies exists|x: int| 0 <= x < f.len() && (#[trigger] f[x]).0 == keys[i] by {
                    if i < n - 1 {
                        let x = choose|x: int| 0 <= x < f0.len() && (#[trigger] f0[x]).0 == keys[i];
                        assert(f[x].0 == keys[i]);
                    } else {
                        assert(f[f0.len() as int].0 == keys[i]);
                    }
                }
                assert forall|x: int| 0 <= x < f.len() implies exists|i: int| 0 <= i < n && keys[i] == (#[trigger] f[x]).0 by {
                    if x < f0.len() {
                        let i = choose|i: int| 0 <= i < n - 1 && keys[i] == (#[trigger] f0[x]).0;
                        assert(keys[i] == f[x].0);
                    } else {
                        assert(keys[n - 1] == f[x].0);
                    }
                }
                assert forall|a: int, b: int| 0 <= a < f.len() && 0 <= b < f.len() && a != b implies (#[trigger] f[a]).0
                    != (#[trigger] f[b]).0 by {
                    if a < f0.len() && b < f0.len() {
                        assert(f[a].0 == f0[a].0);
                        assert(f[b].0 == f0[b].0);
                    } else if a < f0.len() {
                        assert(f[a].0 == f0[a].0);
                    } else if b < f0.len() {
                        assert(f[b].0 == f0[b].0);
                    }
                }
            },
        }
    }
}

/// A sequence whose entries are pairwise distinct by key has, once reordered,
/// no element twice.
proof fn lemma_same_entries_distinct(f: Seq<(Seq<char>, Seq<usize>)>, e: Seq<(Seq<char>, Seq<usize>)>)
    requires
        forall|a: int, b: int| 0 <= a < f.len() && 0 <= b < f.len() && a != b ==> (#[trigger] f[a]).0 != (#[trigger] f[b]).0,
        e.to_multiset() == f.to_multiset(),
    ensures
        e.no_duplicates(),
{
    assert(f.no_duplicates()) by {
        assert forall|a: int, b: int| 0 <= a < f.len() && 0 <= b < f.len() && a != b implies f[a] != f[b] by {
            assert(f[a].0 != f[b].0);
        }
    }
    f.lemma_multiset_has_no_duplicates();
    e.lemma_multiset_has_no_duplicates_conv();
}

/// The timer tab's index, once the timers are filed into a fresh tab: each
/// category lists exactly the indices of its timers, in their order, every
/// timer's category is listed, and no category is listed twice. (Any
/// sequence with the same entries as the filing, such as the sorted index,
/// has these properties.)
pub proof fn lemma_timer_index(keys: Seq<Seq<char>>, e: Seq<(Seq<char>, Seq<usize>)>)
    requires
        keys.len() <= usize::MAX,
        e.to_multiset() == file_all(Seq::empty(), keys, 0, keys.len() as int).to_multiset(),
    ensures
        forall|j: int| 0 <= j < e.len() ==> (#[trigger] e[j]).1 == indices_with(keys, e[j].0, keys.len() as int),
        forall|i: int| #![trigger keys[i]] 0 <= i < keys.len() ==> exists|j: int| 0 <= j < e.len() && (#[trigger] e[j]).0 == keys[i],
        forall|a: int, b: int| 0 <= a < e.len() && 0 <= b < e.len() && a != b ==> (#[trigger] e[a]).0 != (#[trigger] e[b]).0,
{
    let n = keys.len() as int;
    let f = file_all(Seq::empty(), keys, 0, n);
    lemma_file_all(keys, n);
    lemma_same_entries_distinct(f, e);
    assert forall|j: int| 0 <= j < e.len() implies (#[trigger] e[j]).1 == indices_with(keys, e[j].0, n) by {
        assert(e.contains(e[j]));
        assert(e.to_multiset().count(e[j]) > 0);
        assert(f.contains(e[j]));
        let x = choose|x: int| 0 <= x < f.len() && f[x] == e[j];
        assert(f[x].1 == indices_with(keys, f[x].0, n));
    }
    assert forall|i: int| #![trigger keys[i]] 0 <= i < n implies exists|j: int| 0 <= j < e.len() && (#[trigger] e[j]).0 == keys[i] by {
        let x = choose|x: int| 0 <= x < f.len() && (#[trigger] f[x]).0 == keys[i];
        assert(f.contains(f[x]));
        assert(f.to_multiset().count(f[x]) > 0);
        assert(e.contains(f[x]));
        let j = choose|j: int| 0 <= j < e.len() && e[j] == f[x];
        assert(e[j].0 == keys[i]);
    }
    assert forall|a: int, b: int| 0 <= a < e.len() && 0 <= b < e.len() && a != b implies (#[trigger] e[a]).0 != (
    #[trigger] e[b]).0 by {
        if e[a].0 == e[b].0 {
            assert(e[a].1 == indices_with(keys, e[a].0, n));
            assert(e[b].1 == indices_with(keys, e[b].0, n));
            assert(e[a] == e[b]);
        }
    }
}

proof fn lemma_flattened<P>(grouped: Seq<(Seq<char>, Vec<MarkerSet<P>>)>, n: int)
    requires
        0 <= n <= grouped.len(),
    ensures
        flattened(grouped, n).len() == set_count(grouped, n),
        forall|g: int, t: int|
            0 <= g < n && 0 <= t < grouped[g].1@.len() ==> flattened(grouped, n)[set_count(grouped, g) + t]
                == #[trigger] grouped[g].1@[t],
        forall|g: int| 0 <= g <= n ==> #[trigger] set_count(grouped, g) <= set_count(grouped, n),
    decreases n,
{
    if n > 0 {
        lemma_flattened(grouped, n - 1);
        let before = flattened(grouped, n - 1);
        assert(flattened(grouped, n) == before + grouped[n - 1].1@);
        assert forall|g: int, t: int| 0 <= g < n && 0 <= t < grouped[g].1@.len() implies flattened(grouped, n)[set_count(
            grouped,
            g,
        ) + t] == #[trigger] grouped[g].1@[t] by {
            if g < n - 1 {
                lemma_set_count_mono(grouped, n - 1);
                assert(set_count(grouped, g + 1) == set_count(grouped, g) + grouped[g].1@.len());
                assert(set_count(grouped, g + 1) <= set_count(grouped, n - 1));
                assert(flattened(grouped, n)[set_count(grouped, g) + t] == before[set_count(grouped, g) + t]);
            }
        }
    }
}

proof fn lemma_marker_entries<P>(grouped: Seq<(Seq<char>, Vec<MarkerSet<P>>)>, n: int)
    requires
        0 <= n <= grouped.len(),
        forall|a: int, b: int| 0 <= a < grouped.len() && 0 <= b < grouped.len() && a != b ==> (#[trigger] grouped[a]).0
            != (#[trigger] grouped[b]).0,
    ensures
        marker_entries(grouped, n, 0).len() == n,
        forall|g: int|
            0 <= g < n ==> #[trigger] marker_entries(grouped, n, 0)[g] == (
                grouped[g].0,
                Seq::new(grouped[g].1@.len(), |j: int| (set_count(grouped, g) + j) as usize),
            ),
    decreases n,
{
    if n > 0 {
        lemma_marker_entries(grouped, n - 1);
        let before = marker_entries(grouped, n - 1, 0);
        let k = grouped[n - 1].0;
        lemma_find_key(before, k, before.len() as int);
        if let Some(j) = find_key(before, k, before.len() as int) {
            assert(before[j] == (
                grouped[j].0,
                Seq::new(grouped[j].1@.len(), |x: int| (set_count(grouped, j) + x) as usize),
            ));
            assert(grouped[j].0 == grouped[n - 1].0);
        }
        assert(marker_entries(grouped, n, 0) == before.push(
            (k, Seq::new(grouped[n - 1].1@.len(), |x: int| (0 + set_count(grouped, n - 1) + x) as usize)),
        ));
        assert(Seq::new(grouped[n - 1].1@.len(), |x: int| (0 + set_count(grouped, n - 1) + x) as usize) =~= Seq::new(
            grouped[n - 1].1@.len(),
            |x: int| (set_count(grouped, n - 1) + x) as usize,
        ));
    }
}

/// The marker tab's index, once the sets of categories with distinct names
/// are filed: each category lists exactly the positions its own sets take in
/// the tab's list of sets, in order, every category is listed, and none
/// twice. (Any sequence with the same entries, such as the sorted index, has
/// these properties.)
pub proof fn lemma_marker_index<P>(grouped: Seq<(Seq<char>, Vec<MarkerSet<P>>)>, e: Seq<(Seq<char>, Seq<usize>)>)
    requires
        forall|a: int, b: int| 0 <= a < grouped.len() && 0 <= b < grouped.len() && a != b ==> (#[trigger] grouped[a]).0
            != (#[trigger] grouped[b]).0,
        set_count(grouped, grouped.len() as int) <= usize::MAX,
        e.to_multiset() == marker_entries(grouped, grouped.len() as int, 0).to_multiset(),
    ensures
        forall|j: int|
            0 <= j < e.len() ==> exists|g: int|
                0 <= g < grouped.len() && (#[trigger] e[j]).0 == grouped[g].0 && e[j].1.len() == grouped[g].1@.len()
                    && forall|t: int|
                    0 <= t < e[j].1.len() ==> flattened(grouped, grouped.len() as int)[e[j].1[t] as int]
                        == #[trigger] grouped[g].1@[t],
        forall|g: int| 0 <= g < grouped.len() ==> exists|j: int| 0 <= j < e.len() && (#[trigger] e[j]).0 == (
            #[trigger] grouped[g]).0,
        forall|a: int, b: int| 0 <= a < e.len() && 0 <= b < e.len() && a != b ==> (#[trigger] e[a]).0 != (#[trigger] e[b]).0,
{
    let n = grouped.len() as int;
    let f = marker_entries(grouped, n, 0);
    lemma_marker_entries(grouped, n);
    lemma_flattened(grouped, n);
    assert forall|a: int, b: int| 0 <= a < f.len() && 0 <= b < f.len() && a != b implies (#[trigger] f[a]).0 != (
    #[trigger] f[b]).0 by {
        assert(f[a].0 == grouped[a].0);
        assert(f[b].0 == grouped[b].0);
    }
    lemma_same_entries_distinct(f, e);
    assert forall|a: int, b: int| 0 <= a < e.len() && 0 <= b < e.len() && a != b implies (#[trigger] e[a]).0 != (
    #[trigger] e[b]).0 by {
        if e[a].0 == e[b].0 {
            assert(e.contains(e[a]));
            assert(e.to_multiset().count(e[a]) > 0);
            assert(f.contains(e[a]));
            let ga = choose|g: int| 0 <= g < f.len() && f[g] == e[a];
            assert(e.contains(e[b]));
            assert(e.to_multiset().count(e[b]) > 0);
            assert(f.contains(e[b]));
            let gb = choose|g: int| 0 <= g < f.len() && f[g] == e[b];
            assert(grouped[ga].0 == grouped[gb].0);
            assert(ga == gb);
            assert(e[a] == e[b]);
        }
    }
    assert forall|j: int| 0 <= j < e.len() implies exists|g: int|
        0 <= g < grouped.len() && (#[trigger] e[j]).0 == grouped[g].0 && e[j].1.len() == grouped[g].1@.len()
            && forall|t: int|
            0 <= t < e[j].1.len() ==> flattened(grouped, n)[e[j].1[t] as int] == #[trigger] grouped[g].1@[t] by {
        assert(e.contains(e[j]));
        assert(e.to_multiset().count(e[j]) > 0);
        assert(f.contains(e[j]));
        let g = choose|g: int| 0 <= g < f.len() && f[g] == e[j];
        assert(f[g] == (grouped[g].0, Seq::new(grouped[g].1@.len(), |x: int| (set_count(grouped, g) + x) as usize)));
        assert forall|t: int| 0 <= t < e[j].1.len() implies flattened(grouped, n)[e[j].1[t] as int] == #[trigger] grouped[g].1@[t] by {
            lemma_set_count_mono(grouped, n);
            assert(0 <= set_count(grouped, g));
            assert(set_count(grouped, g + 1) == set_count(grouped, g) + grouped[g].1@.len());
            assert(set_count(grouped, g + 1) <= set_count(grouped, n));
            assert(e[j].1[t] == f[g].1[t]);
            assert(f[g].1[t] == (set_count(grouped, g) + t) as usize);
            assert(e[j].1[t] as int == set_count(grouped, g) + t);
        }
    }
    assert forall|g: int| 0 <= g < grouped.len() implies exists|j: int| 0 <= j < e.len() && (#[trigger] e[j]).0 == (
        #[trigger] grouped[g]).0 by {
        assert(f.contains(f[g]));
        assert(f.to_multiset().count(f[g]) > 0);
        assert(e.contains(f[g]));
        let j = choose|j: int| 0 <= j < e.len() && e[j] == f[g];
        assert(e[j].0 == grouped[g].0);
    }
}

} // verus!
