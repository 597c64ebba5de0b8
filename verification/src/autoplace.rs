use vstd::prelude::*;

verus! {

/// The indices, in order, of the marker sets among the first `n` that belong
/// to map `m`.
pub open spec fn sets_on_map(maps: Seq<u32>, m: u32, n: int) -> Seq<usize>
    decreases n,
{
    if n <= 0 {
        Seq::empty()
    } else {
        let rest = sets_on_map(maps, m, n - 1);
        if maps[n - 1] == m {
            rest.push((n - 1) as usize)
        } else {
            rest
        }
    }
}

/// Whether marker set `i` fires on this tick: it belongs to the current map
/// `m`, it has not fired since the player arrived there, and the player
/// stands inside its trigger area.
pub open spec fn fires(maps: Seq<u32>, spent: Seq<bool>, triggered: Seq<bool>, m: u32, i: int) -> bool {
    maps[i] == m && !spent[i] && triggered[i]
}

/// The indices, in order, of the marker sets among the first `n` that fire.
pub open spec fn firing(maps: Seq<u32>, spent: Seq<bool>, triggered: Seq<bool>, m: u32, n: int) -> Seq<usize>
    decreases n,
{
    if n <= 0 {
        Seq::empty()
    } else {
        let rest = firing(maps, spent, triggered, m, n - 1);
        if fires(maps, spent, triggered, m, n - 1) {
            rest.push((n - 1) as usize)
        } else {
            rest
        }
    }
}

/// Which marker sets are spent after a tick: those spent before, and those
/// that fired.
pub open spec fn spent_after(maps: Seq<u32>, spent: Seq<bool>, triggered: Seq<bool>, m: u32) -> Seq<bool> {
    Seq::new(spent.len(), |i: int| spent[i] || fires(maps, spent, triggered, m, i))
}

/// Which marker sets have fired since the player last changed map. Marker
/// sets are named by their index in the loaded list; `map_ids[i]` is the map
/// of set `i` and `spent[i]` whether it has fired.
pub struct MarkerAutoplace {
    pub map_ids: Vec<u32>,
    pub spent: Vec<bool>,
    pub current_map: Option<u32>,
}

impl MarkerAutoplace {
    /// There is one spent flag for each marker set.
    pub open spec fn wf(&self) -> bool {
        self.map_ids@.len() == self.spent@.len()
    }

    /// The tracker for marker sets on the maps `map_ids`: none has fired and
    /// the player is on no map yet.
    pub fn new(map_ids: Vec<u32>) -> (r: Self)
        ensures
            r.wf(),
            r.map_ids@ == map_ids@,
            r.current_map is None,
            forall|i: int| 0 <= i < r.spent@.len() ==> !(#[trigger] r.spent@[i]),
    {
        let n = map_ids.len();
        let spent = Self::fresh_flags(n);
        MarkerAutoplace { map_ids, spent, current_map: None }
    }

    fn fresh_flags(n: usize) -> (r: Vec<bool>)
        ensures
            r@.len() == n,
            forall|i: int| 0 <= i < n ==> !(#[trigger] r@[i]),
    {
        let mut r: Vec<bool> = Vec::new();
        let mut i: usize = 0;
        while i < n
            invariant
                i <= n,
                r@.len() == i,
                forall|j: int| 0 <= j < i ==> !(#[trigger] r@[j]),
            decreases n - i,
        {
            r.push(false);
            i = i + 1;
        }
        r
    }

    /// The marker sets of map `m`, in order.
    pub fn markers_for_map(&self, m: u32) -> (r: Vec<usize>)
        ensures
            r@ == sets_on_map(self.map_ids@, m, self.map_ids@.len() as int),
    {
        let n = self.map_ids.len();
        let mut r: Vec<usize> = Vec::new();
        let mut i: usize = 0;
        while i < n
            invariant
                n == self.map_ids@.len(),
                i <= n,
                r@ == sets_on_map(self.map_ids@, m, i as int),
            decreases n - i,
        {
            if self.map_ids[i] == m {
                r.push(i);
            }
            i = i + 1;
        }
        r
    }

    /// The player arrives on map `m`. Where that is a change, every marker
    /// set may fire again and the sets of the new map are returned, to be
    /// shown; where it is the same map, nothing changes and `None` is
    /// returned.
    pub fn enter_map(&mut self, m: u32) -> (r: Option<Vec<usize>>)
        requires
            old(self).wf(),
        ensures
            final(self).wf(),
            final(self).map_ids@ == old(self).map_ids@,
            final(self).current_map == Some(m),
            old(self).current_map == Some(m) ==> r is None && final(self).spent@ == old(self).spent@,
            old(self).current_map != Some(m) ==> {
                &&& r matches Some(v) && v@ == sets_on_map(old(self).map_ids@, m, old(self).map_ids@.len() as int)
                &&& forall|i: int| 0 <= i < final(self).spent@.len() ==> !(#[trigger] final(self).spent@[i])
            },
    {
        if self.current_map == Some(m) {
            return None;
        }
        let shown = self.markers_for_map(m);
        self.spent = Self::fresh_flags(self.map_ids.len());
        self.current_map = Some(m);
        Some(shown)
    }

    /// One tick of the player's position: `triggered[i]` says whether the
    /// player stands inside the trigger area of set `i`. The sets of the
    /// current map that had not fired and are triggered now fire: they are
    /// marked spent and returned, in order.
    pub fn tick(&mut self, triggered: &Vec<bool>) -> (r: Vec<usize>)
        requires
            old(self).wf(),
            triggered@.len() == old(self).map_ids@.len(),
        ensures
            final(self).wf(),
            final(self).map_ids@ == old(self).map_ids@,
            final(self).current_map == old(self).current_map,
            match old(self).current_map {
                None => r@.len() == 0 && final(self).spent@ == old(self).spent@,
                Some(m) => {
                    &&& r@ == firing(old(self).map_ids@, old(self).spent@, triggered@, m, old(self).map_ids@.len() as int)
                    &&& final(self).spent@ == spent_after(old(self).map_ids@, old(self).spent@, triggered@, m)
                },
            },
    {
        let mut r: Vec<usize> = Vec::new();
        let m = match self.current_map {
            Some(m) => m,
            None => return r,
        };
        let ghost maps = self.map_ids@;
        let ghost before = self.spent@;
        let n = self.map_ids.len();
        let mut i: usize = 0;
        while i < n
            invariant
                n == maps.len(),
                n == before.len(),
                n == triggered@.len(),
                maps == self.map_ids@,
                self.current_map == Some(m),
                self.spent@.len() == n,
                i <= n,
                r@ == firing(maps, before, triggered@, m, i as int),
                forall|j: int| 0 <= j < i ==> self.spent@[j] == spent_after(maps, before, triggered@, m)[j],
                forall|j: int| i <= j < n ==> self.spent@[j] == before[j],
            decreases n - i,
        {
            if self.map_ids[i] == m && !self.spent[i] && triggered[i] {
                self.spent.set(i, true);
                r.push(i);
            }
            i = i + 1;
        }
        assert(self.spent@ =~= spent_after(maps, before, triggered@, m));
        r
    }

    /// Takes the maps of a new list of marker sets: none of them has fired,
    /// and the player stays on the same map.
    pub fn reload(&mut self, map_ids: Vec<u32>)
        ensures
            final(self).wf(),
            final(self).map_ids@ == map_ids@,
            final(self).current_map == old(self).current_map,
            forall|i: int| 0 <= i < final(self).spent@.len() ==> !(#[trigger] final(self).spent@[i]),
    {
        self.spent = Self::fresh_flags(map_ids.len());
        self.map_ids = map_ids;
    }

    /// Every marker set may fire again.
    pub fn clear_spent(&mut self)
        requires
            old(self).wf(),
        ensures
            final(self).wf(),
            final(self).map_ids@ == old(self).map_ids@,
            final(self).current_map == old(self).current_map,
            forall|i: int| 0 <= i < final(self).spent@.len() ==> !(#[trigger] final(self).spent@[i]),
    {
        self.spent = Self::fresh_flags(self.map_ids.len());
    }
}

/// The sets that fire are exactly the sets of the current map that had not
/// fired and are triggered, each named once.
pub proof fn lemma_firing_members(maps: Seq<u32>, spent: Seq<bool>, triggered: Seq<bool>, m: u32, n: int)
    requires
        0 <= n <= maps.len(),
        maps.len() <= usize::MAX,
        maps.len() == spent.len(),
        maps.len() == triggered.len(),
    ensures
        forall|k: int|
            0 <= k < firing(maps, spent, triggered, m, n).len() ==> {
                let i = #[trigger] firing(maps, spent, triggered, m, n)[k];
                &&& i < n
                &&& fires(maps, spent, triggered, m, i as int)
            },
        forall|i: int| 0 <= i < n && fires(maps, spent, triggered, m, i) ==> firing(maps, spent, triggered, m, n).contains(
            i as usize,
        ),
    decreases n,
{
    if n > 0 {
        lemma_firing_members(maps, spent, triggered, m, n - 1);
        let rest = firing(maps, spent, triggered, m, n - 1);
        let all = firing(maps, spent, triggered, m, n);
        assert forall|k: int| 0 <= k < all.len() implies ({
            let i = #[trigger] all[k];
            &&& i < n
            &&& fires(maps, spent, triggered, m, i as int)
        }) by {
            if k < rest.len() {
                assert(all[k] == rest[k]);
            }
        }
        assert forall|i: int| 0 <= i < n && fires(maps, spent, triggered, m, i) implies firing(
            maps,
            spent,
            triggered,
            m,
            n,
        ).contains(i as usize) by {
            if i < n - 1 {
                let k = choose|k: int| 0 <= k < rest.len() && rest[k] == i as usize;
                if fires(maps, spent, triggered, m, n - 1) {
                    assert(firing(maps, spent, triggered, m, n)[k] == i as usize);
                }
            } else {
                assert(firing(maps, spent, triggered, m, n).last() == i as usize);
            }
        }
    }
}

/// A marker set fires at most once while the player stays on a map: no set
/// that fired on one tick fires on the next, whatever is triggered then.
pub proof fn lemma_fires_once(
    maps: Seq<u32>,
    spent: Seq<bool>,
    first: Seq<bool>,
    second: Seq<bool>,
    m: u32,
)
    requires
        maps.len() <= usize::MAX,
        maps.len() == spent.len(),
        maps.len() == first.len(),
        maps.len() == second.len(),
    ensures
        forall|i: usize|
            firing(maps, spent, first, m, maps.len() as int).contains(i) ==> !firing(
                maps,
                spent_after(maps, spent, first, m),
                second,
                m,
                maps.len() as int,
            ).contains(i),
{
    let n = maps.len() as int;
    let after = spent_after(maps, spent, first, m);
    lemma_firing_members(maps, spent, first, m, n);
    lemma_firing_members(maps, after, second, m, n);
    assert forall|i: usize| firing(maps, spent, first, m, n).contains(i) implies !firing(maps, after, second, m, n).contains(
        i,
    ) by {
        let k = choose|k: int| 0 <= k < firing(maps, spent, first, m, n).len() && firing(maps, spent, first, m, n)[k] == i;
        assert(fires(maps, spent, first, m, i as int));
        assert(after[i as int]);
        if firing(maps, after, second, m, n).contains(i) {
            let k2 = choose|k2: int| 0 <= k2 < firing(maps, after, second, m, n).len() && firing(maps, after, second, m, n)[k2] == i;
            assert(fires(maps, after, second, m, i as int));
        }
    }
}

} // verus!
