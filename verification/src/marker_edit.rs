use vstd::prelude::*;
use crate::keyed::str_eq;
use crate::marker::{CustomMarkers, MarkerCategory, MarkerFile, MarkerFormats, MarkerSet};
use crate::render::{MarkerFiletype, MarkerSaveEvent};
use crate::settings::opt_view;

verus! {

/// Why a marker file cannot take an edit.
#[derive(Clone, Copy, Debug, PartialEq, Eq, Structural)]
pub enum MarkerEditError {
    /// The file files sets by category, and the set names none.
    NoCategory,
    /// The category holds no set at the given index.
    NoSet,
}

/// The first of the first `n` categories named `name`.
pub open spec fn category_named<P>(cats: Seq<MarkerCategory<P>>, name: Seq<char>, n: int) -> Option<int>
    decreases n,
{
    if n <= 0 {
        None
    } else {
        match category_named(cats, name, n - 1) {
            Some(j) => Some(j),
            None => if cats[n - 1].name@ == name {
                Some(n - 1)
            } else {
                None
            },
        }
    }
}

/// `new` is `old` with the sets of category `i` replaced by `sets`.
pub open spec fn sets_replaced<P>(old: Seq<MarkerCategory<P>>, new: Seq<MarkerCategory<P>>, i: int, sets: Seq<MarkerSet<P>>) -> bool {
    &&& new.len() == old.len()
    &&& forall|j: int| 0 <= j < old.len() && j != i ==> #[trigger] new[j] == old[j]
    &&& new[i].name == old[i].name
    &&& new[i].marker_sets@ == sets
}

/// `new` is `old` with a category named `name` holding `sets` added last.
pub open spec fn category_added<P>(old: Seq<MarkerCategory<P>>, new: Seq<MarkerCategory<P>>, name: Seq<char>, sets: Seq<MarkerSet<P>>) -> bool {
    &&& new.len() == old.len() + 1
    &&& forall|j: int| 0 <= j < old.len() ==> #[trigger] new[j] == old[j]
    &&& new[old.len() as int].name@ == name
    &&& new[old.len() as int].marker_sets@ == sets
}

/// `r` is the new file holding `set` of type `filetype`, written at `now`.
pub open spec fn created<P, D>(set: MarkerSet<P>, filetype: MarkerFiletype, now: D, r: MarkerFormats<P, D>) -> bool {
    match filetype {
        MarkerFiletype::File => r matches MarkerFormats::File(f) && {
            &&& f.last_edit == now
            &&& f.path is None
            &&& f.categories@.len() == 1
            &&& f.categories@[0].name@ == (match opt_view(set.category) {
                Some(c) => c,
                None => Seq::<char>::empty(),
            })
            &&& f.categories@[0].marker_sets@ == seq![set]
        },
        MarkerFiletype::Custom => r matches MarkerFormats::Custom(c) && {
            &&& c.version@ == "1"@
            &&& c.path is None
            &&& c.squad_marker_preset@ == seq![set]
        },
    }
}

/// `r` is what appending `set` to `file` at `now` gives.
pub open spec fn appended<P, D>(file: MarkerFormats<P, D>, set: MarkerSet<P>, now: D, r: Result<MarkerFormats<P, D>, MarkerEditError>) -> bool {
    match file {
        MarkerFormats::Custom(c) => r matches Ok(MarkerFormats::Custom(d)) && d.version == c.version && d.path == c.path
            && d.squad_marker_preset@ == c.squad_marker_preset@.push(set),
        MarkerFormats::File(f) => match set.category {
            None => r matches Err(e) && e == MarkerEditError::NoCategory,
            Some(name) => r matches Ok(MarkerFormats::File(g)) && g.last_edit == now && g.path == f.path
                && match category_named(f.categories@, name@, f.categories@.len() as int) {
                Some(i) => sets_replaced(f.categories@, g.categories@, i, f.categories@[i].marker_sets@.push(set)),
                None => category_added(f.categories@, g.categories@, name@, seq![set]),
            },
        },
    }
}

/// `r` is what putting `set` in place of set `idx` of `category` in `file`
/// at `now` gives.
pub open spec fn replaced<P, D>(
    file: MarkerFormats<P, D>,
    category: Option<String>,
    idx: usize,
    set: MarkerSet<P>,
    now: D,
    r: Result<MarkerFormats<P, D>, MarkerEditError>,
) -> bool {
    match file {
        MarkerFormats::Custom(c) => if idx < c.squad_marker_preset@.len() {
            r matches Ok(MarkerFormats::Custom(d)) && d.version == c.version && d.path == c.path
                && d.squad_marker_preset@ == c.squad_marker_preset@.update(idx as int, set)
        } else {
            r matches Err(e) && e == MarkerEditError::NoSet
        },
        MarkerFormats::File(f) => match category {
            None => r matches Err(e) && e == MarkerEditError::NoCategory,
            Some(name) => match category_named(f.categories@, name@, f.categories@.len() as int) {
                Some(i) => if idx < f.categories@[i].marker_sets@.len() {
                    r matches Ok(MarkerFormats::File(g)) && g.last_edit == now && g.path == f.path && sets_replaced(
                        f.categories@,
                        g.categories@,
                        i,
                        f.categories@[i].marker_sets@.update(idx as int, set),
                    )
                } else {
                    r matches Err(e) && e == MarkerEditError::NoSet
                },
                None => r matches Err(e) && e == MarkerEditError::NoSet,
            },
        },
    }
}

/// `r` is what removing set `idx` of `category` from `file` at `now` gives.
pub open spec fn deleted<P, D>(
    file: MarkerFormats<P, D>,
    category: Option<String>,
    idx: usize,
    now: D,
    r: Result<MarkerFormats<P, D>, MarkerEditError>,
) -> bool {
    match file {
        MarkerFormats::Custom(c) => if idx < c.squad_marker_preset@.len() {
            r matches Ok(MarkerFormats::Custom(d)) && d.version == c.version && d.path == c.path
                && d.squad_marker_preset@ == c.squad_marker_preset@.remove(idx as int)
        } else {
            r matches Err(e) && e == MarkerEditError::NoSet
        },
        MarkerFormats::File(f) => match category {
            None => r matches Err(e) && e == MarkerEditError::NoCategory,
            Some(name) => match category_named(f.categories@, name@, f.categories@.len() as int) {
                Some(i) => if idx < f.categories@[i].marker_sets@.len() {
                    r matches Ok(MarkerFormats::File(g)) && g.last_edit == now && g.path == f.path && sets_replaced(
                        f.categories@,
                        g.categories@,
                        i,
                        f.categories@[i].marker_sets@.remove(idx as int),
                    )
                } else {
                    r matches Err(e) && e == MarkerEditError::NoSet
                },
                None => r matches Err(e) && e == MarkerEditError::NoSet,
            },
        },
    }
}

/// The position of the first category named `name`.
fn find_category<P>(cats: &Vec<MarkerCategory<P>>, name: &str) -> (r: Option<usize>)
    ensures
        match r {
            Some(i) => category_named(cats@, name@, cats@.len() as int) == Some(i as int) && i < cats@.len(),
            None => category_named(cats@, name@, cats@.len() as int) is None,
        },
{
    let n = cats.len();
    let mut i: usize = 0;
    while i < n
        invariant
            n == cats@.len(),
            i <= n,
            category_named(cats@, name@, i as int) is None,
        decreases n - i,
    {
        if str_eq(cats[i].name.as_str(), name) {
            proof {
                lemma_category_named_stays(cats@, name@, i + 1, n as int);
            }
            return Some(i);
        }
        i = i + 1;
    }
    None
}

/// Once found among the first `m` categories, the first category of a name
/// stays the first among more.
proof fn lemma_category_named_stays<P>(cats: Seq<MarkerCategory<P>>, name: Seq<char>, m: int, n: int)
    requires
        0 <= m <= n,
        category_named(cats, name, m) is Some,
    ensures
        category_named(cats, name, n) == category_named(cats, name, m),
    decreases n - m,
{
    if n > m {
        lemma_category_named_stays(cats, name, m, n - 1);
    }
}

/// Takes category `i` out: the other categories, its name and its sets.
fn split_category<P>(all: Vec<MarkerCategory<P>>, i: usize) -> (r: (Vec<MarkerCategory<P>>, String, Vec<MarkerSet<P>>))
    requires
        i < all@.len(),
    ensures
        r.0@ == all@.remove(i as int),
        r.1 == all@[i as int].name,
        r.2@ == all@[i as int].marker_sets@,
{
    let mut cats = all;
    let cat = cats.remove(i);
    (cats, cat.name, cat.marker_sets)
}

/// Puts category `i` back, named `name`, with `sets` as its sets.
fn join_category<P>(
    rest: Vec<MarkerCategory<P>>,
    i: usize,
    name: String,
    sets: Vec<MarkerSet<P>>,
    Ghost(all): Ghost<Seq<MarkerCategory<P>>>,
) -> (r: Vec<MarkerCategory<P>>)
    requires
        i < all.len(),
        rest@ == all.remove(i as int),
        name == all[i as int].name,
    ensures
        sets_replaced(all, r@, i as int, sets@),
{
    let mut cats = rest;
    cats.insert(i, MarkerCategory { name, marker_sets: sets });
    proof {
        assert forall|j: int| 0 <= j < all.len() && j != i implies #[trigger] cats@[j] == all[j] by {
            if j < i {
                assert(cats@[j] == rest@[j]);
            } else {
                assert(cats@[j] == rest@[j - 1]);
            }
        }
    }
    cats
}

/// Appends `set` to the sets of its category and marks the file written at
/// `now`. A CommanderMarkers file keeps one list of sets; a file of the
/// addon's own format needs the set's category, which comes last where it
/// is new.
pub fn append_set<P, D>(file: MarkerFormats<P, D>, set: MarkerSet<P>, now: D) -> (r: Result<MarkerFormats<P, D>, MarkerEditError>)
    ensures
        appended(file, set, now, r),
{
    match file {
        MarkerFormats::Custom(c) => {
            let mut c = c;
            c.squad_marker_preset.push(set);
            Ok(MarkerFormats::Custom(c))
        },
        MarkerFormats::File(f) => {
            let name = match &set.category {
                Some(n) => n.clone(),
                None => return Err(MarkerEditError::NoCategory),
            };
            let ghost all = f.categories@;
            let cats = match find_category(&f.categories, name.as_str()) {
                Some(i) => {
                    let (rest, cat_name, sets) = split_category(f.categories, i);
                    let mut sets = sets;
                    sets.push(set);
                    let cats = join_category(rest, i, cat_name, sets, Ghost(all));
                    cats
                },
                None => {
                    let mut cats = f.categories;
                    let sets = vec![set];
                    assert(sets@ == seq![set]);
                    let ghost key = name@;
                    cats.push(MarkerCategory { name, marker_sets: sets });
                    assert(cats@[all.len() as int].marker_sets@ == seq![set]);
                    assert(cats@[all.len() as int].name@ == key);
                    assert(category_added(all, cats@, key, seq![set]));
                    cats
                },
            };
            Ok(MarkerFormats::File(MarkerFile { last_edit: now, path: f.path, categories: cats }))
        },
    }
}

/// Replaces set `idx` of `category` with `set` and marks the file written at
/// `now`. A CommanderMarkers file keeps one list of sets; a file of the
/// addon's own format needs the category. There must be such a set.
pub fn replace_set<P, D>(file: MarkerFormats<P, D>, category: Option<String>, idx: usize, set: MarkerSet<P>, now: D) -> (r: Result<
    MarkerFormats<P, D>,
    MarkerEditError,
>)
    ensures
        replaced(file, category, idx, set, now, r),
{
    match file {
        MarkerFormats::Custom(c) => {
            if idx >= c.squad_marker_preset.len() {
                return Err(MarkerEditError::NoSet);
            }
            let mut c = c;
            c.squad_marker_preset.set(idx, set);
            Ok(MarkerFormats::Custom(c))
        },
        MarkerFormats::File(f) => {
            let name = match category {
                Some(n) => n,
                None => return Err(MarkerEditError::NoCategory),
            };
            let ghost all = f.categories@;
            let i = match find_category(&f.categories, name.as_str()) {
                Some(i) => i,
                None => return Err(MarkerEditError::NoSet),
            };
            if idx >= f.categories[i].marker_sets.len() {
                return Err(MarkerEditError::NoSet);
            }
            let (rest, cat_name, sets) = split_category(f.categories, i);
            let mut sets = sets;
            sets.set(idx, set);
            let cats = join_category(rest, i, cat_name, sets, Ghost(all));
            Ok(MarkerFormats::File(MarkerFile { last_edit: now, path: f.path, categories: cats }))
        },
    }
}

/// Removes set `idx` of `category` and marks the file written at `now`. A
/// CommanderMarkers file keeps one list of sets; a file of the addon's own
/// format needs the category. There must be such a set.
pub fn delete_set<P, D>(file: MarkerFormats<P, D>, category: Option<String>, idx: usize, now: D) -> (r: Result<
    MarkerFormats<P, D>,
    MarkerEditError,
>)
    ensures
        deleted(file, category, idx, now, r),
{
    match file {
        MarkerFormats::Custom(c) => {
            if idx >= c.squad_marker_preset.len() {
                return Err(MarkerEditError::NoSet);
            }
            let mut c = c;
            c.squad_marker_preset.remove(idx);
            Ok(MarkerFormats::Custom(c))
        },
        MarkerFormats::File(f) => {
            let name = match category {
                Some(n) => n,
                None => return Err(MarkerEditError::NoCategory),
            };
            let ghost all = f.categories@;
            let i = match find_category(&f.categories, name.as_str()) {
                Some(i) => i,
                None => return Err(MarkerEditError::NoSet),
            };
            if idx >= f.categories[i].marker_sets.len() {
                return Err(MarkerEditError::NoSet);
            }
            let (rest, cat_name, sets) = split_category(f.categories, i);
            let mut sets = sets;
            sets.remove(idx);
            let cats = join_category(rest, i, cat_name, sets, Ghost(all));
            Ok(MarkerFormats::File(MarkerFile { last_edit: now, path: f.path, categories: cats }))
        },
    }
}

/// The file a save request of the marker editor leaves at its path, made at
/// `now`: a new file, where the request creates one (`file` is not read);
/// else `file` with the set appended, or put in place of the set it was
/// opened from, as `append_set` and `replace_set` say.
pub fn apply_save<P, D>(file: MarkerFormats<P, D>, event: MarkerSaveEvent<P>, now: D) -> (r: Result<
    MarkerFormats<P, D>,
    MarkerEditError,
>)
    ensures
        match event {
            MarkerSaveEvent::Create(set, _, filetype) => r matches Ok(g) && created(set, filetype, now, g),
            MarkerSaveEvent::Append(set, _) => appended(file, set, now, r),
            MarkerSaveEvent::Edit(set, _, category, idx) => replaced(file, category, idx, set, now, r),
        },
{
    match event {
        MarkerSaveEvent::Create(set, _, filetype) => Ok(created_file(set, filetype, now)),
        MarkerSaveEvent::Append(set, _) => append_set(file, set, now),
        MarkerSaveEvent::Edit(set, _, category, idx) => replace_set(file, category, idx, set, now),
    }
}

/// A new marker file holding `set`, written at `now`: of the addon's own
/// format with `set` in its category (the empty name where it has none), or
/// a CommanderMarkers file of version "1".
pub fn created_file<P, D>(set: MarkerSet<P>, filetype: MarkerFiletype, now: D) -> (r: MarkerFormats<P, D>)
    ensures
        created(set, filetype, now, r),
{
    match filetype {
        MarkerFiletype::File => {
            let name = match &set.category {
                Some(c) => c.clone(),
                None => String::new(),
            };
            let mut cats: Vec<MarkerCategory<P>> = Vec::new();
            let sets = vec![set];
            assert(sets@ == seq![set]);
            cats.push(MarkerCategory { name, marker_sets: sets });
            assert(cats@[0].marker_sets@ == seq![set]);
            MarkerFormats::File(MarkerFile { last_edit: now, path: None, categories: cats })
        },
        MarkerFiletype::Custom => {
            let r = MarkerFormats::Custom(
                CustomMarkers { version: String::from_str("1"), path: None, squad_marker_preset: vec![set] },
            );
            assert(r matches MarkerFormats::Custom(c) && c.squad_marker_preset@ == seq![set]);
            r
        },
    }
}

/// Removing the set just appended gives the file's sets back: a
/// CommanderMarkers file its presets, a file of the addon's own format the
/// sets of every category it had (the category the set went to included).
pub proof fn lemma_delete_undoes_append<P, D>(
    file: MarkerFormats<P, D>,
    set: MarkerSet<P>,
    now: D,
    appended_file: MarkerFormats<P, D>,
    later: D,
    r: Result<MarkerFormats<P, D>, MarkerEditError>,
)
    requires
        appended(file, set, now, Ok(appended_file)),
        deleted(
            appended_file,
            set.category,
            match file {
                MarkerFormats::Custom(c) => c.squad_marker_preset@.len() as usize,
                MarkerFormats::File(f) => match set.category {
                    Some(name) => match category_named(f.categories@, name@, f.categories@.len() as int) {
                        Some(i) => f.categories@[i].marker_sets@.len() as usize,
                        None => 0usize,
                    },
                    None => 0usize,
                },
            },
            later,
            r,
        ),
        match file {
            MarkerFormats::Custom(c) => c.squad_marker_preset@.len() < usize::MAX,
            MarkerFormats::File(f) => f.categories@.len() < usize::MAX && forall|j: int|
                0 <= j < f.categories@.len() ==> (#[trigger] f.categories@[j]).marker_sets@.len() < usize::MAX,
        },
    ensures
        match file {
            MarkerFormats::Custom(c) => r matches Ok(MarkerFormats::Custom(d)) && d.squad_marker_preset@
                == c.squad_marker_preset@,
            MarkerFormats::File(f) => r matches Ok(MarkerFormats::File(g)) && forall|j: int|
                0 <= j < f.categories@.len() ==> (#[trigger] g.categories@[j]).name == f.categories@[j].name
                    && g.categories@[j].marker_sets@ == f.categories@[j].marker_sets@,
        },
{
    match file {
        MarkerFormats::Custom(c) => {
            let presets = c.squad_marker_preset@;
            assert(presets.push(set).remove(presets.len() as int) =~= presets);
        },
        MarkerFormats::File(f) => {
            let name = set.category->0;
            let cats = f.categories@;
            let g1 = appended_file->File_0;
            lemma_category_named_bound(cats, name@, cats.len() as int);
            match category_named(cats, name@, cats.len() as int) {
                Some(i) => {
                    lemma_category_named_found(cats, name@, cats.len() as int);
                    assert(g1.categories@[i].name@ == name@);
                    lemma_category_named_first(g1.categories@, cats, name@, i);
                    let sets = cats[i].marker_sets@;
                    assert(sets.push(set).remove(sets.len() as int) =~= sets);
                },
                None => {
                    let n = cats.len() as int;
                    assert(g1.categories@[n].name@ == name@);
                    lemma_category_named_absent(g1.categories@, cats, name@);
                    assert(seq![set].remove(0) =~= Seq::<MarkerSet<P>>::empty());
                },
            }
        },
    }
}

/// A category found among the first `n` lies among them and has the name.
proof fn lemma_category_named_bound<P>(cats: Seq<MarkerCategory<P>>, name: Seq<char>, n: int)
    ensures
        category_named(cats, name, n) matches Some(i) ==> 0 <= i < n,
    decreases n,
{
    if n > 0 {
        lemma_category_named_bound(cats, name, n - 1);
    }
}

/// The category found has the name, and none before it does.
proof fn lemma_category_named_found<P>(cats: Seq<MarkerCategory<P>>, name: Seq<char>, n: int)
    ensures
        category_named(cats, name, n) matches Some(i) ==> cats[i].name@ == name && forall|j: int|
            0 <= j < i ==> (#[trigger] cats[j]).name@ != name,
        category_named(cats, name, n) is None ==> forall|j: int| 0 <= j < n ==> (#[trigger] cats[j]).name@ != name,
    decreases n,
{
    if n > 0 {
        lemma_category_named_found(cats, name, n - 1);
    }
}

/// Categories that agree in name with `old` up to and at `i`, where `i` is
/// the first of the name in `old`, find it at `i` too.
proof fn lemma_category_named_first<P>(new: Seq<MarkerCategory<P>>, old: Seq<MarkerCategory<P>>, name: Seq<char>, i: int)
    requires
        category_named(old, name, old.len() as int) == Some(i),
        new.len() == old.len(),
        forall|j: int| 0 <= j < old.len() && j != i ==> #[trigger] new[j] == old[j],
        new[i].name@ == name,
    ensures
        category_named(new, name, new.len() as int) == Some(i),
{
    lemma_category_named_bound(old, name, old.len() as int);
    lemma_category_named_found(old, name, old.len() as int);
    lemma_first_named(new, name, i, new.len() as int);
}

/// Where no category before `i` has the name and `i` has it, the first
/// among any `n > i` is `i`.
proof fn lemma_first_named<P>(cats: Seq<MarkerCategory<P>>, name: Seq<char>, i: int, n: int)
    requires
        0 <= i < n,
        cats[i].name@ == name,
        forall|j: int| 0 <= j < i ==> (#[trigger] cats[j]).name@ != name,
    ensures
        category_named(cats, name, n) == Some(i),
    decreases n,
{
    if n - 1 > i {
        lemma_first_named(cats, name, i, n - 1);
    } else {
        lemma_none_named(cats, name, i);
    }
}

/// None of the first `n` categories having the name, none is found.
proof fn lemma_none_named<P>(cats: Seq<MarkerCategory<P>>, name: Seq<char>, n: int)
    requires
        forall|j: int| 0 <= j < n ==> (#[trigger] cats[j]).name@ != name,
    ensures
        category_named(cats, name, n) is None,
    decreases n,
{
    if n > 0 {
        lemma_none_named(cats, name, n - 1);
    }
}

/// A category added last under a name no earlier category has is the one
/// found.
proof fn lemma_category_named_absent<P>(new: Seq<MarkerCategory<P>>, old: Seq<MarkerCategory<P>>, name: Seq<char>)
    requires
        category_named(old, name, old.len() as int) is None,
        new.len() == old.len() + 1,
        forall|j: int| 0 <= j < old.len() ==> #[trigger] new[j] == old[j],
        new[old.len() as int].name@ == name,
    ensures
        category_named(new, name, new.len() as int) == Some(old.len() as int),
{
    lemma_category_named_found(old, name, old.len() as int);
    assert forall|j: int| 0 <= j < old.len() implies (#[trigger] new[j]).name@ != name by {
        assert(new[j] == old[j]);
    }
    lemma_first_named(new, name, old.len() as int, new.len() as int);
}

} // verus!
