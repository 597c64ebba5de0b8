use vstd::prelude::*;
use vstd::string::*;
use crate::keyed::KeyedList;
use crate::settings::{clone_opt_string, opt_view};

verus! {

/// A commander (squad) marker, numbered as in the BlishHUD CommanderMarkers schema.
#[derive(Clone, Copy, Debug, PartialEq, Eq, Structural)]
pub enum MarkerType {
    Blank,
    Arrow,
    Circle,
    Heart,
    Square,
    Star,
    Spiral,
    Triangle,
    Cross,
    ClearMarkers,
}

/// The schema number of a marker.
pub open spec fn marker_repr(m: MarkerType) -> u8 {
    match m {
        MarkerType::Blank => 0,
        MarkerType::Arrow => 1,
        MarkerType::Circle => 2,
        MarkerType::Heart => 3,
        MarkerType::Square => 4,
        MarkerType::Star => 5,
        MarkerType::Spiral => 6,
        MarkerType::Triangle => 7,
        MarkerType::Cross => 8,
        MarkerType::ClearMarkers => 9,
    }
}

/// The marker with a schema number, if there is one.
pub open spec fn marker_from_repr(v: u8) -> Option<MarkerType> {
    if v == 0 {
        Some(MarkerType::Blank)
    } else if v == 1 {
        Some(MarkerType::Arrow)
    } else if v == 2 {
        Some(MarkerType::Circle)
    } else if v == 3 {
        Some(MarkerType::Heart)
    } else if v == 4 {
        Some(MarkerType::Square)
    } else if v == 5 {
        Some(MarkerType::Star)
    } else if v == 6 {
        Some(MarkerType::Spiral)
    } else if v == 7 {
        Some(MarkerType::Triangle)
    } else if v == 8 {
        Some(MarkerType::Cross)
    } else if v == 9 {
        Some(MarkerType::ClearMarkers)
    } else {
        None
    }
}


/// The text of an optional string slice.
pub open spec fn opt_str(o: Option<&str>) -> Option<Seq<char>> {
    match o {
        Some(s) => Some(s@),
        None => None,
    }
}

/// The icon file of each marker that has one.
pub open spec fn marker_icon_file(m: MarkerType) -> Option<Seq<char>> {
    match m {
        MarkerType::Arrow => Some("cmdrArrow.png"@),
        MarkerType::Circle => Some("cmdrCircle.png"@),
        MarkerType::Cross => Some("cmdrCross.png"@),
        MarkerType::Heart => Some("cmdrHeart.png"@),
        MarkerType::Spiral => Some("cmdrSpiral.png"@),
        MarkerType::Square => Some("cmdrSquare.png"@),
        MarkerType::Star => Some("cmdrStar.png"@),
        MarkerType::Triangle => Some("cmdrTriangle.png"@),
        MarkerType::Blank => None,
        MarkerType::ClearMarkers => None,
    }
}

/// The game key bindings that the addon asks the game to press for a marker:
/// placing a marker in the world, setting one on an agent, or clearing them.
#[derive(Clone, Copy, Debug, PartialEq, Eq, Structural)]
pub enum GameBind {
    SquadMarkerPlaceWorldArrow,
    SquadMarkerPlaceWorldCircle,
    SquadMarkerPlaceWorldHeart,
    SquadMarkerPlaceWorldSquare,
    SquadMarkerPlaceWorldStar,
    SquadMarkerPlaceWorldSwirl,
    SquadMarkerPlaceWorldTriangle,
    SquadMarkerPlaceWorldCross,
    SquadMarkerClearAllWorld,
    SquadMarkerSetAgentArrow,
    SquadMarkerSetAgentCircle,
    SquadMarkerSetAgentHeart,
    SquadMarkerSetAgentSquare,
    SquadMarkerSetAgentStar,
    SquadMarkerSetAgentSwirl,
    SquadMarkerSetAgentTriangle,
    SquadMarkerSetAgentCross,
}

/// The binding that places marker `m` at a world location.
pub open spec fn place_world_bind(m: MarkerType) -> GameBind
    recommends
        m != MarkerType::Blank,
{
    match m {
        MarkerType::Arrow => GameBind::SquadMarkerPlaceWorldArrow,
        MarkerType::Circle => GameBind::SquadMarkerPlaceWorldCircle,
        MarkerType::Heart => GameBind::SquadMarkerPlaceWorldHeart,
        MarkerType::Square => GameBind::SquadMarkerPlaceWorldSquare,
        MarkerType::Star => GameBind::SquadMarkerPlaceWorldStar,
        MarkerType::Spiral => GameBind::SquadMarkerPlaceWorldSwirl,
        MarkerType::Triangle => GameBind::SquadMarkerPlaceWorldTriangle,
        MarkerType::Cross => GameBind::SquadMarkerPlaceWorldCross,
        _ => GameBind::SquadMarkerClearAllWorld,
    }
}

/// The binding that sets marker `m` on the targeted agent.
pub open spec fn set_agent_bind(m: MarkerType) -> GameBind
    recommends
        m != MarkerType::Blank,
{
    match m {
        MarkerType::Arrow => GameBind::SquadMarkerSetAgentArrow,
        MarkerType::Circle => GameBind::SquadMarkerSetAgentCircle,
        MarkerType::Heart => GameBind::SquadMarkerSetAgentHeart,
        MarkerType::Square => GameBind::SquadMarkerSetAgentSquare,
        MarkerType::Star => GameBind::SquadMarkerSetAgentStar,
        MarkerType::Spiral => GameBind::SquadMarkerSetAgentSwirl,
        MarkerType::Triangle => GameBind::SquadMarkerSetAgentTriangle,
        MarkerType::Cross => GameBind::SquadMarkerSetAgentCross,
        _ => GameBind::SquadMarkerClearAllWorld,
    }
}

impl MarkerType {
    /// The schema number of this marker.
    pub fn to_repr(&self) -> (r: u8)
        ensures
            r == marker_repr(*self),
    {
        match self {
            MarkerType::Blank => 0,
            MarkerType::Arrow => 1,
            MarkerType::Circle => 2,
            MarkerType::Heart => 3,
            MarkerType::Square => 4,
            MarkerType::Star => 5,
            MarkerType::Spiral => 6,
            MarkerType::Triangle => 7,
            MarkerType::Cross => 8,
            MarkerType::ClearMarkers => 9,
        }
    }

    /// The marker with schema number `v`, or `None` above 9.
    pub fn from_repr(v: u8) -> (r: Option<MarkerType>)
        ensures
            r == marker_from_repr(v),
    {
        match v {
            0 => Some(MarkerType::Blank),
            1 => Some(MarkerType::Arrow),
            2 => Some(MarkerType::Circle),
            3 => Some(MarkerType::Heart),
            4 => Some(MarkerType::Square),
            5 => Some(MarkerType::Star),
            6 => Some(MarkerType::Spiral),
            7 => Some(MarkerType::Triangle),
            8 => Some(MarkerType::Cross),
            9 => Some(MarkerType::ClearMarkers),
            _ => None,
        }
    }


    /// The binding that places this marker in the world; `ClearMarkers`
    /// clears all world markers. There is none for `Blank`.
    pub fn to_place_world_gamebind(&self) -> (r: GameBind)
        requires
            *self != MarkerType::Blank,
        ensures
            r == place_world_bind(*self),
    {
        match self {
            MarkerType::Arrow => GameBind::SquadMarkerPlaceWorldArrow,
            MarkerType::Circle => GameBind::SquadMarkerPlaceWorldCircle,
            MarkerType::Heart => GameBind::SquadMarkerPlaceWorldHeart,
            MarkerType::Square => GameBind::SquadMarkerPlaceWorldSquare,
            MarkerType::Star => GameBind::SquadMarkerPlaceWorldStar,
            MarkerType::Spiral => GameBind::SquadMarkerPlaceWorldSwirl,
            MarkerType::Triangle => GameBind::SquadMarkerPlaceWorldTriangle,
            MarkerType::Cross => GameBind::SquadMarkerPlaceWorldCross,
            _ => GameBind::SquadMarkerClearAllWorld,
        }
    }

    /// The binding that sets this marker on the targeted agent; `ClearMarkers`
    /// clears all world markers. There is none for `Blank`.
    pub fn to_set_agent_gamebind(&self) -> (r: GameBind)
        requires
            *self != MarkerType::Blank,
        ensures
            r == set_agent_bind(*self),
    {
        match self {
            MarkerType::Arrow => GameBind::SquadMarkerSetAgentArrow,
            MarkerType::Circle => GameBind::SquadMarkerSetAgentCircle,
            MarkerType::Heart => GameBind::SquadMarkerSetAgentHeart,
            MarkerType::Square => GameBind::SquadMarkerSetAgentSquare,
            MarkerType::Star => GameBind::SquadMarkerSetAgentStar,
            MarkerType::Spiral => GameBind::SquadMarkerSetAgentSwirl,
            MarkerType::Triangle => GameBind::SquadMarkerSetAgentTriangle,
            MarkerType::Cross => GameBind::SquadMarkerSetAgentCross,
            _ => GameBind::SquadMarkerClearAllWorld,
        }
    }

    /// The file of the marker's icon; `Blank` and `ClearMarkers` have none.
    pub fn icon_file(&self) -> (r: Option<&'static str>)
        ensures
            opt_str(r) == marker_icon_file(*self),
    {
        match self {
            MarkerType::Arrow => Some("cmdrArrow.png"),
            MarkerType::Circle => Some("cmdrCircle.png"),
            MarkerType::Cross => Some("cmdrCross.png"),
            MarkerType::Heart => Some("cmdrHeart.png"),
            MarkerType::Spiral => Some("cmdrSpiral.png"),
            MarkerType::Square => Some("cmdrSquare.png"),
            MarkerType::Star => Some("cmdrStar.png"),
            MarkerType::Triangle => Some("cmdrTriangle.png"),
            MarkerType::Blank => None,
            MarkerType::ClearMarkers => None,
        }
    }

    /// The markers that can be placed: numbers 1 to 8, in order.
    pub fn iter_real_values() -> (r: Vec<MarkerType>)
        ensures
            r@.len() == 8,
            forall|i: int| 0 <= i < 8 ==> Some(#[trigger] r@[i]) == marker_from_repr((i + 1) as u8),
    {
        let mut r: Vec<MarkerType> = Vec::new();
        let mut i: u8 = 1;
        while i < 9
            invariant
                1 <= i <= 9,
                r@.len() == i - 1,
                forall|j: int| 0 <= j < i - 1 ==> Some(#[trigger] r@[j]) == marker_from_repr((j + 1) as u8),
            decreases 9 - i,
        {
            if let Some(m) = MarkerType::from_repr(i) {
                r.push(m);
            }
            i = i + 1;
        }
        r
    }
}


/// One marker of a marker set: which marker, an optional description, and
/// where it goes. `P` is a position in the map.
#[derive(Debug)]
pub struct MarkerEntry<P> {
    pub marker: MarkerType,
    pub id: Option<String>,
    pub position: P,
}

impl<P: Copy> MarkerEntry<P> {
    pub fn clone(&self) -> (r: Self)
        ensures
            r == *self,
    {
        MarkerEntry { marker: self.marker, id: clone_opt_string(&self.id), position: self.position }
    }
}

/// A set of markers to place together on a map, placed automatically where
/// the player walks into its trigger.
#[derive(Debug)]
pub struct MarkerSet<P> {
    pub enabled: bool,
    pub author: Option<String>,
    pub name: String,
    pub description: String,
    pub category: Option<String>,
    pub map_id: u32,
    pub trigger: P,
    pub markers: Vec<MarkerEntry<P>>,
    pub path: Option<String>,
    pub idx: Option<usize>,
}

/// The value a marker set stands for, with its markers as a sequence.
pub struct MarkerSetView<P> {
    pub enabled: bool,
    pub author: Option<String>,
    pub name: String,
    pub description: String,
    pub category: Option<String>,
    pub map_id: u32,
    pub trigger: P,
    pub markers: Seq<MarkerEntry<P>>,
    pub path: Option<String>,
    pub idx: Option<usize>,
}

impl<P> View for MarkerSet<P> {
    type V = MarkerSetView<P>;

    open spec fn view(&self) -> MarkerSetView<P> {
        MarkerSetView {
            enabled: self.enabled,
            author: self.author,
            name: self.name,
            description: self.description,
            category: self.category,
            map_id: self.map_id,
            trigger: self.trigger,
            markers: self.markers@,
            path: self.path,
            idx: self.idx,
        }
    }
}

/// The name and author line of a marker set, as shown in its tooltip.
pub open spec fn combined_text(name: Seq<char>, author: Option<Seq<char>>) -> Seq<char> {
    match author {
        Some(a) => name + "\nAuthor: "@ + a,
        None => name + "\nUnknown Author"@,
    }
}

impl<P: Copy> MarkerSet<P> {
    pub fn clone(&self) -> (r: Self)
        ensures
            r@ == self@,
    {
        let mut markers: Vec<MarkerEntry<P>> = Vec::new();
        let n = self.markers.len();
        let mut i: usize = 0;
        while i < n
            invariant
                n == self.markers@.len(),
                i <= n,
                markers@ == self.markers@.subrange(0, i as int),
            decreases n - i,
        {
            markers.push(self.markers[i].clone());
            assert(markers@ =~= self.markers@.subrange(0, i + 1));
            i = i + 1;
        }
        assert(markers@ =~= self.markers@);
        MarkerSet {
            enabled: self.enabled,
            author: clone_opt_string(&self.author),
            name: self.name.clone(),
            description: self.description.clone(),
            category: clone_opt_string(&self.category),
            map_id: self.map_id,
            trigger: self.trigger,
            markers,
            path: clone_opt_string(&self.path),
            idx: self.idx,
        }
    }

    /// The set's name, then its author on the next line, or "Unknown Author".
    pub fn combined(&self) -> (r: String)
        ensures
            r@ == combined_text(self.name@, opt_view(self.author)),
    {
        let mut s = self.name.clone();
        match &self.author {
            Some(author) => {
                s.append("\nAuthor: ");
                s.append(author.as_str());
            },
            None => {
                s.append("\nUnknown Author");
            },
        }
        s
    }
}

/// A position with its second and third axes exchanged: marker files hold
/// positions in this form, and the exchange turns it back.
pub open spec fn axes_swapped<T>(p: [T; 3]) -> [T; 3] {
    [p[0], p[2], p[1]]
}

/// Exchanges the second and third axes of a position, turning a game
/// position into the form marker files hold and back.
pub fn swap_axes<T: Copy>(p: [T; 3]) -> (r: [T; 3])
    ensures
        r == axes_swapped(p),
{
    [p[0], p[2], p[1]]
}

/// Exchanging the axes twice gives the position back.
pub proof fn lemma_swap_axes_twice<T>(p: [T; 3])
    ensures
        axes_swapped(axes_swapped(p)) == p,
{
    assert(axes_swapped(axes_swapped(p))@ =~= p@);
}

/// A named group of marker sets in a marker file.
#[derive(Debug)]
pub struct MarkerCategory<P> {
    pub name: String,
    pub marker_sets: Vec<MarkerSet<P>>,
}

/// A marker file of this addon's own format; `D` is a point in time.
#[derive(Debug)]
pub struct MarkerFile<P, D> {
    pub last_edit: D,
    pub path: Option<String>,
    pub categories: Vec<MarkerCategory<P>>,
}

/// A marker preset file of the BlishHUD CommanderMarkers module.
#[derive(Debug)]
pub struct CustomMarkers<P> {
    pub version: String,
    pub path: Option<String>,
    pub squad_marker_preset: Vec<MarkerSet<P>>,
}

/// The formats a `.markers` file can be in.
#[derive(Debug)]
pub enum MarkerFormats<P, D> {
    File(MarkerFile<P, D>),
    Custom(CustomMarkers<P>),
}

/// A marker file as loaded, with the path it was loaded from.
#[derive(Debug)]
pub struct RuntimeMarkers<P, D> {
    pub path: Option<String>,
    pub file: MarkerFormats<P, D>,
}

/// The category that presets of the CommanderMarkers format are listed under.
pub open spec fn custom_category() -> Seq<char> {
    "Custom"@
}

/// The marker sets of one category, each tagged with the pack's path.
pub open spec fn category_entries<P>(name: Seq<char>, sets: Seq<MarkerSet<P>>, path: Option<String>) -> Seq<
    (Seq<char>, MarkerSetView<P>),
> {
    sets.map_values(|s: MarkerSet<P>| (name, MarkerSetView { path: path, ..s@ }))
}

/// The (category, marker set) pairs of the first `n` categories of a marker file.
pub open spec fn categories_entries<P>(cats: Seq<MarkerCategory<P>>, path: Option<String>, n: int) -> Seq<
    (Seq<char>, MarkerSetView<P>),
>
    decreases n,
{
    if n <= 0 {
        Seq::empty()
    } else {
        categories_entries(cats, path, n - 1) + category_entries(cats[n - 1].name@, cats[n - 1].marker_sets@, path)
    }
}

/// The (category, marker set) pairs a loaded marker file contributes.
pub open spec fn pack_entries<P, D>(pack: RuntimeMarkers<P, D>) -> Seq<(Seq<char>, MarkerSetView<P>)> {
    match pack.file {
        MarkerFormats::File(f) => categories_entries(f.categories@, pack.path, f.categories@.len() as int),
        MarkerFormats::Custom(c) => category_entries(custom_category(), c.squad_marker_preset@, pack.path),
    }
}

/// The (category, marker set) pairs of the first `n` loaded files.
pub open spec fn packs_entries<P, D>(packs: Seq<RuntimeMarkers<P, D>>, n: int) -> Seq<(Seq<char>, MarkerSetView<P>)>
    decreases n,
{
    if n <= 0 {
        Seq::empty()
    } else {
        packs_entries(packs, n - 1) + pack_entries(packs[n - 1])
    }
}

/// The marker sets, in order, of the pairs whose category is `k`.
pub open spec fn sets_in<P>(entries: Seq<(Seq<char>, MarkerSetView<P>)>, k: Seq<char>) -> Seq<MarkerSetView<P>>
    decreases entries.len(),
{
    if entries.len() == 0 {
        Seq::empty()
    } else {
        let rest = sets_in(entries.drop_last(), k);
        if entries.last().0 == k {
            rest.push(entries.last().1)
        } else {
            rest
        }
    }
}

/// The map from category to marker sets that a list of pairs stands for.
pub open spec fn grouped<P>(entries: Seq<(Seq<char>, MarkerSetView<P>)>, m: Map<Seq<char>, Vec<MarkerSet<P>>>) -> bool {
    &&& forall|k: Seq<char>| #[trigger] m.dom().contains(k) <==> sets_in(entries, k).len() > 0
    &&& forall|k: Seq<char>| m.dom().contains(k) ==> (#[trigger] m[k])@.map_values(|s: MarkerSet<P>| s@) == sets_in(entries, k)
}

/// The category names a loaded file lists: each category of a file of the
/// addon's own format, or "Custom" for a CommanderMarkers file.
pub open spec fn pack_names<P, D>(pack: RuntimeMarkers<P, D>) -> Seq<Seq<char>> {
    match pack.file {
        MarkerFormats::File(f) => f.categories@.map_values(|c: MarkerCategory<P>| c.name@),
        MarkerFormats::Custom(_) => seq![custom_category()],
    }
}

/// The category names the first `n` loaded files list.
pub open spec fn packs_names<P, D>(packs: Seq<RuntimeMarkers<P, D>>, n: int) -> Seq<Seq<char>>
    decreases n,
{
    if n <= 0 {
        Seq::empty()
    } else {
        packs_names(packs, n - 1) + pack_names(packs[n - 1])
    }
}

/// The map from category to marker sets that the loaded files stand for:
/// every category they list is a key, even one without sets, and its value
/// holds the sets filed under it, in order.
pub open spec fn gathered<P, D>(packs: Seq<RuntimeMarkers<P, D>>, m: Map<Seq<char>, Vec<MarkerSet<P>>>) -> bool {
    let entries = packs_entries(packs, packs.len() as int);
    &&& forall|k: Seq<char>| #[trigger] m.dom().contains(k) <==> packs_names(packs, packs.len() as int).contains(k)
    &&& forall|k: Seq<char>| m.dom().contains(k) ==> (#[trigger] m[k])@.map_values(|s: MarkerSet<P>| s@) == sets_in(entries, k)
}

/// Each pair of the first `m` categories is filed under one of their names.
proof fn lemma_categories_keys<P>(cats: Seq<MarkerCategory<P>>, path: Option<String>, m: int)
    requires
        0 <= m <= cats.len(),
    ensures
        forall|i: int|
            0 <= i < categories_entries(cats, path, m).len() ==> cats.subrange(0, m).map_values(
                |c: MarkerCategory<P>| c.name@,
            ).contains(#[trigger] categories_entries(cats, path, m)[i].0),
    decreases m,
{
    if m > 0 {
        lemma_categories_keys(cats, path, m - 1);
        let before = categories_entries(cats, path, m - 1);
        let names = cats.subrange(0, m).map_values(|c: MarkerCategory<P>| c.name@);
        let prev = cats.subrange(0, m - 1).map_values(|c: MarkerCategory<P>| c.name@);
        assert forall|i: int| 0 <= i < categories_entries(cats, path, m).len() implies names.contains(
            #[trigger] categories_entries(cats, path, m)[i].0,
        ) by {
            if i < before.len() {
                let j = choose|j: int| 0 <= j < prev.len() && prev[j] == before[i].0;
                assert(names[j] == prev[j]);
            } else {
                assert(names[m - 1] == cats[m - 1].name@);
            }
        }
    }
}

/// Each pair of the first `n` files is filed under a name they list.
proof fn lemma_entry_keys_named<P, D>(packs: Seq<RuntimeMarkers<P, D>>, n: int)
    requires
        0 <= n <= packs.len(),
    ensures
        forall|i: int|
            0 <= i < packs_entries(packs, n).len() ==> packs_names(packs, n).contains(
                #[trigger] packs_entries(packs, n)[i].0,
            ),
    decreases n,
{
    if n > 0 {
        lemma_entry_keys_named(packs, n - 1);
        let before = packs_entries(packs, n - 1);
        let names = packs_names(packs, n);
        let prev = packs_names(packs, n - 1);
        let pack = packs[n - 1];
        assert forall|i: int| 0 <= i < packs_entries(packs, n).len() implies names.contains(
            #[trigger] packs_entries(packs, n)[i].0,
        ) by {
            if i < before.len() {
                let j = choose|j: int| 0 <= j < prev.len() && prev[j] == before[i].0;
                assert(names[j] == prev[j]);
            } else {
                let k = i - before.len();
                match pack.file {
                    MarkerFormats::File(f) => {
                        let cats = f.categories@;
                        lemma_categories_keys(cats, pack.path, cats.len() as int);
                        assert(cats.subrange(0, cats.len() as int) =~= cats);
                        let local = pack_entries(pack);
                        assert(packs_entries(packs, n)[i] == local[k]);
                        let j = choose|j: int| 0 <= j < cats.len() && pack_names(pack)[j] == local[k].0;
                        assert(names[prev.len() + j] == pack_names(pack)[j]);
                    },
                    MarkerFormats::Custom(c) => {
                        assert(packs_entries(packs, n)[i] == pack_entries(pack)[k]);
                        assert(names[prev.len() as int] == custom_category());
                    },
                }
            }
        }
    }
}

/// A category has sets only if some pair is filed under it.
proof fn lemma_sets_in_keyed<P>(entries: Seq<(Seq<char>, MarkerSetView<P>)>, k: Seq<char>)
    requires
        sets_in(entries, k).len() > 0,
    ensures
        exists|i: int| 0 <= i < entries.len() && (#[trigger] entries[i]).0 == k,
    decreases entries.len(),
{
    if entries.last().0 != k {
        lemma_sets_in_keyed(entries.drop_last(), k);
        let i = choose|i: int| 0 <= i < entries.drop_last().len() && (#[trigger] entries.drop_last()[i]).0 == k;
        assert(entries[i] == entries.drop_last()[i]);
    } else {
        assert(entries[entries.len() - 1].0 == k);
    }
}

impl<P: Copy, D> RuntimeMarkers<P, D> {
    /// The glob that finds marker files below a directory.
    pub fn glob() -> (r: String)
        ensures
            r@ == "**/*.markers"@,
    {
        String::from_str("**/*.markers")
    }

    /// Gathers the marker sets of all loaded files by category. Sets of the
    /// addon's own format keep their category; CommanderMarkers presets go
    /// under "Custom". Each set records the path of the file it came from,
    /// and within a category sets keep the order of the files and of the sets.
    /// Every category a file lists is a key, with an empty list where it
    /// holds no sets.
    pub fn markers(marker_packs: &Vec<RuntimeMarkers<P, D>>) -> (r: KeyedList<Vec<MarkerSet<P>>>)
        ensures
            gathered(marker_packs@, r@),
    {
        let ghost packs = marker_packs@;
        let ghost all = packs_entries(packs, packs.len() as int);
        let entries = Self::all_entries(marker_packs);
        let mut r = group_entries(entries);
        let n = marker_packs.len();
        let mut i: usize = 0;
        while i < n
            invariant
                n == packs.len(),
                packs == marker_packs@,
                all == packs_entries(packs, packs.len() as int),
                i <= n,
                forall|k: Seq<char>| #[trigger]
                    r@.dom().contains(k) <==> (sets_in(all, k).len() > 0 || packs_names(packs, i as int).contains(k)),
                forall|k: Seq<char>|
                    r@.dom().contains(k) ==> (#[trigger] r@[k])@.map_values(|s: MarkerSet<P>| s@) == sets_in(all, k),
            decreases n - i,
        {
            let pack = &marker_packs[i];
            let ghost base = packs_names(packs, i as int);
            match &pack.file {
                MarkerFormats::File(f) => {
                    let m = f.categories.len();
                    let mut j: usize = 0;
                    while j < m
                        invariant
                            m == f.categories@.len(),
                            j <= m,
                            forall|k: Seq<char>| #[trigger]
                                r@.dom().contains(k) <==> (sets_in(all, k).len() > 0 || (base + f.categories@.subrange(
                                    0,
                                    j as int,
                                ).map_values(|c: MarkerCategory<P>| c.name@)).contains(k)),
                            forall|k: Seq<char>|
                                r@.dom().contains(k) ==> (#[trigger] r@[k])@.map_values(|s: MarkerSet<P>| s@)
                                    == sets_in(all, k),
                        decreases m - j,
                    {
                        let name = &f.categories[j].name;
                        let ghost was = base + f.categories@.subrange(0, j as int).map_values(
                            |c: MarkerCategory<P>| c.name@,
                        );
                        let ghost now = base + f.categories@.subrange(0, j + 1).map_values(
                            |c: MarkerCategory<P>| c.name@,
                        );
                        proof {
                            assert(now =~= was.push(name@));
                        }
                        let ghost r0 = r@;
                        if !r.contains_key(name.as_str()) {
                            let empty: Vec<MarkerSet<P>> = Vec::new();
                            proof {
                                if sets_in(all, name@).len() > 0 {
                                    assert(r@.dom().contains(name@));
                                }
                                assert(empty@.map_values(|s: MarkerSet<P>| s@) =~= sets_in(all, name@));
                            }
                            r.insert(name.clone(), empty);
                        }
                        proof {
                            assert forall|k: Seq<char>| #[trigger]
                                r@.dom().contains(k) <==> (sets_in(all, k).len() > 0 || now.contains(k)) by {
                                if k == name@ {
                                    assert(now[now.len() - 1] == k);
                                } else {
                                    assert(r@.dom().contains(k) == r0.dom().contains(k));
                                    if now.contains(k) {
                                        let x = choose|x: int| 0 <= x < now.len() && now[x] == k;
                                        assert(was[x] == k);
                                    }
                                    if was.contains(k) {
                                        let x = choose|x: int| 0 <= x < was.len() && was[x] == k;
                                        assert(now[x] == k);
                                    }
                                }
                            }
                        }
                        j = j + 1;
                    }
                    proof {
                        assert(f.categories@.subrange(0, m as int) =~= f.categories@);
                        assert(packs_names(packs, i + 1) == base + pack_names(packs[i as int]));
                    }
                },
                MarkerFormats::Custom(_) => {
                    let name = String::from_str("Custom");
                    proof {
                        reveal_strlit("Custom");
                        assert(packs_names(packs, i + 1) == base + pack_names(packs[i as int]));
                        assert(packs_names(packs, i + 1) =~= base.push(name@));
                    }
                    let ghost r0 = r@;
                    if !r.contains_key(name.as_str()) {
                        let empty: Vec<MarkerSet<P>> = Vec::new();
                        proof {
                            if sets_in(all, name@).len() > 0 {
                                assert(r@.dom().contains(name@));
                            }
                            assert(empty@.map_values(|s: MarkerSet<P>| s@) =~= sets_in(all, name@));
                        }
                        r.insert(name, empty);
                    }
                    proof {
                        let now = packs_names(packs, i + 1);
                        assert forall|k: Seq<char>| #[trigger]
                            r@.dom().contains(k) <==> (sets_in(all, k).len() > 0 || now.contains(k)) by {
                            if k == custom_category() {
                                assert(now[now.len() - 1] == k);
                            } else {
                                assert(r@.dom().contains(k) == r0.dom().contains(k));
                                if now.contains(k) {
                                    let x = choose|x: int| 0 <= x < now.len() && now[x] == k;
                                    assert(base[x] == k);
                                }
                                if base.contains(k) {
                                    let x = choose|x: int| 0 <= x < base.len() && base[x] == k;
                                    assert(now[x] == k);
                                }
                            }
                        }
                    }
                },
            }
            i = i + 1;
        }
        proof {
            lemma_entry_keys_named(packs, packs.len() as int);
            assert forall|k: Seq<char>| #[trigger] r@.dom().contains(k) <==> packs_names(packs, packs.len() as int).contains(k) by {
                if sets_in(all, k).len() > 0 {
                    lemma_sets_in_keyed(all, k);
                    let x = choose|x: int| 0 <= x < all.len() && (#[trigger] all[x]).0 == k;
                    assert(packs_names(packs, packs.len() as int).contains(all[x].0));
                }
            }
        }
        r
    }

    fn all_entries(packs: &Vec<RuntimeMarkers<P, D>>) -> (r: Vec<(String, MarkerSet<P>)>)
        ensures
            r@.map_values(|e: (String, MarkerSet<P>)| (e.0@, e.1@)) == packs_entries(packs@, packs@.len() as int),
    {
        let mut r: Vec<(String, MarkerSet<P>)> = Vec::new();
        let n = packs.len();
        let mut i: usize = 0;
        while i < n
            invariant
                n == packs@.len(),
                i <= n,
                r@.map_values(|e: (String, MarkerSet<P>)| (e.0@, e.1@)) == packs_entries(packs@, i as int),
            decreases n - i,
        {
            let pack = &packs[i];
            match &pack.file {
                MarkerFormats::File(f) => {
                    let m = f.categories.len();
                    let mut j: usize = 0;
                    let ghost base = r@.map_values(|e: (String, MarkerSet<P>)| (e.0@, e.1@));
                    while j < m
                        invariant
                            m == f.categories@.len(),
                            j <= m,
                            r@.map_values(|e: (String, MarkerSet<P>)| (e.0@, e.1@)) == base + categories_entries(
                                f.categories@,
                                pack.path,
                                j as int,
                            ),
                        decreases m - j,
                    {
                        let cat = &f.categories[j];
                        push_category(&mut r, &cat.name, &cat.marker_sets, &pack.path);
                        proof {
                            assert(base + categories_entries(f.categories@, pack.path, j + 1) =~= base
                                + categories_entries(f.categories@, pack.path, j as int) + category_entries(
                                cat.name@,
                                cat.marker_sets@,
                                pack.path,
                            ));
                        }
                        j = j + 1;
                    }
                },
                MarkerFormats::Custom(c) => {
                    let name = String::from_str("Custom");
                    proof {
                        reveal_strlit("Custom");
                    }
                    push_category(&mut r, &name, &c.squad_marker_preset, &pack.path);
                },
            }
            i = i + 1;
        }
        r
    }
}

/// Appends the sets of one category, each tagged with `path`.
fn push_category<P: Copy>(
    r: &mut Vec<(String, MarkerSet<P>)>,
    name: &String,
    sets: &Vec<MarkerSet<P>>,
    path: &Option<String>,
)
    ensures
        final(r)@.map_values(|e: (String, MarkerSet<P>)| (e.0@, e.1@)) == old(r)@.map_values(
            |e: (String, MarkerSet<P>)| (e.0@, e.1@),
        ) + category_entries(name@, sets@, *path),
{
    let ghost base = old(r)@.map_values(|e: (String, MarkerSet<P>)| (e.0@, e.1@));
    let n = sets.len();
    let mut i: usize = 0;
    while i < n
        invariant
            n == sets@.len(),
            i <= n,
            r@.map_values(|e: (String, MarkerSet<P>)| (e.0@, e.1@)) == base + category_entries(
                name@,
                sets@.subrange(0, i as int),
                *path,
            ),
        decreases n - i,
    {
        let mut set = sets[i].clone();
        set.path = clone_opt_string(path);
        let ghost before = r@;
        r.push((name.clone(), set));
        proof {
            assert(r@.map_values(|e: (String, MarkerSet<P>)| (e.0@, e.1@)) =~= before.map_values(
                |e: (String, MarkerSet<P>)| (e.0@, e.1@),
            ).push((name@, set@)));
            assert(category_entries(name@, sets@.subrange(0, i + 1), *path) =~= category_entries(
                name@,
                sets@.subrange(0, i as int),
                *path,
            ).push((name@, set@)));
        }
        i = i + 1;
    }
    assert(sets@.subrange(0, n as int) =~= sets@);
}

/// Groups pairs by category, keeping their order within each category.
fn group_entries<P>(entries: Vec<(String, MarkerSet<P>)>) -> (r: KeyedList<Vec<MarkerSet<P>>>)
    ensures
        grouped(entries@.map_values(|e: (String, MarkerSet<P>)| (e.0@, e.1@)), r@),
{
    let ghost all = entries@.map_values(|e: (String, MarkerSet<P>)| (e.0@, e.1@));
    let mut r: KeyedList<Vec<MarkerSet<P>>> = KeyedList::new();
    let mut pending = entries;
    let mut reversed: Vec<(String, MarkerSet<P>)> = Vec::new();
    while pending.len() > 0
        invariant
            reversed@.len() + pending@.len() == all.len(),
            pending@.map_values(|e: (String, MarkerSet<P>)| (e.0@, e.1@)) == all.subrange(0, pending@.len() as int),
            forall|j: int|
                0 <= j < reversed@.len() ==> ((#[trigger] reversed@[j]).0@, reversed@[j].1@) == all[all.len() - 1 - j],
            r@ == Map::<Seq<char>, Vec<MarkerSet<P>>>::empty(),
        decreases pending@.len(),
    {
        let ghost before = pending@;
        let e = pending.pop().unwrap();
        proof {
            assert(pending@ =~= before.drop_last());
            assert(before.map_values(|e: (String, MarkerSet<P>)| (e.0@, e.1@))[before.len() - 1] == (e.0@, e.1@));
            assert(pending@.map_values(|e: (String, MarkerSet<P>)| (e.0@, e.1@)) =~= all.subrange(
                0,
                pending@.len() as int,
            ));
        }
        reversed.push(e);
    }
    let n = reversed.len();
    let mut done: usize = 0;
    proof {
        assert forall|k: Seq<char>| #[trigger] r@.dom().contains(k) <==> sets_in(all.subrange(0, 0), k).len() > 0 by {
            assert(all.subrange(0, 0).len() == 0);
        }
    }
    while reversed.len() > 0
        invariant
            n == all.len(),
            reversed@.len() + done == n,
            forall|j: int|
                0 <= j < reversed@.len() ==> ((#[trigger] reversed@[j]).0@, reversed@[j].1@) == all[all.len() - 1 - j],
            grouped(all.subrange(0, done as int), r@),
        decreases reversed@.len(),
    {
        let ghost before = reversed@;
        let (key, set) = reversed.pop().unwrap();
        proof {
            assert(reversed@ =~= before.drop_last());
            assert((key@, set@) == all[done as int]);
            assert(all.subrange(0, done + 1).drop_last() =~= all.subrange(0, done as int));
        }
        let mut list: Vec<MarkerSet<P>> = match r.remove(key.as_str()) {
            Some(v) => v,
            None => Vec::new(),
        };
        let ghost prev = list@;
        list.push(set);
        r.insert(key, list);
        done = done + 1;
        proof {
            let cur = all.subrange(0, done as int);
            let was = all.subrange(0, done - 1);
            assert forall|k: Seq<char>| #[trigger] r@.dom().contains(k) <==> sets_in(cur, k).len() > 0 by {
                if k != key@ {
                    assert(sets_in(cur, k) == sets_in(was, k));
                }
            }
            assert forall|k: Seq<char>| r@.dom().contains(k) implies (#[trigger] r@[k])@.map_values(|s: MarkerSet<P>| s@) == sets_in(cur, k) by {
                if k != key@ {
                    assert(sets_in(cur, k) == sets_in(was, k));
                } else {
                    if sets_in(was, k).len() == 0 {
                        assert(prev.map_values(|s: MarkerSet<P>| s@) =~= sets_in(was, k));
                    }
                    assert(r@[k]@ == prev.push(set));
                    assert(r@[k]@.map_values(|s: MarkerSet<P>| s@) =~= prev.map_values(|s: MarkerSet<P>| s@).push(set@));
                }
            }
        }
    }
    proof {
        assert(all.subrange(0, n as int) =~= all);
    }
    r
}

/// Whether the world map is open, and so which map view coordinates refer to.
#[derive(Clone, Copy, Debug, PartialEq, Eq, Structural)]
pub enum CurrentPerspective {
    Global,
    Minimap,
}

impl Default for CurrentPerspective {
    fn default() -> (r: Self)
        ensures
            r == CurrentPerspective::Minimap,
    {
        CurrentPerspective::Minimap
    }
}

impl CurrentPerspective {
    /// The perspective for the game's "map open" flag.
    pub fn from(map_open: bool) -> (r: Self)
        ensures
            r == (if map_open {
                CurrentPerspective::Global
            } else {
                CurrentPerspective::Minimap
            }),
    {
        if map_open {
            CurrentPerspective::Global
        } else {
            CurrentPerspective::Minimap
        }
    }
}

/// Where the minimap sits on screen.
#[derive(Clone, Copy, Debug, PartialEq, Eq, Structural)]
pub enum MinimapPlacement {
    Top,
    Bottom,
}

impl Default for MinimapPlacement {
    fn default() -> (r: Self)
        ensures
            r == MinimapPlacement::Bottom,
    {
        MinimapPlacement::Bottom
    }
}

impl MinimapPlacement {
    /// The placement for the game's "compass at the top right" flag.
    pub fn from(top_right: bool) -> (r: Self)
        ensures
            r == (if top_right {
                MinimapPlacement::Top
            } else {
                MinimapPlacement::Bottom
            }),
    {
        if top_right {
            MinimapPlacement::Top
        } else {
            MinimapPlacement::Bottom
        }
    }
}

/// Round trip of the schema numbering: every marker's number reads back as
/// that marker, and every number that reads as a marker is that marker's number.
pub proof fn lemma_marker_repr_round_trip(m: MarkerType, v: u8)
    ensures
        marker_from_repr(marker_repr(m)) == Some(m),
        marker_from_repr(v) is Some <==> v <= 9,
        marker_from_repr(v) matches Some(n) ==> marker_repr(n) == v,
{
}


/// The marker whose shape a binding's name carries ("Swirl" is the spiral),
/// and whether it places at a world location rather than on an agent.
pub open spec fn bind_shape(b: GameBind) -> (MarkerType, bool) {
    match b {
        GameBind::SquadMarkerPlaceWorldArrow => (MarkerType::Arrow, true),
        GameBind::SquadMarkerPlaceWorldCircle => (MarkerType::Circle, true),
        GameBind::SquadMarkerPlaceWorldHeart => (MarkerType::Heart, true),
        GameBind::SquadMarkerPlaceWorldSquare => (MarkerType::Square, true),
        GameBind::SquadMarkerPlaceWorldStar => (MarkerType::Star, true),
        GameBind::SquadMarkerPlaceWorldSwirl => (MarkerType::Spiral, true),
        GameBind::SquadMarkerPlaceWorldTriangle => (MarkerType::Triangle, true),
        GameBind::SquadMarkerPlaceWorldCross => (MarkerType::Cross, true),
        GameBind::SquadMarkerClearAllWorld => (MarkerType::ClearMarkers, true),
        GameBind::SquadMarkerSetAgentArrow => (MarkerType::Arrow, false),
        GameBind::SquadMarkerSetAgentCircle => (MarkerType::Circle, false),
        GameBind::SquadMarkerSetAgentHeart => (MarkerType::Heart, false),
        GameBind::SquadMarkerSetAgentSquare => (MarkerType::Square, false),
        GameBind::SquadMarkerSetAgentStar => (MarkerType::Star, false),
        GameBind::SquadMarkerSetAgentSwirl => (MarkerType::Spiral, false),
        GameBind::SquadMarkerSetAgentTriangle => (MarkerType::Triangle, false),
        GameBind::SquadMarkerSetAgentCross => (MarkerType::Cross, false),
    }
}

/// Each marker presses the bindings of its own shape: placing it at a
/// world location presses the world binding named after it, setting it on
/// an agent the agent binding named after it, so both bindings of a marker
/// agree on the shape. Clearing presses the binding that clears all
/// markers either way.
pub proof fn lemma_binds_match_shape(m: MarkerType)
    requires
        m != MarkerType::Blank,
    ensures
        bind_shape(place_world_bind(m)) == (m, true),
        m != MarkerType::ClearMarkers ==> bind_shape(set_agent_bind(m)) == (m, false),
        bind_shape(place_world_bind(m)).0 == bind_shape(set_agent_bind(m)).0,
        m == MarkerType::ClearMarkers ==> set_agent_bind(m) == GameBind::SquadMarkerClearAllWorld,
{
}

/// The schema numbers of the markers: none is 0, the eight placeable
/// markers are 1 to 8 in the order arrow, circle, heart, square, star,
/// spiral, triangle, cross, and clearing is 9.
pub proof fn lemma_marker_numbers()
    ensures
        marker_repr(MarkerType::Blank) == 0,
        marker_repr(MarkerType::Arrow) == 1,
        marker_repr(MarkerType::Circle) == 2,
        marker_repr(MarkerType::Heart) == 3,
        marker_repr(MarkerType::Square) == 4,
        marker_repr(MarkerType::Star) == 5,
        marker_repr(MarkerType::Spiral) == 6,
        marker_repr(MarkerType::Triangle) == 7,
        marker_repr(MarkerType::Cross) == 8,
        marker_repr(MarkerType::ClearMarkers) == 9,
{
}

/// Distinct placeable markers press distinct bindings, both for world
/// placement and for agent targeting, and no world-placement binding of a
/// placeable marker is an agent binding.
pub proof fn lemma_gamebinds_distinct(a: MarkerType, b: MarkerType)
    requires
        a != MarkerType::Blank,
        b != MarkerType::Blank,
    ensures
        a != b ==> place_world_bind(a) != place_world_bind(b),
        a != b ==> set_agent_bind(a) != set_agent_bind(b),
        a != MarkerType::ClearMarkers ==> place_world_bind(a) != set_agent_bind(b),
{
}

} // verus!
