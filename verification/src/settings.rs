use vstd::prelude::*;
use vstd::string::*;
use crate::keyed::{KeyedList, str_eq};

verus! {

/// Per-timer settings; a timer without an entry counts as enabled.
#[derive(Clone, Copy, Debug, PartialEq, Eq, Structural)]
pub struct TimerSettings {
    pub disabled: bool,
}

impl Default for TimerSettings {
    fn default() -> (r: Self)
        ensures
            r.disabled == false,
    {
        TimerSettings { disabled: false }
    }
}

impl TimerSettings {
    pub fn disable(&mut self)
        ensures
            final(self).disabled,
    {
        self.disabled = true;
    }

    pub fn enable(&mut self)
        ensures
            !final(self).disabled,
    {
        self.disabled = false;
    }

    /// Flips the disabled flag and returns its new value.
    pub fn toggle(&mut self) -> (r: bool)
        ensures
            final(self).disabled == !old(self).disabled,
            r == final(self).disabled,
    {
        self.disabled = !self.disabled;
        self.disabled
    }
}

/// Toggling a timer's settings twice gives back the settings it started with.
pub proof fn lemma_toggle_involutive(s: TimerSettings)
    ensures
        (TimerSettings { disabled: !(TimerSettings { disabled: !s.disabled }).disabled }) == s,
{
}

/// Whether a data source is behind its latest release, as far as is known.
#[derive(Debug)]
pub enum NeedsUpdate {
    Unknown,
    /// Whether an update is available, and the latest release's tag.
    Known(bool, String),
}

impl NeedsUpdate {
    /// The status line shown for a data source.
    pub fn to_string(&self) -> (r: String)
        ensures
            r@ == needs_update_text(*self),
    {
        match self {
            NeedsUpdate::Unknown => String::from_str("Unknown!"),
            NeedsUpdate::Known(true, id) => {
                let mut s = String::from_str("Newer version, ");
                s.append(id.as_str());
                s.append(" available!");
                s
            },
            NeedsUpdate::Known(false, _id) => String::from_str("Up to date!"),
        }
    }

    pub fn clone(&self) -> (r: NeedsUpdate)
        ensures
            r == *self,
    {
        match self {
            NeedsUpdate::Unknown => NeedsUpdate::Unknown,
            NeedsUpdate::Known(b, id) => NeedsUpdate::Known(*b, id.clone()),
        }
    }
}

pub open spec fn needs_update_text(n: NeedsUpdate) -> Seq<char> {
    match n {
        NeedsUpdate::Unknown => "Unknown!"@,
        NeedsUpdate::Known(true, id) => "Newer version, "@ + id@ + " available!"@,
        NeedsUpdate::Known(false, _) => "Up to date!"@,
    }
}

/// The character view of an optional string.
pub open spec fn opt_view(o: Option<String>) -> Option<Seq<char>> {
    match o {
        Some(s) => Some(s@),
        None => None,
    }
}

pub fn clone_opt_string(o: &Option<String>) -> (r: Option<String>)
    ensures
        r == *o,
{
    match o {
        Some(s) => Some(s.clone()),
        None => None,
    }
}

/// A GitHub repository whose releases carry timer data.
#[derive(Debug)]
pub struct GitHubSource {
    pub owner: String,
    pub repository: String,
    pub description: Option<String>,
}

/// Two sources name the same repository with the same description.
pub open spec fn same_source(a: GitHubSource, b: GitHubSource) -> bool {
    &&& a.owner@ == b.owner@
    &&& a.repository@ == b.repository@
    &&& opt_view(a.description) == opt_view(b.description)
}

impl GitHubSource {
    pub fn clone(&self) -> (r: GitHubSource)
        ensures
            r == *self,
    {
        GitHubSource {
            owner: self.owner.clone(),
            repository: self.repository.clone(),
            description: clone_opt_string(&self.description),
        }
    }

    /// Whether `other` is the same source.
    pub fn eq(&self, other: &GitHubSource) -> (r: bool)
        ensures
            r == same_source(*self, *other),
    {
        if !str_eq(self.owner.as_str(), other.owner.as_str()) {
            return false;
        }
        if !str_eq(self.repository.as_str(), other.repository.as_str()) {
            return false;
        }
        match (&self.description, &other.description) {
            (Some(a), Some(b)) => str_eq(a.as_str(), b.as_str()),
            (None, None) => true,
            _ => false,
        }
    }

    /// `owner/repository`.
    pub fn to_string(&self) -> (r: String)
        ensures
            r@ == self.owner@ + "/"@ + self.repository@,
    {
        let mut s = self.owner.clone();
        s.append("/");
        s.append(self.repository.as_str());
        s
    }

    /// The folder a release of this source is installed into: `owner_repository`.
    pub fn folder_name(&self) -> (r: String)
        ensures
            r@ == self.owner@ + "_"@ + self.repository@,
    {
        let mut s = self.owner.clone();
        s.append("_");
        s.append(self.repository.as_str());
        s
    }
}

/// A data source together with what is installed from it.
#[derive(Debug)]
pub struct RemoteState {
    pub source: GitHubSource,
    pub installed_tag: Option<String>,
    pub installed_path: Option<String>,
    pub needs_update: NeedsUpdate,
}

/// The update status for a source with `installed` tag, given the tag of the
/// latest release, or `None` where it could not be fetched.
pub open spec fn update_status(installed: Option<Seq<char>>, latest: Option<Seq<char>>) -> (Option<
    (bool, Seq<char>),
>) {
    match latest {
        None => None,
        Some(remote) => match installed {
            Some(tag) => Some((tag != remote, remote)),
            None => Some((true, remote)),
        },
    }
}

/// The model of a `NeedsUpdate`: `None` where it is unknown.
pub open spec fn status_model(n: NeedsUpdate) -> Option<(bool, Seq<char>)> {
    match n {
        NeedsUpdate::Unknown => None,
        NeedsUpdate::Known(b, id) => Some((b, id@)),
    }
}

impl RemoteState {
    pub fn new(owner: &str, repository: &str) -> (r: RemoteState)
        ensures
            r.source.owner@ == owner@,
            r.source.repository@ == repository@,
            r.source.description is None,
            r.installed_tag is None,
            r.installed_path is None,
            r.needs_update is Unknown,
    {
        RemoteState {
            source: GitHubSource {
                owner: String::from_str(owner),
                repository: String::from_str(repository),
                description: None,
            },
            installed_tag: None,
            installed_path: None,
            needs_update: NeedsUpdate::Unknown,
        }
    }

    /// The sources offered out of the box: QuitarHero's Hero-Timers.
    pub fn suggested_sources() -> (r: Vec<RemoteState>)
        ensures
            r@.len() == 1,
            r@[0].source.owner@ == "QuitarHero"@,
            r@[0].source.repository@ == "Hero-Timers"@,
            r@[0].source.description is None,
            r@[0].installed_tag is None,
            r@[0].installed_path is None,
            r@[0].needs_update is Unknown,
    {
        let mut r = Vec::new();
        r.push(RemoteState::new("QuitarHero", "Hero-Timers"));
        r
    }

    /// The update status of this source, given the tag of the latest release
    /// (`None` where fetching it failed).
    pub fn needs_update(&self, latest: Option<String>) -> (r: NeedsUpdate)
        ensures
            status_model(r) == update_status(opt_view(self.installed_tag), opt_view(latest)),
    {
        match latest {
            None => NeedsUpdate::Unknown,
            Some(remote) => match &self.installed_tag {
                Some(tag) => {
                    let differs = !str_eq(tag.as_str(), remote.as_str());
                    NeedsUpdate::Known(differs, remote)
                },
                None => NeedsUpdate::Known(true, remote),
            },
        }
    }

    /// Records a downloaded release: its tag, where it was installed, and the
    /// update status that follows against `latest`.
    pub fn commit_downloaded(&mut self, tag_name: String, install_dir: String, latest: Option<String>)
        ensures
            final(self).source == old(self).source,
            final(self).installed_tag == Some(tag_name),
            final(self).installed_path == Some(install_dir),
            status_model(final(self).needs_update) == update_status(
                Some(tag_name@),
                opt_view(latest),
            ),
    {
        self.installed_tag = Some(tag_name);
        self.needs_update = self.needs_update(latest);
        self.installed_path = Some(install_dir);
    }
}

/// What the update status says: nothing is known where the latest release
/// could not be fetched; otherwise the latest release's tag is recorded, and
/// an update is needed exactly where the installed tag is not that tag
/// (always where nothing is installed).
pub proof fn lemma_update_status_meaning(installed: Option<Seq<char>>, latest: Option<Seq<char>>)
    ensures
        latest is None ==> update_status(installed, latest) is None,
        latest matches Some(l) ==> (update_status(installed, latest) matches Some((_, tag)) && tag == l),
        latest is Some && installed is None ==> (update_status(installed, latest) matches Some((b, _)) && b),
        latest is Some && installed is Some ==> (update_status(installed, latest) matches Some((b, _)) && (b
            <==> installed->0 != latest->0)),
{
}

/// After a download, a source whose latest release is the one downloaded is up to date.
pub proof fn lemma_up_to_date_after_download(tag: Seq<char>)
    ensures
        update_status(Some(tag), Some(tag)) == Some((false, tag)),
{
}

/// The fonts a progress bar can draw its text in.
#[derive(Clone, Copy, Debug, PartialEq, Eq, Structural)]
pub enum TextFont {
    Fontless,
    Font,
    Ui,
    Big,
}

impl Default for TextFont {
    fn default() -> (r: TextFont)
        ensures
            r == TextFont::Fontless,
    {
        TextFont::Fontless
    }
}

impl TextFont {
    /// All fonts, in declaration order.
    pub fn all() -> (r: Vec<TextFont>)
        ensures
            r@ == seq![TextFont::Fontless, TextFont::Font, TextFont::Ui, TextFont::Big],
    {
        let mut r = Vec::new();
        r.push(TextFont::Fontless);
        r.push(TextFont::Font);
        r.push(TextFont::Ui);
        r.push(TextFont::Big);
        assert(r@ =~= seq![TextFont::Fontless, TextFont::Font, TextFont::Ui, TextFont::Big]);
        r
    }

    /// The font's name in snake case.
    pub fn to_string(&self) -> (r: String)
        ensures
            r@ == font_name(*self),
    {
        match self {
            TextFont::Fontless => String::from_str("fontless"),
            TextFont::Font => String::from_str("font"),
            TextFont::Ui => String::from_str("ui"),
            TextFont::Big => String::from_str("big"),
        }
    }
}

pub open spec fn font_name(f: TextFont) -> Seq<char> {
    match f {
        TextFont::Fontless => "fontless"@,
        TextFont::Font => "font"@,
        TextFont::Ui => "ui"@,
        TextFont::Big => "big"@,
    }
}

/// How timer progress bars are drawn; `H` is the bar height.
#[derive(Clone, Copy, Debug)]
pub struct ProgressBarSettings<H> {
    pub stock: bool,
    pub font: TextFont,
    pub height: H,
    pub shadow: bool,
    pub centre_after: bool,
}

impl<H: Copy> ProgressBarSettings<H> {
    /// The default style, with the given height: the UI font, a shadow, custom
    /// bars, text not centred after the icon.
    pub fn new(height: H) -> (r: Self)
        ensures
            !r.stock,
            r.font == TextFont::Ui,
            r.height == height,
            r.shadow,
            !r.centre_after,
    {
        ProgressBarSettings { font: TextFont::Ui, height, stock: false, shadow: true, centre_after: false }
    }

    pub fn set_height(&mut self, height: H)
        ensures
            *final(self) == (ProgressBarSettings { height, ..*old(self) }),
    {
        self.height = height;
    }

    pub fn set_font(&mut self, font: TextFont)
        ensures
            *final(self) == (ProgressBarSettings { font, ..*old(self) }),
    {
        self.font = font;
    }

    pub fn set_shadow(&mut self, shadow: bool)
        ensures
            *final(self) == (ProgressBarSettings { shadow, ..*old(self) }),
    {
        self.shadow = shadow;
    }

    pub fn toggle_shadow(&mut self)
        ensures
            *final(self) == (ProgressBarSettings { shadow: !old(self).shadow, ..*old(self) }),
    {
        self.shadow = !self.shadow;
    }

    pub fn set_stock(&mut self, stock: bool)
        ensures
            *final(self) == (ProgressBarSettings { stock, ..*old(self) }),
    {
        self.stock = stock;
    }

    pub fn toggle_stock(&mut self)
        ensures
            *final(self) == (ProgressBarSettings { stock: !old(self).stock, ..*old(self) }),
    {
        self.stock = !self.stock;
    }

    pub fn set_centre_after(&mut self, centre_after: bool)
        ensures
            *final(self) == (ProgressBarSettings { centre_after, ..*old(self) }),
    {
        self.centre_after = centre_after;
    }

    pub fn toggle_centre_after(&mut self)
        ensures
            *final(self) == (ProgressBarSettings { centre_after: !old(self).centre_after, ..*old(self) }),
    {
        self.centre_after = !self.centre_after;
    }
}

/// A change to the progress bar style asked for from the configuration tab.
#[derive(Clone, Copy, Debug)]
pub enum ProgressBarStyleChange<H> {
    Centre(bool),
    Stock(bool),
    Shadow(bool),
    Height(H),
    Font(TextFont),
}

/// The style after applying `change` to `p`.
pub open spec fn apply_style_change<H>(p: ProgressBarSettings<H>, change: ProgressBarStyleChange<H>) -> ProgressBarSettings<H> {
    match change {
        ProgressBarStyleChange::Centre(t) => ProgressBarSettings { centre_after: t, ..p },
        ProgressBarStyleChange::Stock(t) => ProgressBarSettings { stock: t, ..p },
        ProgressBarStyleChange::Shadow(t) => ProgressBarSettings { shadow: t, ..p },
        ProgressBarStyleChange::Height(h) => ProgressBarSettings { height: h, ..p },
        ProgressBarStyleChange::Font(f) => ProgressBarSettings { font: f, ..p },
    }
}

/// Under which squad role something happens automatically.
#[derive(Clone, Copy, Debug, PartialEq, Eq, Structural)]
pub enum SquadCondition {
    Never,
    IfCommander,
    IfLieutenantOrAbove,
    Always,
}

/// What happens when the player walks into a marker set's trigger.
#[derive(Clone, Copy, Debug, PartialEq, Eq, Structural)]
pub enum MarkerAutoPlaceSettings {
    OpenWindow(SquadCondition),
    Place(SquadCondition),
    DoNothing,
}

impl Default for MarkerAutoPlaceSettings {
    fn default() -> (r: MarkerAutoPlaceSettings)
        ensures
            r == MarkerAutoPlaceSettings::DoNothing,
    {
        MarkerAutoPlaceSettings::DoNothing
    }
}

/// A timer counts as disabled where its settings say so.
pub open spec fn timer_disabled(timers: Map<Seq<char>, TimerSettings>, id: Seq<char>) -> bool {
    timers.dom().contains(id) && timers[id].disabled
}

/// The paths of the installed sources, in order.
pub open spec fn installed_paths(remotes: Seq<RemoteState>) -> Seq<Seq<char>>
    decreases remotes.len(),
{
    if remotes.len() == 0 {
        Seq::empty()
    } else {
        let rest = installed_paths(remotes.drop_last());
        match remotes.last().installed_path {
            Some(p) => rest.push(p@),
            None => rest,
        }
    }
}

/// The index of the first remote whose source is `source`, if any.
pub open spec fn first_remote_for(remotes: Seq<RemoteState>, source: GitHubSource) -> Option<int>
    decreases remotes.len(),
{
    if remotes.len() == 0 {
        None
    } else {
        match first_remote_for(remotes.drop_last(), source) {
            Some(i) => Some(i),
            None => if same_source(remotes.last().source, source) {
                Some(remotes.len() - 1)
            } else {
                None
            },
        }
    }
}

/// Two sources are the same exactly where they agree on owner, repository
/// and description: sources of different owners, or of different
/// repositories, are different sources.
pub proof fn lemma_same_source_fields(a: GitHubSource, b: GitHubSource)
    ensures
        same_source(a, b) ==> a.owner@ == b.owner@,
        same_source(a, b) ==> a.repository@ == b.repository@,
        same_source(a, b) ==> (a.description is Some <==> b.description is Some),
        same_source(a, b) && a.description is Some ==> a.description->0@ == b.description->0@,
        a.owner@ == b.owner@ && a.repository@ == b.repository@ && a.description is None && b.description is None
            ==> same_source(a, b),
        a.owner@ == b.owner@ && a.repository@ == b.repository@ && (a.description matches Some(x) && (
        b.description matches Some(y) && x@ == y@)) ==> same_source(a, b),
        same_source(a, b) == same_source(b, a),
        same_source(a, a),
{
}

/// The remote an update status, download or uninstall for `source` goes to
/// belongs to that very repository of that owner; a remote of another owner
/// or another repository is never picked.
pub proof fn lemma_first_remote_is_that_source(remotes: Seq<RemoteState>, source: GitHubSource, i: int)
    requires
        first_remote_for(remotes, source) == Some(i),
    ensures
        0 <= i < remotes.len(),
        remotes[i].source.owner@ == source.owner@,
        remotes[i].source.repository@ == source.repository@,
        forall|j: int|
            0 <= j < remotes.len() && (remotes[j].source.owner@ != source.owner@ || remotes[j].source.repository@
                != source.repository@) ==> first_remote_for(remotes, source) != Some(j),
{
    lemma_first_remote_for(remotes, source);
}

/// `first_remote_for` finds the least index whose source matches.
pub proof fn lemma_first_remote_for(remotes: Seq<RemoteState>, source: GitHubSource)
    ensures
        match first_remote_for(remotes, source) {
            Some(i) => {
                &&& 0 <= i < remotes.len()
                &&& same_source(remotes[i].source, source)
                &&& forall|j: int| 0 <= j < i ==> !same_source(#[trigger] remotes[j].source, source)
            },
            None => forall|j: int| 0 <= j < remotes.len() ==> !same_source(#[trigger] remotes[j].source, source),
        },
    decreases remotes.len(),
{
    if remotes.len() > 0 {
        let init = remotes.drop_last();
        lemma_first_remote_for(init, source);
        assert(forall|j: int| 0 <= j < init.len() ==> #[trigger] init[j] == remotes[j]);
        match first_remote_for(init, source) {
            Some(i) => {
                assert(remotes[i] == init[i]);
                assert forall|j: int| 0 <= j < i implies !same_source(#[trigger] remotes[j].source, source) by {
                    assert(remotes[j] == init[j]);
                }
            },
            None => {
                assert forall|j: int| 0 <= j < init.len() implies !same_source(#[trigger] remotes[j].source, source) by {
                    assert(remotes[j] == init[j]);
                }
            },
        }
    }
}

/// The addon's persisted settings; `H` is a progress bar height and `T` a
/// point in time.
pub struct Settings<H, T> {
    pub last_checked: Option<T>,
    pub addon_dir: String,
    pub timers: KeyedList<TimerSettings>,
    pub remotes: Vec<RemoteState>,
    pub primary_window_open: bool,
    pub timers_window_open: bool,
    pub markers_window_open: bool,
    pub pathing_window_open: bool,
    pub progress_bar: ProgressBarSettings<H>,
    pub enable_katrender: bool,
    pub markers: KeyedList<TimerSettings>,
    pub marker_autoplace: MarkerAutoPlaceSettings,
}

/// The windows whose open state the settings keep.
pub open spec fn known_window(window: Seq<char>) -> bool {
    window == "primary"@ || window == "timers"@ || window == "markers"@ || window == "pathing"@
}

/// Whether the settings keep the open state of `window`.
pub fn known_window_name(window: &str) -> (r: bool)
    ensures
        r == known_window(window@),
{
    str_eq(window, "primary") || str_eq(window, "timers") || str_eq(window, "markers") || str_eq(window, "pathing")
}

/// A window's recorded open state after a request: `Some` sets it, `None`
/// flips it.
pub open spec fn window_after(was: bool, state: Option<bool>) -> bool {
    match state {
        Some(b) => b,
        None => !was,
    }
}

impl<H: Copy, T> Settings<H, T> {
    /// Fresh settings for `addon_dir`: no timer settings, the suggested
    /// sources, closed windows, the renderer off.
    pub fn new(addon_dir: String, progress_bar: ProgressBarSettings<H>) -> (r: Self)
        ensures
            r.last_checked is None,
            r.addon_dir == addon_dir,
            r.timers@ == Map::<Seq<char>, TimerSettings>::empty(),
            r.remotes@.len() == 1,
            r.remotes@[0].source.owner@ == "QuitarHero"@,
            r.remotes@[0].source.repository@ == "Hero-Timers"@,
            r.remotes@[0].installed_tag is None,
            r.remotes@[0].needs_update is Unknown,
            !r.primary_window_open,
            !r.timers_window_open,
            !r.markers_window_open,
            !r.pathing_window_open,
            r.progress_bar == progress_bar,
            !r.enable_katrender,
            r.markers@ == Map::<Seq<char>, TimerSettings>::empty(),
            r.marker_autoplace == MarkerAutoPlaceSettings::DoNothing,
    {
        Settings {
            last_checked: None,
            addon_dir,
            timers: KeyedList::new(),
            remotes: RemoteState::suggested_sources(),
            progress_bar,
            timers_window_open: false,
            primary_window_open: false,
            markers_window_open: false,
            pathing_window_open: false,
            enable_katrender: false,
            markers: KeyedList::new(),
            marker_autoplace: MarkerAutoPlaceSettings::DoNothing,
        }
    }

    /// The install paths of the sources that have been installed.
    pub fn get_paths(&self) -> (r: Vec<String>)
        ensures
            r@.map_values(|p: String| p@) == installed_paths(self.remotes@),
    {
        let mut r: Vec<String> = Vec::new();
        let n = self.remotes.len();
        let mut i: usize = 0;
        while i < n
            invariant
                n == self.remotes@.len(),
                i <= n,
                r@.map_values(|p: String| p@) == installed_paths(self.remotes@.subrange(0, i as int)),
            decreases n - i,
        {
            proof {
                assert(self.remotes@.subrange(0, i + 1).drop_last() =~= self.remotes@.subrange(0, i as int));
            }
            match &self.remotes[i].installed_path {
                Some(p) => {
                    r.push(p.clone());
                    assert(r@.map_values(|p: String| p@) =~= installed_paths(self.remotes@.subrange(0, i as int)).push(p@));
                },
                None => {},
            }
            i = i + 1;
        }
        assert(self.remotes@.subrange(0, n as int) =~= self.remotes@);
        r
    }

    /// The first remote for `source`, if any.
    pub fn get_status_for(&self, source: &GitHubSource) -> (r: Option<&RemoteState>)
        ensures
            match first_remote_for(self.remotes@, *source) {
                Some(i) => r matches Some(x) && *x == self.remotes@[i],
                None => r is None,
            },
    {
        proof {
            lemma_first_remote_for(self.remotes@, *source);
        }
        match self.position_of(source) {
            Some(i) => Some(&self.remotes[i]),
            None => None,
        }
    }

    fn position_of(&self, source: &GitHubSource) -> (r: Option<usize>)
        ensures
            match r {
                Some(j) => first_remote_for(self.remotes@, *source) == Some(j as int),
                None => first_remote_for(self.remotes@, *source) is None,
            },
            r matches Some(i) ==> i < self.remotes@.len(),
    {
        proof {
            lemma_first_remote_for(self.remotes@, *source);
        }
        let n = self.remotes.len();
        let mut i: usize = 0;
        while i < n
            invariant
                n == self.remotes@.len(),
                i <= n,
                forall|j: int| 0 <= j < i ==> !same_source(#[trigger] self.remotes@[j].source, *source),
            decreases n - i,
        {
            if self.remotes[i].source.eq(source) {
                proof {
                    lemma_first_remote_for(self.remotes@, *source);
                    match first_remote_for(self.remotes@, *source) {
                        Some(k) => {
                            if k < i {
                                assert(!same_source(self.remotes@[k].source, *source));
                            } else if k > i {
                                assert(!same_source(self.remotes@[i as int].source, *source));
                            }
                        },
                        None => {
                            assert(!same_source(self.remotes@[i as int].source, *source));
                        },
                    }
                }
                return Some(i);
            }
            i = i + 1;
        }
        None
    }

    /// Sets the update status of the first remote for `source`; returns whether there was one.
    pub fn set_needs_update(&mut self, source: &GitHubSource, status: NeedsUpdate) -> (r: bool)
        ensures
            r == (first_remote_for(old(self).remotes@, *source) is Some),
            match first_remote_for(old(self).remotes@, *source) {
                Some(i) => final(self).remotes@ == old(self).remotes@.update(
                    i,
                    (RemoteState { needs_update: status, ..old(self).remotes@[i] }),
                ),
                None => final(self).remotes@ == old(self).remotes@,
            },
            *final(self) == (Settings { remotes: final(self).remotes, ..*old(self) }),
            final(self).timers@ == old(self).timers@,
    {
        proof {
            lemma_first_remote_for(self.remotes@, *source);
        }
        match self.position_of(source) {
            Some(i) => {
                let mut remote = self.remotes.remove(i);
                remote.needs_update = status;
                self.remotes.insert(i, remote);
                proof {
                    assert(self.remotes@ =~= old(self).remotes@.update(
                        i as int,
                        RemoteState { needs_update: status, ..old(self).remotes@[i as int] },
                    ));
                }
                true
            },
            None => false,
        }
    }

    /// Records the results of an update check made at `now`: each result's
    /// status goes to the first remote for its source, in order.
    pub fn apply_update_checks(&mut self, results: Vec<(GitHubSource, NeedsUpdate)>, now: T)
        ensures
            final(self).remotes@ == apply_checks(old(self).remotes@, results@),
            final(self).last_checked == Some(now),
            *final(self) == (Settings { remotes: final(self).remotes, last_checked: final(self).last_checked, ..*old(self) }),
            final(self).timers@ == old(self).timers@,
    {
        let n = results.len();
        let mut i: usize = 0;
        while i < n
            invariant
                n == results@.len(),
                i <= n,
                self.remotes@ == apply_checks(old(self).remotes@, results@.subrange(0, i as int)),
                *self == (Settings { remotes: self.remotes, ..*old(self) }),
                self.timers@ == old(self).timers@,
            decreases n - i,
        {
            proof {
                assert(results@.subrange(0, i + 1).drop_last() =~= results@.subrange(0, i as int));
            }
            let status = results[i].1.clone();
            self.set_needs_update(&results[i].0, status);
            i = i + 1;
        }
        proof {
            assert(results@.subrange(0, n as int) =~= results@);
        }
        self.last_checked = Some(now);
    }

    /// Applies a progress bar style change and returns the new style.
    pub fn set_progress_bar(&mut self, style: ProgressBarStyleChange<H>) -> (r: ProgressBarSettings<H>)
        ensures
            *final(self) == (Settings { progress_bar: final(self).progress_bar, ..*old(self) }),
            final(self).progress_bar == apply_style_change(old(self).progress_bar, style),
            r == final(self).progress_bar,
            final(self).timers@ == old(self).timers@,
    {
        match style {
            ProgressBarStyleChange::Centre(t) => self.progress_bar.set_centre_after(t),
            ProgressBarStyleChange::Stock(t) => self.progress_bar.set_stock(t),
            ProgressBarStyleChange::Shadow(t) => self.progress_bar.set_shadow(t),
            ProgressBarStyleChange::Height(h) => self.progress_bar.set_height(h),
            ProgressBarStyleChange::Font(f) => self.progress_bar.set_font(f),
        }
        self.progress_bar
    }

    /// Turns the experimental renderer on or off.
    pub fn toggle_katrender(&mut self)
        ensures
            *final(self) == (Settings { enable_katrender: final(self).enable_katrender, ..*old(self) }),
            final(self).enable_katrender == !old(self).enable_katrender,
            final(self).timers@ == old(self).timers@,
    {
        self.enable_katrender = !self.enable_katrender;
    }

    /// Records whether one of the addon's windows is open: `Some` sets the
    /// state, `None` (a keybind or a menu entry) flips it. Other windows'
    /// states stay as they were.
    pub fn set_window_state(&mut self, window: &str, state: Option<bool>)
        requires
            known_window(window@),
        ensures
            *final(self) == (Settings {
                primary_window_open: final(self).primary_window_open,
                timers_window_open: final(self).timers_window_open,
                markers_window_open: final(self).markers_window_open,
                pathing_window_open: final(self).pathing_window_open,
                ..*old(self)
            }),
            final(self).primary_window_open == (if window@ == "primary"@ {
                window_after(old(self).primary_window_open, state)
            } else {
                old(self).primary_window_open
            }),
            final(self).timers_window_open == (if window@ == "timers"@ {
                window_after(old(self).timers_window_open, state)
            } else {
                old(self).timers_window_open
            }),
            final(self).markers_window_open == (if window@ == "markers"@ {
                window_after(old(self).markers_window_open, state)
            } else {
                old(self).markers_window_open
            }),
            final(self).pathing_window_open == (if window@ == "pathing"@ {
                window_after(old(self).pathing_window_open, state)
            } else {
                old(self).pathing_window_open
            }),
            final(self).timers@ == old(self).timers@,
            final(self).markers@ == old(self).markers@,
            final(self).remotes@ == old(self).remotes@,
            final(self).enable_katrender == old(self).enable_katrender,
            final(self).progress_bar == old(self).progress_bar,
            final(self).marker_autoplace == old(self).marker_autoplace,
    {
        proof {
            reveal_strlit("primary");
            reveal_strlit("timers");
            reveal_strlit("markers");
            reveal_strlit("pathing");
            assert("primary"@.len() == 7);
            assert("timers"@.len() == 6);
            assert("markers"@.len() == 7);
            assert("pathing"@.len() == 7);
            assert("primary"@[0] != "markers"@[0]);
            assert("primary"@[1] != "pathing"@[1]);
            assert("markers"@[0] != "pathing"@[0]);
        }
        if str_eq(window, "primary") {
            self.primary_window_open = match state {
                Some(b) => b,
                None => !self.primary_window_open,
            };
        } else if str_eq(window, "timers") {
            self.timers_window_open = match state {
                Some(b) => b,
                None => !self.timers_window_open,
            };
        } else if str_eq(window, "markers") {
            self.markers_window_open = match state {
                Some(b) => b,
                None => !self.markers_window_open,
            };
        } else {
            self.pathing_window_open = match state {
                Some(b) => b,
                None => !self.pathing_window_open,
            };
        }
    }

    /// Flips whether marker set `id` is disabled and returns the new state.
    /// A marker set that ends up enabled keeps no entry.
    pub fn toggle_marker(&mut self, id: String) -> (r: bool)
        ensures
            *final(self) == (Settings { markers: final(self).markers, ..*old(self) }),
            r == !timer_disabled(old(self).markers@, id@),
            final(self).markers@ == (if r {
                old(self).markers@.insert(id@, TimerSettings { disabled: true })
            } else {
                old(self).markers@.remove(id@)
            }),
            final(self).timers@ == old(self).timers@,
            final(self).remotes@ == old(self).remotes@,
    {
        let mut entry = match self.markers.get(id.as_str()) {
            Some(e) => *e,
            None => TimerSettings::default(),
        };
        let new_state = entry.toggle();
        if new_state {
            self.markers.insert(id, entry);
        } else {
            self.markers.remove(id.as_str());
        }
        new_state
    }

    /// Marks marker set `id` disabled.
    pub fn disable_marker(&mut self, id: String)
        ensures
            *final(self) == (Settings { markers: final(self).markers, ..*old(self) }),
            final(self).markers@ == old(self).markers@.insert(id@, TimerSettings { disabled: true }),
            final(self).timers@ == old(self).timers@,
            final(self).remotes@ == old(self).remotes@,
    {
        self.markers.insert(id, TimerSettings { disabled: true });
    }

    /// Marks marker set `id` enabled.
    pub fn enable_marker(&mut self, id: String)
        ensures
            *final(self) == (Settings { markers: final(self).markers, ..*old(self) }),
            final(self).markers@ == old(self).markers@.insert(id@, TimerSettings { disabled: false }),
            final(self).timers@ == old(self).timers@,
            final(self).remotes@ == old(self).remotes@,
    {
        self.markers.insert(id, TimerSettings::default());
    }

    /// Records what happens when the player walks into a marker set's trigger.
    pub fn set_marker_autoplace_settings(&mut self, setting: MarkerAutoPlaceSettings)
        ensures
            *final(self) == (Settings { marker_autoplace: final(self).marker_autoplace, ..*old(self) }),
            final(self).marker_autoplace == setting,
            final(self).timers@ == old(self).timers@,
            final(self).markers@ == old(self).markers@,
            final(self).remotes@ == old(self).remotes@,
    {
        self.marker_autoplace = setting;
    }

    /// Flips whether timer `timer` is disabled and returns the new state. A
    /// timer that ends up enabled keeps no entry.
    pub fn toggle_timer(&mut self, timer: String) -> (r: bool)
        ensures
            *final(self) == (Settings { timers: final(self).timers, ..*old(self) }),
            r == !timer_disabled(old(self).timers@, timer@),
            final(self).timers@ == (if r {
                old(self).timers@.insert(timer@, TimerSettings { disabled: true })
            } else {
                old(self).timers@.remove(timer@)
            }),
            final(self).remotes@ == old(self).remotes@,
    {
        let mut entry = match self.timers.get(timer.as_str()) {
            Some(e) => *e,
            None => TimerSettings::default(),
        };
        let new_state = entry.toggle();
        if new_state {
            self.timers.insert(timer, entry);
        } else {
            self.timers.remove(timer.as_str());
        }
        new_state
    }

    /// Marks timer `timer` disabled.
    pub fn disable_timer(&mut self, timer: String)
        ensures
            *final(self) == (Settings { timers: final(self).timers, ..*old(self) }),
            final(self).timers@ == old(self).timers@.insert(timer@, TimerSettings { disabled: true }),
            final(self).remotes@ == old(self).remotes@,
    {
        self.timers.insert(timer, TimerSettings { disabled: true });
    }

    /// Marks timer `timer` enabled.
    pub fn enable_timer(&mut self, timer: String)
        ensures
            *final(self) == (Settings { timers: final(self).timers, ..*old(self) }),
            final(self).timers@ == old(self).timers@.insert(timer@, TimerSettings { disabled: false }),
            final(self).remotes@ == old(self).remotes@,
    {
        self.timers.insert(timer, TimerSettings::default());
    }

    /// Records a release of `source` downloaded into `install_dir`, with
    /// `latest` the tag of the newest release (`None` where it could not be
    /// fetched). Fails where no remote is configured for the source.
    pub fn commit_download(&mut self, source: &GitHubSource, tag_name: String, install_dir: String, latest: Option<String>) -> (r: Result<(), String>)
        ensures
            r is Ok <==> first_remote_for(old(self).remotes@, *source) is Some,
            match first_remote_for(old(self).remotes@, *source) {
                Some(i) => {
                    &&& final(self).remotes@.len() == old(self).remotes@.len()
                    &&& forall|j: int| 0 <= j < old(self).remotes@.len() && j != i ==> final(self).remotes@[j] == old(self).remotes@[j]
                    &&& final(self).remotes@[i].source == old(self).remotes@[i].source
                    &&& final(self).remotes@[i].installed_tag == Some(tag_name)
                    &&& final(self).remotes@[i].installed_path == Some(install_dir)
                    &&& status_model(final(self).remotes@[i].needs_update) == update_status(Some(tag_name@), opt_view(latest))
                },
                None => {
                    &&& final(self).remotes@ == old(self).remotes@
                    &&& r matches Err(e) && e@ == "GitHub repository \""@ + source.owner@ + "/"@ + source.repository@ + "\" not found."@
                },
            },
            *final(self) == (Settings { remotes: final(self).remotes, ..*old(self) }),
            final(self).timers@ == old(self).timers@,
    {
        proof {
            lemma_first_remote_for(self.remotes@, *source);
        }
        match self.position_of(source) {
            Some(i) => {
                let mut remote = self.remotes.remove(i);
                remote.commit_downloaded(tag_name, install_dir, latest);
                self.remotes.insert(i, remote);
                Ok(())
            },
            None => {
                let mut e = String::from_str("GitHub repository \"");
                let name = source.to_string();
                e.append(name.as_str());
                e.append("\" not found.");
                Err(e)
            },
        }
    }

    /// Forgets what is installed from `source`: its tag and path are cleared
    /// and its status becomes unknown; the path that held it is returned, to
    /// be deleted. Fails where no remote is configured for the source.
    pub fn uninstall_remote(&mut self, source: &GitHubSource) -> (r: Result<Option<String>, String>)
        ensures
            r is Ok <==> first_remote_for(old(self).remotes@, *source) is Some,
            match first_remote_for(old(self).remotes@, *source) {
                Some(i) => {
                    &&& r == Ok::<Option<String>, String>(old(self).remotes@[i].installed_path)
                    &&& final(self).remotes@ == old(self).remotes@.update(
                        i,
                        (RemoteState {
                            installed_tag: None,
                            installed_path: None,
                            needs_update: NeedsUpdate::Unknown,
                            ..old(self).remotes@[i]
                        }),
                    )
                },
                None => {
                    &&& *final(self) == *old(self)
                    &&& final(self).remotes@ == old(self).remotes@
                    &&& r matches Err(e) && e@ == "GitHub repository \""@ + source.owner@ + "/"@ + source.repository@ + "\" not found."@
                },
            },
            *final(self) == (Settings { remotes: final(self).remotes, ..*old(self) }),
    {
        proof {
            lemma_first_remote_for(self.remotes@, *source);
        }
        match self.position_of(source) {
            Some(i) => {
                let mut remote = self.remotes.remove(i);
                let path = remote.installed_path;
                remote.installed_tag = None;
                remote.installed_path = None;
                remote.needs_update = NeedsUpdate::Unknown;
                self.remotes.insert(i, remote);
                proof {
                    assert(self.remotes@ =~= old(self).remotes@.update(
                        i as int,
                        RemoteState {
                            installed_tag: None,
                            installed_path: None,
                            needs_update: NeedsUpdate::Unknown,
                            ..old(self).remotes@[i as int]
                        },
                    ));
                }
                Ok(path)
            },
            None => {
                let mut e = String::from_str("GitHub repository \"");
                let name = source.to_string();
                e.append(name.as_str());
                e.append("\" not found.");
                Err(e)
            },
        }
    }
}

/// The remotes after recording each check result in turn.
pub open spec fn apply_checks(remotes: Seq<RemoteState>, results: Seq<(GitHubSource, NeedsUpdate)>) -> Seq<RemoteState>
    decreases results.len(),
{
    if results.len() == 0 {
        remotes
    } else {
        let before = apply_checks(remotes, results.drop_last());
        let (source, status) = results.last();
        match first_remote_for(before, source) {
            Some(i) => before.update(i, RemoteState { needs_update: status, ..before[i] }),
            None => before,
        }
    }
}

/// Toggling a timer twice leaves it as disabled as it was, and each toggle
/// flips it; enabling or disabling touches that timer only.
pub proof fn lemma_timer_status(timers: Map<Seq<char>, TimerSettings>, id: Seq<char>, other: Seq<char>)
    requires
        id != other,
    ensures
        ({
            let once = if !timer_disabled(timers, id) {
                timers.insert(id, TimerSettings { disabled: true })
            } else {
                timers.remove(id)
            };
            &&& timer_disabled(once, id) == !timer_disabled(timers, id)
            &&& timer_disabled(once, other) == timer_disabled(timers, other)
        }),
        timer_disabled(timers.insert(id, TimerSettings { disabled: true }), id),
        !timer_disabled(timers.insert(id, TimerSettings { disabled: false }), id),
        timer_disabled(timers.insert(id, TimerSettings { disabled: true }), other) == timer_disabled(timers, other),
        timer_disabled(timers.insert(id, TimerSettings { disabled: false }), other) == timer_disabled(timers, other),
{
}

} // verus!
