use vstd::prelude::*;
use vstd::string::*;
use crate::exports::{RuntimeError, RuntimeResult, TextureRequest};
use crate::exports::language::{Language, game_language_id, language_code, language_number};
use crate::keyed::str_eq;
use crate::marker::MarkerType;
use crate::settings::{GitHubSource, opt_view};

verus! {

/// The repository the addon itself is released from.
pub fn gh_repo_src() -> (r: GitHubSource)
    ensures
        r.owner@ == "kittywitch"@,
        r.repository@ == "TaimiHUD"@,
        r.description is None,
{
    GitHubSource {
        owner: String::from_str("kittywitch"),
        repository: String::from_str("TaimiHUD"),
        description: None,
    }
}

/// Whether the addon may look for a newer release of itself.
pub fn update_allowed() -> (r: bool)
    ensures
        r,
{
    true
}

/// `s` without its prefix `prefix`, where it begins with it.
pub open spec fn strip_prefix(s: Seq<char>, prefix: Seq<char>) -> Option<Seq<char>> {
    if prefix.len() <= s.len() && s.subrange(0, prefix.len() as int) == prefix {
        Some(s.subrange(prefix.len() as int, s.len() as int))
    } else {
        None
    }
}

/// Whether `s` ends in `suffix`.
pub open spec fn ends_with(s: Seq<char>, suffix: Seq<char>) -> bool {
    suffix.len() <= s.len() && s.subrange(s.len() - suffix.len(), s.len() as int) == suffix
}

/// A file attached to a release.
#[derive(Debug)]
pub struct ReleaseAsset {
    pub name: String,
    pub browser_download_url: Option<String>,
}

/// What the update check reads of the latest release on GitHub.
#[derive(Debug)]
pub struct ReleaseInfo {
    pub tag_name: String,
    pub name: Option<String>,
    pub prerelease: bool,
    pub assets: Vec<ReleaseAsset>,
}

/// The index of the first asset whose name ends in `.dll`.
pub open spec fn first_dll(assets: Seq<ReleaseAsset>, n: int) -> Option<int>
    decreases n,
{
    if n <= 0 {
        None
    } else {
        match first_dll(assets, n - 1) {
            Some(i) => Some(i),
            None => if ends_with(assets[n - 1].name@, ".dll"@) {
                Some(n - 1)
            } else {
                None
            },
        }
    }
}

/// Where the newer addon is downloaded from, given the latest release, the
/// package version and the git reference it was built from, and whether it
/// is a release build: nothing where the tag is not `v` and a version, where
/// that version is the running one, where the release is a pre-release, or
/// where this is a development build (not a release build of a tag); else
/// the download URL of the release's first `.dll` asset, if any.
pub open spec fn update_url(
    release: ReleaseInfo,
    package_version: Seq<char>,
    git_head_ref: Option<Seq<char>>,
    release_build: bool,
) -> Option<Seq<char>> {
    let built_ver = match git_head_ref {
        Some(r) => strip_prefix(r, "refs/tags/v"@),
        None => None,
    };
    match strip_prefix(release.tag_name@, "v"@) {
        None => None,
        Some(remote) => if remote == package_version || Some(remote) == built_ver {
            None
        } else if release.prerelease || !(release_build && built_ver is Some) {
            None
        } else {
            match first_dll(release.assets@, release.assets@.len() as int) {
                Some(i) => match release.assets@[i].browser_download_url {
                    Some(u) => Some(u@),
                    None => None,
                },
                None => None,
            }
        },
    }
}

fn strip_prefix_exec(s: &str, prefix: &str) -> (r: Option<String>)
    ensures
        match r {
            Some(t) => strip_prefix(s@, prefix@) == Some(t@),
            None => strip_prefix(s@, prefix@) is None,
        },
{
    let n = s.unicode_len();
    let k = prefix.unicode_len();
    if k > n {
        return None;
    }
    let head = s.substring_char(0, k);
    if !str_eq(head, prefix) {
        return None;
    }
    Some(s.substring_char(k, n).to_string())
}

fn ends_with_exec(s: &str, suffix: &str) -> (r: bool)
    ensures
        r == ends_with(s@, suffix@),
{
    let n = s.unicode_len();
    let k = suffix.unicode_len();
    if k > n {
        return false;
    }
    let tail = s.substring_char(n - k, n);
    str_eq(tail, suffix)
}

/// The decision of the update check once the latest release is known, as
/// `update_url` states it.
pub fn release_update_url(
    release: &ReleaseInfo,
    package_version: &str,
    git_head_ref: Option<&str>,
    release_build: bool,
) -> (r: Option<String>)
    ensures
        opt_view(r) == update_url(
            *release,
            package_version@,
            match git_head_ref {
                Some(g) => Some(g@),
                None => None,
            },
            release_build,
        ),
{
    proof {
        reveal_strlit("refs/tags/v");
        reveal_strlit("v");
        reveal_strlit(".dll");
    }
    let built_ver = match git_head_ref {
        Some(g) => strip_prefix_exec(g, "refs/tags/v"),
        None => None,
    };
    let remote = match strip_prefix_exec(release.tag_name.as_str(), "v") {
        Some(v) => v,
        None => return None,
    };
    if str_eq(remote.as_str(), package_version) {
        return None;
    }
    if let Some(b) = &built_ver {
        if str_eq(remote.as_str(), b.as_str()) {
            return None;
        }
    }
    if release.prerelease || !(release_build && built_ver.is_some()) {
        return None;
    }
    let ghost gh = match git_head_ref {
        Some(g) => Some(g@),
        None => None,
    };
    let ghost chosen = match first_dll(release.assets@, release.assets@.len() as int) {
        Some(k) => opt_view(release.assets@[k].browser_download_url),
        None => None,
    };
    assert(update_url(*release, package_version@, gh, release_build) == chosen);
    let n = release.assets.len();
    let mut i: usize = 0;
    while i < n
        invariant
            n == release.assets@.len(),
            i <= n,
            first_dll(release.assets@, i as int) is None,
            update_url(*release, package_version@, gh, release_build) == chosen,
            gh == (match git_head_ref {
                Some(g) => Some(g@),
                None => None,
            }),
            chosen == (match first_dll(release.assets@, release.assets@.len() as int) {
                Some(k) => opt_view(release.assets@[k].browser_download_url),
                None => None,
            }),
        decreases n - i,
    {
        if ends_with_exec(release.assets[i].name.as_str(), ".dll") {
            assert(first_dll(release.assets@, i + 1) == Some(i as int));
            proof {
                lemma_first_dll_stable(release.assets@, i + 1, n as int);
            }
            return match &release.assets[i].browser_download_url {
                Some(u) => Some(u.clone()),
                None => None,
            };
        }
        i = i + 1;
    }
    None
}

proof fn lemma_first_dll_stable(assets: Seq<ReleaseAsset>, k: int, n: int)
    requires
        0 <= k <= n,
        first_dll(assets, k) is Some,
    ensures
        first_dll(assets, n) == first_dll(assets, k),
    decreases n - k,
{
    if k < n {
        lemma_first_dll_stable(assets, k, n - 1);
    }
}

/// An arcdps extras key binding for a commander marker: the one that places
/// it at a location, or the one that sets it on the targeted object.
#[derive(Clone, Copy, Debug, PartialEq, Eq, Structural)]
pub struct MarkerControl {
    pub marker: MarkerType,
    pub object: bool,
}

impl MarkerType {
    /// The binding that places this marker at a location.
    pub fn control_location(self) -> (r: MarkerControl)
        ensures
            r == (MarkerControl { marker: self, object: false }),
    {
        MarkerControl { marker: self, object: false }
    }

    /// The binding that sets this marker on the targeted object.
    pub fn control_object(self) -> (r: MarkerControl)
        ensures
            r == (MarkerControl { marker: self, object: true }),
    {
        MarkerControl { marker: self, object: true }
    }
}

/// The bindings the addon listens for: those of every marker but `Blank`.
pub open spec fn interesting_bind(c: MarkerControl) -> bool {
    c.marker != MarkerType::Blank
}

/// What the addon knows of the arcdps runtime.
pub struct ArcdpsState {
    pub runtime_available: bool,
    pub extras_available: bool,
    /// The game's number for the client language.
    pub game_language: i32,
    /// The marker bindings arcdps extras has reported.
    pub keybinds: Vec<MarkerControl>,
}

impl ArcdpsState {
    /// The state before arcdps has loaded the addon: English, nothing known.
    pub fn new() -> (r: Self)
        ensures
            !r.runtime_available,
            !r.extras_available,
            r.game_language == language_number(Language::English),
            r.keybinds@.len() == 0,
    {
        ArcdpsState { runtime_available: false, extras_available: false, game_language: 0, keybinds: Vec::new() }
    }

    /// arcdps loaded the addon.
    pub fn pre_init(&mut self)
        ensures
            final(self).runtime_available,
            final(self).extras_available == old(self).extras_available,
            final(self).game_language == old(self).game_language,
            final(self).keybinds@ == old(self).keybinds@,
    {
        self.runtime_available = true;
    }

    /// arcdps initialised the addon: the runtime is made available, and
    /// `loaded` is how loading the arcdps exports went. Where it failed the
    /// runtime is unavailable again; the outcome is passed on.
    pub fn cb_init(&mut self, loaded: Result<(), String>) -> (r: Result<(), String>)
        ensures
            final(self).runtime_available == loaded is Ok,
            r == loaded,
            final(self).extras_available == old(self).extras_available,
            final(self).game_language == old(self).game_language,
            final(self).keybinds@ == old(self).keybinds@,
    {
        self.pre_init();
        if loaded.is_err() {
            self.runtime_available = false;
        }
        loaded
    }

    /// arcdps is releasing the addon.
    pub fn cb_release(&mut self)
        ensures
            !final(self).runtime_available,
            !final(self).extras_available,
            final(self).game_language == old(self).game_language,
            final(self).keybinds@ == old(self).keybinds@,
    {
        self.runtime_available = false;
        self.extras_available = false;
    }

    /// arcdps extras loaded.
    pub fn cb_extras_init(&mut self)
        ensures
            final(self).extras_available,
            final(self).runtime_available == old(self).runtime_available,
            final(self).game_language == old(self).game_language,
            final(self).keybinds@ == old(self).keybinds@,
    {
        self.extras_available = true;
    }

    /// arcdps extras reports the client language; returns whether it changed,
    /// in which case the translations are to be reloaded.
    pub fn cb_extras_language(&mut self, language: Language) -> (r: bool)
        ensures
            final(self).game_language == language_number(language),
            r == (old(self).game_language != language_number(language)),
            final(self).runtime_available == old(self).runtime_available,
            final(self).extras_available == old(self).extras_available,
            final(self).keybinds@ == old(self).keybinds@,
    {
        let id = language.into_id();
        let prev = self.game_language;
        self.game_language = id;
        prev != id
    }

    /// arcdps extras reports a key binding; the marker bindings are remembered.
    pub fn cb_extras_keybind(&mut self, changed: MarkerControl)
        ensures
            final(self).keybinds@.to_set() == (if interesting_bind(changed) {
                old(self).keybinds@.to_set().insert(changed)
            } else {
                old(self).keybinds@.to_set()
            }),
            final(self).runtime_available == old(self).runtime_available,
            final(self).extras_available == old(self).extras_available,
            final(self).game_language == old(self).game_language,
    {
        if changed.marker == MarkerType::Blank {
            return;
        }
        if !self.has_binding(changed) {
            self.keybinds.push(changed);
            assert(self.keybinds@.to_set() =~= old(self).keybinds@.to_set().insert(changed)) by {
                assert forall|c: MarkerControl| self.keybinds@.contains(c) <==> old(self).keybinds@.contains(c) || c == changed by {
                    if old(self).keybinds@.contains(c) {
                        let i = choose|i: int| 0 <= i < old(self).keybinds@.len() && old(self).keybinds@[i] == c;
                        assert(self.keybinds@[i] == c);
                    }
                    if c == changed {
                        assert(self.keybinds@[self.keybinds@.len() - 1] == c);
                    }
                    if self.keybinds@.contains(c) && c != changed {
                        let i = choose|i: int| 0 <= i < self.keybinds@.len() && self.keybinds@[i] == c;
                        assert(old(self).keybinds@[i] == c);
                    }
                }
            }
        } else {
            assert(old(self).keybinds@.to_set().insert(changed) =~= old(self).keybinds@.to_set());
        }
    }

    /// Whether arcdps extras has reported binding `control`.
    pub fn has_binding(&self, control: MarkerControl) -> (r: bool)
        ensures
            r == self.keybinds@.contains(control),
    {
        let n = self.keybinds.len();
        let mut i: usize = 0;
        while i < n
            invariant
                n == self.keybinds@.len(),
                i <= n,
                forall|j: int| 0 <= j < i ==> self.keybinds@[j] != control,
            decreases n - i,
        {
            if self.keybinds[i] == control {
                return true;
            }
            i = i + 1;
        }
        false
    }
}

/// Whether the addon runs under arcdps.
pub fn available(state: &ArcdpsState) -> (r: bool)
    ensures
        r == state.runtime_available,
{
    state.runtime_available
}

/// Whether arcdps extras is loaded.
pub fn extras_available(state: &ArcdpsState) -> (r: bool)
    ensures
        r == state.extras_available,
{
    state.extras_available
}

/// The client language arcdps reported last, if it is one the game has.
pub fn game_language(state: &ArcdpsState) -> (r: Option<Language>)
    ensures
        match r {
            Some(l) => language_number(l) == state.game_language,
            None => !(0 <= state.game_language <= 5),
        },
{
    Language::try_from(state.game_language)
}

/// The addon's data folder under arcdps, as path components: arcdps's config
/// file, without the file name, without its own folder where that is the
/// "arcdps" folder or inside the "addons" folder, then "Taimi".
pub open spec fn arcdps_addon_dir(config: Seq<Seq<char>>) -> Option<Seq<Seq<char>>> {
    if config.len() == 0 {
        None
    } else {
        let dir = config.drop_last();
        let in_addons = (dir.len() >= 1 && dir.last() == "arcdps"@) || (dir.len() >= 2 && dir[dir.len() - 2]
            == "addons"@);
        let base = if in_addons {
            dir.drop_last()
        } else {
            dir
        };
        Some(base.push("Taimi"@))
    }
}

/// The addon's data folder under arcdps, given whether arcdps exports its
/// config path and that path as components.
pub fn addon_dir(state: &ArcdpsState, has_config_export: bool, config_path: Option<Vec<String>>) -> (r: RuntimeResult<
    Option<Vec<String>>,
>)
    ensures
        !state.runtime_available ==> r matches Ok(None),
        state.runtime_available && !has_config_export ==> r == Err::<Option<Vec<String>>, RuntimeError>(
            "arcdps export missing",
        ),
        state.runtime_available && has_config_export ==> match config_path {
            None => r == Err::<Option<Vec<String>>, RuntimeError>("Unknown arcdps config dir"),
            Some(p) => match arcdps_addon_dir(p@.map_values(|c: String| c@)) {
                None => r == Err::<Option<Vec<String>>, RuntimeError>("Incomplete config path"),
                Some(d) => r matches Ok(Some(v)) && v@.map_values(|c: String| c@) == d,
            },
        },
{
    if !available(state) {
        return Ok(None);
    }
    if !has_config_export {
        return Err("arcdps export missing");
    }
    let mut path = match config_path {
        Some(p) => p,
        None => return Err("Unknown arcdps config dir"),
    };
    let ghost comps = path@.map_values(|c: String| c@);
    if path.pop().is_none() {
        return Err("Incomplete config path");
    }
    let ghost dir = comps.drop_last();
    proof {
        assert(path@.map_values(|c: String| c@) =~= dir);
        reveal_strlit("arcdps");
        reveal_strlit("addons");
        reveal_strlit("Taimi");
    }
    let n = path.len();
    let last_is_arcdps = n >= 1 && str_eq(path[n - 1].as_str(), "arcdps");
    let parent_is_addons = n >= 2 && str_eq(path[n - 2].as_str(), "addons");
    if last_is_arcdps || parent_is_addons {
        path.pop();
    }
    let ghost base = path@.map_values(|c: String| c@);
    path.push(String::from_str(crate::exports::ADDON_DIR_NAME));
    proof {
        assert(path@.map_values(|c: String| c@) =~= base.push("Taimi"@));
        if last_is_arcdps || parent_is_addons {
            assert(base =~= dir.drop_last());
        } else {
            assert(base =~= dir);
        }
    }
    Ok(Some(path))
}

/// The client language's translation identifier under arcdps.
pub fn detect_language(state: &ArcdpsState) -> (r: RuntimeResult<Option<String>>)
    ensures
        !state.runtime_available ==> r matches Ok(None),
        state.runtime_available ==> match r {
            Ok(Some(l)) => exists|lang: Language|
                language_number(lang) == state.game_language && l@ == language_code(lang),
            Ok(None) => !(0 <= state.game_language <= 5),
            Err(_) => false,
        },
{
    if !available(state) {
        return Ok(None);
    }
    match game_language(state) {
        Some(l) => Ok(Some(String::from_str(game_language_id(l)))),
        None => Ok(None),
    }
}

/// The MumbleLink handle under arcdps, given the one the addon opened.
pub fn mumble_link_ptr<L>(state: &ArcdpsState, link: Option<L>) -> (r: RuntimeResult<Option<L>>)
    ensures
        !state.runtime_available ==> r == Ok::<Option<L>, RuntimeError>(None),
        state.runtime_available ==> match link {
            Some(l) => r == Ok::<Option<L>, RuntimeError>(Some(l)),
            None => r == Err::<Option<L>, RuntimeError>("MumbleLink unavailable"),
        },
{
    if !available(state) {
        return Ok(None);
    }
    match link {
        Some(l) => Ok(Some(l)),
        None => Err("MumbleLink unavailable"),
    }
}

/// arcdps offers no NexusLink.
pub fn nexus_link_ptr<L>(state: &ArcdpsState) -> (r: RuntimeResult<Option<L>>)
    ensures
        !state.runtime_available ==> r == Ok::<Option<L>, RuntimeError>(None),
        state.runtime_available ==> r == Err::<Option<L>, RuntimeError>("NexusLink unavailable"),
{
    if !available(state) {
        return Ok(None);
    }
    Err("NexusLink unavailable")
}

/// arcdps offers no real-time API.
pub fn rtapi<A>(state: &ArcdpsState) -> (r: RuntimeResult<Option<A>>)
    ensures
        !state.runtime_available ==> r == Ok::<Option<A>, RuntimeError>(None),
        state.runtime_available ==> r == Err::<Option<A>, RuntimeError>("RTAPI unsupported"),
{
    if !available(state) {
        return Ok(None);
    }
    Err("RTAPI unsupported")
}

/// Pressing a marker binding under arcdps: it fails where extras has not
/// reported the binding, and is not done otherwise either.
pub fn invoke_marker_bind(state: &ArcdpsState, marker: MarkerType, target: bool, duration_ms: i32) -> (r: RuntimeResult<
    Option<()>,
>)
    ensures
        !state.runtime_available ==> r == Ok::<Option<()>, RuntimeError>(None),
        state.runtime_available ==> r == Err::<Option<()>, RuntimeError>(
            if state.keybinds@.contains(MarkerControl { marker, object: target }) {
                "TODO: invoke marker bind"
            } else {
                "unknown keybind"
            },
        ),
{
    if !available(state) {
        return Ok(None);
    }
    let control = match target {
        true => marker.control_object(),
        false => marker.control_location(),
    };
    if !state.has_binding(control) {
        return Err("unknown keybind");
    }
    Err("TODO: invoke marker bind")
}

/// Loading textures is not implemented under arcdps.
pub fn texture_schedule_path(state: &ArcdpsState, key: &str, path: &str) -> (r: RuntimeResult<Option<TextureRequest>>)
    ensures
        !state.runtime_available ==> r matches Ok(None),
        state.runtime_available ==> (r matches Err(e) && e == "texture loading unimplemented"),
{
    if !available(state) {
        return Ok(None);
    }
    Err("texture loading unimplemented")
}

/// Loading textures is not implemented under arcdps.
pub fn texture_schedule_bytes(state: &ArcdpsState, key: &str, data: Vec<u8>) -> (r: RuntimeResult<Option<TextureRequest>>)
    ensures
        !state.runtime_available ==> r matches Ok(None),
        state.runtime_available ==> (r matches Err(e) && e == "texture loading unimplemented"),
{
    if !available(state) {
        return Ok(None);
    }
    Err("texture loading unimplemented")
}

} // verus!
