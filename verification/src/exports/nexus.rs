use vstd::prelude::*;
use crate::exports::{GameBindPress, RuntimeError, RuntimeResult, TextureRequest};
use crate::exports::language::{Language, game_language_id, language_code};
use crate::controller::ControllerEvent;
use crate::keyed::str_eq;
use crate::marker::{MarkerType, place_world_bind, set_agent_bind};

verus! {

/// The signature Nexus is given: the negated addon signature.
pub const SIG: i32 = -0x7331BABDi32;

/// A keybind the addon registers with Nexus.
#[derive(Debug)]
pub enum AddonKeybind {
    /// Shows or hides the primary window.
    PrimaryWindow,
    /// Shows or hides the timer window.
    TimerWindow,
    /// One of the keys timers can wait for, by its identifier.
    TimerKey(String),
}

/// A button of the addon's quick access menu.
#[derive(Clone, Copy, Debug, PartialEq, Eq, Structural)]
pub enum MenuButton {
    Timers,
    Markers,
    Primary,
}

/// The request a keybind sends: a window keybind shows or hides its window
/// when pressed, and does nothing when released; a timer key passes on both.
pub fn keybind_event<P, H>(bind: AddonKeybind, is_release: bool) -> (r: Option<ControllerEvent<P, H>>)
    ensures
        match bind {
            AddonKeybind::PrimaryWindow => if is_release {
                r is None
            } else {
                r matches Some(ControllerEvent::WindowState(w, s)) && w@ == "primary"@ && s is None
            },
            AddonKeybind::TimerWindow => if is_release {
                r is None
            } else {
                r matches Some(ControllerEvent::WindowState(w, s)) && w@ == "timers"@ && s is None
            },
            AddonKeybind::TimerKey(id) => r matches Some(ControllerEvent::TimerKeyTrigger(k, rel)) && k == id && rel
                == is_release,
        },
{
    match bind {
        AddonKeybind::PrimaryWindow => if is_release {
            None
        } else {
            Some(ControllerEvent::WindowState(String::from_str("primary"), None))
        },
        AddonKeybind::TimerWindow => if is_release {
            None
        } else {
            Some(ControllerEvent::WindowState(String::from_str("timers"), None))
        },
        AddonKeybind::TimerKey(id) => Some(ControllerEvent::TimerKeyTrigger(id, is_release)),
    }
}

/// The request a quick access menu button sends: show or hide its window.
pub fn menu_event<P, H>(button: MenuButton) -> (r: ControllerEvent<P, H>)
    ensures
        r matches ControllerEvent::WindowState(w, s) && s is None && w@ == (match button {
            MenuButton::Timers => "timers"@,
            MenuButton::Markers => "markers"@,
            MenuButton::Primary => "primary"@,
        }),
{
    let w = match button {
        MenuButton::Timers => String::from_str("timers"),
        MenuButton::Markers => String::from_str("markers"),
        MenuButton::Primary => String::from_str("primary"),
    };
    ControllerEvent::WindowState(w, None)
}

/// What the addon knows of the Nexus runtime: whether it loaded the addon.
pub struct NexusState {
    pub runtime_available: bool,
}

impl NexusState {
    /// The state before Nexus has loaded the addon.
    pub fn new() -> (r: Self)
        ensures
            !r.runtime_available,
    {
        NexusState { runtime_available: false }
    }

    /// Nexus loaded the addon.
    pub fn pre_init(&mut self)
        ensures
            final(self).runtime_available,
    {
        self.runtime_available = true;
    }

    /// Nexus is unloading the addon.
    pub fn cb_unload(&mut self)
        ensures
            !final(self).runtime_available,
    {
        self.runtime_available = false;
    }
}

/// Whether the addon runs under Nexus.
pub fn available(state: &NexusState) -> (r: bool)
    ensures
        r == state.runtime_available,
{
    state.runtime_available
}

/// The addon's data folder under Nexus, as path components, given what
/// Nexus answers for it.
pub fn addon_dir(state: &NexusState, nexus_dir: Option<Vec<String>>) -> (r: RuntimeResult<Option<Vec<String>>>)
    ensures
        !state.runtime_available ==> r matches Ok(None),
        state.runtime_available ==> match nexus_dir {
            Some(d) => r matches Ok(Some(e)) && e@ == d@,
            None => r == Err::<Option<Vec<String>>, RuntimeError>("Invalid addon dir"),
        },
{
    if !available(state) {
        return Ok(None);
    }
    match nexus_dir {
        Some(d) => Ok(Some(d)),
        None => Err("Invalid addon dir"),
    }
}

/// The language for the text Nexus shows as its "changelog" keybind label.
pub open spec fn changelog_language(t: Seq<char>) -> Seq<char> {
    if t == "Registro de Alterações"@ {
        "pt-br"@
    } else if t == "更新日志"@ {
        language_code(Language::Chinese)
    } else if t == "Seznam změn"@ {
        "cz"@
    } else if t == "Änderungsprotokoll"@ {
        language_code(Language::German)
    } else if t == "Changelog"@ {
        language_code(Language::English)
    } else if t == "Notas del parche"@ {
        language_code(Language::Spanish)
    } else if t == "Journal des modifications"@ {
        language_code(Language::French)
    } else if t == "Registro modifiche"@ {
        "it"@
    } else if t == "Lista zmian"@ {
        "pl"@
    } else if t == "Список изменений"@ {
        "ru"@
    } else {
        language_code(Language::English)
    }
}

/// The game's language under Nexus, read off how Nexus translated its
/// "KB_CHANGELOG" text (`None`: it could not translate it).
pub fn detect_language(state: &NexusState, translated: Option<String>) -> (r: RuntimeResult<Option<String>>)
    ensures
        !state.runtime_available ==> r == Ok::<Option<String>, RuntimeError>(None),
        state.runtime_available ==> match translated {
            Some(t) => r matches Ok(Some(l)) && l@ == changelog_language(t@),
            None => r == Err::<Option<String>, RuntimeError>("Couldn't translate string"),
        },
{
    if !available(state) {
        return Ok(None);
    }
    let translated = match translated {
        Some(t) => t,
        None => return Err("Couldn't translate string"),
    };
    let t = translated.as_str();
    proof {
        reveal_strlit("pt-br");
        reveal_strlit("cz");
        reveal_strlit("it");
        reveal_strlit("pl");
        reveal_strlit("ru");
    }
    let language: &str = if str_eq(t, "Registro de Alterações") {
        "pt-br"
    } else if str_eq(t, "更新日志") {
        game_language_id(Language::Chinese)
    } else if str_eq(t, "Seznam změn") {
        "cz"
    } else if str_eq(t, "Änderungsprotokoll") {
        game_language_id(Language::German)
    } else if str_eq(t, "Changelog") {
        game_language_id(Language::English)
    } else if str_eq(t, "Notas del parche") {
        game_language_id(Language::Spanish)
    } else if str_eq(t, "Journal des modifications") {
        game_language_id(Language::French)
    } else if str_eq(t, "Registro modifiche") {
        "it"
    } else if str_eq(t, "Lista zmian") {
        "pl"
    } else if str_eq(t, "Список изменений") {
        "ru"
    } else {
        game_language_id(Language::English)
    };
    Ok(Some(String::from_str(language)))
}

/// The MumbleLink handle under Nexus, given what Nexus hands out.
pub fn mumble_link_ptr<L>(state: &NexusState, link: Option<L>) -> (r: RuntimeResult<Option<L>>)
    ensures
        !state.runtime_available ==> r == Ok::<Option<L>, RuntimeError>(None),
        state.runtime_available ==> match link {
            Some(l) => r == Ok::<Option<L>, RuntimeError>(Some(l)),
            None => r == Err::<Option<L>, RuntimeError>("MumbleLink unavailable"),
        },
{
    if !available(state) {
        return Ok(None);
    }
    match link {
        Some(l) => Ok(Some(l)),
        None => Err("MumbleLink unavailable"),
    }
}

/// The real-time API under Nexus, given what Nexus hands out.
pub fn rtapi<A>(state: &NexusState, api: Option<A>) -> (r: RuntimeResult<Option<A>>)
    ensures
        !state.runtime_available ==> r == Ok::<Option<A>, RuntimeError>(None),
        state.runtime_available ==> r == Ok::<Option<A>, RuntimeError>(api),
{
    if !available(state) {
        return Ok(None);
    }
    Ok(api)
}

/// The NexusLink handle under Nexus, given what Nexus hands out.
pub fn nexus_link_ptr<L>(state: &NexusState, link: Option<L>) -> (r: RuntimeResult<Option<L>>)
    ensures
        !state.runtime_available ==> r == Ok::<Option<L>, RuntimeError>(None),
        state.runtime_available ==> r == Ok::<Option<L>, RuntimeError>(link),
{
    if !available(state) {
        return Ok(None);
    }
    Ok(link)
}

/// The key binding Nexus is to press for `marker`: the agent binding where
/// `target` holds, else the world placement binding.
pub fn invoke_marker_bind(state: &NexusState, marker: MarkerType, target: bool, duration_ms: i32) -> (r: RuntimeResult<
    Option<GameBindPress>,
>)
    requires
        marker != MarkerType::Blank,
    ensures
        !state.runtime_available ==> r == Ok::<Option<GameBindPress>, RuntimeError>(None),
        state.runtime_available ==> r == Ok::<Option<GameBindPress>, RuntimeError>(
            Some(
                GameBindPress {
                    bind: if target {
                        set_agent_bind(marker)
                    } else {
                        place_world_bind(marker)
                    },
                    duration_ms,
                },
            ),
        ),
{
    if !available(state) {
        return Ok(None);
    }
    let bind = match target {
        true => marker.to_set_agent_gamebind(),
        false => marker.to_place_world_gamebind(),
    };
    Ok(Some(GameBindPress { bind, duration_ms }))
}

/// The request Nexus is to load a texture from a file with.
pub fn texture_schedule_path(state: &NexusState, key: &str, path: &str) -> (r: RuntimeResult<Option<TextureRequest>>)
    ensures
        !state.runtime_available ==> r matches Ok(None),
        state.runtime_available ==> (r matches Ok(Some(TextureRequest::Path { key: k, path: p })) && k@ == key@ && p@
            == path@),
{
    if !available(state) {
        return Ok(None);
    }
    Ok(Some(TextureRequest::Path { key: String::from_str(key), path: String::from_str(path) }))
}

/// The request Nexus is to load a texture from bytes with.
pub fn texture_schedule_bytes(state: &NexusState, key: &str, data: Vec<u8>) -> (r: RuntimeResult<Option<TextureRequest>>)
    ensures
        !state.runtime_available ==> r matches Ok(None),
        state.runtime_available ==> (r matches Ok(Some(TextureRequest::Bytes { key: k, data: d })) && k@ == key@ && d@
            == data@),
{
    if !available(state) {
        return Ok(None);
    }
    Ok(Some(TextureRequest::Bytes { key: String::from_str(key), data }))
}

} // verus!
