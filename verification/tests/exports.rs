use taimi_hud::controller::ControllerEvent;
use taimi_hud::exports::nexus::{keybind_event, menu_event, AddonKeybind, MenuButton};
use taimi_hud::exports::arcdps::{self, ArcdpsState, MarkerControl, ReleaseAsset, ReleaseInfo, gh_repo_src, release_update_url, update_allowed};
use taimi_hud::exports::language::{Language, game_language_id, language_identifier};
use taimi_hud::exports::nexus::{self, NexusState};
use taimi_hud::exports::runtime::{self, MarkerBindInvocation, RT_UNAVAILABLE};
use taimi_hud::exports::{ADDON_DIR_NAME, GameBindPress, SIG, TextureRequest};
use taimi_hud::marker::{GameBind, MarkerType};

fn parts(path: &[&str]) -> Vec<String> {
    path.iter().map(|s| s.to_string()).collect()
}

#[test]
fn languages() {
    for id in 0..6 {
        assert_eq!(Language::try_from(id).unwrap().into_id(), id);
    }
    assert_eq!(Language::try_from(6), None);
    assert_eq!(Language::try_from(-1), None);
    assert_eq!(game_language_id(Language::German), "de");
    assert_eq!(game_language_id(Language::Chinese), "cn");
    assert_eq!(game_language_id(Language::English), "en");
    assert!(language_identifier("pt-br").is_some());
    assert!(language_identifier("en").is_some());
    assert!(language_identifier("not a language tag!").is_none());
}

#[test]
fn constants() {
    assert_eq!(ADDON_DIR_NAME, "Taimi");
    assert_eq!(SIG, 0x7331BABD);
    assert_eq!(nexus::SIG, -0x7331BABD);
    let repo = gh_repo_src();
    assert_eq!(repo.to_string(), "kittywitch/TaimiHUD");
    assert!(update_allowed());
}

#[test]
fn nexus_runtime() {
    let mut state = NexusState::new();
    assert!(!nexus::available(&state));
    assert_eq!(nexus::addon_dir(&state, Some(parts(&["a"]))), Ok(None));
    state.pre_init();
    assert!(nexus::available(&state));
    assert_eq!(nexus::addon_dir(&state, Some(parts(&["a", "Taimi"]))), Ok(Some(parts(&["a", "Taimi"]))));
    assert_eq!(nexus::addon_dir(&state, None), Err("Invalid addon dir"));
    assert_eq!(nexus::detect_language(&state, Some("Änderungsprotokoll".to_string())), Ok(Some("de".to_string())));
    assert_eq!(nexus::detect_language(&state, Some("Registro de Alterações".to_string())), Ok(Some("pt-br".to_string())));
    assert_eq!(nexus::detect_language(&state, Some("Список изменений".to_string())), Ok(Some("ru".to_string())));
    assert_eq!(nexus::detect_language(&state, Some("something else".to_string())), Ok(Some("en".to_string())));
    assert_eq!(nexus::detect_language(&state, None), Err("Couldn't translate string"));
    assert_eq!(
        nexus::invoke_marker_bind(&state, MarkerType::Heart, false, 10),
        Ok(Some(GameBindPress { bind: GameBind::SquadMarkerPlaceWorldHeart, duration_ms: 10 }))
    );
    assert_eq!(
        nexus::invoke_marker_bind(&state, MarkerType::Heart, true, 10),
        Ok(Some(GameBindPress { bind: GameBind::SquadMarkerSetAgentHeart, duration_ms: 10 }))
    );
    match nexus::texture_schedule_path(&state, "key", "a/b.png") {
        Ok(Some(TextureRequest::Path { key, path })) => {
            assert_eq!(key, "key");
            assert_eq!(path, "a/b.png");
        },
        _ => panic!("Nexus loads textures from files"),
    }
    state.cb_unload();
    assert_eq!(nexus::mumble_link_ptr(&state, Some(5u32)), Ok(None));
}

#[test]
fn arcdps_runtime() {
    let mut state = ArcdpsState::new();
    assert!(!arcdps::available(&state));
    assert_eq!(arcdps::game_language(&state), Some(Language::English));
    state.pre_init();
    assert!(arcdps::available(&state) && !arcdps::extras_available(&state));
    state.cb_extras_init();
    assert!(arcdps::extras_available(&state));
    assert!(state.cb_extras_language(Language::French));
    assert!(!state.cb_extras_language(Language::French));
    assert_eq!(arcdps::game_language(&state), Some(Language::French));
    assert_eq!(arcdps::detect_language(&state), Ok(Some("fr".to_string())));
    state.cb_extras_keybind(MarkerType::Blank.control_location());
    assert!(state.keybinds.is_empty());
    state.cb_extras_keybind(MarkerType::Star.control_object());
    state.cb_extras_keybind(MarkerType::Star.control_object());
    assert_eq!(state.keybinds, vec![MarkerControl { marker: MarkerType::Star, object: true }]);
    assert!(state.has_binding(MarkerType::Star.control_object()));
    assert!(!state.has_binding(MarkerType::Star.control_location()));
    assert_eq!(
        arcdps::addon_dir(&state, true, Some(parts(&["C:", "Games", "GW2", "addons", "arcdps", "arcdps.ini"]))),
        Ok(Some(parts(&["C:", "Games", "GW2", "addons", "Taimi"])))
    );
    assert_eq!(
        arcdps::addon_dir(&state, true, Some(parts(&["C:", "GW2", "arcdps.ini"]))),
        Ok(Some(parts(&["C:", "GW2", "Taimi"])))
    );
    assert_eq!(arcdps::addon_dir(&state, false, None), Err("arcdps export missing"));
    assert_eq!(arcdps::addon_dir(&state, true, None), Err("Unknown arcdps config dir"));
    assert_eq!(arcdps::addon_dir(&state, true, Some(Vec::new())), Err("Incomplete config path"));
    state.cb_release();
    assert!(!arcdps::available(&state) && !arcdps::extras_available(&state));
    assert_eq!(arcdps::addon_dir(&state, true, None), Ok(None));
}

#[test]
fn arcdps_init_keeps_runtime_only_after_a_load() {
    let mut state = ArcdpsState::new();
    assert!(!arcdps::available(&state));
    assert_eq!(state.cb_init(Err("no exports".to_string())), Err("no exports".to_string()));
    assert!(!arcdps::available(&state));
    assert_eq!(state.cb_init(Ok(())), Ok(()));
    assert!(arcdps::available(&state));
    state.cb_release();
    assert!(!arcdps::available(&state));
}

fn release(tag: &str, prerelease: bool, assets: &[(&str, Option<&str>)]) -> ReleaseInfo {
    ReleaseInfo {
        tag_name: tag.to_string(),
        name: None,
        prerelease,
        assets: assets
            .iter()
            .map(|(n, u)| ReleaseAsset { name: n.to_string(), browser_download_url: u.map(|u| u.to_string()) })
            .collect(),
    }
}

#[test]
fn addon_update_url() {
    let assets = [("notes.txt", Some("https://x/notes")), ("taimi.dll", Some("https://x/taimi.dll")), ("b.dll", Some("https://x/b"))];
    let newer = release("v0.3.0", false, &assets);
    assert_eq!(
        release_update_url(&newer, "0.2.0", Some("refs/tags/v0.2.0"), true),
        Some("https://x/taimi.dll".to_string())
    );
    // Running the latest version already.
    assert_eq!(release_update_url(&newer, "0.3.0", Some("refs/tags/v0.2.0"), true), None);
    assert_eq!(release_update_url(&newer, "0.2.0", Some("refs/tags/v0.3.0"), true), None);
    // Development builds are never replaced.
    assert_eq!(release_update_url(&newer, "0.2.0", Some("refs/heads/main"), true), None);
    assert_eq!(release_update_url(&newer, "0.2.0", None, true), None);
    assert_eq!(release_update_url(&newer, "0.2.0", Some("refs/tags/v0.2.0"), false), None);
    // Pre-releases and tags that are not versions are skipped.
    assert_eq!(release_update_url(&release("v0.3.0", true, &assets), "0.2.0", Some("refs/tags/v0.2.0"), true), None);
    assert_eq!(release_update_url(&release("0.3.0", false, &assets), "0.2.0", Some("refs/tags/v0.2.0"), true), None);
    // No library attached, or no URL for it.
    assert_eq!(release_update_url(&release("v0.3.0", false, &[("a.zip", Some("u"))]), "0.2.0", Some("refs/tags/v0.2.0"), true), None);
    assert_eq!(release_update_url(&release("v0.3.0", false, &[("a.dll", None)]), "0.2.0", Some("refs/tags/v0.2.0"), true), None);
}

#[test]
fn runtime_prefers_nexus() {
    let a = parts(&["nexus"]);
    let b = parts(&["arcdps"]);
    assert_eq!(runtime::addon_dir(Ok(Some(a.clone())), Ok(Some(b.clone()))), Ok(a.clone()));
    assert_eq!(runtime::addon_dir(Ok(None), Ok(Some(b.clone()))), Ok(b));
    assert_eq!(runtime::addon_dir(Ok(None), Ok(None)), Err(RT_UNAVAILABLE));
    assert_eq!(runtime::addon_dir(Err("broken"), Ok(Some(a))), Err("broken"));
    assert_eq!(runtime::detect_language(Ok(None), Err("no arcdps")), Err("no arcdps"));
    assert_eq!(runtime::rtapi::<u8>(Ok(None), Ok(None)), Err(RT_UNAVAILABLE));
    assert_eq!(runtime::rtapi(Ok(Some(1u8)), Ok(None)), Ok(Some(1u8)));
    assert_eq!(runtime::mumble_link_ptr(Ok(None), Ok(Some(7u32))), Ok(7));
    assert_eq!(runtime::nexus_link_ptr::<u32>(Ok(None), Ok(None)), Err(RT_UNAVAILABLE));
    assert!(runtime::reload_language(Ok(Some("de".to_string())), Ok(None)).is_ok());
    assert_eq!(
        runtime::reload_language(Ok(Some("not a language tag!".to_string())), Ok(None)).err(),
        Some("Cannot parse detected language")
    );
    assert_eq!(runtime::reload_language(Ok(None), Ok(None)).err(), Some(RT_UNAVAILABLE));
    let press = GameBindPress { bind: GameBind::SquadMarkerClearAllWorld, duration_ms: 10 };
    assert_eq!(runtime::invoke_marker_bind(Ok(Some(press)), Ok(Some(()))), Ok(MarkerBindInvocation::Nexus(press)));
    assert_eq!(runtime::invoke_marker_bind(Ok(None), Ok(Some(()))), Ok(MarkerBindInvocation::Arcdps));
    assert_eq!(runtime::invoke_marker_bind(Ok(None), Ok(None)), Err(RT_UNAVAILABLE));
    match runtime::texture_schedule_bytes(Ok(None), Ok(Some(TextureRequest::Bytes { key: "k".to_string(), data: vec![1, 2] }))) {
        Ok(TextureRequest::Bytes { key, data }) => {
            assert_eq!(key, "k");
            assert_eq!(data, vec![1, 2]);
        },
        _ => panic!("arcdps takes the texture when Nexus is not there"),
    }
    assert!(runtime::texture_schedule_path(Ok(None), Ok(None)).is_err());
}

#[test]
fn keybinds_and_menu() {
    type E = ControllerEvent<[f32; 3], f32>;
    let e: Option<E> = keybind_event(AddonKeybind::PrimaryWindow, false);
    assert!(matches!(e, Some(ControllerEvent::WindowState(w, None)) if w == "primary"));
    let e: Option<E> = keybind_event(AddonKeybind::TimerWindow, true);
    assert!(e.is_none());
    let e: Option<E> = keybind_event(AddonKeybind::TimerWindow, false);
    assert!(matches!(e, Some(ControllerEvent::WindowState(w, None)) if w == "timers"));
    let e: Option<E> = keybind_event(AddonKeybind::TimerKey("Timer key 3".to_string()), true);
    assert!(matches!(e, Some(ControllerEvent::TimerKeyTrigger(k, true)) if k == "Timer key 3"));
    let e: E = menu_event(MenuButton::Markers);
    assert!(matches!(e, ControllerEvent::WindowState(w, None) if w == "markers"));
}
