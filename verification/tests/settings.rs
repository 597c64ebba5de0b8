use taimi_hud::settings::known_window_name;
use taimi_hud::settings::{
    GitHubSource, MarkerAutoPlaceSettings, NeedsUpdate, ProgressBarSettings, ProgressBarStyleChange, RemoteState,
    Settings, SquadCondition, TextFont, TimerSettings,
};

fn fresh() -> Settings<f32, u64> {
    Settings::new("Taimi".to_string(), ProgressBarSettings::new(20.0))
}

fn source(owner: &str, repository: &str) -> GitHubSource {
    GitHubSource { owner: owner.to_string(), repository: repository.to_string(), description: None }
}

#[test]
fn timer_settings_toggle_twice_is_identity() {
    let mut t = TimerSettings::default();
    assert!(!t.disabled);
    assert!(t.toggle());
    assert!(t.disabled);
    assert!(!t.toggle());
    assert!(!t.disabled);
    t.disable();
    assert!(t.disabled);
    t.enable();
    assert!(!t.disabled);
}

#[test]
fn needs_update_text() {
    assert_eq!(NeedsUpdate::Unknown.to_string(), "Unknown!");
    assert_eq!(NeedsUpdate::Known(true, "v1.2".to_string()).to_string(), "Newer version, v1.2 available!");
    assert_eq!(NeedsUpdate::Known(false, "v1.2".to_string()).to_string(), "Up to date!");
}

#[test]
fn github_source_names() {
    let s = source("QuitarHero", "Hero-Timers");
    assert_eq!(s.to_string(), "QuitarHero/Hero-Timers");
    assert_eq!(s.folder_name(), "QuitarHero_Hero-Timers");
    assert!(s.eq(&s.clone()));
    assert!(!s.eq(&source("QuitarHero", "Other")));
    let described = GitHubSource { description: Some("d".to_string()), ..source("QuitarHero", "Hero-Timers") };
    assert!(!s.eq(&described));
}

#[test]
fn update_status_of_a_remote() {
    let mut r = RemoteState::new("o", "r");
    assert!(matches!(r.needs_update(None), NeedsUpdate::Unknown));
    match r.needs_update(Some("v2".to_string())) {
        NeedsUpdate::Known(true, tag) => assert_eq!(tag, "v2"),
        _ => panic!("a source with nothing installed needs the latest release"),
    }
    r.commit_downloaded("v2".to_string(), "/addons/Taimi/o_r".to_string(), Some("v2".to_string()));
    assert_eq!(r.installed_tag.as_deref(), Some("v2"));
    assert_eq!(r.installed_path.as_deref(), Some("/addons/Taimi/o_r"));
    match &r.needs_update {
        NeedsUpdate::Known(false, tag) => assert_eq!(tag, "v2"),
        _ => panic!("a source whose latest release was downloaded is up to date"),
    }
    match r.needs_update(Some("v3".to_string())) {
        NeedsUpdate::Known(true, tag) => assert_eq!(tag, "v3"),
        _ => panic!("a newer tag means an update"),
    }
}

#[test]
fn suggested_sources_and_fresh_settings() {
    let s = fresh();
    assert_eq!(s.remotes.len(), 1);
    assert_eq!(s.remotes[0].source.to_string(), "QuitarHero/Hero-Timers");
    assert!(s.get_paths().is_empty());
    assert!(!s.primary_window_open && !s.timers_window_open && !s.markers_window_open && !s.pathing_window_open);
    assert_eq!(s.marker_autoplace, MarkerAutoPlaceSettings::DoNothing);
    assert!(s.last_checked.is_none());
}

#[test]
fn fonts() {
    let all = TextFont::all();
    assert_eq!(all.len(), 4);
    let names: Vec<String> = all.iter().map(|f| f.to_string()).collect();
    assert_eq!(names, vec!["fontless", "font", "ui", "big"]);
    assert_eq!(TextFont::default(), TextFont::Fontless);
}

#[test]
fn progress_bar_style_changes() {
    let mut s = fresh();
    let bar = s.set_progress_bar(ProgressBarStyleChange::Height(32.0));
    assert_eq!(bar.height, 32.0);
    let bar = s.set_progress_bar(ProgressBarStyleChange::Shadow(false));
    assert!(!bar.shadow);
    let bar = s.set_progress_bar(ProgressBarStyleChange::Font(TextFont::Big));
    assert_eq!(bar.font, TextFont::Big);
    assert_eq!(bar.height, 32.0);
    let mut p = ProgressBarSettings::new(10.0f32);
    assert_eq!(p.font, TextFont::Ui);
    assert!(p.shadow && !p.stock && !p.centre_after);
    p.toggle_stock();
    p.toggle_centre_after();
    p.toggle_shadow();
    assert!(p.stock && p.centre_after && !p.shadow);
}

#[test]
fn window_states() {
    let mut s = fresh();
    s.set_window_state("primary", Some(true));
    assert!(s.primary_window_open);
    s.set_window_state("timers", None);
    assert!(s.timers_window_open);
    s.set_window_state("timers", None);
    assert!(!s.timers_window_open);
    s.set_window_state("markers", Some(true));
    s.set_window_state("pathing", None);
    assert!(s.markers_window_open && s.pathing_window_open && s.primary_window_open);
}

#[test]
fn timer_toggles_in_settings() {
    let mut s = fresh();
    assert!(s.toggle_timer("vg".to_string()));
    assert_eq!(s.timers.get("vg"), Some(&TimerSettings { disabled: true }));
    assert!(!s.toggle_timer("vg".to_string()));
    assert!(s.timers.get("vg").is_none());
    s.disable_timer("gors".to_string());
    assert!(s.timers.get("gors").unwrap().disabled);
    s.enable_timer("gors".to_string());
    assert!(!s.timers.get("gors").unwrap().disabled);
    assert!(s.toggle_marker("set".to_string()));
    assert!(s.markers.get("set").unwrap().disabled);
    s.enable_marker("set".to_string());
    assert!(!s.markers.get("set").unwrap().disabled);
    s.disable_marker("other".to_string());
    assert!(s.markers.get("other").unwrap().disabled);
    s.set_marker_autoplace_settings(MarkerAutoPlaceSettings::Place(SquadCondition::IfCommander));
    assert_eq!(s.marker_autoplace, MarkerAutoPlaceSettings::Place(SquadCondition::IfCommander));
    s.toggle_katrender();
    assert!(s.enable_katrender);
}

#[test]
fn download_and_update_checks() {
    let mut s = fresh();
    let hero = source("QuitarHero", "Hero-Timers");
    assert!(s.commit_download(&hero, "v5".to_string(), "dir/hero".to_string(), Some("v5".to_string())).is_ok());
    assert_eq!(s.get_paths(), vec!["dir/hero".to_string()]);
    let status = s.get_status_for(&hero).unwrap();
    assert_eq!(status.installed_tag.as_deref(), Some("v5"));
    let missing = source("nobody", "nothing");
    assert_eq!(
        s.commit_download(&missing, "v1".to_string(), "x".to_string(), None),
        Err("GitHub repository \"nobody/nothing\" not found.".to_string())
    );
    assert!(s.get_status_for(&missing).is_none());
    s.apply_update_checks(
        vec![(hero.clone(), NeedsUpdate::Known(true, "v6".to_string())), (missing.clone(), NeedsUpdate::Unknown)],
        42u64,
    );
    assert_eq!(s.last_checked, Some(42));
    assert!(matches!(&s.remotes[0].needs_update, NeedsUpdate::Known(true, t) if t == "v6"));
    assert!(s.set_needs_update(&hero, NeedsUpdate::Unknown));
    assert!(!s.set_needs_update(&missing, NeedsUpdate::Unknown));
}

#[test]
fn known_windows() {
    assert!(known_window_name("primary"));
    assert!(known_window_name("timers"));
    assert!(known_window_name("markers"));
    assert!(known_window_name("pathing"));
    assert!(!known_window_name("unknown"));
    assert!(!known_window_name(""));
}
