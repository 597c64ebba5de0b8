use taimi_hud::autoplace::MarkerAutoplace;
use taimi_hud::control::{Controller, Task};
use taimi_hud::controller::{
    Agent, AgentTracker, AutoplaceAction, CombatTracker, ControllerEvent, GroupMember, MumbleIdentity, SquadRoleState,
    SquadState, SquadTracker, StateChange, TimerScheduler, UserInfo, UserRole, condition_met, handle_marker_autoplace,
};
use taimi_hud::marker::MarkerSet;
use taimi_hud::settings::{MarkerAutoPlaceSettings, ProgressBarSettings, ProgressBarStyleChange, Settings, SquadCondition};
use taimi_hud::timer::{CombatState, TimerFile, TimerTrigger, TimerTriggerType};

type Pos = [f32; 3];
type Colour = [f32; 4];
type Ctl = Controller<Pos, f32, Colour, f32, u64>;

fn member(name: &str, commander: bool, lieutenant: bool) -> GroupMember {
    GroupMember { account_name: name.to_string(), is_commander: commander, is_lieutenant: lieutenant }
}

fn user(name: Option<&str>, role: UserRole) -> UserInfo {
    UserInfo { account_name: name.map(|n| n.to_string()), role }
}

#[test]
fn squad_conditions() {
    let commander = Some(SquadRoleState::Commander);
    let lieutenant = Some(SquadRoleState::Lieutenant);
    let member = Some(SquadRoleState::Member);
    assert!(!condition_met(SquadCondition::Never, commander));
    assert!(condition_met(SquadCondition::IfCommander, commander));
    assert!(!condition_met(SquadCondition::IfCommander, lieutenant));
    assert!(condition_met(SquadCondition::IfLieutenantOrAbove, lieutenant));
    assert!(condition_met(SquadCondition::IfLieutenantOrAbove, commander));
    assert!(!condition_met(SquadCondition::IfLieutenantOrAbove, member));
    assert!(!condition_met(SquadCondition::IfLieutenantOrAbove, None));
    assert!(condition_met(SquadCondition::Always, None));
    assert!(SquadRoleState::Commander.at_least(&SquadRoleState::Lieutenant));
    assert!(!SquadRoleState::Member.at_least(&SquadRoleState::Lieutenant));
}

#[test]
fn autoplace_decisions() {
    let place = Some(MarkerAutoPlaceSettings::Place(SquadCondition::IfCommander));
    assert_eq!(handle_marker_autoplace(place, true, Some(SquadRoleState::Commander)), AutoplaceAction::PlaceMarkers);
    assert_eq!(handle_marker_autoplace(place, true, Some(SquadRoleState::Member)), AutoplaceAction::Nothing);
    assert_eq!(handle_marker_autoplace(place, false, Some(SquadRoleState::Commander)), AutoplaceAction::Nothing);
    let window = Some(MarkerAutoPlaceSettings::OpenWindow(SquadCondition::Always));
    assert_eq!(handle_marker_autoplace(window, true, None), AutoplaceAction::OpenMarkerWindow);
    assert_eq!(handle_marker_autoplace(Some(MarkerAutoPlaceSettings::DoNothing), true, None), AutoplaceAction::Nothing);
    assert_eq!(handle_marker_autoplace(None, true, None), AutoplaceAction::Nothing);
}

#[test]
fn squad_roles_from_rtapi_extras_and_identity() {
    let mut squad = SquadTracker::new();
    assert_eq!(squad.get_role(Some("me.1234"), Some(":me.1234"), false), None);
    assert_eq!(squad.get_role(None, None, true), Some(SquadRoleState::Commander));
    squad.extras_squad_update(vec![
        user(Some(":me.1234"), UserRole::Lieutenant),
        user(None, UserRole::SquadLeader),
        user(Some(":other.1"), UserRole::Invited),
    ]);
    assert_eq!(squad.get_role(None, Some(":me.1234"), true), Some(SquadRoleState::Lieutenant));
    assert_eq!(squad.get_role(None, Some(":other.1"), true), None);
    squad.rtapi_squad_update(SquadState::Joined, member("me.1234", true, false), Some("me.1234"));
    assert_eq!(squad.get_role(Some("me.1234"), Some(":me.1234"), false), Some(SquadRoleState::Commander));
    squad.rtapi_squad_update(SquadState::Update, member("me.1234", false, false), Some("me.1234"));
    assert_eq!(squad.get_role(Some("me.1234"), None, false), Some(SquadRoleState::Member));
    squad.rtapi_squad_update(SquadState::Update, member("stranger", true, false), Some("me.1234"));
    assert!(squad.rtapi_squad.get("stranger").is_none());
    squad.rtapi_squad_update(SquadState::Joined, member("friend", false, true), Some("me.1234"));
    squad.rtapi_squad_update(SquadState::Left, member("friend", false, true), Some("me.1234"));
    assert!(squad.rtapi_squad.get("friend").is_none());
    assert!(squad.rtapi_squad.get("me.1234").is_some());
    squad.rtapi_squad_update(SquadState::Joined, member("friend", false, true), None);
    assert!(squad.rtapi_squad.get("friend").is_none());
    squad.rtapi_squad_update(SquadState::Joined, member("friend", false, true), Some("me.1234"));
    squad.rtapi_squad_update(SquadState::Left, member("me.1234", false, false), Some("me.1234"));
    assert!(squad.rtapi_squad.is_empty());
}

#[test]
fn combat_reported_once_per_change() {
    let mut c = CombatTracker::new();
    assert_eq!(c.mumble_combat_update(false), None);
    assert_eq!(c.mumble_combat_update(true), Some(CombatState::Entered));
    assert_eq!(c.mumble_combat_update(true), None);
    assert_eq!(c.mumble_combat_update(false), Some(CombatState::Exited));
    assert_eq!(c.mumble_combat_update(false), None);
}

#[test]
fn agent_tracking() {
    let mut a = AgentTracker { agent: None };
    let other = Agent { name: Some("Someone".to_string()), is_self: 0 };
    assert_eq!(a.handle_combat_event(other, StateChange::EnterCombat), Some(CombatState::Entered));
    assert!(a.agent.is_none());
    let me = Agent { name: Some("Kitty".to_string()), is_self: 1 };
    assert_eq!(a.handle_combat_event(me, StateChange::Other), None);
    assert_eq!(a.agent.as_ref().unwrap().name.as_deref(), Some("Kitty"));
    let alt = Agent { name: Some("Witch".to_string()), is_self: 1 };
    assert_eq!(a.handle_combat_event(alt, StateChange::ExitCombat), Some(CombatState::Exited));
    assert_eq!(a.agent.as_ref().unwrap().name.as_deref(), Some("Witch"));
    assert_eq!(a.handle_combat_event(Agent { name: None, is_self: 0 }, StateChange::NoChange), None);
}

#[test]
fn autoplace_fires_once_per_map_visit() {
    let mut t = MarkerAutoplace::new(vec![10, 20, 10]);
    assert!(t.tick(&vec![true, true, true]).is_empty());
    assert_eq!(t.enter_map(10), Some(vec![0, 2]));
    assert_eq!(t.tick(&vec![true, true, false]), vec![0]);
    assert_eq!(t.tick(&vec![true, true, true]), vec![2]);
    assert!(t.tick(&vec![true, true, true]).is_empty());
    assert_eq!(t.enter_map(10), None);
    assert!(t.tick(&vec![true, true, true]).is_empty());
    assert_eq!(t.enter_map(20), Some(vec![1]));
    assert_eq!(t.tick(&vec![true, true, true]), vec![1]);
    assert_eq!(t.enter_map(10), Some(vec![0, 2]));
    assert_eq!(t.tick(&vec![true, false, true]), vec![0, 2]);
    t.clear_spent();
    assert_eq!(t.tick(&vec![false, false, true]), vec![2]);
    assert_eq!(t.markers_for_map(30), Vec::<usize>::new());
}

fn trigger() -> TimerTrigger<Pos, f32> {
    TimerTrigger {
        kind: TimerTriggerType::Location,
        key_bind: None,
        position: None,
        antipode: None,
        radius: None,
        require_combat: false,
        require_out_of_combat: false,
        require_entry: false,
        require_departure: false,
    }
}

fn timer(id: &str, map_id: u32) -> TimerFile<Pos, f32, Colour> {
    TimerFile {
        id: id.to_string(),
        name: id.to_string(),
        category: "Raids".to_string(),
        description: String::new(),
        author: String::new(),
        icon: String::new(),
        map_id,
        reset: trigger(),
        phases: Vec::new(),
    }
}

fn marker_set(name: &str, map_id: u32, enabled: bool) -> MarkerSet<Pos> {
    MarkerSet {
        enabled,
        author: None,
        name: name.to_string(),
        description: String::new(),
        category: None,
        map_id,
        trigger: [0.0; 3],
        markers: Vec::new(),
        path: None,
        idx: None,
    }
}

fn controller() -> Ctl {
    let settings: Settings<f32, u64> = Settings::new("Taimi".to_string(), ProgressBarSettings::new(20.0));
    let timers = TimerScheduler::new(vec![timer("vg", 1062), timer("gors", 1062), timer("bone", 1339)]);
    Controller::new(
        settings,
        timers,
        vec![marker_set("VG", 1062, true), marker_set("Off", 1062, false), marker_set("Bone", 1339, true)],
        Some(":me.1234".to_string()),
    )
}

#[test]
fn controller_map_change_starts_and_stops() {
    let mut c = controller();
    let r = c.handle_event(ControllerEvent::MumbleIdentityUpdated(MumbleIdentity { map_id: 1062, is_commander: false }));
    assert!(r.keep_running && !r.save_settings);
    assert!(r.stopped_timers.is_empty());
    assert_eq!(r.started_timers, vec![0, 1]);
    assert_eq!(r.shown_markers, Some(vec![0, 1]));
    let r = c.handle_event(ControllerEvent::MumbleIdentityUpdated(MumbleIdentity { map_id: 1062, is_commander: true }));
    assert!(r.started_timers.is_empty() && r.stopped_timers.is_empty() && r.shown_markers.is_none());
    assert_eq!(c.cached_identity, Some(MumbleIdentity { map_id: 1062, is_commander: true }));
    let r = c.handle_event(ControllerEvent::MumbleIdentityUpdated(MumbleIdentity { map_id: 1339, is_commander: true }));
    assert_eq!(r.stopped_timers, vec![0, 1]);
    assert_eq!(r.started_timers, vec![2]);
    assert_eq!(r.shown_markers, Some(vec![2]));
}

#[test]
fn controller_timer_events() {
    let mut c = controller();
    c.handle_event(ControllerEvent::MumbleIdentityUpdated(MumbleIdentity { map_id: 1062, is_commander: false }));
    let r = c.handle_event(ControllerEvent::TimerToggle("vg".to_string()));
    assert!(r.save_settings);
    assert_eq!(r.stopped_timers, vec![0]);
    assert!(c.settings.timers.get("vg").unwrap().disabled);
    let r = c.handle_event(ControllerEvent::TimerToggle("vg".to_string()));
    assert_eq!(r.started_timers, vec![0]);
    assert!(c.settings.timers.get("vg").is_none());
    let r = c.handle_event(ControllerEvent::TimerDisable("gors".to_string()));
    assert_eq!(r.stopped_timers, vec![1]);
    assert_eq!(c.timers.current_timers, vec![0, 0]);
    let r = c.handle_event(ControllerEvent::TimerEnable("gors".to_string()));
    assert_eq!(r.started_timers, vec![1]);
    assert!(!c.settings.timers.get("gors").unwrap().disabled);
}

#[test]
fn controller_settings_and_tasks() {
    let mut c = controller();
    let r = c.handle_event(ControllerEvent::WindowState("primary".to_string(), None));
    assert!(r.save_settings && c.settings.primary_window_open);
    let r = c.handle_event(ControllerEvent::ProgressBarStyle(ProgressBarStyleChange::Stock(true)));
    assert!(matches!(&r.task, Task::ProgressBar(bar) if bar.stock));
    assert!(c.settings.progress_bar.stock);
    let r = c.handle_event(ControllerEvent::ToggleKatRender);
    assert!(r.save_settings && c.settings.enable_katrender);
    let setting = MarkerAutoPlaceSettings::Place(SquadCondition::Always);
    c.handle_event(ControllerEvent::MarkerAutoPlaceSettings(setting));
    assert_eq!(c.marker_autoplace, Some(setting));
    assert_eq!(c.settings.marker_autoplace, setting);
    let r = c.handle_event(ControllerEvent::TimerKeyTrigger("KB_TIMER_TRIGGER_2".to_string(), true));
    assert!(matches!(&r.task, Task::KeyTrigger(2, true)));
    assert!(!r.save_settings);
    let r = c.handle_event(ControllerEvent::OpenOpenable("button".to_string(), "https://example.org".to_string()));
    assert!(matches!(&r.task, Task::OpenUri(k, u) if k == "button" && u == "https://example.org"));
    let r = c.handle_event(ControllerEvent::CombatEvent {
        src: Agent { name: Some("Kitty".to_string()), is_self: 1 },
        change: StateChange::EnterCombat,
    });
    assert_eq!(r.combat, Some(CombatState::Entered));
    assert_eq!(c.agents.agent.as_ref().unwrap().name.as_deref(), Some("Kitty"));
    let r = c.handle_event(ControllerEvent::MarkerToggle("VG".to_string()));
    assert!(r.save_settings && c.settings.markers.get("VG").unwrap().disabled);
    let r = c.handle_event(ControllerEvent::ExtrasSquadUpdate(vec![user(Some(":me.1234"), UserRole::SquadLeader)]));
    assert!(!r.save_settings);
    assert_eq!(c.get_role(None), Some(SquadRoleState::Commander));
    let r = c.handle_event(ControllerEvent::Quit);
    assert!(!r.keep_running);
}

#[test]
fn controller_tick_places_markers_for_commanders() {
    let mut c = controller();
    c.handle_event(ControllerEvent::MarkerAutoPlaceSettings(MarkerAutoPlaceSettings::Place(SquadCondition::IfCommander)));
    c.handle_event(ControllerEvent::MumbleIdentityUpdated(MumbleIdentity { map_id: 1062, is_commander: true }));
    assert_eq!(c.player_position, None);
    let r = c.mumble_tick(true, [1.0, 2.0, 3.0], &vec![true, true, true], None);
    assert_eq!(c.player_position, Some([1.0, 2.0, 3.0]));
    assert_eq!(r.combat, Some(CombatState::Entered));
    assert_eq!(r.autoplace, vec![(0, AutoplaceAction::PlaceMarkers), (1, AutoplaceAction::Nothing)]);
    let r = c.mumble_tick(true, [0.0, 0.0, 0.0], &vec![true, true, true], None);
    assert_eq!(r.combat, None);
    assert!(r.autoplace.is_empty());
    c.handle_event(ControllerEvent::ClearSpentAutoplace);
    // Sets without a flag do not fire.
    let r = c.mumble_tick(true, [0.0, 0.0, 0.0], &vec![], None);
    assert!(r.autoplace.is_empty());
    let r = c.mumble_tick(false, [0.0, 0.0, 0.0], &vec![true, false, false], None);
    assert_eq!(r.combat, Some(CombatState::Exited));
    assert_eq!(r.autoplace, vec![(0, AutoplaceAction::PlaceMarkers)]);
}

#[test]
fn controller_uninstall_and_reload() {
    let mut c = controller();
    let hero = c.settings.remotes[0].source.clone();
    c.settings.commit_download(&hero, "v1".to_string(), "dir/hero".to_string(), None).unwrap();
    let r = c.handle_event(ControllerEvent::UninstallAddon(hero.clone()));
    assert!(r.save_settings);
    assert!(matches!(&r.task, Task::RemoveInstall(p) if p == "dir/hero"));
    assert!(c.settings.remotes[0].installed_tag.is_none() && c.settings.remotes[0].installed_path.is_none());
    let r = c.handle_event(ControllerEvent::UninstallAddon(hero.clone()));
    assert!(r.save_settings && matches!(r.task, Task::Nothing));
    let unknown = taimi_hud::settings::GitHubSource { owner: "a".to_string(), repository: "b".to_string(), description: None };
    let r = c.handle_event(ControllerEvent::UninstallAddon(unknown));
    assert!(!r.save_settings);
    assert!(matches!(&r.task, Task::Report(e) if e == "GitHub repository \"a/b\" not found."));

    c.handle_event(ControllerEvent::MumbleIdentityUpdated(MumbleIdentity { map_id: 1062, is_commander: false }));
    let before = c.timers.timers.len();
    assert_eq!(c.timers.current_timers, vec![0, 1]);
    c.reload_timers(vec![timer("new", 1062)]);
    // The running timers keep running, kept after the new one.
    assert_eq!(c.timers.loaded, 1);
    assert_eq!(c.timers.timers.len(), 1 + before);
    assert_eq!(c.timers.timers[0].id, "new");
    assert_eq!(c.timers.current_timers, vec![1, 2]);
    assert_eq!(c.timers.map_id, Some(1062));
    // Leaving the map stops them; coming back starts the new timer only.
    let r = c.handle_event(ControllerEvent::MumbleIdentityUpdated(MumbleIdentity { map_id: 15, is_commander: false }));
    assert_eq!(r.stopped_timers, vec![1, 2]);
    let r = c.handle_event(ControllerEvent::MumbleIdentityUpdated(MumbleIdentity { map_id: 1062, is_commander: false }));
    assert_eq!(r.started_timers, vec![0]);
    // With nothing running, a reload drops the earlier timers.
    c.handle_event(ControllerEvent::MumbleIdentityUpdated(MumbleIdentity { map_id: 15, is_commander: false }));
    c.reload_timers(vec![timer("newer", 1062)]);
    assert_eq!(c.timers.timers.len(), 1);
    c.handle_event(ControllerEvent::MumbleIdentityUpdated(MumbleIdentity { map_id: 1062, is_commander: false }));
    c.reload_markers(vec![marker_set("Only", 1062, true)]);
    let r = c.mumble_tick(false, [0.0, 0.0, 0.0], &vec![true], None);
    assert_eq!(r.autoplace, vec![(0, AutoplaceAction::Nothing)]);
}
