use taimi_hud::controller::{TimerScheduler, timer_key_index};
use taimi_hud::keyed::KeyedList;
use taimi_hud::settings::TimerSettings;
use taimi_hud::timer::{
    CombatState, Polytope, TimerAlert, TimerAlertType, TimerFile, TimerPhase, TimerTrigger, TimerTriggerType,
};

type Pos = [f32; 3];
type Colour = [f32; 4];

fn trigger(position: Option<Pos>, antipode: Option<Pos>, radius: Option<f32>) -> TimerTrigger<Pos, f32> {
    TimerTrigger {
        kind: TimerTriggerType::Location,
        key_bind: None,
        position,
        antipode,
        radius,
        require_combat: false,
        require_out_of_combat: false,
        require_entry: false,
        require_departure: false,
    }
}

fn timer(id: &str, name: &str, category: &str, map_id: u32) -> TimerFile<Pos, f32, Colour> {
    TimerFile {
        id: id.to_string(),
        name: name.to_string(),
        category: category.to_string(),
        description: String::new(),
        author: String::new(),
        icon: String::new(),
        map_id,
        reset: trigger(None, None, None),
        phases: Vec::new(),
    }
}

fn alert(warning: Option<&str>, alert: Option<&str>, timestamps: Vec<f32>) -> TimerAlert<f32, Colour> {
    TimerAlert {
        warning_duration: Some(5.0),
        alert_duration: Some(2.0),
        warning: warning.map(|s| s.to_string()),
        warning_color: Some([1.0, 0.0, 0.0, 1.0]),
        alert: alert.map(|s| s.to_string()),
        alert_color: Some([0.0, 1.0, 0.0, 1.0]),
        icon: Some("icon.png".to_string()),
        fill_color: None,
        timestamps,
    }
}

#[test]
fn trigger_regions() {
    let ball = trigger(Some([1.0, 2.0, 3.0]), Some([9.0, 9.0, 9.0]), Some(5.0));
    assert!(matches!(ball.polytope(), Some(Polytope::NSphere { radius, center }) if radius == 5.0 && center == [1.0, 2.0, 3.0]));
    let cuboid = trigger(Some([0.0, 0.0, 0.0]), Some([1.0, 1.0, 1.0]), None);
    assert!(matches!(cuboid.polytope(), Some(Polytope::NCuboid { antipode, pode }) if antipode == [1.0, 1.0, 1.0] && pode == [0.0, 0.0, 0.0]));
    let nothing = trigger(None, Some([1.0, 1.0, 1.0]), Some(3.0));
    assert!(nothing.polytope().is_none());
    assert_eq!(ball.position(), Some([1.0, 2.0, 3.0]));
    assert_eq!(cuboid.antipode(), Some([1.0, 1.0, 1.0]));
}

#[test]
fn trigger_check_conditions() {
    let mut t = trigger(Some([0.0; 3]), None, Some(1.0));
    assert!(t.check(false, CombatState::Outside));
    t.require_entry = true;
    assert!(!t.check(false, CombatState::Outside));
    assert!(t.check(true, CombatState::Outside));
    t.require_combat = true;
    assert!(!t.check(true, CombatState::Exited));
    assert!(t.check(true, CombatState::Entered));
    t.require_departure = true;
    assert!(!t.check(true, CombatState::Entered));
    assert!(!t.check(false, CombatState::Entered));
    let regionless = TimerTrigger { require_entry: false, ..trigger(None, None, None) };
    assert!(!regionless.check(true, CombatState::Entered));
}

#[test]
fn alerts_follow_timestamps() {
    let warn = alert(Some("Split soon"), None, vec![10.0, 20.0]);
    assert_eq!(warn.kind(), TimerAlertType::Warning);
    let alerts = warn.get_alerts();
    assert_eq!(alerts.len(), 2);
    assert_eq!(alerts[0].kind, TimerAlertType::Warning);
    assert_eq!(alerts[0].text, "Split soon");
    assert_eq!(alerts[0].timestamp, 10.0);
    assert_eq!(alerts[1].timestamp, 20.0);
    assert_eq!(alerts[1].duration, 5.0);
    assert_eq!(alerts[1].colour, Some([1.0, 0.0, 0.0, 1.0]));
    assert_eq!(alerts[1].icon.as_deref(), Some("icon.png"));
    let hit = alert(None, Some("Dodge"), vec![3.0]);
    assert_eq!(hit.kind(), TimerAlertType::Alert);
    let alerts = hit.get_alerts();
    assert_eq!(alerts[0].duration, 2.0);
    assert_eq!(alerts[0].colour, Some([0.0, 1.0, 0.0, 1.0]));
    assert_eq!(TimerAlertType::Alert.to_string(), "Alert");
    assert_eq!(TimerAlertType::Warning.to_string(), "Warning");
}

#[test]
fn phase_alerts_in_definition_order() {
    let phase: TimerPhase<Pos, f32, Colour> = TimerPhase {
        name: "Phase 1".to_string(),
        start: trigger(Some([0.0; 3]), None, Some(1.0)),
        finish: None,
        alerts: vec![alert(None, Some("A"), vec![5.0]), alert(Some("B"), None, vec![1.0, 2.0])],
        actions: Vec::new(),
    };
    let texts: Vec<(String, f32)> = phase.get_alerts().into_iter().map(|a| (a.text, a.timestamp)).collect();
    assert_eq!(texts, vec![("A".to_string(), 5.0), ("B".to_string(), 1.0), ("B".to_string(), 2.0)]);
}

#[test]
fn timer_name_on_one_line() {
    assert_eq!(timer("t", "Vale\nGuardian\n", "Raids", 1).name(), "Vale Guardian ");
    assert_eq!(timer("t", "Plain", "Raids", 1).name(), "Plain");
}

#[test]
fn key_trigger_index() {
    assert_eq!(timer_key_index("KB_TIMER_TRIGGER_3"), 3);
    assert_eq!(timer_key_index("0"), 0);
    assert_eq!(timer_key_index("x9"), 9);
}

fn scheduler() -> TimerScheduler<Pos, f32, Colour> {
    TimerScheduler::new(vec![
        timer("vg", "VG", "Raids", 1062),
        timer("gors", "Gors", "Raids", 1062),
        timer("boneskinner", "Bone", "Strikes", 1339),
        timer("vg", "VG again", "Raids", 1062),
    ])
}

#[test]
fn scheduler_map_changes_start_enabled_timers() {
    let mut s = scheduler();
    let mut settings: KeyedList<TimerSettings> = KeyedList::new();
    settings.insert("gors".to_string(), TimerSettings { disabled: true });
    let stopped = s.handle_map(1062, &settings).unwrap();
    assert!(stopped.is_empty());
    assert_eq!(s.current_timers, vec![0, 3]);
    assert!(s.handle_map(1062, &settings).is_none());
    let stopped = s.handle_map(1339, &settings).unwrap();
    assert_eq!(stopped, vec![0, 3]);
    assert_eq!(s.current_timers, vec![2]);
    let stopped = s.handle_map(5, &settings).unwrap();
    assert_eq!(stopped, vec![2]);
    assert!(s.current_timers.is_empty());
    assert_eq!(s.map_id, Some(5));
}

#[test]
fn scheduler_enable_disable_toggle() {
    let mut s = scheduler();
    assert!(s.enable_timer("vg").is_empty());
    let settings: KeyedList<TimerSettings> = KeyedList::new();
    s.handle_map(1062, &settings);
    assert_eq!(s.current_timers, vec![0, 1, 3]);
    let stopped = s.disable_timer("vg");
    assert_eq!(stopped, vec![0, 3]);
    assert_eq!(s.current_timers, vec![1]);
    let started = s.enable_timer("vg");
    assert_eq!(started, vec![0, 3]);
    assert_eq!(s.current_timers, vec![1, 0, 3]);
    let cleaned = s.toggle_timer("gors", true);
    assert_eq!(cleaned, vec![1]);
    assert_eq!(s.current_timers, vec![1, 0, 3]);
    let started = s.toggle_timer("gors", false);
    assert_eq!(started, vec![1]);
    assert_eq!(s.current_timers, vec![1, 0, 3, 1]);
}
