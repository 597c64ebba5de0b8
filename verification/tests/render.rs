use taimi_hud::controller::ControllerEvent;
use taimi_hud::marker::{MarkerEntry, MarkerSet, MarkerType};
use taimi_hud::render::{
    ConfigTabState, DataSourceAction, DataSourceTabState, DataSourceView, EditMarkerWindowState, EditWindowAction, EditWindowReply,
    IndividualMarkerState, MarkerFiletype,
    MarkerProblem, MarkerSaveEvent, MarkerSaveMode, MarkerWindowState, PathingFilterState, PathingWindowState,
    UpdateButton,
};
use taimi_hud::render_state::{RenderEvent, RenderState, TextAlert, TimerWindowState};
use taimi_hud::settings::{
    MarkerAutoPlaceSettings, NeedsUpdate, ProgressBarSettings, ProgressBarStyleChange, RemoteState, SquadCondition,
    TextFont,
};

type Pos = [f32; 3];
type Event = ControllerEvent<Pos, f32>;

#[test]
fn problem_messages() {
    assert_eq!(MarkerProblem::NameEmpty.message_id(), "name-empty");
    assert_eq!(MarkerProblem::MapIdWrong.message_id(), "map-id-wrong");
    assert_eq!(MarkerProblem::FilenameEmpty.message_id(), "filename-empty");
}

#[test]
fn empty_editor_has_every_presave_problem() {
    let w: EditMarkerWindowState<f32> = EditMarkerWindowState::new();
    assert!(!w.open);
    assert_eq!(w.markers.len(), 8);
    assert_eq!(
        w.validate_presave(),
        vec![
            MarkerProblem::NameEmpty,
            MarkerProblem::NoTrigger,
            MarkerProblem::NoCategory,
            MarkerProblem::MapIdWrong,
            MarkerProblem::NoPositions,
        ]
    );
    assert_eq!(w.validate_save(), vec![MarkerProblem::FilenameEmpty]);
    let (heading, shown) = w.draw_validate();
    assert!(!heading);
    assert!(shown.is_empty());
}

fn filled() -> EditMarkerWindowState<f32> {
    let mut w: EditMarkerWindowState<f32> = EditMarkerWindowState::new();
    w.name = "VG".to_string();
    w.trigger = Some([1.0, 2.0, 3.0]);
    w.category.entry = Some("Raids".to_string());
    w.map_id = 1062;
    w.markers[0].set_position([2.0, 0.0, 0.0]);
    w.markers[0].set_description("tank".to_string());
    w.markers[4].set_position([3.0, 4.0, 5.0]);
    w.path = Some("raids.markers".to_string());
    w
}

#[test]
fn filled_editor_builds_the_marker_set() {
    let w = filled();
    assert!(w.validate_presave().is_empty());
    assert!(w.validate_save().is_empty());
    let set = w.to_marker_set().unwrap();
    assert!(set.enabled);
    assert_eq!(set.name, "VG");
    assert_eq!(set.map_id, 1062);
    assert_eq!(set.category.as_deref(), Some("Raids"));
    assert_eq!(set.author.as_deref(), Some(""));
    assert_eq!(set.markers.len(), 2);
    assert_eq!(set.markers[0].marker, MarkerType::Arrow);
    assert_eq!(set.markers[0].id.as_deref(), Some("tank"));
    assert_eq!(set.markers[1].marker, MarkerType::Star);
    assert_eq!(set.markers[1].id, None);
    // Marker files hold positions with the second and third axes exchanged.
    assert_eq!(set.markers[1].position, [3.0, 5.0, 4.0]);
    assert_eq!(set.trigger, [1.0, 3.0, 2.0]);
    let mut empty_name = filled();
    empty_name.path = Some(String::new());
    assert_eq!(empty_name.validate_save(), vec![MarkerProblem::FilenameEmpty]);
}

#[test]
fn save_requests() {
    let mut w = filled();
    let none: Option<Event> = w.save_file();
    assert!(none.is_none());
    w.save_mode = Some(MarkerSaveMode::Create);
    w.filetype = Some(MarkerFiletype::Custom);
    match w.save_file::<f32>() {
        Some(ControllerEvent::SaveMarker(MarkerSaveEvent::Create(set, path, ft))) => {
            assert_eq!(set.name, "VG");
            assert_eq!(path, "raids.markers");
            assert_eq!(ft, MarkerFiletype::Custom);
        },
        _ => panic!("a complete set with a file and a mode is saved"),
    }
    w.save_mode = Some(MarkerSaveMode::Append);
    assert!(matches!(w.save_file::<f32>(), Some(ControllerEvent::SaveMarker(MarkerSaveEvent::Append(_, p))) if p == "raids.markers"));
    w.save_mode = Some(MarkerSaveMode::Edit);
    w.idx = Some(3);
    w.original_category = Some("Old".to_string());
    match w.save_file::<f32>() {
        Some(ControllerEvent::SaveMarker(MarkerSaveEvent::Edit(_, p, oc, idx))) => {
            assert_eq!(p, "raids.markers");
            assert_eq!(oc.as_deref(), Some("Old"));
            assert_eq!(idx, 3);
        },
        _ => panic!("an edited set replaces the one it came from"),
    }
}

#[test]
fn opening_the_editor() {
    let mut w: EditMarkerWindowState<f32> = filled();
    w.category_update(vec!["Raids".to_string(), "Strikes".to_string()]);
    let e: Event = w.open(Some(":me.1234"), None, Some(1062));
    assert!(matches!(e, ControllerEvent::GetMarkerPaths));
    assert!(w.open);
    assert_eq!(w.author, "me.1234");
    assert_eq!(w.map_id, 1062);
    assert!(w.name.is_empty() && w.trigger.is_none() && w.category.entry.is_none());
    assert_eq!(w.category.data, vec!["Raids".to_string(), "Strikes".to_string()]);
    let _: Event = w.open(None, Some("rtapi.5678".to_string()), None);
    assert_eq!(w.author, "rtapi.5678");
    assert_eq!(w.map_id, 0);
    w.set_filenames(vec!["a.markers".to_string()]);
    assert_eq!(w.filenames, vec!["a.markers".to_string()]);
}

#[test]
fn editing_an_existing_set() {
    let set = MarkerSet {
        enabled: true,
        author: Some("Kitty".to_string()),
        name: "Gors".to_string(),
        description: "d".to_string(),
        category: Some("Raids".to_string()),
        map_id: 1062,
        trigger: [5.0, 6.0, 7.0],
        markers: vec![
            MarkerEntry { marker: MarkerType::Arrow, id: Some("a".to_string()), position: [1.0, 2.0, 3.0] },
            MarkerEntry { marker: MarkerType::Circle, id: None, position: [2.0, 0.0, 0.0] },
        ],
        path: Some("raids.markers".to_string()),
        idx: Some(1),
    };
    let mut w: EditMarkerWindowState<f32> = EditMarkerWindowState::new();
    w.open_edit(set);
    assert!(w.open);
    assert_eq!(w.save_mode, Some(MarkerSaveMode::Edit));
    assert_eq!(w.original_category.as_deref(), Some("Raids"));
    assert_eq!(w.author, "Kitty");
    assert_eq!(w.map_id, 1062);
    assert_eq!(w.markers[0].position, Some([1.0, 3.0, 2.0]));
    assert_eq!(w.trigger, Some([5.0, 7.0, 6.0]));
    // Saving gives the file's positions back.
    let back = w.to_marker_set().unwrap();
    assert_eq!(back.trigger, [5.0, 6.0, 7.0]);
    assert_eq!(back.markers[0].position, [1.0, 2.0, 3.0]);
    assert_eq!(w.markers[0].description, "a");
    assert_eq!(w.markers[1].description, "");
    assert_eq!(w.markers[2].position, None);
    let states = IndividualMarkerState::from_marker_entries(vec![MarkerEntry {
        marker: MarkerType::Cross,
        id: None,
        position: [9.0f32, 8.0, 7.0],
    }]);
    assert_eq!(states.len(), 8);
    assert_eq!(states[0].position, Some([9.0, 7.0, 8.0]));
    assert_eq!(states[0].to_marker_entry(MarkerType::Cross).unwrap().position, [9.0, 8.0, 7.0]);
    assert!(states[0].to_marker_entry(MarkerType::Cross).unwrap().id.is_none());
    assert!(states[1].to_marker_entry(MarkerType::Circle).is_none());
}

#[test]
fn pathing_filter_flags() {
    assert_eq!(PathingFilterState::filter_string_to_flag("Enabled").bits, 2);
    assert_eq!(PathingFilterState::filter_string_to_flag("Disabled").bits, 4);
    assert_eq!(PathingFilterState::filter_string_to_flag("Current Map").bits, 1);
    let mut f = PathingFilterState::default();
    assert_eq!(f.bits, 6);
    assert!(f.contains(PathingFilterState { bits: 2 }));
    assert!(!f.contains(PathingFilterState { bits: 1 }));
    f.set(PathingFilterState { bits: 1 }, true);
    f.set(PathingFilterState { bits: 4 }, false);
    assert_eq!(f.bits, 3);
}

#[test]
fn pathing_window_frames() {
    let mut p = PathingWindowState::new();
    assert_eq!(p.filter_button_text(), "Show filter options");
    let none: Option<Event> = p.draw(None, true, false);
    assert!(none.is_none());
    assert!(!p.filter_open);
    match p.draw::<Pos, f32>(Some(true), true, false) {
        Some(ControllerEvent::WindowState(w, state)) => {
            assert_eq!(w, "pathing");
            assert_eq!(state, Some(true));
        },
        _ => panic!("opening the window is recorded"),
    }
    assert!(p.open && p.filter_open);
    assert_eq!(p.filter_button_text(), "Hide filter options");
    assert!(p.draw::<Pos, f32>(None, false, false).is_none());
    assert!(matches!(p.draw::<Pos, f32>(None, false, true), Some(ControllerEvent::WindowState(_, Some(false)))));
    assert!(!p.open);
}

#[test]
fn config_tab_autoplace() {
    let mut c = ConfigTabState::new();
    assert_eq!(c.marker_autoplace, MarkerAutoPlaceSettings::DoNothing);
    c.sync_autoplace(MarkerAutoPlaceSettings::OpenWindow(SquadCondition::Never));
    assert_eq!(c.marker_autoplace_inner, Some(SquadCondition::Never));
    let e: Event = c.choose_condition(SquadCondition::Always);
    assert_eq!(c.marker_autoplace, MarkerAutoPlaceSettings::OpenWindow(SquadCondition::Always));
    assert!(matches!(e, ControllerEvent::MarkerAutoPlaceSettings(MarkerAutoPlaceSettings::OpenWindow(SquadCondition::Always))));
    c.sync_autoplace(MarkerAutoPlaceSettings::DoNothing);
    assert_eq!(c.marker_autoplace_inner, None);
    let _: Event = c.choose_condition(SquadCondition::Always);
    assert_eq!(c.marker_autoplace, MarkerAutoPlaceSettings::DoNothing);
}

#[test]
fn data_source_rows() {
    let mut tab = DataSourceTabState::new();
    assert!(matches!(tab.draw(None), DataSourceView::SettingsUnloaded));
    let mut installed = RemoteState::new("QuitarHero", "Hero-Timers");
    installed.installed_tag = Some("v1".to_string());
    installed.installed_path = Some("dir".to_string());
    installed.needs_update = NeedsUpdate::Known(true, "v2".to_string());
    let fresh = RemoteState::new("a", "b");
    let mut current = RemoteState::new("c", "d");
    current.needs_update = NeedsUpdate::Known(false, "v9".to_string());
    let remotes = vec![installed, fresh, current];
    match tab.draw(Some(&remotes)) {
        DataSourceView::Remotes(rows) => {
            assert_eq!(rows.len(), 3);
            assert_eq!(rows[0].source, "QuitarHero/Hero-Timers");
            assert_eq!(rows[0].status, "Newer version, v2 available!");
            assert_eq!(rows[0].update_button, Some(UpdateButton::Update));
            assert_eq!(rows[0].installed_path.as_deref(), Some("dir"));
            assert_eq!(rows[1].update_button, Some(UpdateButton::AttemptUpdate));
            assert_eq!(rows[1].status, "Unknown!");
            assert_eq!(rows[2].update_button, None);
        },
        _ => panic!("loaded settings show their remotes"),
    }
    tab.checking_for_updates = true;
    assert!(matches!(tab.draw(Some(&remotes)), DataSourceView::CheckingForUpdates));
    let view = tab.draw_uninstall::<Pos, f32>(&remotes[0]);
    assert_eq!(view.source, "QuitarHero/Hero-Timers");
    assert_eq!(view.path.as_deref(), Some("dir"));
    assert!(matches!(view.confirm, ControllerEvent::UninstallAddon(s) if s.repository == "Hero-Timers"));
}

fn listed(name: &str) -> MarkerSet<Pos> {
    MarkerSet {
        enabled: true,
        author: None,
        name: name.to_string(),
        description: String::new(),
        category: Some("Raids".to_string()),
        map_id: 1062,
        trigger: [0.0; 3],
        markers: vec![MarkerEntry { marker: MarkerType::Star, id: None, position: [1.0, 2.0, 3.0] }],
        path: None,
        idx: None,
    }
}

#[test]
fn marker_window_requests() {
    let mut w: MarkerWindowState<Pos> = MarkerWindowState::new();
    w.new_map_markers(vec![listed("VG"), listed("Gors")]);
    // Closed: no button can be pressed, nothing is asked.
    let events: Vec<Event> = w.draw(None, true, true, Some(0), false);
    assert!(events.is_empty());
    // Opened by the settings: the presses are passed on, then the state is recorded.
    let events: Vec<Event> = w.draw(Some(true), true, true, Some(1), false);
    assert_eq!(events.len(), 4);
    assert!(matches!(events[0], ControllerEvent::ClearMarkers));
    assert!(matches!(events[1], ControllerEvent::ClearSpentAutoplace));
    match &events[2] {
        ControllerEvent::SetMarker(s) => assert_eq!(s.name, "Gors"),
        e => panic!("unexpected {e:?}"),
    }
    match &events[3] {
        ControllerEvent::WindowState(name, state) => {
            assert_eq!(name, "markers");
            assert_eq!(*state, Some(true));
        },
        e => panic!("unexpected {e:?}"),
    }
    assert!(w.open);
    // A set that is not listed is not placed; closing records the state.
    let events: Vec<Event> = w.draw(None, false, false, Some(5), true);
    assert_eq!(events.len(), 1);
    assert!(matches!(&events[0], ControllerEvent::WindowState(n, Some(false)) if n == "markers"));
    assert!(!w.open);
}

#[test]
fn editor_save_flow() {
    let mut empty: EditMarkerWindowState<f32> = EditMarkerWindowState::new();
    // A closed editor takes no action.
    let r: EditWindowReply<f32, f32> = empty.act(EditWindowAction::Save("Save".to_string()));
    assert!(!r.open_popup && r.event.is_none());
    assert!(empty.problems.is_empty());
    empty.open = true;
    let r: EditWindowReply<f32, f32> = empty.act(EditWindowAction::Save("Save".to_string()));
    assert!(!r.open_popup && r.event.is_none());
    assert_eq!(empty.problems.len(), 5);
    assert_eq!(empty.formatted_name, "");

    let mut w = filled();
    w.open = true;
    assert_eq!(w.save_title_id(), "save-item");
    let r: EditWindowReply<f32, f32> = w.act(EditWindowAction::Save("Save VG".to_string()));
    assert!(r.open_popup && w.problems.is_empty());
    assert_eq!(w.formatted_name, "Save VG");
    let _: EditWindowReply<f32, f32> = w.act(EditWindowAction::PickSaveMode(MarkerSaveMode::Create));
    assert_eq!(w.save_mode, Some(MarkerSaveMode::Create));
    assert_eq!(w.path.as_deref(), Some(""));
    let r: EditWindowReply<f32, f32> = w.act(EditWindowAction::ConfirmSave);
    assert!(r.event.is_none() && !r.close_popup);
    assert_eq!(w.problems, vec![MarkerProblem::FilenameEmpty]);
    assert!(w.open);
    let _: EditWindowReply<f32, f32> = w.act(EditWindowAction::PickFiletype(MarkerFiletype::File));
    let _: EditWindowReply<f32, f32> = w.act(EditWindowAction::PickFile("new.markers".to_string()));
    let r: EditWindowReply<f32, f32> = w.act(EditWindowAction::ConfirmSave);
    assert!(r.close_popup);
    match r.event {
        Some(ControllerEvent::SaveMarker(MarkerSaveEvent::Create(set, path, ft))) => {
            assert_eq!(set.name, "VG");
            assert_eq!(path, "new.markers");
            assert_eq!(ft, MarkerFiletype::File);
        },
        e => panic!("unexpected {e:?}"),
    }
    assert!(!w.open);

    // Appending: picking the mode forgets the file; the list can be asked for again.
    let mut w = filled();
    w.open = true;
    let _: EditWindowReply<f32, f32> = w.act(EditWindowAction::PickSaveMode(MarkerSaveMode::Append));
    assert_eq!(w.path, None);
    let r: EditWindowReply<f32, f32> = w.act(EditWindowAction::RefreshFiles);
    assert!(matches!(r.event, Some(ControllerEvent::GetMarkerPaths)));
    let r: EditWindowReply<f32, f32> = w.act(EditWindowAction::CancelPopup);
    assert!(r.close_popup && w.open);
    let r: EditWindowReply<f32, f32> = w.act(EditWindowAction::ClosePopup);
    assert!(r.close_popup && !w.open);
}

#[test]
fn render_state_events() {
    let style = ProgressBarSettings::new(24.0f32);
    let mut rs: RenderState<&str, f32> = RenderState::new(style);
    rs.handle(RenderEvent::AlertFeed(0, "phase a"));
    rs.handle(RenderEvent::AlertFeed(1, "phase b"));
    rs.handle(RenderEvent::AlertFeed(0, "phase c"));
    rs.handle(RenderEvent::AlertReset(0));
    assert_eq!(rs.timer_window.phase_states, vec![(1, "phase b")]);
    rs.handle(RenderEvent::AlertStart(TextAlert { timer: 1, message: "Move!".to_string() }));
    rs.handle(RenderEvent::AlertEnd(0));
    assert_eq!(rs.alert.as_ref().map(|a| a.message.as_str()), Some("Move!"));
    rs.handle(RenderEvent::AlertEnd(1));
    assert!(rs.alert.is_none());
    rs.handle(RenderEvent::OpenableError("timers".to_string(), "cannot read".to_string()));
    assert_eq!(rs.state_errors.get("timers").map(|e| e.as_str()), Some("cannot read"));
    rs.handle(RenderEvent::CheckingForUpdates(true));
    assert!(rs.data_sources_tab.checking_for_updates);
    rs.handle(RenderEvent::ProgressBarUpdate(ProgressBarSettings::new(30.0f32)));
    assert_eq!(rs.timer_window.progress_bar.height, 30.0);
    rs.timer_window.reset_phases();
    assert!(rs.timer_window.phase_states.is_empty());
}

#[test]
fn timer_window_frames() {
    let mut w: TimerWindowState<u8, f32> = TimerWindowState::new(ProgressBarSettings::new(24.0f32));
    let none: Option<Event> = w.draw(None, false);
    assert!(none.is_none());
    match w.draw::<Pos, f32>(Some(true), false) {
        Some(ControllerEvent::WindowState(name, state)) => {
            assert_eq!(name, "timers");
            assert_eq!(state, Some(true));
        },
        e => panic!("unexpected {e:?}"),
    }
    assert!(w.open);
    assert!(matches!(w.draw::<Pos, f32>(None, true), Some(ControllerEvent::WindowState(_, Some(false)))));
    assert!(!w.open);
}

#[test]
fn reset_keeps_other_timers_phases() {
    let mut w: TimerWindowState<char, f32> = TimerWindowState::new(ProgressBarSettings::new(24.0f32));
    for (t, p) in [(2, 'a'), (5, 'b'), (2, 'c'), (7, 'd')] {
        w.new_phase(t, p);
    }
    w.remove_phase(2);
    assert_eq!(w.phase_states, vec![(5, 'b'), (7, 'd')]);
    w.remove_phase(9);
    assert_eq!(w.phase_states, vec![(5, 'b'), (7, 'd')]);
}

#[test]
fn config_tab_switches_and_styles() {
    let mut c = ConfigTabState::new();
    c.sync_katrender(true);
    assert!(c.katrender);
    let e: Event = c.toggle_katrender();
    assert!(!c.katrender);
    assert!(matches!(e, ControllerEvent::ToggleKatRender));
    let e: Event = c.choose_autoplace(MarkerAutoPlaceSettings::Place(SquadCondition::IfCommander));
    assert_eq!(c.marker_autoplace, MarkerAutoPlaceSettings::Place(SquadCondition::IfCommander));
    assert!(matches!(e, ControllerEvent::MarkerAutoPlaceSettings(MarkerAutoPlaceSettings::Place(SquadCondition::IfCommander))));

    let mut w: TimerWindowState<u8, f32> = TimerWindowState::new(ProgressBarSettings::new(24.0f32));
    w.sync_stock(true);
    assert!(w.progress_bar.stock);
    let e: Event = w.change_style(ProgressBarStyleChange::Height(40.0));
    assert_eq!(w.progress_bar.height, 40.0);
    assert!(matches!(e, ControllerEvent::ProgressBarStyle(ProgressBarStyleChange::Height(h)) if h == 40.0));
    let _: Event = w.change_style(ProgressBarStyleChange::Shadow(true));
    assert!(w.progress_bar.shadow);
    let font = w.progress_bar.font;
    let e: Event = w.change_style(ProgressBarStyleChange::Font(TextFont::Big));
    assert_eq!(w.progress_bar.font, font);
    assert!(matches!(e, ControllerEvent::ProgressBarStyle(ProgressBarStyleChange::Font(TextFont::Big))));
}

#[test]
fn data_source_buttons() {
    let mut tab = DataSourceTabState::new();
    let mut installed = RemoteState::new("QuitarHero", "Hero-Timers");
    installed.installed_path = Some("dir".to_string());
    installed.needs_update = NeedsUpdate::Known(true, "v2".to_string());
    let mut current = RemoteState::new("c", "d");
    current.needs_update = NeedsUpdate::Known(false, "v9".to_string());
    let remotes = vec![installed, current];
    let none: Option<Event> = tab.act(None, DataSourceAction::Reload);
    assert!(none.is_none());
    assert!(matches!(tab.act::<Pos, f32>(Some(&remotes), DataSourceAction::CheckForUpdates), Some(ControllerEvent::CheckDataSourceUpdates)));
    assert!(matches!(tab.act::<Pos, f32>(Some(&remotes), DataSourceAction::Reload), Some(ControllerEvent::ReloadData)));
    assert!(matches!(
        tab.act::<Pos, f32>(Some(&remotes), DataSourceAction::Update(0)),
        Some(ControllerEvent::DoDataSourceUpdate { source }) if source.owner == "QuitarHero"
    ));
    assert!(tab.act::<Pos, f32>(Some(&remotes), DataSourceAction::Update(1)).is_none());
    assert!(tab.act::<Pos, f32>(Some(&remotes), DataSourceAction::Update(5)).is_none());
    assert!(matches!(
        tab.act::<Pos, f32>(Some(&remotes), DataSourceAction::OpenFolder(0, "err".to_string())),
        Some(ControllerEvent::OpenOpenable(k, p)) if k == "err" && p == "dir"
    ));
    assert!(tab.act::<Pos, f32>(Some(&remotes), DataSourceAction::OpenFolder(1, "err".to_string())).is_none());
    assert!(matches!(
        tab.act::<Pos, f32>(Some(&remotes), DataSourceAction::OpenRepository(1, "e".to_string(), "url".to_string())),
        Some(ControllerEvent::OpenOpenable(_, u)) if u == "url"
    ));
    assert!(matches!(
        tab.act::<Pos, f32>(Some(&remotes), DataSourceAction::Uninstall(0)),
        Some(ControllerEvent::UninstallAddon(s)) if s.repository == "Hero-Timers"
    ));
    assert!(tab.act::<Pos, f32>(Some(&remotes), DataSourceAction::Uninstall(1)).is_none());
    tab.checking_for_updates = true;
    assert!(tab.act::<Pos, f32>(Some(&remotes), DataSourceAction::Reload).is_none());
}
