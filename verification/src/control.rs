use vstd::prelude::*;
use crate::autoplace::MarkerAutoplace;
use crate::controller::{
    AgentTracker, AutoplaceAction, CombatTracker, ControllerEvent, MumbleIdentity, SquadTracker,
    TimerScheduler, autoplace_decision, digit_value, next_agent, role_of, timer_key_index, with_id,
    without_id, map_indices, enabled_among, extras_map, rtapi_squad_after, StateChange,
};
use crate::marker::MarkerSet;
use crate::render::MarkerSaveEvent;
use crate::settings::{
    GitHubSource, MarkerAutoPlaceSettings, NeedsUpdate, ProgressBarSettings, RemoteState, Settings, TimerSettings,
    known_window, timer_disabled, window_after, apply_style_change, first_remote_for,
};
use crate::timer::TimerFile;
use crate::timer::CombatState;

verus! {

/// Outside work the controller's host performs after an event: I/O, the
/// game's input, the renderer.
#[derive(Debug)]
pub enum Task<P, H> {
    Nothing,
    /// Open a URI with the system's handler; the key names the button.
    OpenUri(String, String),
    /// Press the game's "clear markers" bind.
    ClearMarkers,
    PlaceMarkers(MarkerSet<P>),
    SaveMarker(MarkerSaveEvent<P>),
    DeleteMarker { path: String, category: Option<String>, idx: usize },
    ListMarkerPaths,
    /// Delete the folder a data source was installed into.
    RemoveInstall(String),
    /// Log an error that ends the handling of an event.
    Report(String),
    Update(GitHubSource),
    /// Hand the new progress bar style to the renderer.
    ProgressBar(ProgressBarSettings<H>),
    /// A timer key, by index, pressed or released.
    KeyTrigger(u32, bool),
    LoadTexture(String, String),
    LoadTextureBytes(String, Vec<u8>),
    CheckUpdates,
    ReloadTimers,
    ReloadMarkers,
    ReloadData,
    ResetTimers,
}

/// The controller's answer to an event: whether to go on, whether the
/// settings changed and are to be saved, the timers to stop and to start (as
/// indices into the scheduler's timers), the marker sets to show where the
/// map changed, the combat state the running timers learn, and a task.
pub struct Reaction<P, H> {
    pub keep_running: bool,
    pub save_settings: bool,
    pub stopped_timers: Vec<usize>,
    pub started_timers: Vec<usize>,
    pub shown_markers: Option<Vec<usize>>,
    pub combat: Option<CombatState>,
    pub task: Task<P, H>,
}

/// A reaction that asks for nothing but `task`.
pub open spec fn only_task<P, H>(r: Reaction<P, H>, task: Task<P, H>) -> bool {
    &&& r.keep_running
    &&& !r.save_settings
    &&& r.stopped_timers@.len() == 0
    &&& r.started_timers@.len() == 0
    &&& r.shown_markers is None
    &&& r.combat is None
    &&& r.task == task
}

/// A reaction to a change of the settings alone: they are saved.
pub open spec fn settings_saved<P, H>(r: Reaction<P, H>) -> bool {
    &&& r.keep_running
    &&& r.save_settings
    &&& r.stopped_timers@.len() == 0
    &&& r.started_timers@.len() == 0
    &&& r.shown_markers is None
    &&& r.combat is None
    &&& r.task == Task::<P, H>::Nothing
}

/// What each tick of MumbleLink leads to: the combat state the running
/// timers learn, and for each marker set that fired, what is done about it.
pub struct TickReaction {
    pub combat: Option<CombatState>,
    pub autoplace: Vec<(usize, AutoplaceAction)>,
}

/// The controller's state: the settings, what it knows of the squad, the
/// player's character and combat state, the timers, the loaded marker sets
/// and which of them fired, the autoplace setting in force, the player's
/// account name and the last identity the game published.
pub struct Controller<P, S, C, H, T> {
    pub settings: Settings<H, T>,
    pub squad: SquadTracker,
    pub agents: AgentTracker,
    pub combat: CombatTracker,
    pub timers: TimerScheduler<P, S, C>,
    pub marker_sets: Vec<MarkerSet<P>>,
    pub autoplace: MarkerAutoplace,
    pub marker_autoplace: Option<MarkerAutoPlaceSettings>,
    pub account_name: Option<String>,
    pub cached_identity: Option<MumbleIdentity>,
    pub player_position: Option<P>,
}

/// Whether an event can be handled: a window it names is one the settings
/// know, and a timer key it names ends in a digit.
pub open spec fn event_ok<P, H>(event: ControllerEvent<P, H>) -> bool {
    match event {
        ControllerEvent::WindowState(w, _) => known_window(w@),
        ControllerEvent::TimerKeyTrigger(id, _) => id@.len() > 0 && '0' <= id@.last() <= '9',
        _ => true,
    }
}

/// The trigger flags of `n` marker sets: set `i`'s is `triggered[i]`, and
/// `false` where `triggered` has none.
pub open spec fn flags_for(triggered: Seq<bool>, n: nat) -> Seq<bool> {
    Seq::new(n, |i: int| i < triggered.len() && triggered[i])
}

pub open spec fn opt_str_view(o: Option<String>) -> Option<Seq<char>> {
    match o {
        Some(s) => Some(s@),
        None => None,
    }
}

/// How the controller meets a published identity: where the map changed,
/// the new map's marker sets are shown and may fire again, the running
/// timers stop and the new map's enabled timers start; the identity is
/// remembered. Nothing else changes.
pub open spec fn mumble_handled<P, S, C, H, T>(
    pre: Controller<P, S, C, H, T>,
    post: Controller<P, S, C, H, T>,
    identity: MumbleIdentity,
    r: Reaction<P, H>,
) -> bool {
    let m = identity.map_id;
    &&& post == (Controller { timers: post.timers, autoplace: post.autoplace, cached_identity: post.cached_identity, ..pre })
    &&& post.cached_identity == Some(identity)
    &&& post.timers.timers@ == pre.timers.timers@
    &&& post.timers.map_id == Some(m)
    &&& post.autoplace.map_ids@ == pre.autoplace.map_ids@
    &&& post.autoplace.current_map == Some(m)
    &&& r.keep_running && !r.save_settings && r.combat is None && r.task == Task::<P, H>::Nothing
    &&& pre.timers.map_id == Some(m) ==> {
        &&& r.stopped_timers@.len() == 0
        &&& r.started_timers@.len() == 0
        &&& post.timers.current_timers@ == pre.timers.current_timers@
    }
    &&& pre.timers.map_id != Some(m) ==> {
        &&& r.stopped_timers@ == pre.timers.current_timers@
        &&& r.started_timers@ == enabled_among(
            pre.timers.timers@,
            pre.settings.timers@,
            map_indices(pre.timers.timers@, m, pre.timers.loaded as int),
        )
        &&& post.timers.current_timers@ == r.started_timers@
    }
    &&& pre.autoplace.current_map == Some(m) ==> r.shown_markers is None && post.autoplace.spent@ == pre.autoplace.spent@
    &&& pre.autoplace.current_map != Some(m) ==> {
        &&& r.shown_markers matches Some(v) && v@ == crate::autoplace::sets_on_map(
            pre.autoplace.map_ids@,
            m,
            pre.autoplace.map_ids@.len() as int,
        )
        &&& forall|i: int| 0 <= i < post.autoplace.spent@.len() ==> !(#[trigger] post.autoplace.spent@[i])
    }
}

/// How the controller meets a change of timer `id`'s settings: `disabled` is
/// its disabled state afterwards. A timer disabled has its running instances
/// stopped; one enabled has its instances on the current map started.
pub open spec fn timer_switched<P, S, C, H, T>(
    pre: Controller<P, S, C, H, T>,
    post: Controller<P, S, C, H, T>,
    id: Seq<char>,
    disabled: bool,
    keep_listed: bool,
    r: Reaction<P, H>,
) -> bool {
    &&& post == (Controller { settings: post.settings, timers: post.timers, ..pre })
    &&& post.settings == (Settings { timers: post.settings.timers, ..pre.settings })
    &&& timer_disabled(post.settings.timers@, id) == disabled
    &&& post.timers.timers@ == pre.timers.timers@
    &&& post.timers.map_id == pre.timers.map_id
    &&& r.keep_running && r.save_settings && r.shown_markers is None && r.combat is None
    &&& r.task == Task::<P, H>::Nothing
    &&& disabled ==> {
        &&& r.started_timers@.len() == 0
        &&& r.stopped_timers@ == with_id(pre.timers.timers@, pre.timers.current_timers@, id)
        &&& post.timers.current_timers@ == (if keep_listed {
            pre.timers.current_timers@
        } else {
            without_id(pre.timers.timers@, pre.timers.current_timers@, id)
        })
    }
    &&& !disabled ==> {
        &&& r.stopped_timers@.len() == 0
        &&& r.started_timers@ == (match pre.timers.map_id {
            Some(m) => with_id(pre.timers.timers@, map_indices(pre.timers.timers@, m, pre.timers.loaded as int), id),
            None => Seq::<usize>::empty(),
        })
        &&& post.timers.current_timers@ == pre.timers.current_timers@ + r.started_timers@
    }
}

/// How the controller meets a request to uninstall `source`: the remote
/// forgets what was installed, the settings are saved and the folder, where
/// there was one, is to be deleted; an unknown source is reported.
pub open spec fn uninstall_handled<P, S, C, H, T>(
    pre: Controller<P, S, C, H, T>,
    post: Controller<P, S, C, H, T>,
    source: GitHubSource,
    r: Reaction<P, H>,
) -> bool {
match first_remote_for(pre.settings.remotes@, source) {
            Some(i) => {
                let remote = pre.settings.remotes@[i];
                &&& post == (Controller { settings: post.settings, ..pre })
                &&& post.settings == (Settings {
                    remotes: post.settings.remotes,
                    ..pre.settings
                })
                &&& post.settings.remotes@ == pre.settings.remotes@.update(
                    i,
                    RemoteState {
                        installed_tag: None,
                        installed_path: None,
                        needs_update: NeedsUpdate::Unknown,
                        ..remote
                    },
                )
                &&& r.keep_running && r.save_settings && r.shown_markers is None && r.combat is None
                &&& r.stopped_timers@.len() == 0 && r.started_timers@.len() == 0
                &&& r.task == (match remote.installed_path {
                    Some(p) => Task::<P, H>::RemoveInstall(p),
                    None => Task::<P, H>::Nothing,
                })
            },
            None => {
                &&& post == pre
                &&& r.keep_running && !r.save_settings && r.shown_markers is None && r.combat is None
                &&& r.stopped_timers@.len() == 0 && r.started_timers@.len() == 0
                &&& r.task matches Task::Report(e) && e@ == "GitHub repository \""@ + source.owner@ + "/"@
                    + source.repository@ + "\" not found."@
            },
        }
}

/// How the controller meets every event.
pub open spec fn event_handled<P, S, C, H, T>(
    pre: Controller<P, S, C, H, T>,
    post: Controller<P, S, C, H, T>,
    event: ControllerEvent<P, H>,
    r: Reaction<P, H>,
) -> bool {
    match event {
        ControllerEvent::ClearSpentAutoplace => {
            &&& only_task(r, Task::Nothing)
            &&& post == (Controller { autoplace: post.autoplace, ..pre })
            &&& post.autoplace.map_ids@ == pre.autoplace.map_ids@
            &&& post.autoplace.current_map == pre.autoplace.current_map
            &&& forall|i: int| 0 <= i < post.autoplace.spent@.len() ==> !(#[trigger] post.autoplace.spent@[i])
        },
        ControllerEvent::ExtrasSquadUpdate(data) => {
            &&& only_task(r, Task::Nothing)
            &&& post == (Controller { squad: post.squad, ..pre })
            &&& post.squad.extras_squad@ == extras_map(data@)
            &&& post.squad.rtapi_squad@ == pre.squad.rtapi_squad@
        },
        ControllerEvent::RTAPISquadUpdate(change, member) => {
            &&& only_task(r, Task::Nothing)
            &&& post == (Controller { squad: post.squad, ..pre })
            &&& post.squad.extras_squad@ == pre.squad.extras_squad@
            &&& post.squad.rtapi_squad@ == rtapi_squad_after(
                pre.squad.rtapi_squad@,
                change,
                member,
                opt_str_view(pre.account_name),
            )
        },
        ControllerEvent::OpenOpenable(key, uri) => post == pre && only_task(r, Task::OpenUri(key, uri)),
        ControllerEvent::ClearMarkers => post == pre && only_task(r, Task::ClearMarkers),
        ControllerEvent::MarkerAutoPlaceSettings(setting) => {
            &&& settings_saved(r)
            &&& post == (Controller { settings: post.settings, marker_autoplace: Some(setting), ..pre })
            &&& post.settings == (Settings { marker_autoplace: setting, ..pre.settings })
        },
        ControllerEvent::SetMarker(set) => post == pre && only_task(r, Task::PlaceMarkers(set)),
        ControllerEvent::SaveMarker(e) => post == pre && only_task(r, Task::SaveMarker(e)),
        ControllerEvent::DeleteMarker { path, category, idx } => post == pre && only_task(
            r,
            Task::DeleteMarker { path, category, idx },
        ),
        ControllerEvent::GetMarkerPaths => post == pre && only_task(r, Task::ListMarkerPaths),
        ControllerEvent::UninstallAddon(source) => uninstall_handled(pre, post, source, r),
        ControllerEvent::ToggleKatRender => {
            &&& settings_saved(r)
            &&& post == (Controller { settings: post.settings, ..pre })
            &&& post.settings == (Settings { enable_katrender: !pre.settings.enable_katrender, ..pre.settings })
        },
        ControllerEvent::DoDataSourceUpdate { source } => post == pre && only_task(r, Task::Update(source)),
        ControllerEvent::ProgressBarStyle(style) => {
            let bar = apply_style_change(pre.settings.progress_bar, style);
            &&& r.keep_running && r.save_settings && r.shown_markers is None && r.combat is None
            &&& r.stopped_timers@.len() == 0 && r.started_timers@.len() == 0
            &&& r.task == Task::<P, H>::ProgressBar(bar)
            &&& post == (Controller { settings: post.settings, ..pre })
            &&& post.settings == (Settings { progress_bar: bar, ..pre.settings })
        },
        ControllerEvent::WindowState(window, state) => {
            let w = window@;
            &&& settings_saved(r)
            &&& post == (Controller { settings: post.settings, ..pre })
            &&& post.settings == (Settings {
                primary_window_open: if w == "primary"@ {
                    window_after(pre.settings.primary_window_open, state)
                } else {
                    pre.settings.primary_window_open
                },
                timers_window_open: if w == "timers"@ {
                    window_after(pre.settings.timers_window_open, state)
                } else {
                    pre.settings.timers_window_open
                },
                markers_window_open: if w == "markers"@ {
                    window_after(pre.settings.markers_window_open, state)
                } else {
                    pre.settings.markers_window_open
                },
                pathing_window_open: if w == "pathing"@ {
                    window_after(pre.settings.pathing_window_open, state)
                } else {
                    pre.settings.pathing_window_open
                },
                ..pre.settings
            })
        },
        ControllerEvent::TimerKeyTrigger(id, released) => post == pre && only_task(
            r,
            Task::KeyTrigger(digit_value(id@.last()), released),
        ),
        ControllerEvent::LoadTextureIntegrated(identifier, data) => post == pre && only_task(
            r,
            Task::LoadTextureBytes(identifier, data),
        ),
        ControllerEvent::LoadTexture(rel, base) => post == pre && only_task(r, Task::LoadTexture(rel, base)),
        ControllerEvent::CheckDataSourceUpdates => post == pre && only_task(r, Task::CheckUpdates),
        ControllerEvent::ReloadTimers => post == pre && only_task(r, Task::ReloadTimers),
        ControllerEvent::ReloadMarkers => post == pre && only_task(r, Task::ReloadMarkers),
        ControllerEvent::ReloadData => post == pre && only_task(r, Task::ReloadData),
        ControllerEvent::MarkerToggle(id) => {
            let now = !timer_disabled(pre.settings.markers@, id@);
            &&& settings_saved(r)
            &&& post == (Controller { settings: post.settings, ..pre })
            &&& post.settings == (Settings { markers: post.settings.markers, ..pre.settings })
            &&& post.settings.markers@ == (if now {
                pre.settings.markers@.insert(id@, TimerSettings { disabled: true })
            } else {
                pre.settings.markers@.remove(id@)
            })
        },
        ControllerEvent::MarkerEnable(id) => {
            &&& settings_saved(r)
            &&& post == (Controller { settings: post.settings, ..pre })
            &&& post.settings == (Settings { markers: post.settings.markers, ..pre.settings })
            &&& post.settings.markers@ == pre.settings.markers@.insert(id@, TimerSettings { disabled: false })
        },
        ControllerEvent::MarkerDisable(id) => {
            &&& settings_saved(r)
            &&& post == (Controller { settings: post.settings, ..pre })
            &&& post.settings == (Settings { markers: post.settings.markers, ..pre.settings })
            &&& post.settings.markers@ == pre.settings.markers@.insert(id@, TimerSettings { disabled: true })
        },
        ControllerEvent::TimerEnable(id) => {
            &&& timer_switched(pre, post, id@, false, false, r)
            &&& post.settings.timers@ == pre.settings.timers@.insert(id@, TimerSettings { disabled: false })
        },
        ControllerEvent::TimerDisable(id) => {
            &&& timer_switched(pre, post, id@, true, false, r)
            &&& post.settings.timers@ == pre.settings.timers@.insert(id@, TimerSettings { disabled: true })
        },
        ControllerEvent::TimerToggle(id) => {
            let now = !timer_disabled(pre.settings.timers@, id@);
            &&& timer_switched(pre, post, id@, now, true, r)
            &&& post.settings.timers@ == (if now {
                pre.settings.timers@.insert(id@, TimerSettings { disabled: true })
            } else {
                pre.settings.timers@.remove(id@)
            })
        },
        ControllerEvent::TimerReset => post == pre && only_task(r, Task::ResetTimers),
        ControllerEvent::MumbleIdentityUpdated(identity) => mumble_handled(pre, post, identity, r),
        ControllerEvent::CombatEvent { src, change } => {
            &&& post == (Controller { agents: post.agents, ..pre })
            &&& post.agents.agent == next_agent(pre.agents.agent, src)
            &&& r.keep_running && !r.save_settings && r.shown_markers is None
            &&& r.stopped_timers@.len() == 0 && r.started_timers@.len() == 0
            &&& r.task == Task::<P, H>::Nothing
            &&& r.combat == (match change {
                StateChange::EnterCombat => Some(CombatState::Entered),
                StateChange::ExitCombat => Some(CombatState::Exited),
                _ => None,
            })
        },
        ControllerEvent::Quit => {
            &&& post == pre
            &&& !r.keep_running
            &&& !r.save_settings
            &&& r.stopped_timers@.len() == 0 && r.started_timers@.len() == 0
            &&& r.shown_markers is None && r.combat is None
            &&& r.task == Task::<P, H>::Nothing
        },
    }
}

impl<P, S, C, H: Copy, T> Controller<P, S, C, H, T> {
    /// The controller's invariant: the scheduler's and the autoplace
    /// tracker's, and one autoplace entry, with the set's map, for each
    /// loaded marker set.
    pub open spec fn wf(&self) -> bool {
        &&& self.timers.wf()
        &&& self.autoplace.wf()
        &&& self.timers.map_id == self.autoplace.current_map
        &&& self.autoplace.map_ids@.len() == self.marker_sets@.len()
        &&& forall|i: int| 0 <= i < self.marker_sets@.len() ==> #[trigger] self.autoplace.map_ids@[i] == self.marker_sets@[i].map_id
    }

    /// A controller over `settings`, the loaded timers and marker sets, for
    /// the player's account `account_name`: no squad, no character, out of
    /// combat, on no map, no marker set fired; the autoplace setting is the
    /// one the settings hold.
    pub fn new(
        settings: Settings<H, T>,
        timers: TimerScheduler<P, S, C>,
        marker_sets: Vec<MarkerSet<P>>,
        account_name: Option<String>,
    ) -> (r: Self)
        requires
            timers.wf(),
            timers.map_id is None,
        ensures
            r.wf(),
            r.settings == settings,
            r.timers == timers,
            r.marker_sets@ == marker_sets@,
            r.squad.rtapi_squad@.len() == 0 && r.squad.extras_squad@.len() == 0,
            r.agents.agent is None,
            !r.combat.previous_combat_state,
            r.autoplace.current_map is None,
            forall|i: int| 0 <= i < r.autoplace.spent@.len() ==> !(#[trigger] r.autoplace.spent@[i]),
            r.marker_autoplace == Some(settings.marker_autoplace),
            r.account_name == account_name,
            r.cached_identity is None,
            r.player_position is None,
    {
        let map_ids = Self::map_ids_of(&marker_sets);
        let autoplace = MarkerAutoplace::new(map_ids);
        let marker_autoplace = Some(settings.marker_autoplace);
        Controller {
            settings,
            squad: SquadTracker::new(),
            agents: AgentTracker { agent: None },
            combat: CombatTracker::new(),
            timers,
            marker_sets,
            autoplace,
            marker_autoplace,
            account_name,
            cached_identity: None,
            player_position: None,
        }
    }

    fn map_ids_of(marker_sets: &Vec<MarkerSet<P>>) -> (r: Vec<u32>)
        ensures
            r@.len() == marker_sets@.len(),
            forall|j: int| 0 <= j < r@.len() ==> #[trigger] r@[j] == marker_sets@[j].map_id,
    {
        let mut map_ids: Vec<u32> = Vec::new();
        let n = marker_sets.len();
        let mut i: usize = 0;
        while i < n
            invariant
                n == marker_sets@.len(),
                i <= n,
                map_ids@.len() == i,
                forall|j: int| 0 <= j < i ==> #[trigger] map_ids@[j] == marker_sets@[j].map_id,
            decreases n - i,
        {
            map_ids.push(marker_sets[i].map_id);
            i = i + 1;
        }
        map_ids
    }

    /// Takes freshly loaded timers. The player stays on the same map, none of
    /// the new timers runs yet, and the timers that run keep running, kept
    /// after the new ones, until they stop as any running timer does.
    pub fn reload_timers(&mut self, timers: Vec<TimerFile<P, S, C>>)
        requires
            old(self).wf(),
        ensures
            final(self).wf(),
            *final(self) == (Controller { timers: final(self).timers, ..*old(self) }),
            final(self).timers.loaded == timers@.len(),
            final(self).timers.timers@ == (if old(self).timers.current_timers@.len() == 0 {
                timers@
            } else {
                timers@ + old(self).timers.timers@
            }),
            final(self).timers.map_id == old(self).timers.map_id,
            final(self).timers.current_timers@ == old(self).timers.current_timers@.map_values(
                |t: usize| (t + timers@.len()) as usize,
            ),
    {
        self.timers.reload(timers)
    }

    /// Takes freshly loaded marker sets: none of them has fired yet, and the
    /// player stays on the same map.
    pub fn reload_markers(&mut self, marker_sets: Vec<MarkerSet<P>>)
        requires
            old(self).wf(),
        ensures
            final(self).wf(),
            *final(self) == (Controller {
                marker_sets: final(self).marker_sets,
                autoplace: final(self).autoplace,
                ..*old(self)
            }),
            final(self).marker_sets@ == marker_sets@,
            final(self).autoplace.current_map == old(self).autoplace.current_map,
            forall|i: int| 0 <= i < final(self).autoplace.spent@.len() ==> !(#[trigger] final(self).autoplace.spent@[i]),
    {
        let map_ids = Self::map_ids_of(&marker_sets);
        self.autoplace.reload(map_ids);
        self.marker_sets = marker_sets;
    }

    fn quiet(task: Task<P, H>) -> (r: Reaction<P, H>)
        ensures
            only_task(r, task),
    {
        Reaction {
            keep_running: true,
            save_settings: false,
            stopped_timers: Vec::new(),
            started_timers: Vec::new(),
            shown_markers: None,
            combat: None,
            task,
        }
    }

    fn saved() -> (r: Reaction<P, H>)
        ensures
            settings_saved(r),
    {
        Reaction {
            keep_running: true,
            save_settings: true,
            stopped_timers: Vec::new(),
            started_timers: Vec::new(),
            shown_markers: None,
            combat: None,
            task: Task::Nothing,
        }
    }

    /// The player's role, with `rtapi_player` the account the real-time API
    /// reports for the player.
    pub fn get_role(&self, rtapi_player: Option<&str>) -> (r: Option<crate::controller::SquadRoleState>)
        ensures
            r == role_of(
                self.squad.rtapi_squad@,
                self.squad.extras_squad@,
                match rtapi_player {
                    Some(p) => Some(p@),
                    None => None,
                },
                opt_str_view(self.account_name),
                self.cached_identity matches Some(id) && id.is_commander,
            ),
    {
        let is_commander = match &self.cached_identity {
            Some(id) => id.is_commander,
            None => false,
        };
        let account = match &self.account_name {
            Some(a) => Some(a.as_str()),
            None => None,
        };
        self.squad.get_role(rtapi_player, account, is_commander)
    }

    /// The player arrives with identity `identity`. Where the map changed, the
    /// new map's marker sets are shown and may fire again, the running timers
    /// stop and the new map's enabled timers start.
    pub fn handle_mumble(&mut self, identity: MumbleIdentity) -> (r: Reaction<P, H>)
        requires
            old(self).wf(),
        ensures
            final(self).wf(),
            mumble_handled(*old(self), *final(self), identity, r),
    {
        let m = identity.map_id;
        let shown = self.autoplace.enter_map(m);
        let (stopped, started) = match self.timers.handle_map(m, &self.settings.timers) {
            Some(stopped) => {
                let started = self.timers.current_timers.clone();
                proof {
                    assert(started@ =~= self.timers.current_timers@);
                }
                (stopped, started)
            },
            None => (Vec::new(), Vec::new()),
        };
        self.cached_identity = Some(identity);
        Reaction {
            keep_running: true,
            save_settings: false,
            stopped_timers: stopped,
            started_timers: started,
            shown_markers: shown,
            combat: None,
            task: Task::Nothing,
        }
    }

    /// `triggered` cut or padded with `false` to `n` flags.
    fn pad_flags(triggered: &Vec<bool>, n: usize) -> (r: Vec<bool>)
        ensures
            r@ == flags_for(triggered@, n as nat),
    {
        let mut r: Vec<bool> = Vec::new();
        let mut i: usize = 0;
        while i < n
            invariant
                i <= n,
                r@ == flags_for(triggered@, i as nat),
            decreases n - i,
        {
            let f = i < triggered.len() && triggered[i];
            r.push(f);
            proof {
                assert(r@ =~= flags_for(triggered@, (i + 1) as nat));
            }
            i = i + 1;
        }
        r
    }

    /// One tick of MumbleLink: `in_combat` is the game's combat flag,
    /// `position` the player's, which is kept, `triggered[i]` whether the
    /// player stands in marker set `i`'s trigger (a set without a flag does
    /// not fire), `rtapi_player` the account the real-time API reports. A change of the
    /// combat flag is passed to the timers; each marker set that fires gets
    /// the autoplace decision for its enabled flag and the player's role.
    pub fn mumble_tick(&mut self, in_combat: bool, position: P, triggered: &Vec<bool>, rtapi_player: Option<&str>) -> (r:
        TickReaction)
        requires
            old(self).wf(),
        ensures
            final(self).wf(),
            final(self).settings == old(self).settings,
            final(self).timers == old(self).timers,
            final(self).marker_sets == old(self).marker_sets,
            final(self).combat.previous_combat_state == in_combat,
            final(self).player_position == Some(position),
            r.combat == crate::controller::combat_report(old(self).combat.previous_combat_state, in_combat),
            final(self).autoplace.current_map == old(self).autoplace.current_map,
            match old(self).autoplace.current_map {
                None => r.autoplace@.len() == 0 && final(self).autoplace.spent@ == old(self).autoplace.spent@,
                Some(m) => {
                    let fired = crate::autoplace::firing(
                        old(self).autoplace.map_ids@,
                        old(self).autoplace.spent@,
                        flags_for(triggered@, old(self).marker_sets@.len()),
                        m,
                        old(self).autoplace.map_ids@.len() as int,
                    );
                    &&& final(self).autoplace.spent@ == crate::autoplace::spent_after(
                        old(self).autoplace.map_ids@,
                        old(self).autoplace.spent@,
                        flags_for(triggered@, old(self).marker_sets@.len()),
                        m,
                    )
                    &&& r.autoplace@.len() == fired.len()
                    &&& forall|k: int| 0 <= k < fired.len() ==> (#[trigger] r.autoplace@[k]).0 == fired[k]
                        && r.autoplace@[k].1 == autoplace_decision(
                            old(self).marker_autoplace,
                            old(self).marker_sets@[fired[k] as int].enabled,
                            role_of(
                                old(self).squad.rtapi_squad@,
                                old(self).squad.extras_squad@,
                                match rtapi_player {
                                    Some(p) => Some(p@),
                                    None => None,
                                },
                                opt_str_view(old(self).account_name),
                                old(self).cached_identity matches Some(id) && id.is_commander,
                            ),
                        )
                },
            },
    {
        // The length of a Vec fits in usize; asking for it records that.
        let _sets = self.autoplace.map_ids.len();
        let combat = self.combat.mumble_combat_update(in_combat);
        let flags = Self::pad_flags(triggered, self.marker_sets.len());
        let fired = self.autoplace.tick(&flags);
        let role = self.get_role(rtapi_player);
        let mut decisions: Vec<(usize, AutoplaceAction)> = Vec::new();
        proof {
            if let Some(m) = old(self).autoplace.current_map {
                crate::autoplace::lemma_firing_members(
                    old(self).autoplace.map_ids@,
                    old(self).autoplace.spent@,
                    flags_for(triggered@, old(self).marker_sets@.len()),
                    m,
                    old(self).autoplace.map_ids@.len() as int,
                );
            }
        }
        let n = fired.len();
        let mut k: usize = 0;
        while k < n
            invariant
                n == fired@.len(),
                k <= n,
                self.wf(),
                self.marker_sets@ == old(self).marker_sets@,
                forall|j: int| 0 <= j < n ==> #[trigger] fired@[j] < self.marker_sets@.len(),
                decisions@.len() == k,
                forall|j: int| 0 <= j < k ==> (#[trigger] decisions@[j]).0 == fired@[j]
                    && decisions@[j].1 == autoplace_decision(
                        self.marker_autoplace,
                        self.marker_sets@[fired@[j] as int].enabled,
                        role,
                    ),
            decreases n - k,
        {
            let i = fired[k];
            let d = crate::controller::handle_marker_autoplace(
                self.marker_autoplace,
                self.marker_sets[i].enabled,
                role,
            );
            decisions.push((i, d));
            k = k + 1;
        }
        self.player_position = Some(position);
        TickReaction { combat, autoplace: decisions }
    }

    /// The controller's decision on one event: the new state and what the
    /// host is to do, as `event_handled` states for each kind of event.
    pub fn handle_event(&mut self, event: ControllerEvent<P, H>) -> (r: Reaction<P, H>)
        requires
            old(self).wf(),
            event_ok(event),
        ensures
            final(self).wf(),
            event_handled(*old(self), *final(self), event, r),
    {
        match event {
            ControllerEvent::ClearSpentAutoplace => {
                self.autoplace.clear_spent();
                Self::quiet(Task::Nothing)
            },
            ControllerEvent::ExtrasSquadUpdate(data) => {
                self.squad.extras_squad_update(data);
                Self::quiet(Task::Nothing)
            },
            ControllerEvent::RTAPISquadUpdate(change, member) => {
                let own = match &self.account_name {
                    Some(a) => Some(a.as_str()),
                    None => None,
                };
                self.squad.rtapi_squad_update(change, member, own);
                Self::quiet(Task::Nothing)
            },
            ControllerEvent::OpenOpenable(key, uri) => Self::quiet(Task::OpenUri(key, uri)),
            ControllerEvent::ClearMarkers => Self::quiet(Task::ClearMarkers),
            ControllerEvent::MarkerAutoPlaceSettings(setting) => {
                self.settings.set_marker_autoplace_settings(setting);
                self.marker_autoplace = Some(setting);
                Self::saved()
            },
            ControllerEvent::SetMarker(set) => Self::quiet(Task::PlaceMarkers(set)),
            ControllerEvent::SaveMarker(e) => Self::quiet(Task::SaveMarker(e)),
            ControllerEvent::DeleteMarker { path, category, idx } => Self::quiet(
                Task::DeleteMarker { path, category, idx },
            ),
            ControllerEvent::GetMarkerPaths => Self::quiet(Task::ListMarkerPaths),
            ControllerEvent::UninstallAddon(source) => self.uninstall_addon(source),
            ControllerEvent::ToggleKatRender => {
                self.settings.toggle_katrender();
                Self::saved()
            },
            ControllerEvent::DoDataSourceUpdate { source } => Self::quiet(Task::Update(source)),
            ControllerEvent::ProgressBarStyle(style) => {
                let bar = self.settings.set_progress_bar(style);
                let mut r = Self::saved();
                r.task = Task::ProgressBar(bar);
                r
            },
            ControllerEvent::WindowState(window, state) => {
                self.settings.set_window_state(window.as_str(), state);
                Self::saved()
            },
            ControllerEvent::TimerKeyTrigger(id, released) => {
                let idx = timer_key_index(id.as_str());
                Self::quiet(Task::KeyTrigger(idx, released))
            },
            ControllerEvent::LoadTextureIntegrated(identifier, data) => Self::quiet(
                Task::LoadTextureBytes(identifier, data),
            ),
            ControllerEvent::LoadTexture(rel, base) => Self::quiet(Task::LoadTexture(rel, base)),
            ControllerEvent::CheckDataSourceUpdates => Self::quiet(Task::CheckUpdates),
            ControllerEvent::ReloadTimers => Self::quiet(Task::ReloadTimers),
            ControllerEvent::ReloadMarkers => Self::quiet(Task::ReloadMarkers),
            ControllerEvent::ReloadData => Self::quiet(Task::ReloadData),
            ControllerEvent::MarkerToggle(id) => {
                self.settings.toggle_marker(id);
                Self::saved()
            },
            ControllerEvent::MarkerEnable(id) => {
                self.settings.enable_marker(id);
                Self::saved()
            },
            ControllerEvent::MarkerDisable(id) => {
                self.settings.disable_marker(id);
                Self::saved()
            },
            ControllerEvent::TimerEnable(id) => self.enable_timer(id),
            ControllerEvent::TimerDisable(id) => self.disable_timer(id),
            ControllerEvent::TimerToggle(id) => self.toggle_timer(id),
            ControllerEvent::TimerReset => Self::quiet(Task::ResetTimers),
            ControllerEvent::MumbleIdentityUpdated(identity) => self.handle_mumble(identity),
            ControllerEvent::CombatEvent { src, change } => {
                let combat = self.agents.handle_combat_event(src, change);
                let mut r = Self::quiet(Task::Nothing);
                r.combat = combat;
                r
            },
            ControllerEvent::Quit => {
                let mut r = Self::quiet(Task::Nothing);
                r.keep_running = false;
                r
            },
        }
    }

    /// Forgets what is installed from `source`, as `uninstall_handled` states.
    pub fn uninstall_addon(&mut self, source: GitHubSource) -> (r: Reaction<P, H>)
        requires
            old(self).wf(),
        ensures
            final(self).wf(),
            uninstall_handled(*old(self), *final(self), source, r),
    {
        match self.settings.uninstall_remote(&source) {
            Ok(Some(path)) => {
                let mut r = Self::saved();
                r.task = Task::RemoveInstall(path);
                r
            },
            Ok(None) => Self::saved(),
            Err(e) => Self::quiet(Task::Report(e)),
        }
    }

    /// Enables timer `id` and starts its instances on the current map.
    pub fn enable_timer(&mut self, id: String) -> (r: Reaction<P, H>)
        requires
            old(self).wf(),
        ensures
            final(self).wf(),
            timer_switched(*old(self), *final(self), id@, false, false, r),
            final(self).settings.timers@ == old(self).settings.timers@.insert(id@, TimerSettings { disabled: false }),
    {
        let started = self.timers.enable_timer(id.as_str());
        self.settings.enable_timer(id);
        Reaction {
            keep_running: true,
            save_settings: true,
            stopped_timers: Vec::new(),
            started_timers: started,
            shown_markers: None,
            combat: None,
            task: Task::Nothing,
        }
    }

    /// Disables timer `id` and stops its running instances.
    pub fn disable_timer(&mut self, id: String) -> (r: Reaction<P, H>)
        requires
            old(self).wf(),
        ensures
            final(self).wf(),
            timer_switched(*old(self), *final(self), id@, true, false, r),
            final(self).settings.timers@ == old(self).settings.timers@.insert(id@, TimerSettings { disabled: true }),
    {
        let stopped = self.timers.disable_timer(id.as_str());
        self.settings.disable_timer(id);
        Reaction {
            keep_running: true,
            save_settings: true,
            stopped_timers: stopped,
            started_timers: Vec::new(),
            shown_markers: None,
            combat: None,
            task: Task::Nothing,
        }
    }

    /// Flips timer `id` between enabled and disabled: a timer now disabled
    /// has its running instances stopped (they stay listed until the map
    /// changes), one now enabled has its instances on the current map
    /// started.
    pub fn toggle_timer(&mut self, id: String) -> (r: Reaction<P, H>)
        requires
            old(self).wf(),
        ensures
            final(self).wf(),
            timer_switched(*old(self), *final(self), id@, !timer_disabled(old(self).settings.timers@, id@), true, r),
            final(self).settings.timers@ == (if !timer_disabled(old(self).settings.timers@, id@) {
                old(self).settings.timers@.insert(id@, TimerSettings { disabled: true })
            } else {
                old(self).settings.timers@.remove(id@)
            }),
    {
        let key = id.clone();
        let disabled = self.settings.toggle_timer(id);
        assert(key@ == id@);
        let changed = self.timers.toggle_timer(key.as_str(), disabled);
        if disabled {
            Reaction {
                keep_running: true,
                save_settings: true,
                stopped_timers: changed,
                started_timers: Vec::new(),
                shown_markers: None,
                combat: None,
                task: Task::Nothing,
            }
        } else {
            Reaction {
                keep_running: true,
                save_settings: true,
                stopped_timers: Vec::new(),
                started_timers: changed,
                shown_markers: None,
                combat: None,
                task: Task::Nothing,
            }
        }
    }
}

/// Disabled timers stay off across map changes: where the player arrives on
/// a new map, every timer the controller starts is one the settings do not
/// disable, and every enabled timer of that map is started.
pub proof fn lemma_map_change_starts_enabled<P, S, C, H, T>(
    pre: Controller<P, S, C, H, T>,
    post: Controller<P, S, C, H, T>,
    identity: MumbleIdentity,
    r: Reaction<P, H>,
)
    requires
        mumble_handled(pre, post, identity, r),
        pre.timers.map_id != Some(identity.map_id),
    ensures
        forall|j: int|
            0 <= j < r.started_timers@.len() ==> !timer_disabled(
                pre.settings.timers@,
                pre.timers.timers@[(#[trigger] r.started_timers@[j]) as int].id@,
            ),
        forall|k: int|
            0 <= k < map_indices(pre.timers.timers@, identity.map_id, pre.timers.loaded as int).len()
                && !timer_disabled(
                pre.settings.timers@,
                pre.timers.timers@[map_indices(pre.timers.timers@, identity.map_id, pre.timers.loaded as int)[k] as int].id@,
            ) ==> r.started_timers@.contains(
                #[trigger] map_indices(pre.timers.timers@, identity.map_id, pre.timers.loaded as int)[k],
            ),
{
    crate::controller::lemma_enabled_among(
        pre.timers.timers@,
        pre.settings.timers@,
        map_indices(pre.timers.timers@, identity.map_id, pre.timers.loaded as int),
    );
}

} // verus!
