use vstd::prelude::*;
use vstd::std_specs::hash::group_hash_axioms;
use std::collections::HashMap;
use crate::keyed::{KeyedList, str_eq};
use crate::settings::{GitHubSource, MarkerAutoPlaceSettings, ProgressBarStyleChange, SquadCondition, TimerSettings, timer_disabled};
use crate::marker::MarkerSet;
use crate::render::MarkerSaveEvent;
use crate::timer::{CombatState, TimerFile};

verus! {

broadcast use group_hash_axioms;

/// A request to the controller thread. `P` is a map position and `H` a
/// progress bar height.
#[derive(Debug)]
pub enum ControllerEvent<P, H> {
    ClearSpentAutoplace,
    ExtrasSquadUpdate(Vec<UserInfo>),
    RTAPISquadUpdate(SquadState, GroupMember),
    OpenOpenable(String, String),
    ClearMarkers,
    MarkerAutoPlaceSettings(MarkerAutoPlaceSettings),
    SetMarker(MarkerSet<P>),
    SaveMarker(MarkerSaveEvent<P>),
    DeleteMarker { path: String, category: Option<String>, idx: usize },
    GetMarkerPaths,
    UninstallAddon(GitHubSource),
    ToggleKatRender,
    DoDataSourceUpdate { source: GitHubSource },
    ProgressBarStyle(ProgressBarStyleChange<H>),
    WindowState(String, Option<bool>),
    TimerKeyTrigger(String, bool),
    LoadTextureIntegrated(String, Vec<u8>),
    LoadTexture(String, String),
    CheckDataSourceUpdates,
    ReloadTimers,
    ReloadMarkers,
    ReloadData,
    MarkerToggle(String),
    MarkerEnable(String),
    MarkerDisable(String),
    TimerEnable(String),
    TimerDisable(String),
    TimerReset,
    TimerToggle(String),
    MumbleIdentityUpdated(MumbleIdentity),
    CombatEvent { src: Agent, change: StateChange },
    Quit,
}

/// What the controller reads of the identity the game publishes through
/// MumbleLink: the map the player is on and whether they lead a squad.
#[derive(Clone, Copy, Debug, PartialEq, Eq, Structural)]
pub struct MumbleIdentity {
    pub map_id: u32,
    pub is_commander: bool,
}

/// The player's standing in the squad.
#[derive(Clone, Copy, Debug, PartialEq, Eq, Structural)]
pub enum SquadRoleState {
    Member,
    Lieutenant,
    Commander,
}

/// Roles are ordered member < lieutenant < commander.
pub open spec fn role_rank(r: SquadRoleState) -> int {
    match r {
        SquadRoleState::Member => 0,
        SquadRoleState::Lieutenant => 1,
        SquadRoleState::Commander => 2,
    }
}

impl SquadRoleState {
    /// Whether this role ranks at least as high as `other`.
    pub fn at_least(&self, other: &SquadRoleState) -> (r: bool)
        ensures
            r == (role_rank(*self) >= role_rank(*other)),
    {
        let a: u8 = match self {
            SquadRoleState::Member => 0,
            SquadRoleState::Lieutenant => 1,
            SquadRoleState::Commander => 2,
        };
        let b: u8 = match other {
            SquadRoleState::Member => 0,
            SquadRoleState::Lieutenant => 1,
            SquadRoleState::Commander => 2,
        };
        a >= b
    }
}

/// What happened to a squad member.
#[derive(Clone, Copy, Debug, PartialEq, Eq, Structural)]
pub enum SquadState {
    Update,
    Joined,
    Left,
}

/// Whether `cond` holds for a player with `role` (`None`: role unknown).
pub open spec fn condition_holds(cond: SquadCondition, role: Option<SquadRoleState>) -> bool {
    match cond {
        SquadCondition::Never => false,
        SquadCondition::IfCommander => role == Some(SquadRoleState::Commander),
        SquadCondition::IfLieutenantOrAbove => role matches Some(r) && role_rank(r) >= 1,
        SquadCondition::Always => true,
    }
}

/// Whether `cond` holds for a player with `role`.
pub fn condition_met(cond: SquadCondition, role: Option<SquadRoleState>) -> (r: bool)
    ensures
        r == condition_holds(cond, role),
{
    match cond {
        SquadCondition::Never => false,
        SquadCondition::IfCommander => match role {
            Some(SquadRoleState::Commander) => true,
            _ => false,
        },
        SquadCondition::IfLieutenantOrAbove => match role {
            Some(r) => r.at_least(&SquadRoleState::Lieutenant),
            None => false,
        },
        SquadCondition::Always => true,
    }
}

/// The conditions are nested: never is never met, a commander condition
/// implies the lieutenant one, which implies always.
pub proof fn lemma_conditions_nested(role: Option<SquadRoleState>)
    ensures
        !condition_holds(SquadCondition::Never, role),
        condition_holds(SquadCondition::IfCommander, role) ==> condition_holds(
            SquadCondition::IfLieutenantOrAbove,
            role,
        ),
        condition_holds(SquadCondition::IfLieutenantOrAbove, role) ==> condition_holds(
            SquadCondition::Always,
            role,
        ),
{
}

/// What to do when the player walks into an enabled marker set's trigger.
#[derive(Clone, Copy, Debug, PartialEq, Eq, Structural)]
pub enum AutoplaceAction {
    Nothing,
    OpenMarkerWindow,
    PlaceMarkers,
}

pub open spec fn autoplace_decision(
    settings: Option<MarkerAutoPlaceSettings>,
    enabled: bool,
    role: Option<SquadRoleState>,
) -> AutoplaceAction {
    if !enabled {
        AutoplaceAction::Nothing
    } else {
        match settings {
            Some(MarkerAutoPlaceSettings::OpenWindow(c)) => if condition_holds(c, role) {
                AutoplaceAction::OpenMarkerWindow
            } else {
                AutoplaceAction::Nothing
            },
            Some(MarkerAutoPlaceSettings::Place(c)) => if condition_holds(c, role) {
                AutoplaceAction::PlaceMarkers
            } else {
                AutoplaceAction::Nothing
            },
            _ => AutoplaceAction::Nothing,
        }
    }
}

/// The automatic reaction to a marker set's trigger: open the marker window or
/// place the set, where the set is enabled and the squad condition of the
/// setting holds for the player's role.
pub fn handle_marker_autoplace(
    settings: Option<MarkerAutoPlaceSettings>,
    enabled: bool,
    role: Option<SquadRoleState>,
) -> (r: AutoplaceAction)
    ensures
        r == autoplace_decision(settings, enabled, role),
{
    if !enabled {
        return AutoplaceAction::Nothing;
    }
    match settings {
        Some(MarkerAutoPlaceSettings::OpenWindow(c)) => if condition_met(c, role) {
            AutoplaceAction::OpenMarkerWindow
        } else {
            AutoplaceAction::Nothing
        },
        Some(MarkerAutoPlaceSettings::Place(c)) => if condition_met(c, role) {
            AutoplaceAction::PlaceMarkers
        } else {
            AutoplaceAction::Nothing
        },
        _ => AutoplaceAction::Nothing,
    }
}

/// A member of the player's squad as reported by the real-time API.
#[derive(Debug)]
pub struct GroupMember {
    pub account_name: String,
    pub is_commander: bool,
    pub is_lieutenant: bool,
}

/// A squad role as reported by arcdps extras.
#[derive(Clone, Copy, Debug, PartialEq, Eq, Structural)]
pub enum UserRole {
    SquadLeader,
    Lieutenant,
    Member,
    Invited,
    Applied,
    NoRole,
    Invalid,
}

/// A squad member as reported by arcdps extras.
#[derive(Debug)]
pub struct UserInfo {
    pub account_name: Option<String>,
    pub role: UserRole,
}

impl UserInfo {
    pub fn clone(&self) -> (r: UserInfo)
        ensures
            r == *self,
    {
        UserInfo { account_name: crate::settings::clone_opt_string(&self.account_name), role: self.role }
    }
}

/// The role an extras squad role stands for, if any.
pub open spec fn extras_role(r: UserRole) -> Option<SquadRoleState> {
    match r {
        UserRole::SquadLeader => Some(SquadRoleState::Commander),
        UserRole::Lieutenant => Some(SquadRoleState::Lieutenant),
        UserRole::Member => Some(SquadRoleState::Member),
        _ => None,
    }
}

/// The role a real-time API member has.
pub open spec fn rtapi_role(m: GroupMember) -> SquadRoleState {
    if m.is_commander {
        SquadRoleState::Commander
    } else if m.is_lieutenant {
        SquadRoleState::Lieutenant
    } else {
        SquadRoleState::Member
    }
}

/// The map of extras squad members by account name after a squad update: the
/// last entry for each named account wins.
pub open spec fn extras_map(data: Seq<UserInfo>) -> Map<Seq<char>, UserInfo>
    decreases data.len(),
{
    if data.len() == 0 {
        Map::empty()
    } else {
        let before = extras_map(data.drop_last());
        match data.last().account_name {
            Some(name) => before.insert(name@, data.last()),
            None => before,
        }
    }
}

/// The real-time API's view of the squad after a change, where the player's
/// own account `own` is known: the player leaving empties the squad, another
/// member leaving is removed, a member joining is recorded, an update
/// replaces a known member. Without the player's account nothing changes.
pub open spec fn rtapi_squad_after(
    squad: Map<Seq<char>, GroupMember>,
    change: SquadState,
    member: GroupMember,
    own: Option<Seq<char>>,
) -> Map<Seq<char>, GroupMember> {
    let k = member.account_name@;
    match own {
        None => squad,
        Some(own) => match change {
            SquadState::Left => if k == own {
                Map::empty()
            } else {
                squad.remove(k)
            },
            SquadState::Joined => squad.insert(k, member),
            SquadState::Update => if squad.dom().contains(k) {
                squad.insert(k, member)
            } else {
                squad
            },
        },
    }
}

/// What the addon knows of the squad, from the real-time API and from arcdps extras.
pub struct SquadTracker {
    pub rtapi_squad: KeyedList<GroupMember>,
    pub extras_squad: KeyedList<UserInfo>,
}

/// The player's role. The real-time API decides where it knows the player
/// (`rtapi_player` is the account name it reports for the player); else
/// extras, where its squad is not empty and holds the player's account
/// `account_name`; else the player is commander where the game says so.
pub open spec fn role_of(
    rtapi: Map<Seq<char>, GroupMember>,
    extras: Map<Seq<char>, UserInfo>,
    rtapi_player: Option<Seq<char>>,
    account_name: Option<Seq<char>>,
    identity_is_commander: bool,
) -> Option<SquadRoleState> {
    if rtapi_player matches Some(p) && rtapi.dom().contains(p) {
        Some(rtapi_role(rtapi[rtapi_player->0]))
    } else if extras.dom().len() != 0 && (account_name matches Some(a) && extras.dom().contains(a)) {
        extras_role(extras[account_name->0].role)
    } else if identity_is_commander {
        Some(SquadRoleState::Commander)
    } else {
        None
    }
}

/// What the player's role is, in terms of what the sources report: a
/// real-time API member is commander where flagged commander, else
/// lieutenant where flagged lieutenant, else member; an extras squad leader
/// is commander, a lieutenant lieutenant, a member member, anyone else
/// unknown; with neither, the game's commander flag makes a commander and
/// otherwise the role is unknown. A lieutenant thus meets the condition
/// "lieutenant or above" and not "commander".
pub proof fn lemma_role_meaning(
    rtapi: Map<Seq<char>, GroupMember>,
    extras: Map<Seq<char>, UserInfo>,
    rp: Option<Seq<char>>,
    a: Option<Seq<char>>,
    identity_is_commander: bool,
)
    requires
        extras.dom().finite(),
    ensures
        ({
            let role = role_of(rtapi, extras, rp, a, identity_is_commander);
            let known = rp matches Some(p) && rtapi.dom().contains(p);
            let in_extras = a matches Some(n) && extras.dom().contains(n);
            &&& known && rtapi[rp->0].is_commander ==> role == Some(SquadRoleState::Commander)
            &&& known && !rtapi[rp->0].is_commander && rtapi[rp->0].is_lieutenant ==> role == Some(
                SquadRoleState::Lieutenant,
            )
            &&& known && !rtapi[rp->0].is_commander && !rtapi[rp->0].is_lieutenant ==> role == Some(
                SquadRoleState::Member,
            )
            &&& known && !rtapi[rp->0].is_commander && rtapi[rp->0].is_lieutenant ==> condition_holds(
                SquadCondition::IfLieutenantOrAbove,
                role,
            ) && !condition_holds(SquadCondition::IfCommander, role)
            &&& !known && in_extras ==> role == (match extras[a->0].role {
                UserRole::SquadLeader => Some(SquadRoleState::Commander),
                UserRole::Lieutenant => Some(SquadRoleState::Lieutenant),
                UserRole::Member => Some(SquadRoleState::Member),
                _ => None::<SquadRoleState>,
            })
            &&& !known && !in_extras ==> role == (if identity_is_commander {
                Some(SquadRoleState::Commander)
            } else {
                None
            })
        }),
{
    if a matches Some(n) && extras.dom().contains(n) {
        assert(extras.dom().len() != 0) by {
            vstd::set_lib::lemma_set_empty_equivalency_len(extras.dom());
        }
    }
}

/// Which squad conditions hold for each role: never is never met; a
/// commander meets every other condition; a lieutenant meets "lieutenant or
/// above" and "always" but not "commander"; a member, or a player whose role
/// is unknown, meets only "always".
pub proof fn lemma_conditions_by_role(cond: SquadCondition)
    ensures
        !condition_holds(SquadCondition::Never, Some(SquadRoleState::Commander)),
        condition_holds(SquadCondition::IfCommander, Some(SquadRoleState::Commander)),
        condition_holds(SquadCondition::IfLieutenantOrAbove, Some(SquadRoleState::Commander)),
        !condition_holds(SquadCondition::IfCommander, Some(SquadRoleState::Lieutenant)),
        condition_holds(SquadCondition::IfLieutenantOrAbove, Some(SquadRoleState::Lieutenant)),
        condition_holds(cond, Some(SquadRoleState::Member)) <==> cond == SquadCondition::Always,
        condition_holds(cond, None) <==> cond == SquadCondition::Always,
        condition_holds(cond, Some(SquadRoleState::Lieutenant)) <==> (cond == SquadCondition::Always || cond
            == SquadCondition::IfLieutenantOrAbove),
        condition_holds(cond, Some(SquadRoleState::Commander)) <==> cond != SquadCondition::Never,
{
}

/// What autoplacement decides for a marker set the player walks into: it
/// opens the marker window exactly where the set is enabled, the setting is
/// to open the window and the setting's squad condition holds for the
/// player's role; it places the set exactly where the set is enabled, the
/// setting is to place and its condition holds; otherwise it does nothing.
/// So a commander-only setting does nothing for a member.
pub proof fn lemma_autoplace_meaning(
    settings: Option<MarkerAutoPlaceSettings>,
    enabled: bool,
    role: Option<SquadRoleState>,
)
    ensures
        (autoplace_decision(settings, enabled, role) == AutoplaceAction::OpenMarkerWindow) <==> (enabled
            && (settings matches Some(MarkerAutoPlaceSettings::OpenWindow(c)) && condition_holds(c, role))),
        (autoplace_decision(settings, enabled, role) == AutoplaceAction::PlaceMarkers) <==> (enabled
            && (settings matches Some(MarkerAutoPlaceSettings::Place(c)) && condition_holds(c, role))),
        settings matches Some(MarkerAutoPlaceSettings::OpenWindow(SquadCondition::IfCommander)) && role != Some(
            SquadRoleState::Commander,
        ) ==> autoplace_decision(settings, enabled, role) == AutoplaceAction::Nothing,
        settings matches Some(MarkerAutoPlaceSettings::Place(SquadCondition::IfCommander)) && role != Some(
            SquadRoleState::Commander,
        ) ==> autoplace_decision(settings, enabled, role) == AutoplaceAction::Nothing,
        !enabled || settings is None || settings == Some(MarkerAutoPlaceSettings::DoNothing) ==> autoplace_decision(
            settings,
            enabled,
            role,
        ) == AutoplaceAction::Nothing,
{
}

impl SquadTracker {
    pub fn new() -> (r: Self)
        ensures
            r.rtapi_squad@ == Map::<Seq<char>, GroupMember>::empty(),
            r.extras_squad@ == Map::<Seq<char>, UserInfo>::empty(),
    {
        SquadTracker { rtapi_squad: KeyedList::new(), extras_squad: KeyedList::new() }
    }

    /// The player's role, as `role_of` decides it.
    pub fn get_role(&self, rtapi_player: Option<&str>, account_name: Option<&str>, identity_is_commander: bool) -> (r:
        Option<SquadRoleState>)
        ensures
            r == role_of(
                self.rtapi_squad@,
                self.extras_squad@,
                match rtapi_player {
                    Some(p) => Some(p@),
                    None => None,
                },
                match account_name {
                    Some(a) => Some(a@),
                    None => None,
                },
                identity_is_commander,
            ),
    {
        if let Some(player) = rtapi_player {
            if let Some(squad_state) = self.rtapi_squad.get(player) {
                if squad_state.is_commander {
                    return Some(SquadRoleState::Commander);
                } else if squad_state.is_lieutenant {
                    return Some(SquadRoleState::Lieutenant);
                } else {
                    return Some(SquadRoleState::Member);
                }
            }
        }
        if !self.extras_squad.is_empty() {
            if let Some(account) = account_name {
                if let Some(squad_state) = self.extras_squad.get(account) {
                    return match squad_state.role {
                        UserRole::SquadLeader => Some(SquadRoleState::Commander),
                        UserRole::Lieutenant => Some(SquadRoleState::Lieutenant),
                        UserRole::Member => Some(SquadRoleState::Member),
                        _ => None,
                    };
                }
            }
        }
        if identity_is_commander {
            return Some(SquadRoleState::Commander);
        }
        None
    }

    /// Applies a real-time API squad change, where the player's own account
    /// is known: the player leaving empties the squad, another member leaving
    /// removes them, a member joining is recorded, an update replaces a known
    /// member.
    pub fn rtapi_squad_update(&mut self, change: SquadState, member: GroupMember, own_account: Option<&str>)
        ensures
            final(self).extras_squad@ == old(self).extras_squad@,
            final(self).rtapi_squad@ == rtapi_squad_after(
                old(self).rtapi_squad@,
                change,
                member,
                match own_account {
                    Some(o) => Some(o@),
                    None => None,
                },
            ),
    {
        if let Some(own) = own_account {
            match change {
                SquadState::Left => {
                    if str_eq(member.account_name.as_str(), own) {
                        self.rtapi_squad.clear();
                    } else {
                        self.rtapi_squad.remove(member.account_name.as_str());
                    }
                },
                SquadState::Joined => {
                    let key = member.account_name.clone();
                    self.rtapi_squad.insert(key, member);
                },
                SquadState::Update => {
                    if self.rtapi_squad.contains_key(member.account_name.as_str()) {
                        let key = member.account_name.clone();
                        self.rtapi_squad.insert(key, member);
                    }
                },
            }
        }
    }

    /// Replaces the extras view of the squad with `data`, keyed by account
    /// name; members without an account name are left out.
    pub fn extras_squad_update(&mut self, data: Vec<UserInfo>)
        ensures
            final(self).extras_squad@ == extras_map(data@),
            final(self).rtapi_squad@ == old(self).rtapi_squad@,
    {
        self.extras_squad.clear();
        let n = data.len();
        let mut i: usize = 0;
        while i < n
            invariant
                n == data@.len(),
                i <= n,
                self.extras_squad@ == extras_map(data@.subrange(0, i as int)),
                self.rtapi_squad@ == old(self).rtapi_squad@,
            decreases n - i,
        {
            proof {
                assert(data@.subrange(0, i + 1).drop_last() =~= data@.subrange(0, i as int));
            }
            let datum = data[i].clone();
            match &data[i].account_name {
                Some(name) => {
                    self.extras_squad.insert(name.clone(), datum);
                },
                None => {},
            }
            i = i + 1;
        }
        proof {
            assert(data@.subrange(0, n as int) =~= data@);
        }
    }
}

/// The combat state the game reports through MumbleLink, remembered between ticks.
pub struct CombatTracker {
    pub previous_combat_state: bool,
}

impl CombatTracker {
    pub fn new() -> (r: Self)
        ensures
            !r.previous_combat_state,
    {
        CombatTracker { previous_combat_state: false }
    }

    /// Notes the current combat flag; where it changed, the timers learn that
    /// combat was entered or exited.
    pub fn mumble_combat_update(&mut self, in_combat: bool) -> (r: Option<CombatState>)
        ensures
            final(self).previous_combat_state == in_combat,
            r == combat_report(old(self).previous_combat_state, in_combat),
    {
        if in_combat != self.previous_combat_state {
            self.previous_combat_state = in_combat;
            if in_combat {
                Some(CombatState::Entered)
            } else {
                Some(CombatState::Exited)
            }
        } else {
            None
        }
    }
}

/// What a combat flag `now` reports after flag `previous`.
pub open spec fn combat_report(previous: bool, now: bool) -> Option<CombatState> {
    if now == previous {
        None
    } else if now {
        Some(CombatState::Entered)
    } else {
        Some(CombatState::Exited)
    }
}

/// A change of the combat flag is reported once, and as entry exactly where
/// combat begins: the same flag on the next tick reports nothing.
pub proof fn lemma_combat_reported_once(previous: bool, now: bool)
    ensures
        combat_report(now, now) is None,
        combat_report(previous, now) == Some(CombatState::Entered) <==> (!previous && now),
        combat_report(previous, now) == Some(CombatState::Exited) <==> (previous && !now),
{
}

/// An arcdps combat agent, reduced to what the addon reads of it.
#[derive(Debug)]
pub struct Agent {
    pub name: Option<String>,
    pub is_self: u32,
}

/// The kind of an arcdps combat event, as far as timers care.
#[derive(Clone, Copy, Debug, PartialEq, Eq, Structural)]
pub enum StateChange {
    NoChange,
    EnterCombat,
    ExitCombat,
    Other,
}

/// The player's character as seen in arcdps combat events.
pub struct AgentTracker {
    pub agent: Option<Agent>,
}

/// The character the tracker holds after an event from `src`.
pub open spec fn next_agent(current: Option<Agent>, src: Agent) -> Option<Agent> {
    if src.is_self != 0 {
        match current {
            Some(a) => if opt_chars(a.name) != opt_chars(src.name) {
                Some(src)
            } else {
                current
            },
            None => Some(src),
        }
    } else {
        current
    }
}

pub open spec fn opt_chars(o: Option<String>) -> Option<Seq<char>> {
    match o {
        Some(s) => Some(s@),
        None => None,
    }
}

impl AgentTracker {
    /// Handles an arcdps combat event: records the player's character where it
    /// is new or changed, and returns the combat state the timers learn.
    pub fn handle_combat_event(&mut self, src: Agent, change: StateChange) -> (r: Option<CombatState>)
        ensures
            final(self).agent == next_agent(old(self).agent, src),
            r == (match change {
                StateChange::EnterCombat => Some(CombatState::Entered),
                StateChange::ExitCombat => Some(CombatState::Exited),
                _ => None,
            }),
    {
        if src.is_self != 0 {
            let replace = match &self.agent {
                Some(agent) => !opt_str_eq(&agent.name, &src.name),
                None => true,
            };
            if replace {
                self.agent = Some(src);
            }
        }
        match change {
            StateChange::EnterCombat => Some(CombatState::Entered),
            StateChange::ExitCombat => Some(CombatState::Exited),
            _ => None,
        }
    }
}

fn opt_str_eq(a: &Option<String>, b: &Option<String>) -> (r: bool)
    ensures
        r == (opt_chars(*a) == opt_chars(*b)),
{
    match (a, b) {
        (Some(x), Some(y)) => str_eq(x.as_str(), y.as_str()),
        (None, None) => true,
        _ => false,
    }
}

/// The value of a decimal digit character.
pub open spec fn digit_value(c: char) -> u32 {
    (c as u32 - '0' as u32) as u32
}

/// The key index of a timer key trigger: the digit its identifier ends in.
pub fn timer_key_index(id: &str) -> (r: u32)
    requires
        id@.len() > 0,
        '0' <= id@.last() <= '9',
    ensures
        r == digit_value(id@.last()),
        r <= 9,
{
    let n = id.unicode_len();
    let c = id.get_char(n - 1);
    let v = c as u32 - '0' as u32;
    v
}

/// The indices, in order, of the timers among the first `n` that run on map `m`.
pub open spec fn map_indices<P, S, C>(timers: Seq<TimerFile<P, S, C>>, m: u32, n: int) -> Seq<usize>
    decreases n,
{
    if n <= 0 {
        Seq::empty()
    } else {
        let rest = map_indices(timers, m, n - 1);
        if timers[n - 1].map_id == m {
            rest.push((n - 1) as usize)
        } else {
            rest
        }
    }
}

/// The indices among `idx` whose timer is not disabled in `settings`.
pub open spec fn enabled_among<P, S, C>(
    timers: Seq<TimerFile<P, S, C>>,
    settings: Map<Seq<char>, TimerSettings>,
    idx: Seq<usize>,
) -> Seq<usize>
    decreases idx.len(),
{
    if idx.len() == 0 {
        Seq::empty()
    } else {
        let rest = enabled_among(timers, settings, idx.drop_last());
        if timer_disabled(settings, timers[idx.last() as int].id@) {
            rest
        } else {
            rest.push(idx.last())
        }
    }
}

/// The indices among `idx` whose timer has identifier `id`.
pub open spec fn with_id<P, S, C>(timers: Seq<TimerFile<P, S, C>>, idx: Seq<usize>, id: Seq<char>) -> Seq<usize>
    decreases idx.len(),
{
    if idx.len() == 0 {
        Seq::empty()
    } else {
        let rest = with_id(timers, idx.drop_last(), id);
        if timers[idx.last() as int].id@ == id {
            rest.push(idx.last())
        } else {
            rest
        }
    }
}

/// The indices among `idx` whose timer does not have identifier `id`.
pub open spec fn without_id<P, S, C>(timers: Seq<TimerFile<P, S, C>>, idx: Seq<usize>, id: Seq<char>) -> Seq<usize>
    decreases idx.len(),
{
    if idx.len() == 0 {
        Seq::empty()
    } else {
        let rest = without_id(timers, idx.drop_last(), id);
        if timers[idx.last() as int].id@ == id {
            rest
        } else {
            rest.push(idx.last())
        }
    }
}

/// Every index in `idx` points into `timers`.
pub open spec fn indices_valid<P, S, C>(timers: Seq<TimerFile<P, S, C>>, idx: Seq<usize>) -> bool {
    forall|j: int| 0 <= j < idx.len() ==> #[trigger] idx[j] < timers.len()
}

/// Which timers exist, which run on each map, which map the player is on and
/// which timers currently run (as indices into `timers`). The first `loaded`
/// timers are those of the last load; after them come the timers of earlier
/// loads that were still running when the next was taken.
pub struct TimerScheduler<P, S, C> {
    pub timers: Vec<TimerFile<P, S, C>>,
    pub loaded: usize,
    pub map_id_to_timers: HashMap<u32, Vec<usize>>,
    pub map_id: Option<u32>,
    pub current_timers: Vec<usize>,
}

impl<P, S, C> TimerScheduler<P, S, C> {
    /// The scheduler's invariant: each map's list holds exactly the timers on
    /// that map, in order, and the running timers are timers.
    pub open spec fn wf(&self) -> bool {
        &&& self.loaded <= self.timers@.len()
        &&& forall|m: u32|
            #![trigger self.map_id_to_timers@.dom().contains(m)]
            self.map_id_to_timers@.dom().contains(m) <==> map_indices(self.timers@, m, self.loaded as int).len() > 0
        &&& forall|m: u32|
            self.map_id_to_timers@.dom().contains(m) ==> (#[trigger] self.map_id_to_timers@[m])@ == map_indices(
                self.timers@,
                m,
                self.loaded as int,
            )
        &&& indices_valid(self.timers@, self.current_timers@)
    }

    /// A scheduler for `timers`, on no map yet, with no timer running.
    pub fn new(timers: Vec<TimerFile<P, S, C>>) -> (r: Self)
        ensures
            r.wf(),
            r.timers@ == timers@,
            r.loaded == timers@.len(),
            r.map_id is None,
            r.current_timers@.len() == 0,
    {
        let map_id_to_timers = Self::group_by_map(&timers);
        let loaded = timers.len();
        TimerScheduler { timers, loaded, map_id_to_timers, map_id: None, current_timers: Vec::new() }
    }

    fn group_by_map(timers: &Vec<TimerFile<P, S, C>>) -> (r: HashMap<u32, Vec<usize>>)
        ensures
            forall|m: u32|
                #![trigger r@.dom().contains(m)]
                r@.dom().contains(m) <==> map_indices(timers@, m, timers@.len() as int).len() > 0,
            forall|m: u32|
                r@.dom().contains(m) ==> (#[trigger] r@[m])@ == map_indices(timers@, m, timers@.len() as int),
    {
        let mut r: HashMap<u32, Vec<usize>> = HashMap::new();
        let n = timers.len();
        let mut i: usize = 0;
        while i < n
            invariant
                n == timers@.len(),
                i <= n,
                forall|m: u32|
                    #![trigger r@.dom().contains(m)]
                    r@.dom().contains(m) <==> map_indices(timers@, m, i as int).len() > 0,
                forall|m: u32| r@.dom().contains(m) ==> (#[trigger] r@[m])@ == map_indices(timers@, m, i as int),
            decreases n - i,
        {
            let m = timers[i].map_id;
            let mut list: Vec<usize> = match r.get(&m) {
                Some(v) => v.clone(),
                None => Vec::new(),
            };
            proof {
                if r@.dom().contains(m) {
                    assert(list@ =~= r@[m]@);
                } else {
                    assert(map_indices(timers@, m, i as int).len() == 0);
                    assert(list@ =~= map_indices(timers@, m, i as int));
                }
            }
            list.push(i);
            r.insert(m, list);
            i = i + 1;
            proof {
                assert forall|k: u32| #![trigger r@.dom().contains(k)] r@.dom().contains(k) <==> map_indices(timers@, k, i as int).len() > 0 by {
                    if k != m {
                        assert(map_indices(timers@, k, i as int) == map_indices(timers@, k, i - 1));
                    }
                }
                assert forall|k: u32| r@.dom().contains(k) implies (#[trigger] r@[k])@ == map_indices(timers@, k, i as int) by {
                    if k != m {
                        assert(map_indices(timers@, k, i as int) == map_indices(timers@, k, i - 1));
                    }
                }
            }
        }
        r
    }

    /// Takes a new list of timers: the index by map is rebuilt and the map
    /// stays the same. The timers that run keep running: where any does, the
    /// timers before the load are kept after the new ones, and the running
    /// timers' indices move past the new ones.
    pub fn reload(&mut self, timers: Vec<TimerFile<P, S, C>>)
        requires
            old(self).wf(),
        ensures
            final(self).wf(),
            final(self).loaded == timers@.len(),
            final(self).timers@ == (if old(self).current_timers@.len() == 0 {
                timers@
            } else {
                timers@ + old(self).timers@
            }),
            final(self).map_id == old(self).map_id,
            final(self).current_timers@ == old(self).current_timers@.map_values(|t: usize| (t + timers@.len()) as usize),
    {
        let map_id_to_timers = Self::group_by_map(&timers);
        let n = timers.len();
        let ghost fresh = timers@;
        let mut all = timers;
        if self.current_timers.len() > 0 {
            let mut earlier: Vec<TimerFile<P, S, C>> = Vec::new();
            std::mem::swap(&mut earlier, &mut self.timers);
            all.append(&mut earlier);
        }
        // The length of a Vec fits in usize; asking for it records that.
        let total = all.len();
        let ghost running = self.current_timers@;
        let mut moved: Vec<usize> = Vec::new();
        let k = self.current_timers.len();
        let mut i: usize = 0;
        while i < k
            invariant
                k == self.current_timers@.len(),
                self.current_timers@ == running,
                i <= k,
                total == all@.len(),
                k > 0 ==> all@.len() == n + old(self).timers@.len(),
                indices_valid(old(self).timers@, running),
                moved@ == running.subrange(0, i as int).map_values(|t: usize| (t + n) as usize),
            decreases k - i,
        {
            let t = self.current_timers[i];
            moved.push(t + n);
            proof {
                assert(running.subrange(0, i + 1).map_values(|t: usize| (t + n) as usize) =~= running.subrange(
                    0,
                    i as int,
                ).map_values(|t: usize| (t + n) as usize).push((t + n) as usize));
            }
            i = i + 1;
        }
        proof {
            assert(running.subrange(0, k as int) =~= running);
            lemma_map_indices_prefix(fresh, all@, n as int);
        }
        self.timers = all;
        self.loaded = n;
        self.map_id_to_timers = map_id_to_timers;
        self.current_timers = moved;
    }

    /// The timers on map `m`, in order.
    fn timers_on_map(&self, m: u32) -> (r: Vec<usize>)
        requires
            self.wf(),
        ensures
            r@ == map_indices(self.timers@, m, self.loaded as int),
    {
        match self.map_id_to_timers.get(&m) {
            Some(v) => v.clone(),
            None => {
                let r = Vec::new();
                assert(r@ =~= map_indices(self.timers@, m, self.loaded as int));
                r
            },
        }
    }

    /// Handles the player arriving on map `new_map`: where it differs from the
    /// current map, the running timers are returned for cleanup and replaced
    /// by the enabled timers of the new map. Returns `None` where the map did
    /// not change.
    pub fn handle_map(&mut self, new_map: u32, settings: &KeyedList<TimerSettings>) -> (r: Option<Vec<usize>>)
        requires
            old(self).wf(),
        ensures
            final(self).wf(),
            final(self).timers@ == old(self).timers@,
            final(self).map_id_to_timers@ == old(self).map_id_to_timers@,
            final(self).map_id == Some(new_map),
            match r {
                Some(stopped) => {
                    &&& old(self).map_id != Some(new_map)
                    &&& stopped@ == old(self).current_timers@
                    &&& final(self).current_timers@ == enabled_among(
                        old(self).timers@,
                        settings@,
                        map_indices(old(self).timers@, new_map, old(self).loaded as int),
                    )
                },
                None => old(self).map_id == Some(new_map) && final(self).current_timers@
                    == old(self).current_timers@,
            },
    {
        if self.map_id == Some(new_map) {
            return None;
        }
        let on_map = self.timers_on_map(new_map);
        // The length of a Vec fits in usize; asking for it records that.
        let _count = self.timers.len();
        let mut started: Vec<usize> = Vec::new();
        let n = on_map.len();
        let mut i: usize = 0;
        proof {
            lemma_map_indices_valid(self.timers@, new_map, self.loaded as int);
        }
        while i < n
            invariant
                n == on_map@.len(),
                i <= n,
                on_map@ == map_indices(self.timers@, new_map, self.loaded as int),
                indices_valid(self.timers@, on_map@),
                started@ == enabled_among(self.timers@, settings@, on_map@.subrange(0, i as int)),
                indices_valid(self.timers@, started@),
            decreases n - i,
        {
            let t = on_map[i];
            proof {
                assert(on_map@.subrange(0, i + 1).drop_last() =~= on_map@.subrange(0, i as int));
            }
            let enabled = match settings.get(self.timers[t].id.as_str()) {
                Some(setting) => !setting.disabled,
                None => true,
            };
            if enabled {
                started.push(t);
            }
            i = i + 1;
        }
        proof {
            assert(on_map@.subrange(0, n as int) =~= on_map@);
        }
        let mut stopped = started;
        std::mem::swap(&mut stopped, &mut self.current_timers);
        self.map_id = Some(new_map);
        Some(stopped)
    }

    /// Starts, on the current map, the timers with identifier `id`; returns
    /// the ones started.
    pub fn enable_timer(&mut self, id: &str) -> (r: Vec<usize>)
        requires
            old(self).wf(),
        ensures
            final(self).wf(),
            final(self).timers@ == old(self).timers@,
            final(self).map_id == old(self).map_id,
            r@ == (match old(self).map_id {
                Some(m) => with_id(
                    old(self).timers@,
                    map_indices(old(self).timers@, m, old(self).loaded as int),
                    id@,
                ),
                None => Seq::<usize>::empty(),
            }),
            final(self).current_timers@ == old(self).current_timers@ + r@,
    {
        let mut started: Vec<usize> = Vec::new();
        if let Some(m) = self.map_id {
            let on_map = self.timers_on_map(m);
            // The length of a Vec fits in usize; asking for it records that.
            let _count = self.timers.len();
            proof {
                lemma_map_indices_valid(self.timers@, m, self.loaded as int);
            }
            started = self.select_with_id(&on_map, id);
        }
        let mut more = started.clone();
        proof {
            assert(more@ =~= started@);
        }
        self.current_timers.append(&mut more);
        proof {
            if let Some(m) = old(self).map_id {
                lemma_without_id_valid(self.timers@, map_indices(self.timers@, m, self.loaded as int), id@);
            }
        }
        started
    }

    fn select_with_id(&self, idx: &Vec<usize>, id: &str) -> (r: Vec<usize>)
        requires
            indices_valid(self.timers@, idx@),
        ensures
            r@ == with_id(self.timers@, idx@, id@),
    {
        let mut r: Vec<usize> = Vec::new();
        let n = idx.len();
        let mut i: usize = 0;
        while i < n
            invariant
                n == idx@.len(),
                i <= n,
                indices_valid(self.timers@, idx@),
                r@ == with_id(self.timers@, idx@.subrange(0, i as int), id@),
            decreases n - i,
        {
            let t = idx[i];
            proof {
                assert(idx@.subrange(0, i + 1).drop_last() =~= idx@.subrange(0, i as int));
            }
            if str_eq(self.timers[t].id.as_str(), id) {
                r.push(t);
            }
            i = i + 1;
        }
        proof {
            assert(idx@.subrange(0, n as int) =~= idx@);
        }
        r
    }

    /// Stops the running timers with identifier `id`; returns them.
    pub fn disable_timer(&mut self, id: &str) -> (r: Vec<usize>)
        requires
            old(self).wf(),
        ensures
            final(self).wf(),
            final(self).timers@ == old(self).timers@,
            final(self).map_id == old(self).map_id,
            r@ == with_id(old(self).timers@, old(self).current_timers@, id@),
            final(self).current_timers@ == without_id(old(self).timers@, old(self).current_timers@, id@),
    {
        let stopped = self.select_with_id(&self.current_timers, id);
        let mut kept: Vec<usize> = Vec::new();
        let n = self.current_timers.len();
        let mut i: usize = 0;
        while i < n
            invariant
                n == self.current_timers@.len(),
                i <= n,
                indices_valid(self.timers@, self.current_timers@),
                kept@ == without_id(self.timers@, self.current_timers@.subrange(0, i as int), id@),
            decreases n - i,
        {
            let t = self.current_timers[i];
            proof {
                assert(self.current_timers@.subrange(0, i + 1).drop_last() =~= self.current_timers@.subrange(
                    0,
                    i as int,
                ));
            }
            if !str_eq(self.timers[t].id.as_str(), id) {
                kept.push(t);
            }
            i = i + 1;
        }
        proof {
            assert(self.current_timers@.subrange(0, n as int) =~= self.current_timers@);
            lemma_without_id_valid(self.timers@, self.current_timers@, id@);
        }
        self.current_timers = kept;
        stopped
    }

    /// Reacts to a timer's settings having been toggled: where it is now
    /// enabled, its timers on the current map are started and returned; where
    /// it is now disabled, its running timers are returned for cleanup and
    /// stay listed.
    pub fn toggle_timer(&mut self, id: &str, now_disabled: bool) -> (r: Vec<usize>)
        requires
            old(self).wf(),
        ensures
            final(self).wf(),
            final(self).timers@ == old(self).timers@,
            final(self).map_id == old(self).map_id,
            now_disabled ==> r@ == with_id(old(self).timers@, old(self).current_timers@, id@)
                && final(self).current_timers@ == old(self).current_timers@,
            !now_disabled ==> r@ == (match old(self).map_id {
                Some(m) => with_id(
                    old(self).timers@,
                    map_indices(old(self).timers@, m, old(self).loaded as int),
                    id@,
                ),
                None => Seq::<usize>::empty(),
            }) && final(self).current_timers@ == old(self).current_timers@ + r@,
    {
        if now_disabled {
            self.select_with_id(&self.current_timers, id)
        } else {
            self.enable_timer(id)
        }
    }
}

/// The timers on a map among the first `n` depend on those `n` alone.
proof fn lemma_map_indices_prefix<P, S, C>(a: Seq<TimerFile<P, S, C>>, b: Seq<TimerFile<P, S, C>>, n: int)
    requires
        0 <= n <= a.len(),
        n <= b.len(),
        forall|i: int| 0 <= i < n ==> #[trigger] a[i] == b[i],
    ensures
        forall|m: u32| #[trigger] map_indices(a, m, n) == map_indices(b, m, n),
    decreases n,
{
    if n > 0 {
        lemma_map_indices_prefix(a, b, n - 1);
        assert forall|m: u32| #[trigger] map_indices(a, m, n) == map_indices(b, m, n) by {
            assert(map_indices(a, m, n - 1) == map_indices(b, m, n - 1));
            assert(a[n - 1] == b[n - 1]);
        }
    }
}

/// Every index `map_indices` yields points at a timer on that map.
pub proof fn lemma_map_indices_valid<P, S, C>(timers: Seq<TimerFile<P, S, C>>, m: u32, n: int)
    requires
        n <= timers.len(),
        timers.len() <= usize::MAX,
    ensures
        indices_valid(timers, map_indices(timers, m, n)),
        forall|j: int|
            0 <= j < map_indices(timers, m, n).len() ==> timers[#[trigger] map_indices(timers, m, n)[j] as int].map_id
                == m,
    decreases n,
{
    if n > 0 {
        lemma_map_indices_valid(timers, m, n - 1);
        let rest = map_indices(timers, m, n - 1);
        let all = map_indices(timers, m, n);
        assert forall|j: int| 0 <= j < all.len() implies timers[#[trigger] all[j] as int].map_id == m by {
            if j < rest.len() {
                assert(all[j] == rest[j]);
            } else {
                assert(timers[n - 1].map_id == m);
                assert(all == rest.push((n - 1) as usize));
                assert(all[j] == (n - 1) as usize);
            }
        }
    }
}

proof fn lemma_without_id_valid<P, S, C>(timers: Seq<TimerFile<P, S, C>>, idx: Seq<usize>, id: Seq<char>)
    requires
        indices_valid(timers, idx),
    ensures
        indices_valid(timers, without_id(timers, idx, id)),
        indices_valid(timers, with_id(timers, idx, id)),
    decreases idx.len(),
{
    if idx.len() > 0 {
        lemma_without_id_valid(timers, idx.drop_last(), id);
    }
}

/// Enabling a timer and then disabling it leaves running exactly the
/// timers of other identifiers that ran before.
pub proof fn lemma_enable_then_disable<P, S, C>(
    timers: Seq<TimerFile<P, S, C>>,
    running: Seq<usize>,
    candidates: Seq<usize>,
    id: Seq<char>,
)
    ensures
        without_id(timers, running + with_id(timers, candidates, id), id) == without_id(timers, running, id),
    decreases candidates.len(),
{
    if candidates.len() > 0 {
        let init = candidates.drop_last();
        lemma_enable_then_disable(timers, running, init, id);
        if timers[candidates.last() as int].id@ == id {
            let started = with_id(timers, candidates, id);
            assert((running + started).drop_last() =~= running + with_id(timers, init, id));
        }
    } else {
        assert(running + with_id(timers, candidates, id) =~= running);
    }
}

/// Entering a map starts exactly the enabled timers of that map: every timer
/// `enabled_among` keeps is one whose settings do not disable it, and every
/// such timer among the candidates is kept.
pub proof fn lemma_enabled_among<P, S, C>(
    timers: Seq<TimerFile<P, S, C>>,
    settings: Map<Seq<char>, TimerSettings>,
    idx: Seq<usize>,
)
    ensures
        forall|j: int|
            0 <= j < enabled_among(timers, settings, idx).len() ==> !timer_disabled(
                settings,
                timers[(#[trigger] enabled_among(timers, settings, idx)[j]) as int].id@,
            ),
        forall|k: int|
            0 <= k < idx.len() && !timer_disabled(settings, timers[idx[k] as int].id@) ==> enabled_among(
                timers,
                settings,
                idx,
            ).contains(#[trigger] idx[k]),
    decreases idx.len(),
{
    if idx.len() > 0 {
        let init = idx.drop_last();
        lemma_enabled_among(timers, settings, init);
        let rest = enabled_among(timers, settings, init);
        let all = enabled_among(timers, settings, idx);
        assert forall|j: int| 0 <= j < all.len() implies !timer_disabled(
            settings,
            timers[(#[trigger] all[j]) as int].id@,
        ) by {
            if j < rest.len() {
                assert(all[j] == rest[j]);
            }
        }
        assert forall|k: int| 0 <= k < idx.len() && !timer_disabled(settings, timers[idx[k] as int].id@) implies all.contains(
            #[trigger] idx[k],
        ) by {
            if k < idx.len() - 1 {
                assert(idx[k] == init[k]);
                let x = choose|x: int| 0 <= x < rest.len() && rest[x] == init[k];
                assert(all[x] == rest[x]);
            } else {
                assert(all.last() == idx.last());
            }
        }
    }
}

} // verus!
