use vstd::prelude::*;
use vstd::string::*;
use crate::settings::clone_opt_string;

verus! {

/// How a timer trigger is set off.
#[derive(Clone, Copy, Debug, PartialEq, Eq, Structural)]
pub enum TimerTriggerType {
    Location,
    Key,
}

impl Default for TimerTriggerType {
    fn default() -> (r: Self)
        ensures
            r == TimerTriggerType::Location,
    {
        TimerTriggerType::Location
    }
}

/// The player's combat state as seen by a timer.
#[derive(Clone, Copy, Debug, PartialEq, Eq, Structural)]
pub enum CombatState {
    Outside,
    Entered,
    Exited,
}

/// A region of the map: a ball around a centre, or the box spanned by two
/// opposite corners. `P` is a position and `S` a length.
#[derive(Clone, Copy, Debug)]
pub enum Polytope<P, S> {
    NSphere { radius: S, center: P },
    NCuboid { antipode: P, pode: P },
}

/// A condition that starts, finishes or resets a timer phase. `P` is a
/// position in the map and `S` a length.
#[derive(Debug)]
pub struct TimerTrigger<P, S> {
    pub kind: TimerTriggerType,
    pub key_bind: Option<String>,
    pub position: Option<P>,
    pub antipode: Option<P>,
    pub radius: Option<S>,
    pub require_combat: bool,
    pub require_out_of_combat: bool,
    pub require_entry: bool,
    pub require_departure: bool,
}

/// The region of a trigger: a ball where it has a radius and a position, else a
/// box where it has an antipode and a position, else none.
pub open spec fn trigger_region<P, S>(t: TimerTrigger<P, S>) -> Option<Polytope<P, S>> {
    match (t.radius, t.position, t.antipode) {
        (Some(radius), Some(center), _) => Some(Polytope::NSphere { radius, center }),
        (None, Some(pode), Some(antipode)) => Some(Polytope::NCuboid { antipode, pode }),
        _ => None,
    }
}

/// The conditions of a trigger that has a region, given whether the player is
/// inside it and the combat state.
pub open spec fn trigger_conditions<P, S>(t: TimerTrigger<P, S>, inside: bool, cb: CombatState) -> bool {
    &&& (!t.require_entry || inside)
    &&& (!t.require_departure || !inside)
    &&& (!t.require_combat || cb == CombatState::Entered)
    &&& (!t.require_out_of_combat || cb == CombatState::Exited)
}

impl<P: Copy, S: Copy> TimerTrigger<P, S> {
    pub fn position(&self) -> (r: Option<P>)
        ensures
            r == self.position,
    {
        self.position
    }

    pub fn antipode(&self) -> (r: Option<P>)
        ensures
            r == self.antipode,
    {
        self.antipode
    }

    /// The region this trigger watches, if it has one.
    pub fn polytope(&self) -> (r: Option<Polytope<P, S>>)
        ensures
            r == trigger_region(*self),
    {
        match (self.radius, self.position, self.antipode) {
            (Some(radius), Some(center), _) => Some(Polytope::NSphere { radius, center }),
            (None, Some(pode), Some(antipode)) => Some(Polytope::NCuboid { antipode, pode }),
            _ => None,
        }
    }

    /// Whether the trigger fires, where `inside` says whether the player's
    /// position lies in the trigger's region. A trigger without a region never fires.
    pub fn check(&self, inside: bool, cb: CombatState) -> (r: bool)
        ensures
            r == (trigger_region(*self) is Some && trigger_conditions(*self, inside, cb)),
    {
        if self.polytope().is_none() {
            return false;
        }
        let combat_entered_check = !self.require_combat || cb == CombatState::Entered;
        let combat_exited_check = !self.require_out_of_combat || cb == CombatState::Exited;
        let combat_check = combat_entered_check && combat_exited_check;
        let entry_check = !self.require_entry || inside;
        let departure_check = !self.require_departure || !inside;
        entry_check && departure_check && combat_check
    }
}

/// The region a trigger watches: with a radius and a position, the sphere
/// of that radius about the position; with a position and an opposite
/// corner but no radius, the box between them; without a position, none, so
/// the trigger never fires.
pub proof fn lemma_trigger_region_meaning<P, S>(t: TimerTrigger<P, S>)
    ensures
        t.radius is Some && t.position is Some ==> trigger_region(t) == Some::<Polytope<P, S>>(
            Polytope::NSphere { radius: t.radius->0, center: t.position->0 },
        ),
        t.radius is None && t.position is Some && t.antipode is Some ==> trigger_region(t) == Some::<Polytope<P, S>>(
            Polytope::NCuboid { antipode: t.antipode->0, pode: t.position->0 },
        ),
        t.position is None ==> trigger_region(t) is None,
        t.radius is None && t.antipode is None ==> trigger_region(t) is None,
{
}

/// What each requirement of a trigger means: one that requires entry fires
/// only with the player inside, one that requires departure only with the
/// player outside, one that requires combat only as combat is entered, and
/// one that requires leaving combat only as combat is exited (not while out
/// of combat all along). A trigger whose requirements are all met fires.
pub proof fn lemma_trigger_requirement_meaning<P, S>(t: TimerTrigger<P, S>, inside: bool, cb: CombatState)
    ensures
        t.require_entry && trigger_conditions(t, inside, cb) ==> inside,
        t.require_departure && trigger_conditions(t, inside, cb) ==> !inside,
        t.require_combat && trigger_conditions(t, inside, cb) ==> cb == CombatState::Entered,
        t.require_out_of_combat && trigger_conditions(t, inside, cb) ==> cb == CombatState::Exited,
        (t.require_entry ==> inside) && (t.require_departure ==> !inside) && (t.require_combat ==> cb
            == CombatState::Entered) && (t.require_out_of_combat ==> cb == CombatState::Exited) ==> trigger_conditions(
            t,
            inside,
            cb,
        ),
{
}

/// A trigger that asks for both entry and departure, or for both combat and
/// its absence, never fires; one that asks for nothing fires wherever it has a region.
pub proof fn lemma_trigger_requirements<P, S>(t: TimerTrigger<P, S>, inside: bool, cb: CombatState)
    ensures
        t.require_entry && t.require_departure ==> !trigger_conditions(t, inside, cb),
        t.require_combat && t.require_out_of_combat ==> !trigger_conditions(t, inside, cb),
        !t.require_entry && !t.require_departure && !t.require_combat && !t.require_out_of_combat
            ==> trigger_conditions(t, inside, cb),
{
}

/// Whether an alert is a warning ahead of an event or the event itself.
#[derive(Clone, Copy, Debug, PartialEq, Eq, Structural)]
pub enum TimerAlertType {
    Alert,
    Warning,
}

impl TimerAlertType {
    pub fn to_string(&self) -> (r: String)
        ensures
            r@ == (match *self {
                TimerAlertType::Alert => "Alert"@,
                TimerAlertType::Warning => "Warning"@,
            }),
    {
        match self {
            TimerAlertType::Alert => String::from_str("Alert"),
            TimerAlertType::Warning => String::from_str("Warning"),
        }
    }
}

/// An alert definition of a timer phase: shown at each timestamp, either as a
/// warning or as an alert. `S` is a time in seconds and `C` a colour.
#[derive(Debug)]
pub struct TimerAlert<S, C> {
    pub warning_duration: Option<S>,
    pub alert_duration: Option<S>,
    pub warning: Option<String>,
    pub warning_color: Option<C>,
    pub alert: Option<String>,
    pub alert_color: Option<C>,
    pub icon: Option<String>,
    pub fill_color: Option<C>,
    pub timestamps: Vec<S>,
}

/// One alert to show: what, in which colours, when and for how long.
#[derive(Debug)]
pub struct TaimiAlert<S, C> {
    pub kind: TimerAlertType,
    pub text: String,
    pub colour: Option<C>,
    pub fill_colour: Option<C>,
    pub icon: Option<String>,
    pub timestamp: S,
    pub duration: S,
}

/// An alert definition is exactly one of a warning and an alert.
pub open spec fn alert_kind_defined<S, C>(a: TimerAlert<S, C>) -> bool {
    a.warning is Some != a.alert is Some
}

/// The kind of a well-defined alert definition.
pub open spec fn alert_kind<S, C>(a: TimerAlert<S, C>) -> TimerAlertType {
    if a.warning is Some {
        TimerAlertType::Warning
    } else {
        TimerAlertType::Alert
    }
}

/// An alert definition whose kind is defined and which says how long its kind lasts.
pub open spec fn alert_well_formed<S, C>(a: TimerAlert<S, C>) -> bool {
    &&& alert_kind_defined(a)
    &&& (a.warning is Some ==> a.warning_duration is Some)
    &&& (a.alert is Some ==> a.alert_duration is Some)
}

/// The alert shown for definition `a` at time `timestamp`.
pub open spec fn alert_at<S, C>(a: TimerAlert<S, C>, timestamp: S) -> TaimiAlert<S, C> {
    if a.warning is Some {
        TaimiAlert {
            kind: TimerAlertType::Warning,
            text: a.warning->0,
            colour: a.warning_color,
            fill_colour: a.fill_color,
            icon: a.icon,
            timestamp,
            duration: a.warning_duration->0,
        }
    } else {
        TaimiAlert {
            kind: TimerAlertType::Alert,
            text: a.alert->0,
            colour: a.alert_color,
            fill_colour: a.fill_color,
            icon: a.icon,
            timestamp,
            duration: a.alert_duration->0,
        }
    }
}

/// The alerts of definition `a`: one for each of its timestamps, in order.
pub open spec fn alerts_of<S, C>(a: TimerAlert<S, C>) -> Seq<TaimiAlert<S, C>> {
    a.timestamps@.map_values(|t: S| alert_at(a, t))
}

impl<S: Copy, C: Copy> TimerAlert<S, C> {
    /// Whether this is a warning or an alert.
    pub fn kind(&self) -> (r: TimerAlertType)
        requires
            alert_kind_defined(*self),
        ensures
            r == alert_kind(*self),
    {
        match (&self.warning, &self.alert) {
            (Some(_warn), None) => TimerAlertType::Warning,
            _ => TimerAlertType::Alert,
        }
    }

    /// The alerts this definition yields, one for each timestamp.
    pub fn get_alerts(&self) -> (r: Vec<TaimiAlert<S, C>>)
        requires
            alert_well_formed(*self),
        ensures
            r@ == alerts_of(*self),
    {
        let kind = self.kind();
        let (text, colour, duration) = match kind {
            TimerAlertType::Warning => {
                let text = match &self.warning {
                    Some(t) => t,
                    None => {
                        proof {
                            assert(false);
                        }
                        return Vec::new();
                    },
                };
                let duration = match self.warning_duration {
                    Some(d) => d,
                    None => {
                        proof {
                            assert(false);
                        }
                        return Vec::new();
                    },
                };
                (text, self.warning_color, duration)
            },
            TimerAlertType::Alert => {
                let text = match &self.alert {
                    Some(t) => t,
                    None => {
                        proof {
                            assert(false);
                        }
                        return Vec::new();
                    },
                };
                let duration = match self.alert_duration {
                    Some(d) => d,
                    None => {
                        proof {
                            assert(false);
                        }
                        return Vec::new();
                    },
                };
                (text, self.alert_color, duration)
            },
        };
        let mut r: Vec<TaimiAlert<S, C>> = Vec::new();
        let n = self.timestamps.len();
        let mut i: usize = 0;
        while i < n
            invariant
                n == self.timestamps@.len(),
                i <= n,
                alert_well_formed(*self),
                kind == alert_kind(*self),
                kind == TimerAlertType::Warning ==> text == self.warning->0 && colour == self.warning_color
                    && duration == self.warning_duration->0,
                kind == TimerAlertType::Alert ==> text == self.alert->0 && colour == self.alert_color
                    && duration == self.alert_duration->0,
                r@.len() == i,
                forall|j: int| 0 <= j < i ==> #[trigger] r@[j] == alert_at(*self, self.timestamps@[j]),
            decreases n - i,
        {
            let timestamp = self.timestamps[i];
            r.push(
                TaimiAlert {
                    kind,
                    text: text.clone(),
                    colour,
                    duration,
                    fill_colour: self.fill_color,
                    timestamp,
                    icon: clone_opt_string(&self.icon),
                },
            );
            i = i + 1;
        }
        assert(r@ =~= alerts_of(*self));
        r
    }
}

/// Each alert yielded by a definition carries the definition's kind and the
/// timestamp it was yielded for.
pub proof fn lemma_alerts_follow_timestamps<S, C>(a: TimerAlert<S, C>, i: int)
    requires
        alert_well_formed(a),
        0 <= i < a.timestamps@.len(),
    ensures
        alerts_of(a).len() == a.timestamps@.len(),
        alerts_of(a)[i].kind == alert_kind(a),
        alerts_of(a)[i].timestamp == a.timestamps@[i],
{
}

/// What a timer action does.
#[derive(Clone, Copy, Debug, PartialEq, Eq, Structural)]
pub enum TimerActionType {
    SkipTime,
}

impl Default for TimerActionType {
    fn default() -> (r: Self)
        ensures
            r == TimerActionType::SkipTime,
    {
        TimerActionType::SkipTime
    }
}

/// An action a timer phase takes when its trigger fires.
#[derive(Debug)]
pub struct TimerAction<P, S> {
    pub name: String,
    pub kind: TimerActionType,
    pub sets: Option<Vec<String>>,
    pub trigger: TimerTrigger<P, S>,
}

/// A marker a timer phase places in the world.
#[derive(Debug)]
pub struct TimerMarker<P, S> {
    pub position: P,
    pub size: Option<S>,
    pub fade_center: bool,
    pub opacity: Option<S>,
    pub texture: String,
    pub duration: S,
    pub timestamps: Option<Vec<S>>,
}

/// A phase of a timer: what starts and finishes it and what it shows.
#[derive(Debug)]
pub struct TimerPhase<P, S, C> {
    pub name: String,
    pub start: TimerTrigger<P, S>,
    pub finish: Option<TimerTrigger<P, S>>,
    pub alerts: Vec<TimerAlert<S, C>>,
    pub actions: Vec<TimerAction<P, S>>,
}

/// The alerts of a list of definitions, in order.
pub open spec fn all_alerts<S, C>(defs: Seq<TimerAlert<S, C>>) -> Seq<TaimiAlert<S, C>>
    decreases defs.len(),
{
    if defs.len() == 0 {
        Seq::empty()
    } else {
        all_alerts(defs.drop_last()) + alerts_of(defs.last())
    }
}

impl<P, S: Copy, C: Copy> TimerPhase<P, S, C> {
    /// Every alert of the phase, definition after definition.
    pub fn get_alerts(&self) -> (r: Vec<TaimiAlert<S, C>>)
        requires
            forall|i: int| 0 <= i < self.alerts@.len() ==> alert_well_formed(#[trigger] self.alerts@[i]),
        ensures
            r@ == all_alerts(self.alerts@),
    {
        let mut r: Vec<TaimiAlert<S, C>> = Vec::new();
        let n = self.alerts.len();
        let mut i: usize = 0;
        while i < n
            invariant
                n == self.alerts@.len(),
                i <= n,
                forall|i: int| 0 <= i < self.alerts@.len() ==> alert_well_formed(#[trigger] self.alerts@[i]),
                r@ == all_alerts(self.alerts@.subrange(0, i as int)),
            decreases n - i,
        {
            let mut more = self.alerts[i].get_alerts();
            proof {
                assert(self.alerts@.subrange(0, i + 1).drop_last() =~= self.alerts@.subrange(0, i as int));
            }
            r.append(&mut more);
            i = i + 1;
        }
        assert(self.alerts@.subrange(0, n as int) =~= self.alerts@);
        r
    }
}

/// A timer definition for one map.
#[derive(Debug)]
pub struct TimerFile<P, S, C> {
    pub id: String,
    pub name: String,
    pub category: String,
    pub description: String,
    pub author: String,
    pub icon: String,
    pub map_id: u32,
    pub reset: TimerTrigger<P, S>,
    pub phases: Vec<TimerPhase<P, S, C>>,
}

/// `s` with each line break turned into a space.
pub open spec fn one_line(s: Seq<char>) -> Seq<char> {
    s.map_values(|c: char| if c == '\n' { ' ' } else { c })
}

impl<P, S, C> TimerFile<P, S, C> {
    /// The timer's name on one line: each line break becomes a space.
    pub fn name(&self) -> (r: String)
        ensures
            r@ == one_line(self.name@),
    {
        let mut r = String::new();
        let n = self.name.unicode_len();
        let mut i: usize = 0;
        while i < n
            invariant
                n == self.name@.len(),
                i <= n,
                r@ == one_line(self.name@.subrange(0, i as int)),
            decreases n - i,
        {
            let c = self.name.as_str().get_char(i);
            let d = if c == '\n' { ' ' } else { c };
            push_char(&mut r, d);
            assert(one_line(self.name@.subrange(0, i + 1)) =~= one_line(self.name@.subrange(0, i as int)).push(d));
            i = i + 1;
        }
        assert(self.name@.subrange(0, n as int) =~= self.name@);
        r
    }
}

/// `String::push`: appends one character.
#[verifier::external_body]
pub(crate) fn push_char(s: &mut String, c: char)
    ensures
        final(s)@ == old(s)@.push(c),
{
    s.push(c);
}

} // verus!
