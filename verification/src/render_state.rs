use vstd::prelude::*;
use crate::controller::ControllerEvent;
use crate::keyed::KeyedList;
use crate::render::DataSourceTabState;
use crate::settings::{ProgressBarSettings, ProgressBarStyleChange, apply_style_change};

verus! {

/// The phases of `phases` whose timer is not `timer`, in order.
pub open spec fn without_timer<S>(phases: Seq<(usize, S)>, timer: usize) -> Seq<(usize, S)>
    decreases phases.len(),
{
    if phases.len() == 0 {
        Seq::empty()
    } else {
        let rest = without_timer(phases.drop_last(), timer);
        if phases.last().0 == timer {
            rest
        } else {
            rest.push(phases.last())
        }
    }
}

/// After timer `timer` is reset, none of its phases is shown, and every
/// phase of another timer still is.
pub proof fn lemma_reset_removes_only_its_phases<S>(phases: Seq<(usize, S)>, timer: usize)
    ensures
        forall|i: int| 0 <= i < without_timer(phases, timer).len() ==> (#[trigger] without_timer(phases, timer)[i]).0
            != timer,
        forall|i: int| 0 <= i < phases.len() && (#[trigger] phases[i]).0 != timer ==> without_timer(phases, timer).contains(
            phases[i],
        ),
    decreases phases.len(),
{
    if phases.len() > 0 {
        let init = phases.drop_last();
        lemma_reset_removes_only_its_phases(init, timer);
        let rest = without_timer(init, timer);
        let w = without_timer(phases, timer);
        assert forall|i: int| 0 <= i < phases.len() && (#[trigger] phases[i]).0 != timer implies w.contains(phases[i]) by {
            if i < phases.len() - 1 {
                assert(init[i] == phases[i]);
                let k = choose|k: int| 0 <= k < rest.len() && rest[k] == init[i];
                assert(w[k] == rest[k]);
            } else {
                assert(w[w.len() - 1] == phases[i]);
            }
        }
    }
}

/// The timer window: whether it is open, how its progress bars are drawn,
/// and the running phases, each with the index of its timer.
pub struct TimerWindowState<S, H> {
    pub open: bool,
    pub progress_bar: ProgressBarSettings<H>,
    pub phase_states: Vec<(usize, S)>,
}

impl<S, H: Copy> TimerWindowState<S, H> {
    /// A closed window with no phases.
    pub fn new(progress_bar: ProgressBarSettings<H>) -> (r: Self)
        ensures
            !r.open,
            r.progress_bar == progress_bar,
            r.phase_states@.len() == 0,
    {
        TimerWindowState { open: false, progress_bar, phase_states: Vec::new() }
    }

    /// Takes over whether the saved style draws the stock progress bar.
    pub fn sync_stock(&mut self, saved: bool)
        ensures
            final(self).progress_bar == (ProgressBarSettings { stock: saved, ..old(self).progress_bar }),
            final(self).open == old(self).open,
            final(self).phase_states == old(self).phase_states,
    {
        self.progress_bar.stock = saved;
    }

    /// A control of the configuration tab changed the progress bar style:
    /// the window draws with it at once, except a new font, which comes with
    /// the saved style; the request that saves the change is returned.
    pub fn change_style<P>(&mut self, change: ProgressBarStyleChange<H>) -> (r: ControllerEvent<P, H>)
        ensures
            final(self).progress_bar == (match change {
                ProgressBarStyleChange::Font(_) => old(self).progress_bar,
                _ => apply_style_change(old(self).progress_bar, change),
            }),
            final(self).open == old(self).open,
            final(self).phase_states == old(self).phase_states,
            r == ControllerEvent::<P, H>::ProgressBarStyle(change),
    {
        match change {
            ProgressBarStyleChange::Centre(t) => self.progress_bar.centre_after = t,
            ProgressBarStyleChange::Stock(t) => self.progress_bar.stock = t,
            ProgressBarStyleChange::Shadow(t) => self.progress_bar.shadow = t,
            ProgressBarStyleChange::Height(h) => self.progress_bar.height = h,
            ProgressBarStyleChange::Font(_) => {},
        }
        ControllerEvent::ProgressBarStyle(change)
    }

    /// A timer entered a phase: it is shown last.
    pub fn new_phase(&mut self, timer: usize, phase: S)
        ensures
            final(self).phase_states@ == old(self).phase_states@.push((timer, phase)),
            final(self).open == old(self).open,
            final(self).progress_bar == old(self).progress_bar,
    {
        self.phase_states.push((timer, phase));
    }

    /// A timer was reset: its phases are no longer shown; the others keep
    /// their order.
    pub fn remove_phase(&mut self, timer: usize)
        ensures
            final(self).phase_states@ == without_timer(old(self).phase_states@, timer),
            final(self).open == old(self).open,
            final(self).progress_bar == old(self).progress_bar,
    {
        let mut pending: Vec<(usize, S)> = Vec::new();
        std::mem::swap(&mut pending, &mut self.phase_states);
        let ghost all = pending@;
        let mut reversed: Vec<(usize, S)> = Vec::new();
        while pending.len() > 0
            invariant
                reversed@.len() + pending@.len() == all.len(),
                pending@ == all.subrange(0, pending@.len() as int),
                forall|j: int| 0 <= j < reversed@.len() ==> #[trigger] reversed@[j] == all[all.len() - 1 - j],
                self.phase_states@.len() == 0,
                self.open == old(self).open,
                self.progress_bar == old(self).progress_bar,
            decreases pending@.len(),
        {
            let ghost before = pending@;
            let e = pending.pop().unwrap();
            proof {
                assert(pending@ =~= all.subrange(0, pending@.len() as int));
            }
            reversed.push(e);
        }
        let n = reversed.len();
        let mut done: usize = 0;
        proof {
            assert(self.phase_states@ =~= without_timer(all.subrange(0, 0), timer));
        }
        while reversed.len() > 0
            invariant
                n == all.len(),
                reversed@.len() + done == n,
                forall|j: int| 0 <= j < reversed@.len() ==> #[trigger] reversed@[j] == all[all.len() - 1 - j],
                self.phase_states@ == without_timer(all.subrange(0, done as int), timer),
                self.open == old(self).open,
                self.progress_bar == old(self).progress_bar,
            decreases reversed@.len(),
        {
            let ghost before = reversed@;
            let e = reversed.pop().unwrap();
            proof {
                assert(reversed@ =~= before.drop_last());
                assert(e == all[done as int]);
                assert(all.subrange(0, done + 1).drop_last() =~= all.subrange(0, done as int));
            }
            if e.0 != timer {
                self.phase_states.push(e);
            }
            done = done + 1;
        }
        proof {
            assert(all.subrange(0, n as int) =~= all);
        }
    }

    /// All timers were reset: no phase is shown.
    pub fn reset_phases(&mut self)
        ensures
            final(self).phase_states@.len() == 0,
            final(self).open == old(self).open,
            final(self).progress_bar == old(self).progress_bar,
    {
        self.phase_states.clear();
    }

    /// One frame of the window. It is open as the saved settings say, where
    /// they could be read (`saved_open`), else as it was, and its close
    /// button (`closed`) closes it. Where its state changed, it is
    /// remembered and the request that records it in the settings returned.
    pub fn draw<P, HE>(&mut self, saved_open: Option<bool>, closed: bool) -> (r: Option<ControllerEvent<P, HE>>)
        ensures
            ({
                let open = match saved_open {
                    Some(b) => b,
                    None => old(self).open,
                } && !closed;
                &&& final(self).open == open
                &&& final(self).phase_states == old(self).phase_states
                &&& final(self).progress_bar == old(self).progress_bar
                &&& open != old(self).open ==> (r matches Some(ControllerEvent::WindowState(w, state)) && w@
                    == "timers"@ && state == Some(open))
                &&& open == old(self).open ==> r is None
            }),
    {
        let shown = match saved_open {
            Some(b) => b,
            None => self.open,
        };
        let open = shown && !closed;
        if open != self.open {
            self.open = open;
            let window = String::from_str("timers");
            proof {
                reveal_strlit("timers");
            }
            Some(ControllerEvent::WindowState(window, Some(open)))
        } else {
            None
        }
    }
}

/// An alert shown in the middle of the screen, raised by timer `timer`.
#[derive(Debug)]
pub struct TextAlert {
    pub timer: usize,
    pub message: String,
}

/// What the controller tells the render side; timers are named by index.
#[derive(Debug)]
pub enum RenderEvent<S, H> {
    OpenableError(String, String),
    ProgressBarUpdate(ProgressBarSettings<H>),
    CheckingForUpdates(bool),
    AlertStart(TextAlert),
    AlertEnd(usize),
    AlertFeed(usize, S),
    AlertReset(usize),
}

/// What the render side keeps between frames: the timer window, the alert
/// on screen, the errors to show by key, and the data source tab.
pub struct RenderState<S, H> {
    pub timer_window: TimerWindowState<S, H>,
    pub alert: Option<TextAlert>,
    pub state_errors: KeyedList<String>,
    pub data_sources_tab: DataSourceTabState,
}

/// How the render side meets an event: an error is kept under its key; a
/// progress bar style replaces the window's; the update check's state is
/// shown; an alert is shown until its timer ends it or another replaces it;
/// a phase is shown until its timer is reset.
pub open spec fn render_handled<S, H>(pre: RenderState<S, H>, post: RenderState<S, H>, event: RenderEvent<S, H>) -> bool {
    match event {
        RenderEvent::OpenableError(key, err) => {
            &&& post == (RenderState { state_errors: post.state_errors, ..pre })
            &&& post.state_errors@ == pre.state_errors@.insert(key@, err)
        },
        RenderEvent::ProgressBarUpdate(style) => post == (RenderState {
            timer_window: TimerWindowState { progress_bar: style, ..pre.timer_window },
            ..pre
        }),
        RenderEvent::CheckingForUpdates(c) => post == (RenderState {
            data_sources_tab: DataSourceTabState { checking_for_updates: c },
            ..pre
        }),
        RenderEvent::AlertStart(a) => post == (RenderState { alert: Some(a), ..pre }),
        RenderEvent::AlertEnd(t) => post == (RenderState {
            alert: if pre.alert matches Some(a) && a.timer == t {
                None
            } else {
                pre.alert
            },
            ..pre
        }),
        RenderEvent::AlertFeed(t, phase) => {
            &&& post == (RenderState { timer_window: post.timer_window, ..pre })
            &&& post.timer_window.phase_states@ == pre.timer_window.phase_states@.push((t, phase))
            &&& post.timer_window.open == pre.timer_window.open
            &&& post.timer_window.progress_bar == pre.timer_window.progress_bar
        },
        RenderEvent::AlertReset(t) => {
            &&& post == (RenderState { timer_window: post.timer_window, ..pre })
            &&& post.timer_window.phase_states@ == without_timer(pre.timer_window.phase_states@, t)
            &&& post.timer_window.open == pre.timer_window.open
            &&& post.timer_window.progress_bar == pre.timer_window.progress_bar
        },
    }
}

impl<S, H: Copy> RenderState<S, H> {
    /// Nothing shown yet.
    pub fn new(progress_bar: ProgressBarSettings<H>) -> (r: Self)
        ensures
            !r.timer_window.open,
            r.timer_window.progress_bar == progress_bar,
            r.timer_window.phase_states@.len() == 0,
            r.alert is None,
            r.state_errors@ == Map::<Seq<char>, String>::empty(),
            !r.data_sources_tab.checking_for_updates,
    {
        RenderState {
            timer_window: TimerWindowState::new(progress_bar),
            alert: None,
            state_errors: KeyedList::new(),
            data_sources_tab: DataSourceTabState { checking_for_updates: false },
        }
    }

    /// Meets one event from the controller, as `render_handled` states.
    pub fn handle(&mut self, event: RenderEvent<S, H>)
        ensures
            render_handled(*old(self), *final(self), event),
    {
        match event {
            RenderEvent::OpenableError(key, err) => {
                self.state_errors.insert(key, err);
            },
            RenderEvent::ProgressBarUpdate(style) => {
                self.timer_window.progress_bar = style;
            },
            RenderEvent::CheckingForUpdates(c) => {
                self.data_sources_tab.checking_for_updates = c;
            },
            RenderEvent::AlertStart(a) => {
                self.alert = Some(a);
            },
            RenderEvent::AlertEnd(t) => {
                let ends = match &self.alert {
                    Some(a) => a.timer == t,
                    None => false,
                };
                if ends {
                    self.alert = None;
                }
            },
            RenderEvent::AlertFeed(t, phase) => {
                self.timer_window.new_phase(t, phase);
            },
            RenderEvent::AlertReset(t) => {
                self.timer_window.remove_phase(t);
            },
        }
    }
}

} // verus!
