//! Where the user is: which tab is shown and which property has the focus.
use vstd::prelude::*;
use vstd::arithmetic::div_mod::{lemma_mod_self_0, lemma_small_mod};
use crate::app::actions::Action;
use crate::disp_mgr::disp::{DispProp, DispView, lemma_prop_cycle};
use crate::disp_mgr::DispMgr;
use crate::io::IoEvent;

verus! {

/// The state of the application. There is a tab for each display and, after
/// them, one for diagnostics, whose index is the number of displays.
#[derive(Debug, PartialEq, Eq)]
pub enum AppState {
    /// The registry is not known yet.
    Uninit,
    Initialized {
        /// The tab that is shown.
        tab_index: usize,
        /// The property that has the focus.
        focused_prop: DispProp,
        /// How many displays the registry holds.
        num_disps: usize,
        /// The registry as the worker last handed it over.
        disp_mgr: DispMgr,
    },
}

/// The state of the application as a plain value.
pub enum AppStateView {
    Uninit,
    Initialized {
        tab_index: usize,
        focused_prop: DispProp,
        num_disps: usize,
        disp_mgr: Seq<DispView>,
    },
}

impl View for AppState {
    type V = AppStateView;

    open spec fn view(&self) -> AppStateView {
        match self {
            AppState::Uninit => AppStateView::Uninit,
            AppState::Initialized { tab_index, focused_prop, num_disps, disp_mgr } => {
                AppStateView::Initialized {
                    tab_index: *tab_index,
                    focused_prop: *focused_prop,
                    num_disps: *num_disps,
                    disp_mgr: disp_mgr@,
                }
            },
        }
    }
}

impl AppStateView {
    /// The tab index is that of a display or of the diagnostics tab, and the
    /// number of displays is that of the registry.
    pub open spec fn wf(self) -> bool {
        match self {
            AppStateView::Uninit => true,
            AppStateView::Initialized { tab_index, num_disps, disp_mgr, .. } => {
                tab_index <= num_disps && num_disps == disp_mgr.len()
            },
        }
    }

    /// The state in which the application starts to show `registry`: the first
    /// tab, with the focus on the brightness.
    pub open spec fn initialize(registry: Seq<DispView>) -> AppStateView {
        AppStateView::Initialized {
            tab_index: 0,
            focused_prop: DispProp::Brightness,
            num_disps: registry.len() as usize,
            disp_mgr: registry,
        }
    }

    /// The state with the next tab shown; after the diagnostics tab comes the
    /// first.
    pub open spec fn tab_right(self) -> AppStateView {
        match self {
            AppStateView::Uninit => self,
            AppStateView::Initialized { tab_index, focused_prop, num_disps, disp_mgr } => {
                AppStateView::Initialized {
                    tab_index: ((tab_index + 1) % (num_disps + 1)) as usize,
                    focused_prop,
                    num_disps,
                    disp_mgr,
                }
            },
        }
    }

    /// The state with the previous tab shown; before the first comes the
    /// diagnostics tab.
    pub open spec fn tab_left(self) -> AppStateView {
        match self {
            AppStateView::Uninit => self,
            AppStateView::Initialized { tab_index, focused_prop, num_disps, disp_mgr } => {
                AppStateView::Initialized {
                    tab_index: if tab_index == 0 {
                        num_disps
                    } else {
                        (tab_index - 1) as usize
                    },
                    focused_prop,
                    num_disps,
                    disp_mgr,
                }
            },
        }
    }

    /// The state with the focus on the following property.
    pub open spec fn next_prop(self) -> AppStateView {
        match self {
            AppStateView::Uninit => self,
            AppStateView::Initialized { tab_index, focused_prop, num_disps, disp_mgr } => {
                AppStateView::Initialized {
                    tab_index,
                    focused_prop: focused_prop.succ(),
                    num_disps,
                    disp_mgr,
                }
            },
        }
    }

    /// The state with the focus on the preceding property.
    pub open spec fn prev_prop(self) -> AppStateView {
        match self {
            AppStateView::Uninit => self,
            AppStateView::Initialized { tab_index, focused_prop, num_disps, disp_mgr } => {
                AppStateView::Initialized {
                    tab_index,
                    focused_prop: focused_prop.pred(),
                    num_disps,
                    disp_mgr,
                }
            },
        }
    }

    /// The display whose tab is shown and the property in focus, unless the
    /// registry is not known or the diagnostics tab is shown.
    pub open spec fn target(self) -> Option<(usize, DispProp)> {
        match self {
            AppStateView::Initialized { tab_index, focused_prop, num_disps, .. } => {
                if tab_index < num_disps {
                    Some((tab_index, focused_prop))
                } else {
                    None
                }
            },
            AppStateView::Uninit => None,
        }
    }

    /// What the worker is asked when the user moves right: to raise the property
    /// in focus on the display shown.
    pub open spec fn move_right(self) -> Option<IoEvent> {
        match self.target() {
            Some((index, prop)) => Some(IoEvent::DeviceIncrement(index, prop)),
            None => None,
        }
    }

    /// What the worker is asked when the user moves left: to lower the property
    /// in focus on the display shown.
    pub open spec fn move_left(self) -> Option<IoEvent> {
        match self.target() {
            Some((index, prop)) => Some(IoEvent::DeviceDecrement(index, prop)),
            None => None,
        }
    }

    /// What the worker is asked when the user picks a scale level: to set the
    /// property in focus on the display shown to that level.
    pub open spec fn scale_to(self, level: u8) -> Option<IoEvent> {
        match self.target() {
            Some((index, prop)) => Some(IoEvent::DeviceScale(index, prop, level)),
            None => None,
        }
    }

    /// The state once the worker has handed over `registry`. The tab shown stays
    /// the same where the new registry still has it, and is the diagnostics tab
    /// where it does not.
    pub open spec fn set_disp_mgr(self, registry: Seq<DispView>) -> AppStateView {
        match self {
            AppStateView::Uninit => self,
            AppStateView::Initialized { tab_index, focused_prop, .. } => {
                AppStateView::Initialized {
                    tab_index: if tab_index <= registry.len() {
                        tab_index
                    } else {
                        registry.len() as usize
                    },
                    focused_prop,
                    num_disps: registry.len() as usize,
                    disp_mgr: registry,
                }
            },
        }
    }

    /// The state after `action`. Only moving the focus and changing the tab
    /// change the state; what changes a display is left to the worker.
    pub open spec fn after(self, action: Action) -> AppStateView {
        match action {
            Action::MoveUp => self.prev_prop(),
            Action::MoveDown => self.next_prop(),
            Action::TabRight => self.tab_right(),
            Action::TabLeft => self.tab_left(),
            _ => self,
        }
    }

    /// What `action` asks of the worker in this state.
    pub open spec fn intent(self, action: Action) -> Option<IoEvent> {
        match action {
            Action::MoveRight => self.move_right(),
            Action::MoveLeft => self.move_left(),
            Action::Scale(level) => self.scale_to(level),
            _ => None,
        }
    }

    /// The state after `times` steps to the right.
    pub open spec fn tab_right_times(self, times: nat) -> AppStateView
        decreases times,
    {
        if times == 0 {
            self
        } else {
            self.tab_right_times((times - 1) as nat).tab_right()
        }
    }

    /// The state after `times` steps to the left.
    pub open spec fn tab_left_times(self, times: nat) -> AppStateView
        decreases times,
    {
        if times == 0 {
            self
        } else {
            self.tab_left_times((times - 1) as nat).tab_left()
        }
    }
}

/// One step to the right from a tab of a valid state leads to the tab after it,
/// and from the diagnostics tab to the first.
proof fn lemma_tab_right_step(tab_index: usize, num_disps: usize)
    requires
        tab_index <= num_disps,
    ensures
        (tab_index + 1) % (num_disps + 1) == if tab_index == num_disps {
            0
        } else {
            tab_index + 1
        },
{
    if tab_index == num_disps {
        lemma_mod_self_0(num_disps + 1);
    } else {
        lemma_small_mod((tab_index + 1) as nat, (num_disps + 1) as nat);
    }
}

/// Where a number of steps to the right, no more than there are tabs, leads to.
proof fn lemma_tab_right_times(state: AppStateView, times: nat)
    requires
        state.wf(),
        state is Initialized,
        times <= state->num_disps + 1,
    ensures
        state.tab_right_times(times) == (AppStateView::Initialized {
            tab_index: (if state->tab_index + times <= state->num_disps {
                state->tab_index + times
            } else {
                state->tab_index + times - (state->num_disps + 1)
            }) as usize,
            focused_prop: state->focused_prop,
            num_disps: state->num_disps,
            disp_mgr: state->disp_mgr,
        }),
    decreases times,
{
    if times > 0 {
        let before = state.tab_right_times((times - 1) as nat);
        lemma_tab_right_times(state, (times - 1) as nat);
        lemma_tab_right_step(before->tab_index, state->num_disps);
    }
}

/// Where a number of steps to the left, no more than there are tabs, leads to.
proof fn lemma_tab_left_times(state: AppStateView, times: nat)
    requires
        state.wf(),
        state is Initialized,
        times <= state->num_disps + 1,
    ensures
        state.tab_left_times(times) == (AppStateView::Initialized {
            tab_index: (if times <= state->tab_index {
                state->tab_index - times
            } else {
                state->tab_index - times + (state->num_disps + 1)
            }) as usize,
            focused_prop: state->focused_prop,
            num_disps: state->num_disps,
            disp_mgr: state->disp_mgr,
        }),
    decreases times,
{
    if times > 0 {
        lemma_tab_left_times(state, (times - 1) as nat);
    }
}

/// The tabs form a cycle: as many steps to the right as there are tabs, the
/// diagnostics tab among them, lead back to the tab from which they started, and
/// so do as many steps to the left. A step to the left undoes a step to the
/// right.
pub proof fn lemma_tabs_cycle(state: AppStateView)
    requires
        state.wf(),
    ensures
        state matches AppStateView::Initialized { num_disps, .. } ==> state.tab_right_times(
            (num_disps + 1) as nat,
        ) == state && state.tab_left_times((num_disps + 1) as nat) == state,
        state.tab_right().tab_left() == state,
        state.tab_left().tab_right() == state,
        state.tab_right().wf(),
        state.tab_left().wf(),
{
    match state {
        AppStateView::Initialized { tab_index, num_disps, .. } => {
            lemma_tab_right_times(state, (num_disps + 1) as nat);
            lemma_tab_left_times(state, (num_disps + 1) as nat);
            lemma_tab_right_step(tab_index, num_disps);
            lemma_tab_right_step(state.tab_left()->tab_index, num_disps);
        },
        AppStateView::Uninit => {},
    }
}

/// The focus moves in a cycle of four: four steps forward lead back to the
/// property from which they started, and so do four steps back. A step back
/// undoes a step forward, and a step forward undoes a step back.
pub proof fn lemma_focus_cycle(state: AppStateView)
    ensures
        state.next_prop().next_prop().next_prop().next_prop() == state,
        state.prev_prop().prev_prop().prev_prop().prev_prop() == state,
        state.next_prop().prev_prop() == state,
        state.prev_prop().next_prop() == state,
{
    match state {
        AppStateView::Initialized { focused_prop, .. } => {
            lemma_prop_cycle(focused_prop);
        },
        AppStateView::Uninit => {},
    }
}

/// On the diagnostics tab, and before the registry is known, moving right or
/// left or picking a scale level asks nothing of the worker; on the tab of a
/// display it asks for that display and the property in focus.
pub proof fn lemma_intent_target(state: AppStateView, level: u8)
    ensures
        state is Uninit || state->tab_index >= state->num_disps ==> state.move_right() is None
            && state.move_left() is None && state.scale_to(level) is None,
        state is Initialized && state->tab_index < state->num_disps ==> state.move_right()
            == Some(IoEvent::DeviceIncrement(state->tab_index, state->focused_prop))
            && state.move_left() == Some(
            IoEvent::DeviceDecrement(state->tab_index, state->focused_prop),
        ) && state.scale_to(level) == Some(
            IoEvent::DeviceScale(state->tab_index, state->focused_prop, level),
        ),
{
}

impl Clone for AppState {
    fn clone(&self) -> (copy: Self)
        ensures
            copy@ == self@,
    {
        match self {
            AppState::Uninit => AppState::Uninit,
            AppState::Initialized { tab_index, focused_prop, num_disps, disp_mgr } => {
                AppState::Initialized {
                    tab_index: *tab_index,
                    focused_prop: *focused_prop,
                    num_disps: *num_disps,
                    disp_mgr: disp_mgr.clone(),
                }
            },
        }
    }
}

impl Default for AppState {
    fn default() -> (state: Self)
        ensures
            state@ == AppStateView::Uninit,
    {
        AppState::Uninit
    }
}

impl AppState {
    /// The state in which the application starts to show `disp_mgr`: the first
    /// tab, with the focus on the brightness. Where the registry is empty, the
    /// first tab is the diagnostics tab.
    pub fn initialize(disp_mgr: DispMgr) -> (state: Self)
        ensures
            state@ == AppStateView::initialize(disp_mgr@),
            state@.wf(),
    {
        let tab_index: usize = 0;
        let focused_prop = DispProp::Brightness;
        let num_disps: usize = disp_mgr.get_num_disps();
        AppState::Initialized { tab_index, focused_prop, num_disps, disp_mgr }
    }

    /// Whether the registry is known.
    pub fn is_initialized(&self) -> (known: bool)
        ensures
            known == (self@ is Initialized),
    {
        match self {
            AppState::Initialized { .. } => true,
            AppState::Uninit => false,
        }
    }

    /// The display whose tab is shown and the property in focus.
    fn target(&self) -> (target: Option<(usize, DispProp)>)
        ensures
            target == self@.target(),
    {
        match self {
            AppState::Initialized { tab_index, focused_prop, num_disps, .. } => {
                if *tab_index < *num_disps {
                    Some((*tab_index, *focused_prop))
                } else {
                    None
                }
            },
            AppState::Uninit => None,
        }
    }

    /// What to ask of the worker when the user moves right. The state itself
    /// does not change: the value is the worker's to raise.
    pub fn move_right(&mut self) -> (intent: Option<IoEvent>)
        ensures
            intent == old(self)@.move_right(),
            *final(self) == *old(self),
    {
        match self.target() {
            Some((index, prop)) => Some(IoEvent::DeviceIncrement(index, prop)),
            None => None,
        }
    }

    /// What to ask of the worker when the user moves left. The state itself
    /// does not change: the value is the worker's to lower.
    pub fn move_left(&mut self) -> (intent: Option<IoEvent>)
        ensures
            intent == old(self)@.move_left(),
            *final(self) == *old(self),
    {
        match self.target() {
            Some((index, prop)) => Some(IoEvent::DeviceDecrement(index, prop)),
            None => None,
        }
    }

    /// What to ask of the worker when the user picks the scale level `level`.
    pub fn scale_to(&self, level: u8) -> (intent: Option<IoEvent>)
        ensures
            intent == self@.scale_to(level),
    {
        match self.target() {
            Some((index, prop)) => Some(IoEvent::DeviceScale(index, prop, level)),
            None => None,
        }
    }

    /// What `action` asks of the worker in this state.
    pub fn intent(&self, action: Action) -> (intent: Option<IoEvent>)
        ensures
            intent == self@.intent(action),
    {
        match self.target() {
            Some((index, prop)) => match action {
                Action::MoveRight => Some(IoEvent::DeviceIncrement(index, prop)),
                Action::MoveLeft => Some(IoEvent::DeviceDecrement(index, prop)),
                Action::Scale(level) => Some(IoEvent::DeviceScale(index, prop, level)),
                _ => None,
            },
            None => None,
        }
    }

    /// Shows the next tab; after the diagnostics tab comes the first.
    pub fn tab_right(&mut self)
        ensures
            final(self)@ == old(self)@.tab_right(),
            old(self)@.wf() ==> final(self)@.wf(),
    {
        match self {
            AppState::Initialized { tab_index, num_disps, .. } => {
                let next: u128 = (*tab_index as u128 + 1) % (*num_disps as u128 + 1);
                *tab_index = next as usize;
            },
            AppState::Uninit => {},
        }
    }

    /// Shows the previous tab; before the first comes the diagnostics tab.
    pub fn tab_left(&mut self)
        ensures
            final(self)@ == old(self)@.tab_left(),
            old(self)@.wf() ==> final(self)@.wf(),
    {
        match self {
            AppState::Initialized { tab_index, num_disps, .. } => {
                if *tab_index == 0 {
                    *tab_index = *num_disps;
                } else {
                    *tab_index = *tab_index - 1;
                }
            },
            AppState::Uninit => {},
        }
    }

    /// The index of the tab that is shown.
    pub fn tab_index(&self) -> (index: Option<usize>)
        ensures
            index == (match self@ {
                AppStateView::Initialized { tab_index, .. } => Some(tab_index),
                AppStateView::Uninit => None,
            }),
    {
        match self {
            AppState::Initialized { tab_index, .. } => Some(*tab_index),
            AppState::Uninit => None,
        }
    }

    /// A copy of the registry as the worker last handed it over.
    pub fn disp_mgr(&self) -> (registry: Option<DispMgr>)
        ensures
            match self@ {
                AppStateView::Initialized { disp_mgr, .. } => registry is Some
                    && registry->0@ == disp_mgr,
                AppStateView::Uninit => registry is None,
            },
    {
        match self {
            AppState::Initialized { disp_mgr, .. } => Some(disp_mgr.clone()),
            AppState::Uninit => None,
        }
    }

    /// The property that has the focus.
    pub fn focused_prop(&self) -> (prop: Option<DispProp>)
        ensures
            prop == (match self@ {
                AppStateView::Initialized { focused_prop, .. } => Some(focused_prop),
                AppStateView::Uninit => None,
            }),
    {
        match self {
            AppState::Initialized { focused_prop, .. } => Some(*focused_prop),
            AppState::Uninit => None,
        }
    }

    /// How many displays there are.
    pub fn num_disps(&self) -> (count: Option<usize>)
        ensures
            count == (match self@ {
                AppStateView::Initialized { num_disps, .. } => Some(num_disps),
                AppStateView::Uninit => None,
            }),
    {
        match self {
            AppState::Initialized { num_disps, .. } => Some(*num_disps),
            AppState::Uninit => None,
        }
    }

    /// Takes over the registry from the worker. A tab that the new registry no
    /// longer has gives way to the diagnostics tab.
    pub fn set_disp_mgr(&mut self, new_disp_mgr: DispMgr)
        ensures
            final(self)@ == old(self)@.set_disp_mgr(new_disp_mgr@),
            final(self)@.wf(),
    {
        match self {
            AppState::Initialized { tab_index, num_disps, disp_mgr, .. } => {
                let count: usize = new_disp_mgr.get_num_disps();
                if *tab_index > count {
                    *tab_index = count;
                }
                *num_disps = count;
                *disp_mgr = new_disp_mgr;
            },
            AppState::Uninit => {},
        }
    }

    /// Moves the focus to the following property.
    pub fn next_prop(&mut self)
        ensures
            final(self)@ == old(self)@.next_prop(),
            old(self)@.wf() ==> final(self)@.wf(),
    {
        match self {
            AppState::Initialized { focused_prop, .. } => {
                focused_prop.next();
            },
            AppState::Uninit => {},
        }
    }

    /// Moves the focus to the preceding property.
    pub fn prev_prop(&mut self)
        ensures
            final(self)@ == old(self)@.prev_prop(),
            old(self)@.wf() ==> final(self)@.wf(),
    {
        match self {
            AppState::Initialized { focused_prop, .. } => {
                focused_prop.prev();
            },
            AppState::Uninit => {},
        }
    }
}

} // verus!
