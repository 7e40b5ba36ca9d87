//! The application: the keybinding table, the navigation state, and the channel
//! on which it asks the worker to change a display.
use vstd::prelude::*;
use std::sync::mpsc::Sender;
use crate::app::actions::{Action, Actions, conflict_free, resolve};
use crate::app::state::{AppState, AppStateView};
use crate::disp_mgr::disp::DispView;
use crate::disp_mgr::DispMgr;
use crate::inputs::key::Key;
use crate::inputs::InputEvent;
use crate::io::IoEvent;

pub mod actions;
pub mod state;
pub mod ui;

verus! {

/// The sending half of a channel of the standard library. Nothing is known of
/// what it holds.
#[verifier::external_type_specification]
#[verifier::external_body]
#[verifier::reject_recursive_types(T)]
pub struct ExSender<T>(Sender<T>);

/// Hands `event` to `Sender::send` of the standard library and tells whether it
/// was taken. It is not taken when the receiving half of the channel is gone,
/// which nothing here can foresee: the contract is silent on the outcome.
#[verifier::external_body]
fn send_event(io_tx: &Sender<IoEvent>, event: IoEvent) -> (sent: bool) {
    io_tx.send(event).is_ok()
}

/// What the main loop is to do after an input.
#[derive(Debug, Clone, Copy, PartialEq, Eq, Structural)]
pub enum AppReturn {
    Exit,
    Continue,
}

/// The actions that are enabled before the registry is known.
pub open spec fn startup_actions() -> Seq<Action> {
    seq![Action::Quit]
}

/// The actions that are enabled once the registry is known.
pub open spec fn running_actions() -> Seq<Action> {
    seq![
        Action::Quit,
        Action::MoveRight,
        Action::MoveLeft,
        Action::MoveUp,
        Action::MoveDown,
        Action::TabRight,
        Action::TabLeft,
    ]
}

/// What the main loop is to do after the action that a key resolved to: leave
/// on `Quit`, go on otherwise, and go on where the key resolved to nothing.
pub open spec fn return_after(found: Option<Action>) -> AppReturn {
    if found == Some(Action::Quit) {
        AppReturn::Exit
    } else {
        AppReturn::Continue
    }
}

/// No key is claimed by two of the actions that are enabled at the start, nor by
/// two of those that are enabled once the registry is known.
pub proof fn lemma_standard_actions_conflict_free()
    ensures
        conflict_free(startup_actions()),
        conflict_free(running_actions()),
{
}

/// The application.
pub struct App {
    io_tx: Sender<IoEvent>,
    actions: Actions,
    is_loading: bool,
    pub state: AppState,
}

/// The application as a plain value, but for the channel to the worker.
pub struct AppView {
    /// The enabled actions.
    pub actions: Seq<Action>,
    /// Whether a request to the worker is under way.
    pub is_loading: bool,
    /// The navigation state.
    pub state: AppStateView,
}

impl View for App {
    type V = AppView;

    closed spec fn view(&self) -> AppView {
        AppView { actions: self.actions@, is_loading: self.is_loading, state: self.state@ }
    }
}

impl AppView {
    /// The enabled action that `key` triggers.
    pub open spec fn found(self, key: Key) -> Option<Action> {
        resolve(self.actions, key)
    }

    /// What pressing `key` asks of the worker.
    pub open spec fn intent(self, key: Key) -> Option<IoEvent> {
        match self.found(key) {
            Some(action) => self.state.intent(action),
            None => None,
        }
    }

    /// The application after `key` was pressed. `sent` tells whether the channel
    /// took what the key asks of the worker, and counts only where it asks
    /// something.
    pub open spec fn after_key(self, key: Key, sent: bool) -> AppView {
        AppView {
            actions: self.actions,
            is_loading: if self.intent(key) is Some {
                sent
            } else {
                self.is_loading
            },
            state: match self.found(key) {
                Some(action) => self.state.after(action),
                None => self.state,
            },
        }
    }

    /// The application once it starts to show `registry`.
    pub open spec fn initialize(self, registry: Seq<DispView>) -> AppView {
        AppView {
            actions: running_actions(),
            is_loading: self.is_loading,
            state: AppStateView::initialize(registry),
        }
    }
}

impl App {
    /// The channel to the worker.
    pub closed spec fn spec_io_tx(&self) -> Sender<IoEvent> {
        self.io_tx
    }

    /// The application before the registry is known: it can be left, and that is
    /// all. `io_tx` is the channel on which the worker listens.
    pub fn new(io_tx: Sender<IoEvent>) -> (app: Self)
        ensures
            app@ == (AppView {
                actions: startup_actions(),
                is_loading: false,
                state: AppStateView::Uninit,
            }),
            app.spec_io_tx() == io_tx,
    {
        let enabled = vec![Action::Quit];
        proof {
            assert(enabled@ =~= startup_actions());
            lemma_standard_actions_conflict_free();
        }
        App {
            io_tx,
            actions: Actions::from(enabled),
            is_loading: false,
            state: AppState::default(),
        }
    }

    /// Acts on the key `key`: resolves it to the enabled action that it triggers,
    /// makes the step that the action stands for, and sends the worker what the
    /// action asks of it. A key that triggers no enabled action changes nothing.
    ///
    /// Where something is sent, `is_loading` tells afterwards whether the channel
    /// took it.
    pub fn do_action(&mut self, key: Key) -> (ret: AppReturn)
        ensures
            ret == return_after(old(self)@.found(key)),
            final(self)@ == old(self)@.after_key(key, final(self)@.is_loading),
            final(self).spec_io_tx() == old(self).spec_io_tx(),
            old(self)@.state.wf() ==> final(self)@.state.wf(),
    {
        match self.actions.find(key) {
            Some(action) => {
                match action {
                    Action::Quit => AppReturn::Exit,
                    Action::MoveUp => {
                        self.state.prev_prop();
                        AppReturn::Continue
                    },
                    Action::MoveDown => {
                        self.state.next_prop();
                        AppReturn::Continue
                    },
                    Action::TabRight => {
                        self.state.tab_right();
                        AppReturn::Continue
                    },
                    Action::TabLeft => {
                        self.state.tab_left();
                        AppReturn::Continue
                    },
                    Action::MoveRight => {
                        if let Some(intent) = self.state.move_right() {
                            self.dispatch(intent);
                        }
                        AppReturn::Continue
                    },
                    Action::MoveLeft => {
                        if let Some(intent) = self.state.move_left() {
                            self.dispatch(intent);
                        }
                        AppReturn::Continue
                    },
                    Action::Scale(level) => {
                        if let Some(intent) = self.state.scale_to(level) {
                            self.dispatch(intent);
                        }
                        AppReturn::Continue
                    },
                }
            },
            None => AppReturn::Continue,
        }
    }

    /// What pressing `key` would ask of the worker, if anything.
    pub fn intent(&self, key: Key) -> (intent: Option<IoEvent>)
        ensures
            intent == self@.intent(key),
    {
        match self.actions.find(key) {
            Some(action) => self.state.intent(action),
            None => None,
        }
    }

    /// Acts on a tick of the clock: there is nothing to do but to go on.
    pub fn update_on_tick(&mut self) -> (ret: AppReturn)
        ensures
            ret == AppReturn::Continue,
            *final(self) == *old(self),
    {
        AppReturn::Continue
    }

    /// One turn of the main loop: acts on a key as `do_action` does and on a tick
    /// as `update_on_tick` does.
    pub fn handle_input(&mut self, event: InputEvent) -> (ret: AppReturn)
        ensures
            match event {
                InputEvent::Input(key) => {
                    &&& ret == return_after(old(self)@.found(key))
                    &&& final(self)@ == old(self)@.after_key(key, final(self)@.is_loading)
                    &&& final(self).spec_io_tx() == old(self).spec_io_tx()
                },
                InputEvent::Tick => ret == AppReturn::Continue && *final(self) == *old(self),
            },
            old(self)@.state.wf() ==> final(self)@.state.wf(),
    {
        match event {
            InputEvent::Input(key) => self.do_action(key),
            InputEvent::Tick => self.update_on_tick(),
        }
    }

    /// Marks the application as busy once `sent` tells that the channel took a
    /// request, and as idle once it tells that it did not.
    pub fn dispatched(&mut self, sent: bool)
        ensures
            final(self)@ == (AppView { is_loading: sent, ..old(self)@ }),
            final(self).spec_io_tx() == old(self).spec_io_tx(),
    {
        self.is_loading = sent;
    }

    /// Sends `action` to the worker. The application is busy from then on, unless
    /// the channel did not take the request: then it is idle, and the result is
    /// `false`.
    pub fn dispatch(&mut self, action: IoEvent) -> (sent: bool)
        ensures
            final(self)@ == (AppView { is_loading: sent, ..old(self)@ }),
            final(self).spec_io_tx() == old(self).spec_io_tx(),
    {
        self.is_loading = true;
        let sent = send_event(&self.io_tx, action);
        self.dispatched(sent);
        sent
    }

    /// The keybinding table.
    pub fn actions(&self) -> (table: &Actions)
        ensures
            table@ == self@.actions,
    {
        &self.actions
    }

    /// The navigation state.
    pub fn state(&self) -> (state: &AppState)
        ensures
            state@ == self@.state,
    {
        &self.state
    }

    /// Whether a request to the worker is under way.
    pub fn is_loading(&self) -> (busy: bool)
        ensures
            busy == self@.is_loading,
    {
        self.is_loading
    }

    /// Starts to show the registry `disp_mgr`: enables the actions that move the
    /// focus, change the tab and change a value, and shows the first tab.
    pub fn initialize(&mut self, disp_mgr: DispMgr)
        ensures
            final(self)@ == old(self)@.initialize(disp_mgr@),
            final(self)@.state.wf(),
            final(self).spec_io_tx() == old(self).spec_io_tx(),
    {
        let enabled = vec![
            Action::Quit,
            Action::MoveRight,
            Action::MoveLeft,
            Action::MoveUp,
            Action::MoveDown,
            Action::TabRight,
            Action::TabLeft,
        ];
        proof {
            lemma_standard_actions_conflict_free();
        }
        self.actions = Actions::from(enabled);
        self.state = AppState::initialize(disp_mgr);
    }

    /// Takes over the registry from the worker, as `AppState::set_disp_mgr` does.
    pub fn set_disp_mgr(&mut self, disp_mgr: DispMgr)
        ensures
            final(self)@ == (AppView {
                state: old(self)@.state.set_disp_mgr(disp_mgr@),
                ..old(self)@
            }),
            final(self)@.state.wf(),
            final(self).spec_io_tx() == old(self).spec_io_tx(),
    {
        self.state.set_disp_mgr(disp_mgr);
    }

    /// Marks the application as idle: the worker is done with a request.
    pub fn loaded(&mut self)
        ensures
            final(self)@ == (AppView { is_loading: false, ..old(self)@ }),
            final(self).spec_io_tx() == old(self).spec_io_tx(),
    {
        self.is_loading = false;
    }
}

} // verus!
