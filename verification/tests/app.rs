use std::sync::mpsc::{channel, Receiver};
use tuib::app::actions::Action;
use tuib::app::state::AppState;
use tuib::app::{App, AppReturn};
use tuib::disp_mgr::disp::DispProp;
use tuib::disp_mgr::DispMgr;
use tuib::inputs::key::Key;
use tuib::inputs::InputEvent;
use tuib::io::IoEvent;

fn running_app(listing: &str) -> (App, Receiver<IoEvent>) {
    let (tx, rx) = channel();
    let mut app = App::new(tx);
    app.initialize(DispMgr::new(listing));
    (app, rx)
}

#[test]
fn new_app_can_only_be_left() {
    let (tx, rx) = channel();
    let mut app = App::new(tx);
    assert_eq!(app.actions().actions(), [Action::Quit].as_slice());
    assert!(!app.is_loading());
    assert_eq!(*app.state(), AppState::Uninit);
    assert_eq!(app.do_action(Key::Char('l')), AppReturn::Continue);
    assert_eq!(app.do_action(Key::Right), AppReturn::Continue);
    assert_eq!(app.do_action(Key::Char('L')), AppReturn::Continue);
    assert_eq!(*app.state(), AppState::Uninit);
    assert!(!app.is_loading());
    assert!(rx.try_recv().is_err());
    assert_eq!(app.do_action(Key::Char('q')), AppReturn::Exit);
}

#[test]
fn initialize_enables_the_running_actions() {
    let (app, _rx) = running_app("A\nB\n");
    assert_eq!(
        app.actions().actions(),
        [
            Action::Quit,
            Action::MoveRight,
            Action::MoveLeft,
            Action::MoveUp,
            Action::MoveDown,
            Action::TabRight,
            Action::TabLeft,
        ]
        .as_slice()
    );
    assert_eq!(*app.state(), AppState::initialize(DispMgr::new("A\nB\n")));
    assert!(!app.is_loading());
}

#[test]
fn initialize_keeps_the_busy_mark() {
    let (tx, _rx) = channel();
    let mut app = App::new(tx);
    assert!(app.dispatch(IoEvent::Initialize));
    assert!(app.is_loading());
    app.initialize(DispMgr::new("A\n"));
    assert!(app.is_loading());
    app.loaded();
    assert!(!app.is_loading());
}

#[test]
fn quit_asks_to_exit() {
    let (mut app, rx) = running_app("A\n");
    let before = app.state().clone();
    assert_eq!(app.do_action(Key::Char('q')), AppReturn::Exit);
    assert_eq!(*app.state(), before);
    assert!(rx.try_recv().is_err());
}

#[test]
fn unbound_key_changes_nothing() {
    let (mut app, rx) = running_app("A\n");
    let before = app.state().clone();
    for key in [Key::Char('x'), Key::Enter, Key::Ctrl('q'), Key::Alt('l'), Key::Char('3'), Key::Unknown] {
        assert_eq!(app.do_action(key), AppReturn::Continue);
    }
    assert_eq!(*app.state(), before);
    assert!(!app.is_loading());
    assert!(rx.try_recv().is_err());
}

#[test]
fn keys_move_the_focus() {
    let (mut app, rx) = running_app("A\n");
    assert_eq!(app.do_action(Key::Char('j')), AppReturn::Continue);
    assert_eq!(app.state().focused_prop(), Some(DispProp::R));
    assert_eq!(app.do_action(Key::Down), AppReturn::Continue);
    assert_eq!(app.state().focused_prop(), Some(DispProp::G));
    assert_eq!(app.do_action(Key::Char('k')), AppReturn::Continue);
    assert_eq!(app.state().focused_prop(), Some(DispProp::R));
    assert_eq!(app.do_action(Key::Up), AppReturn::Continue);
    assert_eq!(app.state().focused_prop(), Some(DispProp::Brightness));
    assert_eq!(app.do_action(Key::Up), AppReturn::Continue);
    assert_eq!(app.state().focused_prop(), Some(DispProp::B));
    assert!(!app.is_loading());
    assert!(rx.try_recv().is_err());
}

#[test]
fn keys_change_the_tab() {
    let (mut app, rx) = running_app("A\nB\n");
    assert_eq!(app.do_action(Key::Char('L')), AppReturn::Continue);
    assert_eq!(app.state().tab_index(), Some(1));
    assert_eq!(app.do_action(Key::Char('.')), AppReturn::Continue);
    assert_eq!(app.state().tab_index(), Some(2));
    assert_eq!(app.do_action(Key::Char('>')), AppReturn::Continue);
    assert_eq!(app.state().tab_index(), Some(0));
    assert_eq!(app.do_action(Key::Char('H')), AppReturn::Continue);
    assert_eq!(app.state().tab_index(), Some(2));
    assert_eq!(app.do_action(Key::Char(',')), AppReturn::Continue);
    assert_eq!(app.state().tab_index(), Some(1));
    assert_eq!(app.do_action(Key::Char('<')), AppReturn::Continue);
    assert_eq!(app.state().tab_index(), Some(0));
    assert!(!app.is_loading());
    assert!(rx.try_recv().is_err());
}

#[test]
fn moving_right_asks_the_worker_to_raise() {
    let (mut app, rx) = running_app("A\nB\n");
    let before = app.state().clone();
    assert_eq!(app.do_action(Key::Char('l')), AppReturn::Continue);
    assert_eq!(rx.try_recv(), Ok(IoEvent::DeviceIncrement(0, DispProp::Brightness)));
    assert!(app.is_loading());
    assert_eq!(*app.state(), before);
    app.loaded();
    app.do_action(Key::Char('L'));
    app.do_action(Key::Char('j'));
    assert_eq!(app.do_action(Key::Right), AppReturn::Continue);
    assert_eq!(rx.try_recv(), Ok(IoEvent::DeviceIncrement(1, DispProp::R)));
    assert!(rx.try_recv().is_err());
}

#[test]
fn moving_left_asks_the_worker_to_lower() {
    let (mut app, rx) = running_app("A\nB\n");
    assert_eq!(app.do_action(Key::Char('h')), AppReturn::Continue);
    assert_eq!(rx.try_recv(), Ok(IoEvent::DeviceDecrement(0, DispProp::Brightness)));
    assert!(app.is_loading());
    app.do_action(Key::Char('k'));
    assert_eq!(app.do_action(Key::Left), AppReturn::Continue);
    assert_eq!(rx.try_recv(), Ok(IoEvent::DeviceDecrement(0, DispProp::B)));
    assert!(rx.try_recv().is_err());
}

#[test]
fn moving_on_the_diagnostics_tab_asks_nothing() {
    let (mut app, rx) = running_app("A\nB\n");
    app.do_action(Key::Char('H'));
    assert_eq!(app.state().tab_index(), Some(2));
    assert_eq!(app.do_action(Key::Char('l')), AppReturn::Continue);
    assert_eq!(app.do_action(Key::Char('h')), AppReturn::Continue);
    assert_eq!(app.do_action(Key::Right), AppReturn::Continue);
    assert_eq!(app.do_action(Key::Left), AppReturn::Continue);
    assert!(!app.is_loading());
    assert!(rx.try_recv().is_err());
}

#[test]
fn moving_without_a_display_asks_nothing() {
    let (mut app, rx) = running_app("");
    assert_eq!(app.state().num_disps(), Some(0));
    assert_eq!(app.state().tab_index(), Some(0));
    assert_eq!(app.do_action(Key::Char('l')), AppReturn::Continue);
    assert_eq!(app.do_action(Key::Char('L')), AppReturn::Continue);
    assert_eq!(app.state().tab_index(), Some(0));
    assert!(!app.is_loading());
    assert!(rx.try_recv().is_err());
}

#[test]
fn requests_arrive_in_the_order_sent() {
    let (mut app, rx) = running_app("A\nB\n");
    app.do_action(Key::Char('l'));
    app.do_action(Key::Char('h'));
    app.do_action(Key::Char('l'));
    assert_eq!(rx.try_recv(), Ok(IoEvent::DeviceIncrement(0, DispProp::Brightness)));
    assert_eq!(rx.try_recv(), Ok(IoEvent::DeviceDecrement(0, DispProp::Brightness)));
    assert_eq!(rx.try_recv(), Ok(IoEvent::DeviceIncrement(0, DispProp::Brightness)));
    assert!(rx.try_recv().is_err());
}

#[test]
fn dispatch_marks_the_app_busy() {
    let (tx, rx) = channel();
    let mut app = App::new(tx);
    assert!(app.dispatch(IoEvent::DeviceScale(1, DispProp::G, 4)));
    assert!(app.is_loading());
    assert_eq!(rx.try_recv(), Ok(IoEvent::DeviceScale(1, DispProp::G, 4)));
    app.loaded();
    assert!(!app.is_loading());
}

#[test]
fn dispatch_to_a_closed_channel_leaves_the_app_idle() {
    let (tx, rx) = channel();
    let mut app = App::new(tx);
    drop(rx);
    assert!(!app.dispatch(IoEvent::Initialize));
    assert!(!app.is_loading());
}

#[test]
fn a_key_pressed_after_the_worker_is_gone_leaves_the_app_idle() {
    let (mut app, rx) = running_app("A\n");
    drop(rx);
    assert_eq!(app.do_action(Key::Char('l')), AppReturn::Continue);
    assert!(!app.is_loading());
    assert_eq!(app.do_action(Key::Char('L')), AppReturn::Continue);
    assert_eq!(app.state().tab_index(), Some(1));
}

#[test]
fn dispatched_records_the_outcome() {
    let (tx, _rx) = channel();
    let mut app = App::new(tx);
    app.dispatched(true);
    assert!(app.is_loading());
    app.dispatched(false);
    assert!(!app.is_loading());
}

#[test]
fn tick_changes_nothing() {
    let (mut app, rx) = running_app("A\n");
    let before = app.state().clone();
    assert_eq!(app.update_on_tick(), AppReturn::Continue);
    assert_eq!(app.handle_input(InputEvent::Tick), AppReturn::Continue);
    assert_eq!(*app.state(), before);
    assert!(!app.is_loading());
    assert!(rx.try_recv().is_err());
}

#[test]
fn handle_input_acts_on_a_key() {
    let (mut app, rx) = running_app("A\n");
    assert_eq!(app.handle_input(InputEvent::Input(Key::Char('j'))), AppReturn::Continue);
    assert_eq!(app.state().focused_prop(), Some(DispProp::R));
    assert_eq!(app.handle_input(InputEvent::Input(Key::Char('l'))), AppReturn::Continue);
    assert_eq!(rx.try_recv(), Ok(IoEvent::DeviceIncrement(0, DispProp::R)));
    assert_eq!(app.handle_input(InputEvent::Input(Key::Char('q'))), AppReturn::Exit);
}

#[test]
fn set_disp_mgr_hands_the_registry_to_the_state() {
    let (mut app, _rx) = running_app("A\nB\n");
    let mut changed = DispMgr::new("A\nB\n");
    changed.set_value_by_index(0, DispProp::Brightness, 30, true);
    app.set_disp_mgr(changed.clone());
    assert_eq!(app.state().disp_mgr(), Some(changed));
    assert_eq!(app.state().tab_index(), Some(0));
}
