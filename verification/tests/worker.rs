use std::sync::mpsc::{channel, Receiver};
use tuib::app::state::AppState;
use tuib::app::App;
use tuib::disp_mgr::disp::{BackendRequest, DispProp};
use tuib::disp_mgr::DispMgr;
use tuib::inputs::key::Key;
use tuib::io::handler::{IoHandler, IoStep};
use tuib::io::IoEvent;

fn request(name: &str, brightness: &str, gamma: &str) -> BackendRequest {
    BackendRequest {
        name: String::from(name),
        brightness: String::from(brightness),
        gamma: String::from(gamma),
    }
}

fn app() -> (App, Receiver<IoEvent>) {
    let (tx, rx) = channel();
    (App::new(tx), rx)
}

#[test]
fn initialize_hands_out_the_registry() {
    let mut worker = IoHandler::new(DispMgr::new("A\nB\n"));
    assert_eq!(
        worker.handle_io_event(IoEvent::Initialize),
        IoStep::Initialize(DispMgr::new("A\nB\n"))
    );
    assert_eq!(worker.backend_done(true), IoStep::Ignored);
    assert_eq!(worker.disp_mgr(), DispMgr::new("A\nB\n"));
}

#[test]
fn scale_sets_the_brightness_of_the_first_display() {
    let mut worker = IoHandler::new(DispMgr::new("A\nB\n"));

    let step = worker.handle_io_event(IoEvent::DeviceScale(0, DispProp::Brightness, 3));
    assert_eq!(step, IoStep::Apply(request("A", "0.30", "1.00:1.00:1.00")));
    let mut expected = DispMgr::new("A\nB\n");
    expected.disps[0].brightness = 30;
    assert_eq!(worker.backend_done(true), IoStep::Publish(expected.clone()));
    assert_eq!(worker.disp_mgr().disps[0].brightness, 30);
    assert_eq!(worker.disp_mgr().disps[1].brightness, 100);

    let step = worker.handle_io_event(IoEvent::DeviceScale(0, DispProp::Brightness, 0));
    assert_eq!(step, IoStep::Apply(request("A", "1.00", "1.00:1.00:1.00")));
    assert_eq!(worker.backend_done(true), IoStep::Publish(DispMgr::new("A\nB\n")));
    assert_eq!(worker.disp_mgr().disps[0].brightness, 100);

    worker.handle_io_event(IoEvent::DeviceScale(0, DispProp::Brightness, 3));
    worker.backend_done(true);
    assert_eq!(worker.disp_mgr().disps[0].brightness, 30);
    let step = worker.handle_io_event(IoEvent::DeviceScale(0, DispProp::Brightness, 15));
    assert_eq!(step, IoStep::Apply(request("A", "1.00", "1.00:1.00:1.00")));
    assert_eq!(worker.backend_done(true), IoStep::Publish(DispMgr::new("A\nB\n")));
    assert_eq!(worker.disp_mgr().disps[0].brightness, 100);
}

#[test]
fn decrement_at_the_lowest_brightness_stays_there() {
    let mut registry = DispMgr::new("A\n");
    registry.set_value_by_index(0, DispProp::Brightness, 1, true);
    let mut worker = IoHandler::new(registry.clone());
    let step = worker.handle_io_event(IoEvent::DeviceDecrement(0, DispProp::Brightness));
    assert_eq!(step, IoStep::Apply(request("A", "0.01", "1.00:1.00:1.00")));
    assert_eq!(worker.backend_done(true), IoStep::Publish(registry));
    assert_eq!(worker.disp_mgr().disps[0].brightness, 1);
}

#[test]
fn increment_at_the_highest_value_stays_there() {
    let mut worker = IoHandler::new(DispMgr::new("A\n"));
    let step = worker.handle_io_event(IoEvent::DeviceIncrement(0, DispProp::G));
    assert_eq!(step, IoStep::Apply(request("A", "1.00", "1.00:1.00:1.00")));
    assert_eq!(worker.backend_done(true), IoStep::Publish(DispMgr::new("A\n")));
}

#[test]
fn steps_change_the_display_named() {
    let mut worker = IoHandler::new(DispMgr::new("A\nB\n"));
    let step = worker.handle_io_event(IoEvent::DeviceDecrement(1, DispProp::R));
    assert_eq!(step, IoStep::Apply(request("B", "1.00", "0.99:1.00:1.00")));
    worker.backend_done(true);
    let step = worker.handle_io_event(IoEvent::DeviceDecrement(1, DispProp::R));
    assert_eq!(step, IoStep::Apply(request("B", "1.00", "0.98:1.00:1.00")));
    worker.backend_done(true);
    let step = worker.handle_io_event(IoEvent::DeviceIncrement(1, DispProp::R));
    assert_eq!(step, IoStep::Apply(request("B", "1.00", "0.99:1.00:1.00")));
    let mut expected = DispMgr::new("A\nB\n");
    expected.disps[1].gamma.r = 99;
    assert_eq!(worker.backend_done(true), IoStep::Publish(expected));
}

#[test]
fn nothing_changes_before_the_backend_has_answered() {
    let mut worker = IoHandler::new(DispMgr::new("A\n"));
    worker.handle_io_event(IoEvent::DeviceScale(0, DispProp::B, 2));
    assert_eq!(worker.disp_mgr(), DispMgr::new("A\n"));
}

#[test]
fn nothing_changes_where_the_backend_failed() {
    let mut worker = IoHandler::new(DispMgr::new("A\nB\n"));
    let event = IoEvent::DeviceScale(1, DispProp::B, 2);
    let step = worker.handle_io_event(event);
    assert_eq!(step, IoStep::Apply(request("B", "1.00", "1.00:1.00:0.20")));
    assert_eq!(worker.backend_done(false), IoStep::Failed(event));
    assert_eq!(worker.disp_mgr(), DispMgr::new("A\nB\n"));
    let event = IoEvent::DeviceDecrement(0, DispProp::Brightness);
    worker.handle_io_event(event);
    assert_eq!(worker.backend_done(false), IoStep::Failed(event));
    assert_eq!(worker.disp_mgr(), DispMgr::new("A\nB\n"));
    worker.handle_io_event(event);
    worker.backend_done(true);
    assert_eq!(worker.disp_mgr().disps[0].brightness, 99);
}

#[test]
fn requests_for_the_diagnostics_tab_are_ignored() {
    let mut worker = IoHandler::new(DispMgr::new("A\nB\n"));
    assert_eq!(
        worker.handle_io_event(IoEvent::DeviceIncrement(2, DispProp::Brightness)),
        IoStep::Ignored
    );
    assert_eq!(
        worker.handle_io_event(IoEvent::DeviceDecrement(2, DispProp::R)),
        IoStep::Ignored
    );
    assert_eq!(
        worker.handle_io_event(IoEvent::DeviceScale(2, DispProp::G, 5)),
        IoStep::Ignored
    );
    assert_eq!(
        worker.handle_io_event(IoEvent::DeviceIncrement(40, DispProp::Brightness)),
        IoStep::Ignored
    );
    assert_eq!(worker.backend_done(true), IoStep::Ignored);
    assert_eq!(worker.disp_mgr(), DispMgr::new("A\nB\n"));
}

#[test]
fn requests_on_an_empty_registry_are_ignored() {
    let mut worker = IoHandler::new(DispMgr::new(""));
    assert_eq!(
        worker.handle_io_event(IoEvent::DeviceIncrement(0, DispProp::Brightness)),
        IoStep::Ignored
    );
    assert_eq!(worker.handle_io_event(IoEvent::Initialize), IoStep::Initialize(DispMgr::new("")));
}

#[test]
fn a_report_without_a_request_is_ignored() {
    let mut worker = IoHandler::new(DispMgr::new("A\n"));
    assert_eq!(worker.backend_done(true), IoStep::Ignored);
    assert_eq!(worker.backend_done(false), IoStep::Ignored);
    worker.handle_io_event(IoEvent::DeviceScale(0, DispProp::Brightness, 5));
    assert_eq!(worker.backend_done(true), IoStep::Publish({
        let mut registry = DispMgr::new("A\n");
        registry.disps[0].brightness = 50;
        registry
    }));
    assert_eq!(worker.backend_done(true), IoStep::Ignored);
    assert_eq!(worker.disp_mgr().disps[0].brightness, 50);
}

#[test]
fn a_later_request_takes_the_place_of_one_under_way() {
    let mut worker = IoHandler::new(DispMgr::new("A\n"));
    worker.handle_io_event(IoEvent::DeviceScale(0, DispProp::Brightness, 5));
    worker.handle_io_event(IoEvent::DeviceScale(0, DispProp::R, 2));
    worker.backend_done(true);
    assert_eq!(worker.disp_mgr().disps[0].brightness, 100);
    assert_eq!(worker.disp_mgr().disps[0].gamma.r, 20);
    worker.handle_io_event(IoEvent::DeviceScale(0, DispProp::Brightness, 5));
    worker.handle_io_event(IoEvent::Initialize);
    assert_eq!(worker.backend_done(true), IoStep::Ignored);
    assert_eq!(worker.disp_mgr().disps[0].brightness, 100);
}

#[test]
fn telling_initialize_starts_the_application() {
    let (mut app, _rx) = app();
    assert!(app.dispatch(IoEvent::Initialize));
    assert!(app.is_loading());
    let mut worker = IoHandler::new(DispMgr::new("A\nB\n"));
    worker.handle_io_event(IoEvent::Initialize).tell(&mut app);
    assert!(!app.is_loading());
    assert_eq!(*app.state(), AppState::initialize(DispMgr::new("A\nB\n")));
    assert_eq!(app.actions().actions().len(), 7);
}

#[test]
fn telling_initialize_with_no_display_shows_the_diagnostics_tab() {
    let (mut app, rx) = app();
    let mut worker = IoHandler::new(DispMgr::new(""));
    worker.handle_io_event(IoEvent::Initialize).tell(&mut app);
    assert!(app.state().is_initialized());
    assert_eq!(app.state().num_disps(), Some(0));
    assert_eq!(app.state().tab_index(), Some(0));
    app.do_action(Key::Char('l'));
    assert!(rx.try_recv().is_err());
}

#[test]
fn telling_publish_hands_over_the_registry() {
    let (mut app, rx) = app();
    let mut worker = IoHandler::new(DispMgr::new("A\nB\n"));
    worker.handle_io_event(IoEvent::Initialize).tell(&mut app);
    app.do_action(Key::Char('L'));
    app.do_action(Key::Char('h'));
    assert!(app.is_loading());
    let event = rx.try_recv().expect("a request was sent");
    assert_eq!(event, IoEvent::DeviceDecrement(1, DispProp::Brightness));
    let step = worker.handle_io_event(event);
    assert_eq!(step, IoStep::Apply(request("B", "0.99", "1.00:1.00:1.00")));
    step.tell(&mut app);
    assert!(app.is_loading());
    worker.backend_done(true).tell(&mut app);
    assert!(!app.is_loading());
    let shown = app.state().disp_mgr().expect("the registry is known");
    assert_eq!(shown.disps[1].brightness, 99);
    assert_eq!(shown, worker.disp_mgr());
    assert_eq!(app.state().tab_index(), Some(1));
}

#[test]
fn telling_a_failure_ends_the_busy_mark_only() {
    let (mut app, rx) = app();
    let mut worker = IoHandler::new(DispMgr::new("A\n"));
    worker.handle_io_event(IoEvent::Initialize).tell(&mut app);
    app.do_action(Key::Char('h'));
    let event = rx.try_recv().expect("a request was sent");
    worker.handle_io_event(event);
    let before = app.state().clone();
    worker.backend_done(false).tell(&mut app);
    assert!(!app.is_loading());
    assert_eq!(*app.state(), before);
    assert_eq!(app.state().disp_mgr(), Some(DispMgr::new("A\n")));
}

#[test]
fn telling_an_ignored_request_ends_the_busy_mark_only() {
    let (mut app, _rx) = app();
    let mut worker = IoHandler::new(DispMgr::new("A\n"));
    worker.handle_io_event(IoEvent::Initialize).tell(&mut app);
    assert!(app.dispatch(IoEvent::DeviceIncrement(1, DispProp::Brightness)));
    let before = app.state().clone();
    worker.handle_io_event(IoEvent::DeviceIncrement(1, DispProp::Brightness)).tell(&mut app);
    assert!(!app.is_loading());
    assert_eq!(*app.state(), before);
}
