//! The worker's side: it owns the registry, asks the backend to change a
//! display, and keeps the change only where the backend applied it.
//!
//! The worker itself does not talk to the backend. Each request to the worker
//! is answered by a step that tells the caller what to do next; where that is
//! a call of the backend, the caller reports how the call went and is answered
//! by a further step.
use vstd::prelude::*;
use crate::app::{App, AppView};
use crate::disp_mgr::disp::{is_percent, BackendRequest, BackendRequestView, DispProp, DispView};
use crate::disp_mgr::{percent_of_scale, registry_wf, scale_percent, DispMgr};
use crate::io::IoEvent;

verus! {

/// What the caller of the worker is to do next.
#[derive(Debug, PartialEq, Eq)]
pub enum IoStep {
    /// Let the application start with this registry.
    Initialize(DispMgr),
    /// Ask the backend for this, and report to the worker how it went.
    Apply(BackendRequest),
    /// Let the application take over this registry: a display has changed.
    Publish(DispMgr),
    /// The backend did not apply what this request asked for: nothing changed.
    Failed(IoEvent),
    /// There was nothing to do.
    Ignored,
}

/// A step as a plain value.
pub enum IoStepView {
    Initialize(Seq<DispView>),
    Apply(BackendRequestView),
    Publish(Seq<DispView>),
    Failed(IoEvent),
    Ignored,
}

impl View for IoStep {
    type V = IoStepView;

    open spec fn view(&self) -> IoStepView {
        match self {
            IoStep::Initialize(registry) => IoStepView::Initialize(registry@),
            IoStep::Apply(request) => IoStepView::Apply(request@),
            IoStep::Publish(registry) => IoStepView::Publish(registry@),
            IoStep::Failed(event) => IoStepView::Failed(*event),
            IoStep::Ignored => IoStepView::Ignored,
        }
    }
}

impl IoStepView {
    /// The application once it has learnt of this step: it starts with the
    /// registry, or takes it over, and in either case is idle again, as it is
    /// after a failure and after a request that asked nothing. While the backend
    /// is still to be asked, the application stays as it is.
    pub open spec fn told_to(self, app: AppView) -> AppView {
        match self {
            IoStepView::Initialize(registry) => AppView {
                is_loading: false,
                ..app.initialize(registry)
            },
            IoStepView::Publish(registry) => AppView {
                is_loading: false,
                state: app.state.set_disp_mgr(registry),
                ..app
            },
            IoStepView::Failed(_) | IoStepView::Ignored => AppView { is_loading: false, ..app },
            IoStepView::Apply(_) => app,
        }
    }
}

impl IoStep {
    /// Lets the application know of this step.
    pub fn tell(self, app: &mut App)
        ensures
            final(app)@ == self@.told_to(old(app)@),
            final(app).spec_io_tx() == old(app).spec_io_tx(),
            !(self is Apply) ==> !final(app)@.is_loading,
    {
        match self {
            IoStep::Initialize(registry) => {
                app.initialize(registry);
                app.loaded();
            },
            IoStep::Publish(registry) => {
                app.set_disp_mgr(registry);
                app.loaded();
            },
            IoStep::Failed(_) => {
                app.loaded();
            },
            IoStep::Ignored => {
                app.loaded();
            },
            IoStep::Apply(_) => {},
        }
    }
}

/// The worker.
#[derive(Debug)]
pub struct IoHandler {
    disp_mgr: DispMgr,
    pending: Option<IoEvent>,
}

/// The worker as a plain value.
pub struct IoHandlerView {
    /// The registry.
    pub disp_mgr: Seq<DispView>,
    /// The request for which the backend is being asked.
    pub pending: Option<IoEvent>,
}

impl View for IoHandler {
    type V = IoHandlerView;

    closed spec fn view(&self) -> IoHandlerView {
        IoHandlerView { disp_mgr: self.disp_mgr@, pending: self.pending }
    }
}

/// The change that `event` asks for on `registry`: the place of a display, one of
/// its properties, and the value that the property is to take. A request to
/// initialize asks for no change, nor does one for a place that holds no
/// display, such as the place of the diagnostics tab.
pub open spec fn change_of(registry: Seq<DispView>, event: IoEvent) -> Option<
    (int, DispProp, u8),
> {
    match event {
        IoEvent::Initialize => None,
        IoEvent::DeviceIncrement(index, prop) => if index < registry.len() {
            Some((index as int, prop, registry[index as int].incremented(prop)))
        } else {
            None
        },
        IoEvent::DeviceDecrement(index, prop) => if index < registry.len() {
            Some((index as int, prop, registry[index as int].decremented(prop)))
        } else {
            None
        },
        IoEvent::DeviceScale(index, prop, scale) => if index < registry.len() {
            Some((index as int, prop, scale_percent(scale)))
        } else {
            None
        },
    }
}

/// What the backend is asked for `event`, where `event` asks for a change.
pub open spec fn request_of(registry: Seq<DispView>, event: IoEvent) -> Option<
    BackendRequestView,
> {
    match change_of(registry, event) {
        Some((index, prop, val)) => Some(registry[index].set_value(prop, val, true).request()),
        None => None,
    }
}

/// The registry after `event`: with the change that `event` asks for where the
/// backend applied it, and as before where it did not.
pub open spec fn registry_after(registry: Seq<DispView>, event: IoEvent, applied: bool) -> Seq<
    DispView,
> {
    match change_of(registry, event) {
        Some((index, prop, val)) => registry.update(
            index,
            registry[index].set_value(prop, val, applied),
        ),
        None => registry,
    }
}

impl IoHandlerView {
    /// The step that answers `event`.
    pub open spec fn step_on(self, event: IoEvent) -> IoStepView {
        match event {
            IoEvent::Initialize => IoStepView::Initialize(self.disp_mgr),
            _ => match request_of(self.disp_mgr, event) {
                Some(request) => IoStepView::Apply(request),
                None => IoStepView::Ignored,
            },
        }
    }

    /// The worker after `event`: it waits for the backend where `event` asks for
    /// a change; the registry is as before.
    pub open spec fn on(self, event: IoEvent) -> IoHandlerView {
        IoHandlerView {
            disp_mgr: self.disp_mgr,
            pending: if change_of(self.disp_mgr, event) is Some {
                Some(event)
            } else {
                None
            },
        }
    }

    /// The worker once the backend was asked: the registry holds the change
    /// where the backend applied it, and the worker waits for nothing.
    pub open spec fn done(self, applied: bool) -> IoHandlerView {
        IoHandlerView {
            disp_mgr: match self.pending {
                Some(event) => registry_after(self.disp_mgr, event, applied),
                None => self.disp_mgr,
            },
            pending: None,
        }
    }

    /// The step that answers the report on the backend.
    pub open spec fn step_done(self, applied: bool) -> IoStepView {
        match self.pending {
            Some(event) => if change_of(self.disp_mgr, event) is None {
                IoStepView::Ignored
            } else if applied {
                IoStepView::Publish(self.done(applied).disp_mgr)
            } else {
                IoStepView::Failed(event)
            },
            None => IoStepView::Ignored,
        }
    }
}

/// A request changes one property of one display, if anything: the registry
/// keeps its displays, their order and their names, and every value but the one
/// that the request is about. Percentages stay percentages.
pub proof fn lemma_change_is_local(
    registry: Seq<DispView>,
    event: IoEvent,
    applied: bool,
    place: int,
    prop: DispProp,
)
    requires
        0 <= place < registry.len(),
    ensures
        registry_after(registry, event, applied).len() == registry.len(),
        registry_after(registry, event, applied)[place].name == registry[place].name,
        !applied ==> registry_after(registry, event, applied) == registry,
        change_of(registry, event) is None ==> registry_after(registry, event, applied)
            == registry,
        (change_of(registry, event) matches Some(change) && (change.0 != place || change.1
            != prop)) ==> registry_after(registry, event, applied)[place].value(prop)
            == registry[place].value(prop),
        registry_wf(registry) ==> registry_wf(registry_after(registry, event, applied)),
{
}

/// What the backend is asked describes the display as the registry holds it
/// once the backend has applied the request.
pub proof fn lemma_request_is_for_the_change(registry: Seq<DispView>, event: IoEvent)
    ensures
        match change_of(registry, event) {
            Some((index, prop, val)) => request_of(registry, event) == Some(
                registry_after(registry, event, true)[index].request(),
            ) && registry_after(registry, event, true)[index].value(prop) == val
                && is_percent(val as int),
            None => request_of(registry, event) is None,
        },
{
}

impl IoHandler {
    /// The worker for the registry `disp_mgr`.
    pub fn new(disp_mgr: DispMgr) -> (handler: Self)
        ensures
            handler@ == (IoHandlerView { disp_mgr: disp_mgr@, pending: None }),
    {
        IoHandler { disp_mgr, pending: None }
    }

    /// A copy of the registry.
    pub fn disp_mgr(&self) -> (registry: DispMgr)
        ensures
            registry@ == self@.disp_mgr,
    {
        self.disp_mgr.clone()
    }

    /// Takes up `io_event`. The answer is the registry for a request to
    /// initialize, what to ask of the backend for a request that changes a
    /// display, and nothing to do for a request that names no display.
    pub fn handle_io_event(&mut self, io_event: IoEvent) -> (step: IoStep)
        ensures
            step@ == old(self)@.step_on(io_event),
            final(self)@ == old(self)@.on(io_event),
    {
        self.pending = None;
        match io_event {
            IoEvent::Initialize => self.do_initialize(),
            IoEvent::DeviceIncrement(device_index, prop) => self.do_increment(device_index, prop),
            IoEvent::DeviceDecrement(device_index, prop) => self.do_decrement(device_index, prop),
            IoEvent::DeviceScale(device_index, prop, scale) => self.do_scale(
                device_index,
                prop,
                scale,
            ),
        }
    }

    /// Takes the report on the backend: `applied` tells whether it did what the
    /// request under way asked for. Where it did, the registry holds the change
    /// and is handed out; where it did not, the registry is as before.
    pub fn backend_done(&mut self, applied: bool) -> (step: IoStep)
        ensures
            step@ == old(self)@.step_done(applied),
            final(self)@ == old(self)@.done(applied),
            registry_wf(old(self)@.disp_mgr) ==> registry_wf(final(self)@.disp_mgr),
    {
        let pending = self.pending;
        self.pending = None;
        let count: usize = self.disp_mgr.get_num_disps();
        match pending {
            Some(IoEvent::DeviceIncrement(device_index, prop)) => {
                if device_index >= count {
                    return IoStep::Ignored;
                }
                self.disp_mgr.increment_value_by_index(device_index, prop, applied);
            },
            Some(IoEvent::DeviceDecrement(device_index, prop)) => {
                if device_index >= count {
                    return IoStep::Ignored;
                }
                self.disp_mgr.decrement_value_by_index(device_index, prop, applied);
            },
            Some(IoEvent::DeviceScale(device_index, prop, scale)) => {
                if device_index >= count {
                    return IoStep::Ignored;
                }
                self.disp_mgr.scale_value_by_index(device_index, prop, scale, applied);
            },
            Some(IoEvent::Initialize) => {
                return IoStep::Ignored;
            },
            None => {
                return IoStep::Ignored;
            },
        }
        match pending {
            Some(event) if !applied => IoStep::Failed(event),
            _ => IoStep::Publish(self.disp_mgr.clone()),
        }
    }

    /// Hands out the registry for the application to start with.
    fn do_initialize(&mut self) -> (step: IoStep)
        requires
            old(self)@.pending is None,
        ensures
            step@ == old(self)@.step_on(IoEvent::Initialize),
            final(self)@ == old(self)@.on(IoEvent::Initialize),
    {
        IoStep::Initialize(self.disp_mgr.clone())
    }

    /// Prepares to raise a property of a display by one.
    fn do_increment(&mut self, device_index: usize, prop: DispProp) -> (step: IoStep)
        requires
            old(self)@.pending is None,
        ensures
            step@ == old(self)@.step_on(IoEvent::DeviceIncrement(device_index, prop)),
            final(self)@ == old(self)@.on(IoEvent::DeviceIncrement(device_index, prop)),
    {
        if device_index >= self.disp_mgr.get_num_disps() {
            return IoStep::Ignored;
        }
        let disp = &self.disp_mgr.disps[device_index];
        let request = disp.request(prop, disp.incremented(prop));
        self.pending = Some(IoEvent::DeviceIncrement(device_index, prop));
        IoStep::Apply(request)
    }

    /// Prepares to lower a property of a display by one.
    fn do_decrement(&mut self, device_index: usize, prop: DispProp) -> (step: IoStep)
        requires
            old(self)@.pending is None,
        ensures
            step@ == old(self)@.step_on(IoEvent::DeviceDecrement(device_index, prop)),
            final(self)@ == old(self)@.on(IoEvent::DeviceDecrement(device_index, prop)),
    {
        if device_index >= self.disp_mgr.get_num_disps() {
            return IoStep::Ignored;
        }
        let disp = &self.disp_mgr.disps[device_index];
        let request = disp.request(prop, disp.decremented(prop));
        self.pending = Some(IoEvent::DeviceDecrement(device_index, prop));
        IoStep::Apply(request)
    }

    /// Prepares to set a property of a display to a scale level.
    fn do_scale(&mut self, device_index: usize, prop: DispProp, scale: u8) -> (step: IoStep)
        requires
            old(self)@.pending is None,
        ensures
            step@ == old(self)@.step_on(IoEvent::DeviceScale(device_index, prop, scale)),
            final(self)@ == old(self)@.on(IoEvent::DeviceScale(device_index, prop, scale)),
    {
        if device_index >= self.disp_mgr.get_num_disps() {
            return IoStep::Ignored;
        }
        let disp = &self.disp_mgr.disps[device_index];
        let request = disp.request(prop, percent_of_scale(scale));
        self.pending = Some(IoEvent::DeviceScale(device_index, prop, scale));
        IoStep::Apply(request)
    }
}

} // verus!
