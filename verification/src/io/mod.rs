//! What the application asks of the worker that talks to the backend.
use vstd::prelude::*;
use crate::disp_mgr::disp::DispProp;

pub mod handler;

verus! {

/// A request to the worker. Requests are served in the order in which they were
/// sent, and carry no answer: the application sees what came of one when the
/// worker hands it the registry.
#[derive(Debug, Clone, Copy, PartialEq, Eq, Structural)]
pub enum IoEvent {
    /// Hand the registry to the application.
    Initialize,
    /// Raise a property of the display at the given place by one.
    DeviceIncrement(usize, DispProp),
    /// Lower a property of the display at the given place by one.
    DeviceDecrement(usize, DispProp),
    /// Set a property of the display at the given place to a scale level.
    DeviceScale(usize, DispProp, u8),
}

} // verus!
