//! The state of the shell: one value, made at start-up and handed to every
//! command.

use vstd::prelude::*;
use crate::gate::{after_initialize, after_register, initialize_fires, register_fires};
use crate::gate::{ActivationGate, GateView};
use crate::registry::WindowRegistry;
use crate::window::{Geometry, WindowView};

verus! {

/// The label of the main window.
pub const MAIN_LABEL: &'static str = "TeyvatGuide";

/// The label of the general-purpose helper window.
pub const SUB_LABEL: &'static str = "Sub_window";

/// The label of the developer's JSON inspector window.
pub const DEV_LABEL: &'static str = "Dev_JSON";

/// The label of the secondary window.
pub const CLIENT_LABEL: &'static str = "mhy_client";

/// The event that tells the user interface that the shell is ready.
pub const READY_EVENT: &'static str = "initApp";

/// The event that carries an activation request from another launch.
pub const ACTIVATION_EVENT: &'static str = "active_deep_link";

/// The address scheme under which the system hands launches to the shell.
pub const ACTIVATION_SCHEME: &'static str = "teyvatguide";

/// Why a command did not do what it was asked for.
#[derive(Clone, Copy, Debug, PartialEq, Eq, Structural)]
pub enum ShellError {
    /// The address of a request is no valid address.
    MalformedAddress,
    /// A menu action came in while the secondary window was not open.
    WindowMissing,
    /// The host could not build a window.
    ConstructionFailed,
}

/// What to tell the user of an error.
pub open spec fn error_text(error: ShellError) -> Seq<char> {
    match error {
        ShellError::MalformedAddress => "the address is not a valid address"@,
        ShellError::WindowMissing => "the mhy_client window is not open"@,
        ShellError::ConstructionFailed => "failed to create mhy_client"@,
    }
}

impl ShellError {
    /// What to tell the user of this error.
    pub fn message(&self) -> (text: &'static str)
        ensures
            text@ == error_text(*self),
    {
        match self {
            ShellError::MalformedAddress => "the address is not a valid address",
            ShellError::WindowMissing => "the mhy_client window is not open",
            ShellError::ConstructionFailed => "failed to create mhy_client",
        }
    }
}

/// The activation handler that the host is to install.
#[derive(Clone, Copy, Debug, PartialEq, Eq)]
pub struct ActivationHandler {
    /// The address scheme to listen on.
    pub scheme: &'static str,
    /// The event on which each activation request is passed on.
    pub event: &'static str,
}

/// The state of the shell.
pub struct AppContext {
    /// The open windows.
    pub windows: WindowRegistry,
    /// The one-shot start-up flags.
    pub gate: ActivationGate,
    /// The size that the configuration gives the secondary window.
    pub client_base: Geometry,
}

impl AppContext {
    /// The state at start-up: no window recorded, neither flag set.
    pub fn new(client_base: Geometry) -> (handle: AppContext)
        ensures
            handle.windows@ == Seq::<WindowView>::empty(),
            handle.gate@ == (GateView { initialized: false, registered: false }),
            handle.client_base == client_base,
    {
        AppContext { windows: WindowRegistry::new(), gate: ActivationGate::new(), client_base }
    }
}

/// Takes the user interface's request to initialise. Returns the event to
/// broadcast, with no payload, or nothing where both start-up steps are
/// done already.
pub fn init_app(app_handle: &mut AppContext) -> (event: Option<&'static str>)
    ensures
        event.is_some() == initialize_fires(old(app_handle).gate@),
        event.is_some() ==> event.unwrap()@ == READY_EVENT@,
        final(app_handle).gate@ == after_initialize(old(app_handle).gate@),
        final(app_handle).windows == old(app_handle).windows,
        final(app_handle).client_base == old(app_handle).client_base,
{
    if app_handle.gate.initialize() {
        Some(READY_EVENT)
    } else {
        None
    }
}

/// Takes the user interface's request to register for activation by other
/// launches. Returns the handler to install, or nothing where one is
/// installed already.
pub fn register_deep_link(app_handle: &mut AppContext) -> (handler: Option<ActivationHandler>)
    ensures
        handler.is_some() == register_fires(old(app_handle).gate@),
        handler.is_some() ==> handler.unwrap().scheme@ == ACTIVATION_SCHEME@
            && handler.unwrap().event@ == ACTIVATION_EVENT@,
        final(app_handle).gate@ == after_register(old(app_handle).gate@),
        final(app_handle).windows == old(app_handle).windows,
        final(app_handle).client_base == old(app_handle).client_base,
{
    if app_handle.gate.register_activation() {
        Some(ActivationHandler { scheme: ACTIVATION_SCHEME, event: ACTIVATION_EVENT })
    } else {
        None
    }
}

} // verus!
