//! What the application shell does with each signal of the event loop.
//!
//! The shell starts the application on the first resume. Before that every
//! other signal is dropped with a warning; after it each signal becomes a
//! notice to the application, some with a follow-up. An exit request that
//! has arrived wins over any window event.

use vstd::prelude::*;

verus! {

/// Whether the application has been created yet.
#[derive(Clone, Copy, Debug, PartialEq, Eq, Structural)]
pub enum Lifecycle {
    Starting,
    Running,
}

/// A signal from the event loop.
#[derive(Clone, Copy, Debug, PartialEq, Eq, Structural)]
pub enum Signal {
    Resumed,
    /// A window event; `exit_requested` says that an exit code is waiting in
    /// the exit channel.
    WindowEvent { exit_requested: bool },
    DeviceEvent,
    AboutToWait,
    Suspended,
    Exiting,
    MemoryWarning,
}

/// What the application is told about its own life.
#[derive(Clone, Copy, Debug, PartialEq, Eq, Structural)]
pub enum Notice {
    Resumed,
    AboutToWait,
    Suspended,
    LoopExiting,
    MemoryWarning,
}

/// What follows a notice.
#[derive(Clone, Copy, Debug, PartialEq, Eq, Structural)]
pub enum FollowUp {
    Nothing,
    /// Paint every viewport.
    PaintAll,
    /// Destroy the integration; the application is dropped after it.
    Shutdown,
}

/// What the shell does with a signal.
#[derive(Clone, Copy, Debug, PartialEq, Eq, Structural)]
pub enum Reaction {
    /// Create the window, the application and the integration.
    Start,
    /// Hand the notice to the application, then follow up.
    Notify { notice: Notice, then: FollowUp },
    /// Offer the window event to the integration; see [`routes_to_app`].
    RouteWindowEvent,
    /// Hand the device event to the application.
    ForwardDeviceEvent,
    /// Store the waiting exit code and leave the event loop.
    Exit,
    /// The application does not exist yet: drop the signal with a warning.
    Warn,
}

/// The reaction to `signal` in `lifecycle`.
pub open spec fn reaction(lifecycle: Lifecycle, signal: Signal) -> Reaction {
    match signal {
        Signal::WindowEvent { exit_requested: true } => Reaction::Exit,
        Signal::Resumed => match lifecycle {
            Lifecycle::Starting => Reaction::Start,
            Lifecycle::Running => Reaction::Notify {
                notice: Notice::Resumed,
                then: FollowUp::PaintAll,
            },
        },
        _ => match lifecycle {
            Lifecycle::Starting => Reaction::Warn,
            Lifecycle::Running => match signal {
                Signal::WindowEvent { .. } => Reaction::RouteWindowEvent,
                Signal::DeviceEvent => Reaction::ForwardDeviceEvent,
                Signal::AboutToWait => Reaction::Notify {
                    notice: Notice::AboutToWait,
                    then: FollowUp::PaintAll,
                },
                Signal::Suspended => Reaction::Notify {
                    notice: Notice::Suspended,
                    then: FollowUp::Nothing,
                },
                Signal::Exiting => Reaction::Notify {
                    notice: Notice::LoopExiting,
                    then: FollowUp::Shutdown,
                },
                _ => Reaction::Notify { notice: Notice::MemoryWarning, then: FollowUp::Nothing },
            },
        },
    }
}

/// Whether `reaction` lets anything reach the application.
pub open spec fn reaches_app(reaction: Reaction) -> bool {
    reaction is Notify || reaction is RouteWindowEvent || reaction is ForwardDeviceEvent
}

/// The viewport whose event goes on to the application: the window's
/// viewport, unless the integration consumed the event or knows no viewport
/// for the window.
pub open spec fn routed_viewport<V>(consumed: bool, viewport: Option<V>) -> Option<V> {
    if consumed {
        None
    } else {
        viewport
    }
}

/// Decides what the shell does with `signal`.
pub fn react(lifecycle: Lifecycle, signal: Signal) -> (chosen: Reaction)
    ensures
        chosen == reaction(lifecycle, signal),
        lifecycle is Starting ==> !reaches_app(chosen),
        chosen is Start <==> lifecycle is Starting && signal is Resumed,
        chosen is Exit <==> signal == (Signal::WindowEvent { exit_requested: true }),
{
    match signal {
        Signal::WindowEvent { exit_requested: true } => Reaction::Exit,
        Signal::Resumed => match lifecycle {
            Lifecycle::Starting => Reaction::Start,
            Lifecycle::Running => Reaction::Notify {
                notice: Notice::Resumed,
                then: FollowUp::PaintAll,
            },
        },
        _ => match lifecycle {
            Lifecycle::Starting => Reaction::Warn,
            Lifecycle::Running => match signal {
                Signal::WindowEvent { .. } => Reaction::RouteWindowEvent,
                Signal::DeviceEvent => Reaction::ForwardDeviceEvent,
                Signal::AboutToWait => Reaction::Notify {
                    notice: Notice::AboutToWait,
                    then: FollowUp::PaintAll,
                },
                Signal::Suspended => Reaction::Notify {
                    notice: Notice::Suspended,
                    then: FollowUp::Nothing,
                },
                Signal::Exiting => Reaction::Notify {
                    notice: Notice::LoopExiting,
                    then: FollowUp::Shutdown,
                },
                _ => Reaction::Notify { notice: Notice::MemoryWarning, then: FollowUp::Nothing },
            },
        },
    }
}

/// Decides, once the integration has seen a window event, whether the
/// event goes on to the application, and for which viewport.
pub fn routes_to_app<V>(consumed: bool, viewport: Option<V>) -> (target: Option<V>)
    ensures
        target == routed_viewport(consumed, viewport),
        target is Some <==> !consumed && viewport is Some,
{
    if consumed {
        None
    } else {
        viewport
    }
}

} // verus!
