//! The decisions of the background-service host: whether the program was
//! launched by the service manager, how it answers the manager's control
//! requests, and when its wait loop ends.

use vstd::prelude::*;
use crate::text::{eq_ignore_ascii_case, eq_ignore_case};

verus! {

/// A control request from the service manager.
#[derive(Debug, Clone, Copy, PartialEq, Eq, Structural)]
pub enum ControlEvent {
    Interrogate,
    Stop,
    Shutdown,
    Other,
}

/// The answer to a control request.
#[derive(Debug, Clone, Copy, PartialEq, Eq, Structural)]
pub enum ControlReply {
    NoError,
    NotImplemented,
}

/// How the host answers a control request, and whether it asks its wait loop
/// to end.
#[derive(Debug, Clone, Copy, PartialEq, Eq, Structural)]
pub struct ControlDecision {
    pub reply: ControlReply,
    pub shutdown: bool,
}

/// What one wait for a shutdown signal gave.
#[derive(Debug, Clone, Copy, PartialEq, Eq, Structural)]
pub enum WaitOutcome {
    Signalled,
    Disconnected,
    TimedOut,
}

/// The name under which the service is registered.
pub fn service_name() -> (s: &'static str)
    ensures
        s@ == "AdBlockService"@,
{
    "AdBlockService"
}

/// The program runs under the service manager when its first argument is
/// `--service`, in any ASCII case.
pub fn service_mode_requested(args: &Vec<String>) -> (b: bool)
    ensures
        b == (args@.len() > 1 && eq_ignore_case(args@[1]@, "--service"@)),
{
    args.len() > 1 && eq_ignore_ascii_case(args[1].as_str(), "--service")
}

/// Interrogation is answered; stop and shutdown are answered and end the
/// wait loop; anything else is not implemented.
pub fn handle_control(event: ControlEvent) -> (d: ControlDecision)
    ensures
        d == match event {
            ControlEvent::Interrogate => ControlDecision { reply: ControlReply::NoError, shutdown: false },
            ControlEvent::Stop | ControlEvent::Shutdown => ControlDecision {
                reply: ControlReply::NoError,
                shutdown: true,
            },
            ControlEvent::Other => ControlDecision {
                reply: ControlReply::NotImplemented,
                shutdown: false,
            },
        },
{
    match event {
        ControlEvent::Interrogate => ControlDecision { reply: ControlReply::NoError, shutdown: false },
        ControlEvent::Stop | ControlEvent::Shutdown => ControlDecision {
            reply: ControlReply::NoError,
            shutdown: true,
        },
        ControlEvent::Other => ControlDecision {
            reply: ControlReply::NotImplemented,
            shutdown: false,
        },
    }
}

/// The wait loop ends on a shutdown signal or when no signal can come any
/// more, and goes on after a timeout.
pub fn wait_ends(outcome: WaitOutcome) -> (b: bool)
    ensures
        b == !(outcome is TimedOut),
{
    match outcome {
        WaitOutcome::TimedOut => false,
        _ => true,
    }
}

} // verus!
