use vstd::prelude::*;

verus! {

/// What stopping the server must do, given what the stop flag held before
/// this stop set it and what is running.
#[derive(Debug, Clone, Copy, PartialEq, Eq, Structural)]
pub struct StopPlan {
    /// Shut down the connection being served, so that a blocked read ends.
    pub shutdown_connection: bool,
    /// Connect to the listener once, so that a blocked accept returns.
    pub wake_listener: bool,
    /// Join the listener thread.
    pub join_listener: bool,
}

/// Only the first stop interrupts the connection in service and wakes the
/// listener; every stop joins the listener thread if it has not been joined.
pub open spec fn planned_stop(
    already_stopping: bool,
    connection_active: bool,
    listener_present: bool,
) -> StopPlan {
    StopPlan {
        shutdown_connection: !already_stopping && connection_active,
        wake_listener: !already_stopping,
        join_listener: listener_present,
    }
}

/// The plan for one stop: see `planned_stop`.
pub fn stop_plan(already_stopping: bool, connection_active: bool, listener_present: bool) -> (plan:
    StopPlan)
    ensures
        plan == planned_stop(already_stopping, connection_active, listener_present),
{
    StopPlan {
        shutdown_connection: !already_stopping && connection_active,
        wake_listener: !already_stopping,
        join_listener: listener_present,
    }
}

/// What the listener learned from one accept. For an accepted connection,
/// `stopping` is the stop flag read after the connection was registered.
#[derive(Debug, Clone, Copy, PartialEq, Eq, Structural)]
pub enum AcceptEvent {
    Connected { stopping: bool },
    Failed,
}

/// What the listener does next.
#[derive(Debug, Clone, Copy, PartialEq, Eq, Structural)]
pub enum ListenerAction {
    /// Serve the request on the accepted connection.
    Serve,
    /// Release the accepted connection without reading it.
    Release,
    /// Leave the accept loop.
    Exit,
}

/// A connection accepted while the transport runs is served; one accepted
/// after a stop began is released unread; a failed accept ends the listener.
pub fn on_accept(event: AcceptEvent) -> (action: ListenerAction)
    ensures
        match event {
            AcceptEvent::Connected { stopping } => if stopping {
                action is Release
            } else {
                action is Serve
            },
            AcceptEvent::Failed => action is Exit,
        },
{
    match event {
        AcceptEvent::Connected { stopping } => if stopping {
            ListenerAction::Release
        } else {
            ListenerAction::Serve
        },
        AcceptEvent::Failed => ListenerAction::Exit,
    }
}

/// Why the scripting side may not start a transport.
#[derive(Debug, Clone, Copy, PartialEq, Eq, Structural)]
pub enum StartError {
    /// The authentication token is empty.
    EmptyToken,
    /// The handler is not a function.
    HandlerNotFunction,
}

impl StartError {
    /// The message reported to the script.
    pub fn message(&self) -> (text: &'static str)
        ensures
            match self {
                StartError::EmptyToken => text@
                    == "transport authentication token must be non-empty"@,
                StartError::HandlerNotFunction => text@ == "transport handler must be a function"@,
            },
    {
        match self {
            StartError::EmptyToken => "transport authentication token must be non-empty",
            StartError::HandlerNotFunction => "transport handler must be a function",
        }
    }
}

/// A transport starts only with a non-empty token (checked first) and a
/// function to hand requests to.
pub fn check_start(auth_token: &str, handler_is_function: bool) -> (res: Result<(), StartError>)
    ensures
        auth_token@.len() == 0 ==> res matches Err(StartError::EmptyToken),
        auth_token@.len() > 0 && !handler_is_function ==> res matches Err(
            StartError::HandlerNotFunction,
        ),
        auth_token@.len() > 0 && handler_is_function ==> res is Ok,
{
    if auth_token.is_empty() {
        return Err(StartError::EmptyToken);
    }
    if !handler_is_function {
        return Err(StartError::HandlerNotFunction);
    }
    Ok(())
}

/// A request queued for the editor is refused, with this message, when the
/// scripting engine was reloaded after the transport was started.
pub fn check_generation(current_generation: bool) -> (res: Result<(), String>)
    ensures
        current_generation ==> res is Ok,
        !current_generation ==> (res matches Err(message) && message@
            == "Steel engine was reloaded"@),
{
    if current_generation {
        Ok(())
    } else {
        Err("Steel engine was reloaded".to_owned())
    }
}

/// Stopping is idempotent: once one stop has set the flag, any later stop
/// neither interrupts a connection nor wakes the listener again, and it joins
/// nothing once the first stop has taken the listener thread.
pub proof fn law_stop_is_idempotent(connection_active: bool, listener_present: bool)
    ensures
        !planned_stop(true, connection_active, listener_present).shutdown_connection,
        !planned_stop(true, connection_active, listener_present).wake_listener,
        planned_stop(true, connection_active, listener_present).join_listener
            == listener_present,
{
}

/// The first stop always wakes the listener and always interrupts the
/// connection in service, so that neither a blocked accept nor an idle client
/// can hold the join.
pub proof fn law_first_stop_interrupts(connection_active: bool, listener_present: bool)
    ensures
        planned_stop(false, connection_active, listener_present).wake_listener,
        planned_stop(false, connection_active, listener_present).shutdown_connection
            == connection_active,
        planned_stop(false, connection_active, listener_present).join_listener
            == listener_present,
{
}

} // verus!
