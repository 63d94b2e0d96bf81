//! The course of a relay: what is done next, and how it ends.
use vstd::prelude::*;
use vstd::string::*;

use crate::relay_launch::PublishRelayError;
use crate::text::{concat, concat3, has_text};

verus! {

// ---------------------------------------------------------------------------
// Settings
// ---------------------------------------------------------------------------
/// Whether the program was started as a relay: it was told so, or it was given
/// an image and the option that names the sockets.
pub fn should_run_container_relay(relay_set: bool, image_set: bool, args: &Vec<String>) -> (result:
    bool)
    ensures
        result == (relay_set || (image_set && args.deep_view().contains("-R"@))),
{
    relay_set || (image_set && has_text(args, "-R"))
}

/// The image that a relay starts.
pub fn relay_image(image: Option<String>) -> (result: Result<String, String>)
    ensures
        match image {
            Some(image) => result == Ok::<String, String>(image),
            None => result matches Err(message) && message@ == "missing COCOA_WAY_RELAY_IMAGE"@,
        },
{
    match image {
        Some(image) => Ok(image),
        None => Err("missing COCOA_WAY_RELAY_IMAGE".to_owned()),
    }
}

/// The name of the container that a relay starts.
pub fn relay_container_name(name: Option<String>) -> (result: String)
    ensures
        match name {
            Some(name) => result == name,
            None => result@ == "cocoa-way-apple-relay"@,
        },
{
    match name {
        Some(name) => name,
        None => "cocoa-way-apple-relay".to_owned(),
    }
}

// ---------------------------------------------------------------------------
// Published transport
// ---------------------------------------------------------------------------
/// How a container process ended, where that could be found out: whether it
/// succeeded, and its status as text.
#[derive(Debug)]
pub struct ExitReport {
    pub success: bool,
    pub status: String,
}

/// What has happened to a relay over a published socket.
#[derive(Debug)]
pub enum PublishEvent {
    /// The container was started, with its output at hand or not, or not
    /// started at all.
    Spawned(Result<bool, String>),
    /// The wait for the guest's listener is over.
    Listening(Result<(), String>),
    /// The published socket was reached or not.
    Connected(Result<(), String>),
    /// The preamble was sent or not.
    Greeted(Result<(), String>),
    /// A second handle of the connection was made or not.
    Duplicated(Result<(), String>),
    /// The frames have come to an end, and so has the container.
    Ended { relayed: Result<(), String>, exit: Result<ExitReport, String> },
}

/// What is done next.
#[derive(Debug)]
pub enum PublishStep {
    AwaitListener,
    Connect,
    Greet,
    Duplicate,
    Relay,
    /// The relay is over. The container may have to be stopped first, and the
    /// sockets to be removed.
    Finish { stop: bool, remove: bool, result: Result<(), PublishRelayError> },
}

/// A relay that has not started.
fn unstarted(cleans: bool, message: String) -> (result: PublishStep)
    ensures
        result matches PublishStep::Finish { stop, remove, result: Err(
            PublishRelayError::Startup(text),
        ) } && stop == cleans && remove == cleans && text == message,
{
    PublishStep::Finish {
        stop: cleans,
        remove: cleans,
        result: Err(PublishRelayError::Startup(message)),
    }
}

/// A relay that ended after it had started.
fn broken(remove: bool, message: String) -> (result: PublishStep)
    ensures
        result matches PublishStep::Finish { stop: false, remove: removes, result: Err(
            PublishRelayError::Active(text),
        ) } && removes == remove && text == message,
{
    PublishStep::Finish { stop: false, remove, result: Err(PublishRelayError::Active(message)) }
}

/// The relay ends without having started, and says why. The container is
/// stopped and the sockets are removed where `cleans` is set.
pub open spec fn is_unstarted(step: PublishStep, cleans: bool, message: Seq<char>) -> bool {
    step matches PublishStep::Finish { stop, remove, result: Err(PublishRelayError::Startup(text)) }
        && stop == cleans && remove == cleans && text@ == message
}

/// The relay had started and ends with a message.
pub open spec fn is_broken(step: PublishStep, removes: bool, message: Seq<char>) -> bool {
    step matches PublishStep::Finish { stop: false, remove, result: Err(
        PublishRelayError::Active(text),
    ) } && remove == removes && text@ == message
}

/// Decides what follows an event of a relay over a published socket. Before the
/// preamble has been sent, every failure is one of starting. A container that
/// did not come up is stopped and its sockets are removed; a relay that has run
/// its course only removes them.
pub fn publish_step(event: PublishEvent) -> (result: PublishStep)
    ensures
        match event {
            PublishEvent::Spawned(Ok(true)) => result is AwaitListener,
            PublishEvent::Spawned(Ok(false)) => is_unstarted(
                result,
                false,
                "container transport control channel unavailable"@,
            ),
            PublishEvent::Spawned(Err(error)) => is_unstarted(result, false, error@),
            PublishEvent::Listening(Ok(_)) => result is Connect,
            PublishEvent::Listening(Err(error)) => is_unstarted(result, true, error@),
            PublishEvent::Connected(Ok(_)) => result is Greet,
            PublishEvent::Connected(Err(error)) => is_unstarted(result, true, error@),
            PublishEvent::Greeted(Ok(_)) => result is Duplicate,
            PublishEvent::Greeted(Err(error)) => is_unstarted(
                result,
                false,
                "transport handshake failed: "@ + error@,
            ),
            PublishEvent::Duplicated(Ok(_)) => result is Relay,
            PublishEvent::Duplicated(Err(error)) => is_broken(result, false, error@),
            PublishEvent::Ended { exit: Err(error), .. } => is_broken(result, false, error@),
            PublishEvent::Ended { relayed: Err(error), exit: Ok(_) } => is_broken(
                result,
                true,
                error@,
            ),
            PublishEvent::Ended { relayed: Ok(_), exit: Ok(exit) } => if exit.success {
                result matches PublishStep::Finish { stop: false, remove: true, result: Ok(_) }
            } else {
                is_broken(result, true, "publish-socket relay exited with "@ + exit.status@)
            },
        },
{
    match event {
        PublishEvent::Spawned(Ok(true)) => PublishStep::AwaitListener,
        PublishEvent::Spawned(Ok(false)) => unstarted(
            false,
            "container transport control channel unavailable".to_owned(),
        ),
        PublishEvent::Spawned(Err(error)) => unstarted(false, error),
        PublishEvent::Listening(Ok(_)) => PublishStep::Connect,
        PublishEvent::Listening(Err(error)) => unstarted(true, error),
        PublishEvent::Connected(Ok(_)) => PublishStep::Greet,
        PublishEvent::Connected(Err(error)) => unstarted(true, error),
        PublishEvent::Greeted(Ok(_)) => PublishStep::Duplicate,
        PublishEvent::Greeted(Err(error)) => unstarted(
            false,
            concat("transport handshake failed: ", error.as_str()),
        ),
        PublishEvent::Duplicated(Ok(_)) => PublishStep::Relay,
        PublishEvent::Duplicated(Err(error)) => broken(false, error),
        PublishEvent::Ended { relayed, exit } => match exit {
            Err(error) => broken(false, error),
            Ok(exit) => match relayed {
                Err(error) => broken(true, error),
                Ok(_) => if exit.success {
                    PublishStep::Finish { stop: false, remove: true, result: Ok(()) }
                } else {
                    broken(
                        true,
                        concat("publish-socket relay exited with ", exit.status.as_str()),
                    )
                },
            },
        },
    }
}

// ---------------------------------------------------------------------------
// Waiting
// ---------------------------------------------------------------------------
/// What a short wait for the guest's listener came back with.
#[derive(Debug)]
pub enum Notice {
    /// The listener is ready, or will not become ready.
    Told(Result<(), String>),
    /// Nobody is left who could tell.
    Closed,
    /// Nothing yet.
    Nothing,
}

/// Ends the wait for the guest's listener, or goes on with it. The state of the
/// container counts only where nothing was told: the text of its status if it
/// has ended.
pub fn listener_wait(notice: Notice, exited: Result<Option<String>, String>) -> (result: Option<
    Result<(), String>,
>)
    ensures
        match notice {
            Notice::Told(Ok(_)) => result is Some && result->0 is Ok,
            Notice::Told(Err(error)) => result matches Some(Err(message)) && message == error,
            Notice::Closed => result matches Some(Err(message)) && message@
                == "container transport control channel closed"@,
            Notice::Nothing => match exited {
                Err(error) => result matches Some(Err(message)) && message == error,
                Ok(Some(status)) => result matches Some(Err(message)) && message@
                    == "container exited before its publish-socket listener became ready ("@
                    + status@ + ")"@,
                Ok(None) => result is None,
            },
        },
{
    match notice {
        Notice::Told(told) => Some(told),
        Notice::Closed => Some(Err("container transport control channel closed".to_owned())),
        Notice::Nothing => match exited {
            Err(error) => Some(Err(error)),
            Ok(Some(status)) => Some(
                Err(
                    concat3(
                        "container exited before its publish-socket listener became ready (",
                        status.as_str(),
                        ")",
                    ),
                ),
            ),
            Ok(None) => None,
        },
    }
}

/// The message for a listener that was not ready in time.
pub fn listener_timeout() -> (result: String)
    ensures
        result@ == "timed out waiting for the container publish-socket listener"@,
{
    "timed out waiting for the container publish-socket listener".to_owned()
}

/// Ends the attempts to reach the published socket, or goes on with them, after
/// one attempt has failed.
pub fn connect_wait(exited: Result<Option<String>, String>) -> (result: Option<String>)
    ensures
        match exited {
            Err(error) => result == Some(error),
            Ok(Some(status)) => result matches Some(message) && message@
                == "container exited before transport socket became ready ("@ + status@ + ")"@,
            Ok(None) => result is None,
        },
{
    match exited {
        Err(error) => Some(error),
        Ok(Some(status)) => Some(
            concat3(
                "container exited before transport socket became ready (",
                status.as_str(),
                ")",
            ),
        ),
        Ok(None) => None,
    }
}

// ---------------------------------------------------------------------------
// Standard input and output
// ---------------------------------------------------------------------------
/// The first message for a container whose pipes are not both at hand.
pub fn pipes_problem(input: bool, output: bool) -> (result: Option<String>)
    ensures
        if !input {
            result matches Some(message) && message@ == "container relay stdin unavailable"@
        } else if !output {
            result matches Some(message) && message@ == "container relay stdout unavailable"@
        } else {
            result is None
        },
{
    if !input {
        Some("container relay stdin unavailable".to_owned())
    } else if !output {
        Some("container relay stdout unavailable".to_owned())
    } else {
        None
    }
}

/// How a relay over standard input and output ends: a container whose status
/// cannot be had comes first, then the relay's own failure, then the status.
pub fn stdio_outcome(relayed: Result<(), String>, exit: Result<ExitReport, String>) -> (result:
    Result<(), String>)
    ensures
        match (relayed, exit) {
            (_, Err(error)) => result matches Err(message) && message == error,
            (Err(error), Ok(_)) => result matches Err(message) && message == error,
            (Ok(_), Ok(exit)) => if exit.success {
                result is Ok
            } else {
                result matches Err(message) && message@ == "container relay exited with "@
                    + exit.status@
            },
        },
{
    match exit {
        Err(error) => Err(error),
        Ok(exit) => match relayed {
            Err(error) => Err(error),
            Ok(_) => if exit.success {
                Ok(())
            } else {
                Err(concat("container relay exited with ", exit.status.as_str()))
            },
        },
    }
}

// ---------------------------------------------------------------------------
// The whole relay
// ---------------------------------------------------------------------------
/// What follows a relay over a published socket.
#[derive(Debug)]
pub enum AfterPublish {
    /// The whole relay is over.
    Over(Result<(), String>),
    /// The container of that name is removed, and the relay starts again over
    /// standard input and output. The text is printed.
    Retry(String),
}

/// Decides what follows a relay over a published socket: only one that did not
/// start is tried again.
pub fn after_publish(outcome: Result<(), PublishRelayError>) -> (result: AfterPublish)
    ensures
        match outcome {
            Ok(_) => result is Over && result->Over_0 is Ok,
            Err(PublishRelayError::Active(error)) => result matches AfterPublish::Over(
                Err(message),
            ) && message == error,
            Err(PublishRelayError::Startup(error)) => result matches AfterPublish::Retry(text)
                && text@ == "cocoa-way transport v2 startup failed: "@ + error@
                + "; falling back to stdio relay"@,
        },
{
    match outcome {
        Ok(_) => AfterPublish::Over(Ok(())),
        Err(PublishRelayError::Active(error)) => AfterPublish::Over(Err(error)),
        Err(PublishRelayError::Startup(error)) => AfterPublish::Retry(
            concat3(
                "cocoa-way transport v2 startup failed: ",
                error.as_str(),
                "; falling back to stdio relay",
            ),
        ),
    }
}

/// The code with which a relay process ends.
pub fn relay_exit_code(outcome: &Result<(), String>) -> (result: i32)
    ensures
        result == (if outcome is Ok {
            0i32
        } else {
            1i32
        }),
{
    match outcome {
        Ok(_) => 0,
        Err(_) => 1,
    }
}

} // verus!
