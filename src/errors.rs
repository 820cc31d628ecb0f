//! Classification of failures reported by the command framework.
use vstd::prelude::*;

verus! {

/// A failure the framework hands over, with its details as text.
pub enum FrameworkFailure {
    /// Start-up failed.
    Setup { detail: String },
    /// A command handler failed.
    Command { command: String, detail: String },
    /// Anything else the framework detected, such as malformed arguments.
    Other,
}

/// What to do about a failure.
pub enum ErrorHandling {
    /// Report the message and stop the process.
    Abort { message: String },
    /// Log the message and go on.
    Log { message: String },
    /// Hand the failure to the framework's default presentation.
    Delegate,
}

/// Start-up failures are fatal, command failures are logged, the rest is
/// presented the default way.
pub fn on_error(failure: FrameworkFailure) -> (r: ErrorHandling)
    ensures
        failure matches FrameworkFailure::Setup { detail } ==> (r matches ErrorHandling::Abort {
            message,
        } && message@ == "Failed to start bot: "@ + detail@),
        failure matches FrameworkFailure::Command { command, detail } ==> (r matches ErrorHandling::Log {
            message,
        } && message@ == "Error in command `"@ + command@ + "`: "@ + detail@),
        failure is Other ==> r is Delegate,
{
    match failure {
        FrameworkFailure::Setup { detail } => {
            let mut m = String::from_str("Failed to start bot: ");
            m.append(detail.as_str());
            ErrorHandling::Abort { message: m }
        },
        FrameworkFailure::Command { command, detail } => {
            let mut m = String::from_str("Error in command `");
            m.append(command.as_str());
            m.append("`: ");
            m.append(detail.as_str());
            ErrorHandling::Log { message: m }
        },
        FrameworkFailure::Other => ErrorHandling::Delegate,
    }
}

/// The log line when the default presentation itself failed; processing
/// goes on.
pub fn presentation_failure(detail: &String) -> (r: String)
    ensures
        r@ == "Error while handling error: "@ + detail@,
{
    let mut m = String::from_str("Error while handling error: ");
    m.append(detail.as_str());
    m
}

} // verus!
