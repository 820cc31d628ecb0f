//! A chat bot's command core: a vote tally, an edit tracker for textual
//! invocations, the reaction-driven verification workflow, command routing
//! and authorization, moderation argument handling and error classification.
//! Everything that talks to the chat platform lives outside this library; the
//! functions here take plain values and return the decisions and the texts.

pub mod commands;
pub mod edit_tracker;
pub mod errors;
pub mod moderation;
pub mod policy;
pub mod router;
pub mod text;
pub mod verification;
pub mod votes;

pub use commands::{getvotes, help, ping, vote, Data};
pub use moderation::{ban, kick};
pub use policy::send_verification;
