use guildbot::commands::{ping_placeholder, HelpRequest};
use guildbot::errors::{on_error, presentation_failure, ErrorHandling, FrameworkFailure};
use guildbot::moderation::{moderation_reply, ModerationError, ModerationKind, TargetUser};
use guildbot::policy::{AccessPolicy, VerificationReply, DENIED_ACCOUNT, VERIFICATION_SENDER};
use guildbot::text::push_decimal;
use guildbot::{ban, help, kick, ping, send_verification};

fn target() -> Option<TargetUser> {
    Some(TargetUser { id: 42, name: "mallory".to_string() })
}

#[test]
fn ping_reports_latency_in_milliseconds() {
    assert_eq!(ping_placeholder(), "Pong!");
    assert_eq!(ping(1_000, 42_001_000), "Pong! \u{1F3D3} Latency: 42ms");
    assert_eq!(ping(0, 999_999), "Pong! \u{1F3D3} Latency: 0ms");
    assert_eq!(ping(5_000_000, 1_000), "Pong! \u{1F3D3} Latency: 0ms");
}

#[test]
fn decimal_rendering() {
    let mut s = String::from("n=");
    push_decimal(&mut s, 0);
    assert_eq!(s, "n=0");
    let mut s = String::new();
    push_decimal(&mut s, 1234567890);
    assert_eq!(s, "1234567890");
    let mut s = String::new();
    push_decimal(&mut s, u64::MAX);
    assert_eq!(s, u64::MAX.to_string());
}

#[test]
fn send_verification_authorized_sender_gets_prompt() {
    let policy = AccessPolicy::standard();
    match send_verification(&policy, VERIFICATION_SENDER) {
        VerificationReply::Prompt(p) => {
            assert_eq!(p.title, "Verify");
            assert_eq!(p.description, "React below to get verified");
            assert_eq!(p.color, 0x00ff00);
            assert_eq!(p.reaction, "\u{2705}");
        }
        VerificationReply::NotAuthorized(_) => panic!("authorized sender refused"),
    }
}

#[test]
fn send_verification_other_account_refused() {
    let policy = AccessPolicy::standard();
    match send_verification(&policy, 1) {
        VerificationReply::NotAuthorized(t) => {
            assert_eq!(t, "You are not authorized to use this command")
        }
        VerificationReply::Prompt(_) => panic!("prompt for an unauthorized account"),
    }
}

#[test]
fn ban_without_target_fails() {
    assert_eq!(ban(Some(7), None, None, None).err(), Some(ModerationError::NoTarget));
    assert_eq!(
        ban(Some(7), None, Some("spam".to_string()), Some(3)).err(),
        Some(ModerationError::NoTarget)
    );
}

#[test]
fn kick_without_target_fails() {
    assert_eq!(kick(Some(7), None, None).err(), Some(ModerationError::NoTarget));
}

#[test]
fn moderation_outside_server_fails() {
    assert_eq!(ban(None, target(), None, None).err(), Some(ModerationError::NotInServer));
    assert_eq!(kick(None, target(), None).err(), Some(ModerationError::NotInServer));
}

#[test]
fn ban_defaults_reason_and_days() {
    let b = ban(Some(7), target(), None, None).ok().unwrap();
    assert_eq!(b.guild, 7);
    assert_eq!(b.user, 42);
    assert_eq!(b.user_name, "mallory");
    assert_eq!(b.reason, "");
    assert_eq!(b.delete_message_days, 0);
    let b = ban(Some(7), target(), Some("spam".to_string()), Some(3)).ok().unwrap();
    assert_eq!(b.reason, "spam");
    assert_eq!(b.delete_message_days, 3);
}

#[test]
fn kick_defaults_reason() {
    let k = kick(Some(7), target(), None).ok().unwrap();
    assert_eq!((k.guild, k.user), (7, 42));
    assert_eq!(k.user_name, "mallory");
    assert_eq!(k.reason, "");
    let k = kick(Some(7), target(), Some("rude".to_string())).ok().unwrap();
    assert_eq!(k.reason, "rude");
}

#[test]
fn moderation_replies() {
    let name = "mallory".to_string();
    assert_eq!(moderation_reply(ModerationKind::Ban, &name, &None), "mallory has been banned");
    assert_eq!(moderation_reply(ModerationKind::Kick, &name, &None), "mallory has been kicked");
    assert_eq!(
        moderation_reply(ModerationKind::Ban, &name, &Some("Missing Permissions".to_string())),
        "Failed to ban mallory: Missing Permissions"
    );
    assert_eq!(
        moderation_reply(ModerationKind::Kick, &name, &Some("Unknown Member".to_string())),
        "Failed to kick mallory: Unknown Member"
    );
}

#[test]
fn command_check_denies_one_account() {
    let policy = AccessPolicy::standard();
    assert!(!policy.command_allowed(DENIED_ACCOUNT));
    assert!(policy.command_allowed(VERIFICATION_SENDER));
    assert!(policy.command_allowed(1));
}

#[test]
fn error_classification() {
    match on_error(FrameworkFailure::Setup { detail: "no token".to_string() }) {
        ErrorHandling::Abort { message } => assert_eq!(message, "Failed to start bot: no token"),
        _ => panic!("setup failure must abort"),
    }
    match on_error(FrameworkFailure::Command {
        command: "ban".to_string(),
        detail: "Http".to_string(),
    }) {
        ErrorHandling::Log { message } => assert_eq!(message, "Error in command `ban`: Http"),
        _ => panic!("command failure must be logged"),
    }
    assert!(matches!(on_error(FrameworkFailure::Other), ErrorHandling::Delegate));
    assert_eq!(presentation_failure(&"boom".to_string()), "Error while handling error: boom");
}

#[test]
fn help_keeps_topic_and_footer() {
    let HelpRequest { command, footer } = help(Some("vote".to_string()));
    assert_eq!(command, Some("vote".to_string()));
    assert!(footer.starts_with("This is an example bot"));
    assert_eq!(help(None).command, None);
}
