use guildbot::edit_tracker::EditTracker;
use guildbot::router::{replays_on_edit, resolve, route, strip_prefix, Command, RouteDecision, Surface};
use guildbot::policy::{AccessPolicy, DENIED_ACCOUNT};
use guildbot::verification::{
    verification_step, verified_dm_text, VerificationConfig, VerifyAction, VerifyEvent, VerifyState,
    VERIFICATION_MESSAGE, VERIFIED_ROLE,
};

fn run(cfg: &VerificationConfig, events: &[VerifyEvent]) -> (VerifyState, Vec<VerifyAction>) {
    let mut state = VerifyState::Waiting;
    let mut actions = Vec::new();
    for e in events {
        let (s, a) = verification_step(cfg, state, e);
        state = s;
        actions.push(a);
    }
    (state, actions)
}

fn grants(acts: &[VerifyAction]) -> usize {
    acts.iter().filter(|a| matches!(a, VerifyAction::AddRole { .. })).count()
}

fn dms(acts: &[VerifyAction]) -> usize {
    acts.iter().filter(|a| matches!(a, VerifyAction::SendDm { .. })).count()
}

fn reaction(message: u64) -> VerifyEvent {
    VerifyEvent::ReactionAdded { message, guild: Some(5), user: Some(9) }
}

#[test]
fn newcomer_granted_role_once_and_notified() {
    let cfg = VerificationConfig::standard();
    let events = [
        reaction(VERIFICATION_MESSAGE),
        VerifyEvent::MemberRoles { roles: vec![1, 2] },
        VerifyEvent::MemberRoles { roles: vec![1, 2] },
        VerifyEvent::GrantDone { ok: true },
        VerifyEvent::DmDone { ok: true },
    ];
    let (state, acts) = run(&cfg, &events);
    assert_eq!(state, VerifyState::Finished);
    assert_eq!(grants(&acts), 1);
    assert_eq!(dms(&acts), 1);
    assert_eq!(acts[0], VerifyAction::FetchMember { guild: 5, user: 9 });
    assert_eq!(acts[2], VerifyAction::AddRole { guild: 5, user: 9, role: VERIFIED_ROLE });
    assert_eq!(acts[3], VerifyAction::SendDm { user: 9 });
    assert_eq!(verified_dm_text(), "You have been verified!");
}

#[test]
fn holder_reacting_again_is_noop() {
    let cfg = VerificationConfig::standard();
    let events = [
        reaction(VERIFICATION_MESSAGE),
        VerifyEvent::MemberRoles { roles: vec![3, VERIFIED_ROLE] },
        VerifyEvent::GrantDone { ok: true },
        VerifyEvent::DmDone { ok: true },
    ];
    let (state, acts) = run(&cfg, &events);
    assert_eq!(state, VerifyState::Finished);
    assert_eq!(grants(&acts), 0);
    assert_eq!(dms(&acts), 0);
}

#[test]
fn role_granted_between_checks_is_not_granted_again() {
    let cfg = VerificationConfig::standard();
    let events = [
        reaction(VERIFICATION_MESSAGE),
        VerifyEvent::MemberRoles { roles: vec![] },
        VerifyEvent::MemberRoles { roles: vec![VERIFIED_ROLE] },
    ];
    let (state, acts) = run(&cfg, &events);
    assert_eq!(state, VerifyState::Finished);
    assert_eq!(grants(&acts), 0);
}

#[test]
fn failed_grant_sends_no_dm() {
    let cfg = VerificationConfig::standard();
    let events = [
        reaction(VERIFICATION_MESSAGE),
        VerifyEvent::MemberRoles { roles: vec![] },
        VerifyEvent::MemberRoles { roles: vec![] },
        VerifyEvent::GrantDone { ok: false },
        VerifyEvent::DmDone { ok: true },
    ];
    let (state, acts) = run(&cfg, &events);
    assert_eq!(state, VerifyState::Finished);
    assert_eq!(grants(&acts), 1);
    assert_eq!(dms(&acts), 0);
    assert_eq!(acts[3], VerifyAction::LogGrantFailure);
}

#[test]
fn failed_dm_is_only_logged() {
    let cfg = VerificationConfig::standard();
    let (s, a) = verification_step(&cfg, VerifyState::Notifying { user: 9 }, &VerifyEvent::DmDone { ok: false });
    assert_eq!(s, VerifyState::Finished);
    assert_eq!(a, VerifyAction::LogDmFailure);
}

#[test]
fn reaction_on_other_message_ignored() {
    let cfg = VerificationConfig::standard();
    let (state, acts) = run(&cfg, &[reaction(VERIFICATION_MESSAGE + 1)]);
    assert_eq!(state, VerifyState::Waiting);
    assert_eq!(acts, vec![VerifyAction::Nothing]);
    let ev = VerifyEvent::ReactionAdded { message: VERIFICATION_MESSAGE, guild: None, user: Some(9) };
    let (s, a) = verification_step(&cfg, VerifyState::Waiting, &ev);
    assert_eq!((s, a), (VerifyState::Waiting, VerifyAction::Nothing));
}

#[test]
fn edit_tracker_window() {
    let mut t = EditTracker::for_timespan(3600);
    assert_eq!(t.find_bot_response(10, 0), None);
    t.track(10, 20, 1000);
    assert_eq!(t.find_bot_response(10, 1000), Some(20));
    assert_eq!(t.find_bot_response(10, 4599), Some(20));
    assert_eq!(t.find_bot_response(10, 4600), None);
    assert_eq!(t.find_bot_response(11, 1000), None);
}

#[test]
fn edit_tracker_replaces_and_purges() {
    let mut t = EditTracker::for_timespan(60);
    t.track(1, 100, 0);
    t.track(2, 200, 50);
    t.track(1, 101, 30);
    assert_eq!(t.find_bot_response(1, 40), Some(101));
    t.purge(95);
    assert_eq!(t.find_bot_response(1, 80), None);
    assert_eq!(t.find_bot_response(2, 95), Some(200));
    t.purge(200);
    assert_eq!(t.find_bot_response(2, 60), None);
}

#[test]
fn prefixes_are_stripped() {
    assert_eq!(strip_prefix("~vote pizza"), Some(1));
    assert_eq!(strip_prefix("hey serenity, ping"), Some(13));
    assert_eq!(strip_prefix("hey serenity ping"), Some(12));
    assert_eq!(strip_prefix("hello"), None);
    assert_eq!(strip_prefix(""), None);
}

#[test]
fn commands_resolve_by_name_or_alias() {
    assert_eq!(resolve("votes"), Some(Command::Getvotes));
    assert_eq!(resolve("getvotes"), Some(Command::Getvotes));
    assert_eq!(resolve("send_verification"), Some(Command::SendVerification));
    assert_eq!(resolve("Vote"), None);
    assert_eq!(resolve("dance"), None);
}

#[test]
fn routing_decisions() {
    let policy = AccessPolicy::standard();
    assert_eq!(route(&policy, Surface::Prefix, 1, "ping"), RouteDecision::Run(Command::Ping));
    assert_eq!(route(&policy, Surface::Prefix, DENIED_ACCOUNT, "ping"), RouteDecision::Denied);
    assert_eq!(route(&policy, Surface::Prefix, 1, "nope"), RouteDecision::Ignore);
    assert_eq!(route(&policy, Surface::Slash, 1, "send_verification"), RouteDecision::Ignore);
    assert_eq!(
        route(&policy, Surface::Prefix, 1, "send_verification"),
        RouteDecision::Run(Command::SendVerification)
    );
    assert!(replays_on_edit(Command::Getvotes, Surface::Prefix));
    assert!(!replays_on_edit(Command::Getvotes, Surface::Slash));
    assert!(!replays_on_edit(Command::Vote, Surface::Prefix));
}
