//! The reaction-driven verification workflow, one run per reaction event.
//!
//! Each step takes the current state and what the platform reported, and
//! returns the next state and the one platform call to make next. The caller
//! performs that call and reports its outcome as the next event.
use vstd::prelude::*;
use crate::policy::contains_id;

verus! {

/// The message whose reactions trigger verification, and the role granted.
#[derive(Clone, Copy, Debug, PartialEq, Eq, Structural)]
pub struct VerificationConfig {
    pub message_id: u64,
    pub role_id: u64,
}

/// The identifier of the verification prompt message.
pub const VERIFICATION_MESSAGE: u64 = 1278756946886791220;

/// The identifier of the role that marks a member as verified.
pub const VERIFIED_ROLE: u64 = 1278703173237866599;

impl VerificationConfig {
    /// The bot's own prompt message and verification role.
    pub fn standard() -> (r: Self)
        ensures
            r.message_id == VERIFICATION_MESSAGE,
            r.role_id == VERIFIED_ROLE,
    {
        VerificationConfig { message_id: VERIFICATION_MESSAGE, role_id: VERIFIED_ROLE }
    }
}

/// Where one run of the workflow stands.
#[derive(Clone, Copy, Debug, PartialEq, Eq, Structural)]
pub enum VerifyState {
    /// No qualifying reaction seen yet.
    Waiting,
    /// The member's roles were asked for on entry.
    CheckingMember { guild: u64, user: u64 },
    /// The member's roles were asked for again, right before granting.
    RecheckingMember { guild: u64, user: u64 },
    /// The role grant was requested.
    Granting { guild: u64, user: u64 },
    /// The confirmation direct message was requested.
    Notifying { user: u64 },
    /// Nothing more to do.
    Finished,
}

/// What the platform reported.
#[derive(Debug)]
pub enum VerifyEvent {
    /// A reaction was added to `message`.
    ReactionAdded { message: u64, guild: Option<u64>, user: Option<u64> },
    /// The member's current roles.
    MemberRoles { roles: Vec<u64> },
    /// The outcome of the role grant.
    GrantDone { ok: bool },
    /// The outcome of the confirmation direct message.
    DmDone { ok: bool },
}

/// The platform call to make next.
#[derive(Clone, Copy, Debug, PartialEq, Eq, Structural)]
pub enum VerifyAction {
    Nothing,
    FetchMember { guild: u64, user: u64 },
    AddRole { guild: u64, user: u64, role: u64 },
    SendDm { user: u64 },
    LogGrantFailure,
    LogDmFailure,
}

/// Whether a member with `roles` already holds the role of `cfg`.
pub open spec fn holds_role(cfg: VerificationConfig, roles: Seq<u64>) -> bool {
    roles.contains(cfg.role_id)
}

/// One transition of the workflow.
pub open spec fn step_spec(cfg: VerificationConfig, s: VerifyState, e: VerifyEvent) -> (
    VerifyState,
    VerifyAction,
) {
    match (s, e) {
        (VerifyState::Waiting, VerifyEvent::ReactionAdded { message, guild, user }) => {
            if message == cfg.message_id && guild is Some && user is Some {
                (
                    VerifyState::CheckingMember { guild: guild->0, user: user->0 },
                    VerifyAction::FetchMember { guild: guild->0, user: user->0 },
                )
            } else {
                (VerifyState::Waiting, VerifyAction::Nothing)
            }
        },
        (VerifyState::CheckingMember { guild, user }, VerifyEvent::MemberRoles { roles }) => {
            if holds_role(cfg, roles@) {
                (VerifyState::Finished, VerifyAction::Nothing)
            } else {
                (
                    VerifyState::RecheckingMember { guild, user },
                    VerifyAction::FetchMember { guild, user },
                )
            }
        },
        (VerifyState::RecheckingMember { guild, user }, VerifyEvent::MemberRoles { roles }) => {
            if holds_role(cfg, roles@) {
                (VerifyState::Finished, VerifyAction::Nothing)
            } else {
                (
                    VerifyState::Granting { guild, user },
                    VerifyAction::AddRole { guild, user, role: cfg.role_id },
                )
            }
        },
        (VerifyState::Granting { guild, user }, VerifyEvent::GrantDone { ok }) => {
            if ok {
                (VerifyState::Notifying { user }, VerifyAction::SendDm { user })
            } else {
                (VerifyState::Finished, VerifyAction::LogGrantFailure)
            }
        },
        (VerifyState::Notifying { user }, VerifyEvent::DmDone { ok }) => {
            if ok {
                (VerifyState::Finished, VerifyAction::Nothing)
            } else {
                (VerifyState::Finished, VerifyAction::LogDmFailure)
            }
        },
        _ => (s, VerifyAction::Nothing),
    }
}

/// Advances one run of the workflow by one event.
pub fn verification_step(cfg: &VerificationConfig, state: VerifyState, event: &VerifyEvent) -> (r: (
    VerifyState,
    VerifyAction,
))
    ensures
        r == step_spec(*cfg, state, *event),
{
    match (state, event) {
        (VerifyState::Waiting, VerifyEvent::ReactionAdded { message, guild, user }) => {
            if *message == cfg.message_id {
                match (guild, user) {
                    (Some(g), Some(u)) => (
                        VerifyState::CheckingMember { guild: *g, user: *u },
                        VerifyAction::FetchMember { guild: *g, user: *u },
                    ),
                    _ => (VerifyState::Waiting, VerifyAction::Nothing),
                }
            } else {
                (VerifyState::Waiting, VerifyAction::Nothing)
            }
        },
        (VerifyState::CheckingMember { guild, user }, VerifyEvent::MemberRoles { roles }) => {
            if contains_id(roles, cfg.role_id) {
                (VerifyState::Finished, VerifyAction::Nothing)
            } else {
                (
                    VerifyState::RecheckingMember { guild, user },
                    VerifyAction::FetchMember { guild, user },
                )
            }
        },
        (VerifyState::RecheckingMember { guild, user }, VerifyEvent::MemberRoles { roles }) => {
            if contains_id(roles, cfg.role_id) {
                (VerifyState::Finished, VerifyAction::Nothing)
            } else {
                (
                    VerifyState::Granting { guild, user },
                    VerifyAction::AddRole { guild, user, role: cfg.role_id },
                )
            }
        },
        (VerifyState::Granting { guild, user }, VerifyEvent::GrantDone { ok }) => {
            if *ok {
                (VerifyState::Notifying { user }, VerifyAction::SendDm { user })
            } else {
                (VerifyState::Finished, VerifyAction::LogGrantFailure)
            }
        },
        (VerifyState::Notifying { user }, VerifyEvent::DmDone { ok }) => {
            if *ok {
                (VerifyState::Finished, VerifyAction::Nothing)
            } else {
                (VerifyState::Finished, VerifyAction::LogDmFailure)
            }
        },
        _ => (state, VerifyAction::Nothing),
    }
}

/// The direct message that confirms a verification.
pub fn verified_dm_text() -> (r: &'static str)
    ensures
        r@ == "You have been verified!"@,
{
    "You have been verified!"
}

/// A whole run: the final state and every call requested, in order.
pub open spec fn run_spec(cfg: VerificationConfig, events: Seq<VerifyEvent>) -> (
    VerifyState,
    Seq<VerifyAction>,
)
    decreases events.len(),
{
    if events.len() == 0 {
        (VerifyState::Waiting, Seq::empty())
    } else {
        let prev = run_spec(cfg, events.drop_last());
        let next = step_spec(cfg, prev.0, events.last());
        (next.0, prev.1.push(next.1))
    }
}

/// How many role grants `acts` requests.
pub open spec fn grant_count(acts: Seq<VerifyAction>) -> nat
    decreases acts.len(),
{
    if acts.len() == 0 {
        0
    } else {
        grant_count(acts.drop_last()) + if acts.last() is AddRole {
            1nat
        } else {
            0nat
        }
    }
}

/// How many direct messages `acts` requests.
pub open spec fn dm_count(acts: Seq<VerifyAction>) -> nat
    decreases acts.len(),
{
    if acts.len() == 0 {
        0
    } else {
        dm_count(acts.drop_last()) + if acts.last() is SendDm {
            1nat
        } else {
            0nat
        }
    }
}

proof fn lemma_run_invariant(cfg: VerificationConfig, events: Seq<VerifyEvent>)
    ensures
        ({
            let (s, acts) = run_spec(cfg, events);
            match s {
                VerifyState::Granting { .. } => grant_count(acts) == 1 && dm_count(acts) == 0,
                VerifyState::Notifying { .. } => grant_count(acts) == 1 && dm_count(acts) == 1,
                VerifyState::Finished => grant_count(acts) <= 1 && dm_count(acts) <= grant_count(
                    acts,
                ),
                _ => grant_count(acts) == 0 && dm_count(acts) == 0,
            }
        }),
    decreases events.len(),
{
    if events.len() > 0 {
        lemma_run_invariant(cfg, events.drop_last());
        let prev = run_spec(cfg, events.drop_last());
        let acts = run_spec(cfg, events).1;
        assert(acts.drop_last() == prev.1);
    }
}

/// Any run, whatever events arrive, requests at most one role grant, and no
/// more confirmation messages than grants.
pub proof fn lemma_grant_at_most_once(cfg: VerificationConfig, events: Seq<VerifyEvent>)
    ensures
        grant_count(run_spec(cfg, events).1) <= 1,
        dm_count(run_spec(cfg, events).1) <= grant_count(run_spec(cfg, events).1),
{
    lemma_run_invariant(cfg, events);
}

/// A member who already holds the role, as every role listing in the run
/// shows, gets no role grant and no confirmation message: reacting again is
/// a no-op.
pub proof fn lemma_holder_untouched(cfg: VerificationConfig, events: Seq<VerifyEvent>)
    requires
        forall|i: int|
            0 <= i < events.len() ==> (#[trigger] events[i] matches VerifyEvent::MemberRoles {
                roles,
            } ==> holds_role(cfg, roles@)),
    ensures
        grant_count(run_spec(cfg, events).1) == 0,
        dm_count(run_spec(cfg, events).1) == 0,
        !(run_spec(cfg, events).0 is Granting),
        !(run_spec(cfg, events).0 is Notifying),
    decreases events.len(),
{
    if events.len() > 0 {
        let pre = events.drop_last();
        assert forall|i: int|
            0 <= i < pre.len() implies (#[trigger] pre[i] matches VerifyEvent::MemberRoles {
            roles,
        } ==> holds_role(cfg, roles@)) by {
            assert(pre[i] == events[i]);
        }
        lemma_holder_untouched(cfg, pre);
        let prev = run_spec(cfg, pre);
        let acts = run_spec(cfg, events).1;
        assert(acts.drop_last() == prev.1);
        assert(events.last() == events[events.len() - 1]);
    }
}

/// A member without the role who reacts once to the prompt gets exactly one
/// role grant, and one confirmation message if and only if the grant
/// succeeded.
pub proof fn lemma_newcomer_granted_once(
    cfg: VerificationConfig,
    guild: u64,
    user: u64,
    roles: Vec<u64>,
    granted: bool,
)
    requires
        !holds_role(cfg, roles@),
    ensures
        ({
            let events = seq![
                VerifyEvent::ReactionAdded {
                    message: cfg.message_id,
                    guild: Some(guild),
                    user: Some(user),
                },
                VerifyEvent::MemberRoles { roles },
                VerifyEvent::MemberRoles { roles },
                VerifyEvent::GrantDone { ok: granted },
            ];
            let (s, acts) = run_spec(cfg, events);
            &&& grant_count(acts) == 1
            &&& dm_count(acts) == if granted {
                1nat
            } else {
                0nat
            }
            &&& acts.last() == if granted {
                VerifyAction::SendDm { user }
            } else {
                VerifyAction::LogGrantFailure
            }
        }),
{
    let e0 = VerifyEvent::ReactionAdded {
        message: cfg.message_id,
        guild: Some(guild),
        user: Some(user),
    };
    let e1 = VerifyEvent::MemberRoles { roles };
    let e3 = VerifyEvent::GrantDone { ok: granted };
    let events = seq![e0, e1, e1, e3];
    let e_none = Seq::<VerifyEvent>::empty();
    assert(events.take(1).drop_last() =~= e_none);
    assert(events.take(2).drop_last() =~= events.take(1));
    assert(events.take(3).drop_last() =~= events.take(2));
    assert(events.drop_last() =~= events.take(3));
    let r0 = run_spec(cfg, e_none);
    assert(r0.0 == VerifyState::Waiting && r0.1 == Seq::<VerifyAction>::empty());
    assert(grant_count(r0.1) == 0 && dm_count(r0.1) == 0);
    let r1 = run_spec(cfg, events.take(1));
    assert(events.take(1).last() == e0);
    assert(r1.0 == VerifyState::CheckingMember { guild, user });
    assert(grant_count(r1.1) == 0 && dm_count(r1.1) == 0) by {
        assert(r1.1.drop_last() =~= r0.1);
    }
    let r2 = run_spec(cfg, events.take(2));
    assert(events.take(2).last() == e1);
    assert(r2.0 == VerifyState::RecheckingMember { guild, user });
    assert(grant_count(r2.1) == 0 && dm_count(r2.1) == 0) by {
        assert(r2.1.drop_last() =~= r1.1);
    }
    let r3 = run_spec(cfg, events.take(3));
    assert(events.take(3).last() == e1);
    assert(r3.0 == VerifyState::Granting { guild, user });
    assert(grant_count(r3.1) == 1 && dm_count(r3.1) == 0) by {
        assert(r3.1.drop_last() =~= r2.1);
    }
    let r4 = run_spec(cfg, events);
    assert(events.last() == e3);
    assert(r4.1.drop_last() =~= r3.1);
}

} // verus!
