//! Argument handling and replies of the ban and kick commands.
use vstd::prelude::*;

verus! {

/// The member a moderation command acts on.
pub struct TargetUser {
    pub id: u64,
    pub name: String,
}

/// Why a moderation command cannot run.
#[derive(Clone, Copy, Debug, PartialEq, Eq, Structural)]
pub enum ModerationError {
    /// The command was not invoked in a server.
    NotInServer,
    /// No target user was given or could be resolved.
    NoTarget,
}

/// A ban to carry out.
pub struct BanRequest {
    pub guild: u64,
    pub user: u64,
    pub user_name: String,
    pub reason: String,
    pub delete_message_days: u8,
}

/// A kick to carry out.
pub struct KickRequest {
    pub guild: u64,
    pub user: u64,
    pub user_name: String,
    pub reason: String,
}

/// Which moderation command ran.
#[derive(Clone, Copy, Debug, PartialEq, Eq, Structural)]
pub enum ModerationKind {
    Ban,
    Kick,
}

/// The given reason, or the empty text.
pub open spec fn reason_or_empty(reason: Option<String>) -> Seq<char> {
    match reason {
        Some(r) => r@,
        None => Seq::empty(),
    }
}

/// Why the arguments are refused, if they are.
pub open spec fn moderation_refusal(guild: Option<u64>, target_given: bool) -> Option<
    ModerationError,
> {
    if guild is None {
        Some(ModerationError::NotInServer)
    } else if !target_given {
        Some(ModerationError::NoTarget)
    } else {
        None
    }
}

fn reason_text(reason: Option<String>) -> (r: String)
    ensures
        r@ == reason_or_empty(reason),
{
    match reason {
        Some(r) => r,
        None => String::new(),
    }
}

/// Checks the arguments of a ban: a server and a target are required, the
/// reason defaults to empty and the days of messages to purge to zero.
pub fn ban(guild: Option<u64>, target: Option<TargetUser>, reason: Option<String>, dmd: Option<u8>) -> (r:
    Result<BanRequest, ModerationError>)
    ensures
        moderation_refusal(guild, target is Some) matches Some(e) ==> r == Err::<
            BanRequest,
            ModerationError,
        >(e),
        moderation_refusal(guild, target is Some) is None ==> (r matches Ok(b) && {
            &&& b.guild == guild->0
            &&& b.user == target->0.id
            &&& b.user_name@ == target->0.name@
            &&& b.reason@ == reason_or_empty(reason)
            &&& b.delete_message_days == match dmd {
                Some(d) => d,
                None => 0u8,
            }
        }),
{
    match guild {
        None => Err(ModerationError::NotInServer),
        Some(g) => match target {
            None => Err(ModerationError::NoTarget),
            Some(t) => {
                let days: u8 = match dmd {
                    Some(d) => d,
                    None => 0,
                };
                Ok(
                    BanRequest {
                        guild: g,
                        user: t.id,
                        user_name: t.name,
                        reason: reason_text(reason),
                        delete_message_days: days,
                    },
                )
            },
        },
    }
}

/// Checks the arguments of a kick: a server and a target are required, the
/// reason defaults to empty.
pub fn kick(guild: Option<u64>, target: Option<TargetUser>, reason: Option<String>) -> (r: Result<
    KickRequest,
    ModerationError,
>)
    ensures
        moderation_refusal(guild, target is Some) matches Some(e) ==> r == Err::<
            KickRequest,
            ModerationError,
        >(e),
        moderation_refusal(guild, target is Some) is None ==> (r matches Ok(k) && {
            &&& k.guild == guild->0
            &&& k.user == target->0.id
            &&& k.user_name@ == target->0.name@
            &&& k.reason@ == reason_or_empty(reason)
        }),
{
    match guild {
        None => Err(ModerationError::NotInServer),
        Some(g) => match target {
            None => Err(ModerationError::NoTarget),
            Some(t) => Ok(
                KickRequest { guild: g, user: t.id, user_name: t.name, reason: reason_text(reason) },
            ),
        },
    }
}

/// The verb of a moderation command.
pub open spec fn verb(kind: ModerationKind) -> Seq<char> {
    match kind {
        ModerationKind::Ban => "ban"@,
        ModerationKind::Kick => "kick"@,
    }
}

/// The past participle of a moderation command.
pub open spec fn done_verb(kind: ModerationKind) -> Seq<char> {
    match kind {
        ModerationKind::Ban => "banned"@,
        ModerationKind::Kick => "kicked"@,
    }
}

/// The reply once the platform answered: the failure with its text, or the
/// confirmation naming the user.
pub open spec fn moderation_reply_text(
    kind: ModerationKind,
    name: Seq<char>,
    failure: Option<Seq<char>>,
) -> Seq<char> {
    match failure {
        Some(err) => "Failed to "@ + verb(kind) + " "@ + name + ": "@ + err,
        None => name + " has been "@ + done_verb(kind),
    }
}

/// Tells the invoker how the ban or kick of `name` went; `failure` holds the
/// platform's error text when it failed.
pub fn moderation_reply(kind: ModerationKind, name: &String, failure: &Option<String>) -> (r: String)
    ensures
        r@ == moderation_reply_text(kind, name@, failure.deep_view()),
{
    let mut r = String::new();
    match failure {
        Some(err) => {
            r.append("Failed to ");
            match kind {
                ModerationKind::Ban => r.append("ban"),
                ModerationKind::Kick => r.append("kick"),
            }
            r.append(" ");
            r.append(name.as_str());
            r.append(": ");
            r.append(err.as_str());
        },
        None => {
            r.append(name.as_str());
            r.append(" has been ");
            match kind {
                ModerationKind::Ban => r.append("banned"),
                ModerationKind::Kick => r.append("kicked"),
            }
        },
    }
    assert(r@ =~= moderation_reply_text(kind, name@, failure.deep_view()));
    r
}

} // verus!
