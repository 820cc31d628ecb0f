//! Who may run commands, and who may post the verification prompt.
use vstd::prelude::*;

verus! {

/// The account that may not run any command.
pub const DENIED_ACCOUNT: u64 = 123456789;

/// The account that may post the verification prompt.
pub const VERIFICATION_SENDER: u64 = 829000568559108107;

/// Account lists that commands are checked against.
pub struct AccessPolicy {
    /// Accounts denied every command.
    pub denied: Vec<u64>,
    /// Accounts allowed to post the verification prompt.
    pub verification_senders: Vec<u64>,
}

/// Whether `id` occurs in `ids`.
pub fn contains_id(ids: &Vec<u64>, id: u64) -> (r: bool)
    ensures
        r == ids@.contains(id),
{
    let mut i: usize = 0;
    while i < ids.len()
        invariant
            i <= ids@.len(),
            forall|j: int| 0 <= j < i ==> ids@[j] != id,
        decreases ids@.len() - i,
    {
        if ids[i] == id {
            assert(ids@[i as int] == id);
            return true;
        }
        i = i + 1;
    }
    false
}

impl AccessPolicy {
    /// The bot's own lists: one denied account, one prompt sender.
    pub fn standard() -> (r: Self)
        ensures
            r.denied@ == seq![DENIED_ACCOUNT],
            r.verification_senders@ == seq![VERIFICATION_SENDER],
    {
        AccessPolicy { denied: vec![DENIED_ACCOUNT], verification_senders: vec![VERIFICATION_SENDER] }
    }

    /// The check run before every command: allowed unless denied.
    pub fn command_allowed(&self, author: u64) -> (r: bool)
        ensures
            r == !self.denied@.contains(author),
    {
        !contains_id(&self.denied, author)
    }
}

/// The call-to-action that users react to.
pub struct PromptEmbed {
    pub title: String,
    pub description: String,
    pub color: u32,
    /// The reaction attached to the prompt once it is sent.
    pub reaction: String,
}

/// What the verification prompt command answers.
pub enum VerificationReply {
    Prompt(PromptEmbed),
    NotAuthorized(String),
}

/// Posts the verification prompt for an authorized sender; anyone else gets
/// a refusal and no prompt.
pub fn send_verification(policy: &AccessPolicy, author: u64) -> (r: VerificationReply)
    ensures
        r is Prompt <==> policy.verification_senders@.contains(author),
        r matches VerificationReply::Prompt(p) ==> {
            &&& p.title@ == "Verify"@
            &&& p.description@ == "React below to get verified"@
            &&& p.color == 0x00ff00
            &&& p.reaction@ == "\u{2705}"@
        },
        r matches VerificationReply::NotAuthorized(t) ==> t@
            == "You are not authorized to use this command"@,
{
    if contains_id(&policy.verification_senders, author) {
        VerificationReply::Prompt(
            PromptEmbed {
                title: String::from_str("Verify"),
                description: String::from_str("React below to get verified"),
                color: 0x00ff00,
                reaction: String::from_str("\u{2705}"),
            },
        )
    } else {
        VerificationReply::NotAuthorized(
            String::from_str("You are not authorized to use this command"),
        )
    }
}

} // verus!
