//! Resolution of invocations to commands, and the checks run before one.
use vstd::prelude::*;
use crate::policy::AccessPolicy;

verus! {

/// The registered commands.
#[derive(Clone, Copy, Debug, PartialEq, Eq, Structural)]
pub enum Command {
    Help,
    Vote,
    Getvotes,
    Ping,
    SendVerification,
    Ban,
    Kick,
}

/// How a command was invoked.
#[derive(Clone, Copy, Debug, PartialEq, Eq, Structural)]
pub enum Surface {
    /// A message that starts with a prefix.
    Prefix,
    /// A structured (slash) invocation.
    Slash,
}

/// What to do with an invocation.
#[derive(Clone, Copy, Debug, PartialEq, Eq, Structural)]
pub enum RouteDecision {
    /// No such command here: ignored, no error.
    Ignore,
    /// The author may not run commands: nothing runs.
    Denied,
    /// Run the command.
    Run(Command),
}

/// The primary prefix, then the alternate literal prefixes, in the order
/// they are tried.
pub open spec fn prefixes() -> Seq<Seq<char>> {
    seq!["~"@, "hey serenity,"@, "hey serenity"@]
}

/// The length of the first prefix in `ps` that `content` starts with.
pub open spec fn first_prefix(content: Seq<char>, ps: Seq<Seq<char>>) -> Option<nat>
    decreases ps.len(),
{
    if ps.len() == 0 {
        None
    } else if ps[0].len() <= content.len() && content.subrange(0, ps[0].len() as int) == ps[0] {
        Some(ps[0].len())
    } else {
        first_prefix(content, ps.drop_first())
    }
}

/// The command that `name` names, by its name or an alias.
pub open spec fn resolve_spec(name: Seq<char>) -> Option<Command> {
    if name == "help"@ {
        Some(Command::Help)
    } else if name == "vote"@ {
        Some(Command::Vote)
    } else if name == "getvotes"@ || name == "votes"@ {
        Some(Command::Getvotes)
    } else if name == "ping"@ {
        Some(Command::Ping)
    } else if name == "send_verification"@ {
        Some(Command::SendVerification)
    } else if name == "ban"@ {
        Some(Command::Ban)
    } else if name == "kick"@ {
        Some(Command::Kick)
    } else {
        None
    }
}

/// Whether `cmd` can be invoked on `surface`: the verification prompt is a
/// prefix command only, the rest are both.
pub open spec fn offered_on(cmd: Command, surface: Surface) -> bool {
    !(cmd == Command::SendVerification && surface == Surface::Slash)
}

/// Whether an edit of the invoking message re-runs `cmd` and updates its
/// response.
pub open spec fn tracks_edits(cmd: Command) -> bool {
    cmd == Command::Help || cmd == Command::Getvotes
}

/// The routing decision for an invocation of `name` by `author`.
pub open spec fn route_spec(denied: Seq<u64>, surface: Surface, author: u64, name: Seq<char>) -> RouteDecision {
    match resolve_spec(name) {
        Some(cmd) => if !offered_on(cmd, surface) {
            RouteDecision::Ignore
        } else if denied.contains(author) {
            RouteDecision::Denied
        } else {
            RouteDecision::Run(cmd)
        },
        None => RouteDecision::Ignore,
    }
}

/// Whether `s` begins with `p`.
pub fn starts_with(s: &str, p: &str) -> (r: bool)
    ensures
        r == (p@.len() <= s@.len() && s@.subrange(0, p@.len() as int) == p@),
{
    let n = p.unicode_len();
    if n > s.unicode_len() {
        return false;
    }
    let mut i: usize = 0;
    while i < n
        invariant
            n == p@.len(),
            n <= s@.len(),
            i <= n,
            forall|j: int| 0 <= j < i ==> s@[j] == p@[j],
        decreases n - i,
    {
        if s.get_char(i) != p.get_char(i) {
            assert(s@.subrange(0, n as int)[i as int] != p@[i as int]);
            return false;
        }
        i = i + 1;
    }
    assert(s@.subrange(0, n as int) =~= p@);
    true
}

/// Whether `a` and `b` are the same text.
pub fn same_text(a: &str, b: &str) -> (r: bool)
    ensures
        r == (a@ == b@),
{
    let r = a.unicode_len() == b.unicode_len() && starts_with(a, b);
    proof {
        if a@.len() == b@.len() {
            assert(a@.subrange(0, b@.len() as int) =~= a@);
        }
    }
    r
}

/// The number of characters of the prefix that `content` starts with, if it
/// starts with one; the command name follows it.
pub fn strip_prefix(content: &str) -> (r: Option<usize>)
    ensures
        r matches Some(n) ==> first_prefix(content@, prefixes()) == Some(n as nat),
        r is None ==> first_prefix(content@, prefixes()) is None,
{
    proof {
        reveal_with_fuel(first_prefix, 4);
        let ps = prefixes();
        assert(ps.drop_first() =~= seq!["hey serenity,"@, "hey serenity"@]);
        assert(ps.drop_first().drop_first() =~= seq!["hey serenity"@]);
        assert(ps.drop_first().drop_first().drop_first() =~= Seq::<Seq<char>>::empty());
        reveal_strlit("~");
        reveal_strlit("hey serenity,");
        reveal_strlit("hey serenity");
    }
    if starts_with(content, "~") {
        Some(1)
    } else if starts_with(content, "hey serenity,") {
        Some(13)
    } else if starts_with(content, "hey serenity") {
        Some(12)
    } else {
        None
    }
}

/// The command named `name`, by name or alias.
pub fn resolve(name: &str) -> (r: Option<Command>)
    ensures
        r == resolve_spec(name@),
{
    if same_text(name, "help") {
        Some(Command::Help)
    } else if same_text(name, "vote") {
        Some(Command::Vote)
    } else if same_text(name, "getvotes") || same_text(name, "votes") {
        Some(Command::Getvotes)
    } else if same_text(name, "ping") {
        Some(Command::Ping)
    } else if same_text(name, "send_verification") {
        Some(Command::SendVerification)
    } else if same_text(name, "ban") {
        Some(Command::Ban)
    } else if same_text(name, "kick") {
        Some(Command::Kick)
    } else {
        None
    }
}

/// Whether `cmd` re-runs when its invoking message is edited; only prefix
/// invocations are ever replayed.
pub fn replays_on_edit(cmd: Command, surface: Surface) -> (r: bool)
    ensures
        r == (surface == Surface::Prefix && tracks_edits(cmd)),
{
    match surface {
        Surface::Prefix => match cmd {
            Command::Help | Command::Getvotes => true,
            _ => false,
        },
        Surface::Slash => false,
    }
}

/// Decides what an invocation of `name` by `author` on `surface` does:
/// unknown names are ignored, denied authors run nothing, the rest run.
pub fn route(policy: &AccessPolicy, surface: Surface, author: u64, name: &str) -> (r: RouteDecision)
    ensures
        r == route_spec(policy.denied@, surface, author, name@),
{
    match resolve(name) {
        Some(cmd) => {
            let offered = match (cmd, surface) {
                (Command::SendVerification, Surface::Slash) => false,
                _ => true,
            };
            if !offered {
                RouteDecision::Ignore
            } else if !policy.command_allowed(author) {
                RouteDecision::Denied
            } else {
                RouteDecision::Run(cmd)
            }
        },
        None => RouteDecision::Ignore,
    }
}

} // verus!
