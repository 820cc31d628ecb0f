//! The shared command state and the replies of the help, vote, getvotes and
//! ping commands.
use vstd::prelude::*;
use crate::text::{decimal, push_decimal};
use crate::votes::{after_votes, count_of, lemma_votes_counted, occurrences, TallyModel, VoteTally};

verus! {

/// The state that every command invocation shares.
pub struct Data {
    pub votes: VoteTally,
}

impl Data {
    /// The shared state is well formed.
    pub open spec fn wf(&self) -> bool {
        self.votes.wf()
    }

    /// Fresh state: nobody has voted.
    pub fn new() -> (r: Self)
        ensures
            r.wf(),
            r.votes@ == Seq::<(Seq<char>, nat)>::empty(),
    {
        Data { votes: VoteTally::new() }
    }
}

/// Reply to a vote: the choice and its new count.
pub open spec fn vote_text(c: Seq<char>, n: nat) -> Seq<char> {
    "Successfully voted for "@ + c + ". "@ + c + " now has "@ + decimal(n) + " votes!"@
}

/// Reply to a query for one choice.
pub open spec fn choice_votes_text(c: Seq<char>, n: nat) -> Seq<char> {
    if n == 0 {
        "Nobody has voted for "@ + c + " yet"@
    } else {
        decimal(n) + " people have voted for "@ + c
    }
}

/// One line of the full listing.
pub open spec fn entry_text(e: (Seq<char>, nat)) -> Seq<char> {
    e.0 + ": "@ + decimal(e.1) + " votes"@
}

/// Every entry of the tally, one after the other.
pub open spec fn listing_text(s: TallyModel) -> Seq<char>
    decreases s.len(),
{
    if s.len() == 0 {
        Seq::empty()
    } else {
        listing_text(s.drop_last()) + entry_text(s.last())
    }
}

/// Reply to a query for all choices.
pub open spec fn all_votes_text(s: TallyModel) -> Seq<char> {
    if s.len() == 0 {
        "Nobody has voted for anything yet :("@
    } else {
        listing_text(s)
    }
}

/// Reply to a query, for one choice or for all.
pub open spec fn getvotes_text(s: TallyModel, choice: Option<Seq<char>>) -> Seq<char> {
    match choice {
        Some(c) => choice_votes_text(c, count_of(s, c)),
        None => all_votes_text(s),
    }
}

/// Reply to a ping once the placeholder is out: the latency in whole
/// milliseconds.
pub open spec fn ping_text(latency_ms: nat) -> Seq<char> {
    "Pong! \u{1F3D3} Latency: "@ + decimal(latency_ms) + "ms"@
}

/// After any sequence of votes from a fresh tally, the reply to a query for
/// `c` reports exactly the number of votes cast for `c`, however they were
/// interleaved with votes for other choices.
pub proof fn lemma_getvotes_counts_votes(votes: Seq<Seq<char>>, c: Seq<char>)
    ensures
        getvotes_text(after_votes(Seq::empty(), votes), Some(c)) == choice_votes_text(
            c,
            occurrences(votes, c),
        ),
{
    lemma_votes_counted(votes, c);
}

/// Records one vote for `choice` and returns the reply that reports its new
/// count. The increment and the count read back are one step.
pub fn vote(data: &mut Data, choice: String) -> (r: String)
    requires
        old(data).wf(),
        count_of(old(data).votes@, choice@) < u32::MAX,
    ensures
        final(data).wf(),
        final(data).votes@ == crate::votes::after_vote(old(data).votes@, choice@),
        r@ == vote_text(choice@, count_of(final(data).votes@, choice@)),
{
    let n = data.votes.increment(&choice);
    let mut r = String::new();
    r.append("Successfully voted for ");
    r.append(choice.as_str());
    r.append(". ");
    r.append(choice.as_str());
    r.append(" now has ");
    push_decimal(&mut r, n as u64);
    r.append(" votes!");
    assert(r@ =~= vote_text(choice@, n as nat));
    r
}

/// Reports the votes for `choice`, or for every choice when none is given.
/// The tally is only read.
pub fn getvotes(data: &Data, choice: Option<String>) -> (r: String)
    requires
        data.wf(),
    ensures
        r@ == getvotes_text(data.votes@, choice.deep_view()),
{
    match choice {
        Some(c) => {
            let n = data.votes.get(&c);
            let mut r = String::new();
            if n == 0 {
                r.append("Nobody has voted for ");
                r.append(c.as_str());
                r.append(" yet");
            } else {
                push_decimal(&mut r, n as u64);
                r.append(" people have voted for ");
                r.append(c.as_str());
            }
            assert(r@ =~= choice_votes_text(c@, n as nat));
            r
        },
        None => {
            if data.votes.is_empty() {
                let r = String::from_str("Nobody has voted for anything yet :(");
                r
            } else {
                let entries = data.votes.list_all();
                let mut r = String::new();
                let mut i: usize = 0;
                while i < entries.len()
                    invariant
                        i <= entries@.len(),
                        entries@.len() == data.votes@.len(),
                        forall|j: int|
                            0 <= j < entries@.len() ==> (#[trigger] entries@[j]).0@
                                == data.votes@[j].0 && entries@[j].1 as nat == data.votes@[j].1,
                        r@ == listing_text(data.votes@.take(i as int)),
                    decreases entries@.len() - i,
                {
                    let e = &entries[i];
                    r.append(e.0.as_str());
                    r.append(": ");
                    push_decimal(&mut r, e.1 as u64);
                    r.append(" votes");
                    proof {
                        let s = data.votes@.take(i + 1);
                        assert(s.drop_last() =~= data.votes@.take(i as int));
                        assert(s.last() == data.votes@[i as int]);
                    }
                    i = i + 1;
                }
                assert(data.votes@.take(i as int) =~= data.votes@);
                r
            }
        },
    }
}

/// The reply sent before the round trip is measured.
pub fn ping_placeholder() -> (r: &'static str)
    ensures
        r@ == "Pong!"@,
{
    "Pong!"
}

/// The reply that replaces the placeholder: `start_ns` and `end_ns` are
/// readings of the process clock, in nanoseconds, taken before sending the
/// placeholder and after it was sent. A clock that went backwards counts as
/// no time at all.
pub fn ping(start_ns: u64, end_ns: u64) -> (r: String)
    ensures
        r@ == ping_text(
            if end_ns >= start_ns {
                ((end_ns - start_ns) / 1_000_000) as nat
            } else {
                0
            },
        ),
{
    let elapsed: u64 = if end_ns >= start_ns {
        end_ns - start_ns
    } else {
        0
    };
    let mut r = String::new();
    r.append("Pong! \u{1F3D3} Latency: ");
    push_decimal(&mut r, elapsed / 1_000_000);
    r.append("ms");
    r
}

/// What the help command shows: usage of one command, or the list of all
/// commands when none is named, with a note at the bottom.
pub struct HelpRequest {
    pub command: Option<String>,
    pub footer: String,
}

/// The note shown under every help text.
pub open spec fn help_footer() -> Seq<char> {
    "This is an example bot made to showcase features of my custom Discord bot framework"@
}

/// Prepares the help reply for `command`, or for all commands.
pub fn help(command: Option<String>) -> (r: HelpRequest)
    ensures
        r.command.deep_view() == command.deep_view(),
        r.footer@ == help_footer(),
{
    HelpRequest {
        command,
        footer: String::from_str(
            "This is an example bot made to showcase features of my custom Discord bot framework",
        ),
    }
}

} // verus!
