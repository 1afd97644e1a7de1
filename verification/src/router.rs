//! Routing of one inbound gateway message: decide whether the bot is
//! addressed, apply the reset command, or record the user's turn and
//! hand back the transcript snapshot the completion request needs.

use vstd::prelude::*;
use crate::store::{HistoryStore, append_spec, clear_spec};
use crate::transcript::{Entry, Role, entries_view, user_entry, assistant_entry};

verus! {

/// One inbound gateway message, reduced to the plain facts the
/// routing decision reads.
pub struct MessageEvent {
    /// The author is the bot's own identity.
    pub author_is_bot: bool,
    /// The conversation is a private (1:1) conversation.
    pub is_private: bool,
    /// The message explicitly mentions the bot.
    pub mentions_bot: bool,
    /// The conversation the message arrived on.
    pub channel_id: u64,
    /// The raw message text.
    pub content: String,
}

/// What handling one message requires of the caller afterwards.
pub enum RouteOutcome {
    /// Not addressed to the bot: nothing happened, nothing to do.
    Ignored,
    /// The reset command ran: send the canned confirmations.
    Cleared,
    /// The user's turn was recorded: request a completion for this
    /// transcript snapshot, then record and send the reply.
    AwaitReply { transcript: Vec<Entry> },
}

/// Whether the bot is addressed: not its own message, and either a
/// private conversation or an explicit mention.
pub open spec fn responds_to(e: MessageEvent) -> bool {
    !e.author_is_bot && (e.is_private || e.mentions_bot)
}

/// The reset command token, recognised anywhere in a message.
pub open spec fn clear_token() -> Seq<char> {
    seq!['!', 'c', 'l', 'e', 'a', 'r']
}

/// `tok` occurs in `s` starting at position `i`.
pub open spec fn token_at(s: Seq<char>, tok: Seq<char>, i: int) -> bool {
    0 <= i && i + tok.len() <= s.len() && s.subrange(i, i + tok.len()) == tok
}

/// `tok` occurs somewhere in `s`.
pub open spec fn contains_token(s: Seq<char>, tok: Seq<char>) -> bool {
    exists|i: int| token_at(s, tok, i)
}

/// Character-by-character substring search.
pub fn find_token(s: &str, tok: &str) -> (r: bool)
    ensures
        r == contains_token(s@, tok@),
{
    let n = s.unicode_len();
    let m = tok.unicode_len();
    if m == 0 {
        proof {
            assert(s@.subrange(0, 0) =~= tok@);
            assert(token_at(s@, tok@, 0));
        }
        return true;
    }
    if m > n {
        proof {
            assert forall|i: int| !(#[trigger] token_at(s@, tok@, i)) by {
                assert(i + tok@.len() <= s@.len() ==> i < 0);
            }
        }
        return false;
    }
    let mut i: usize = 0;
    while i <= n - m
        invariant
            n == s@.len(),
            m == tok@.len(),
            0 < m <= n,
            i <= n - m + 1,
            forall|k: int| 0 <= k < i ==> !token_at(s@, tok@, k),
        decreases n - i,
    {
        let mut j: usize = 0;
        let mut hit = true;
        let ghost mut bad: int = 0;
        while j < m && hit
            invariant
                n == s@.len(),
                m == tok@.len(),
                0 < m <= n,
                i <= n - m,
                j <= m,
                hit ==> s@.subrange(i as int, i + j) == tok@.subrange(0, j as int),
                !hit ==> 0 <= bad < m && s@[i + bad] != tok@[bad],
            decreases m - j,
        {
            let c = s.get_char(i + j);
            let t = tok.get_char(j);
            if c != t {
                hit = false;
                proof {
                    bad = j as int;
                }
            } else {
                proof {
                    assert(s@.subrange(i as int, i + j + 1) =~= s@.subrange(i as int, i + j).push(
                        s@[i + j],
                    ));
                    assert(tok@.subrange(0, j + 1) =~= tok@.subrange(0, j as int).push(
                        tok@[j as int],
                    ));
                }
            }
            j = j + 1;
        }
        if hit {
            proof {
                assert(j == m);
                assert(s@.subrange(i as int, i + m) =~= tok@.subrange(0, m as int));
                assert(tok@.subrange(0, m as int) =~= tok@);
                assert(token_at(s@, tok@, i as int));
            }
            return true;
        }
        proof {
            assert(!token_at(s@, tok@, i as int)) by {
                if token_at(s@, tok@, i as int) {
                    assert(s@.subrange(i as int, i + m)[bad] == tok@[bad]);
                    assert(s@[i + bad] == tok@[bad]);
                }
            }
        }
        i = i + 1;
    }
    proof {
        assert forall|k: int| !(#[trigger] token_at(s@, tok@, k)) by {
            if 0 <= k && k + tok@.len() <= s@.len() {
                assert(k < i);
                assert(!token_at(s@, tok@, k));
            }
        }
    }
    false
}

/// Decides one inbound message and applies its history effect.
///
/// A message from the bot itself, or one that neither arrives in a
/// private conversation nor mentions the bot, leaves the store
/// untouched. An addressed message containing the reset token clears
/// the conversation's transcript. Any other addressed message has
/// its text appended as a user entry, and the transcript snapshot
/// handed back already contains that entry, so the completion
/// request always sees the latest prompt.
pub fn route(store: &mut HistoryStore, event: &MessageEvent) -> (o: RouteOutcome)
    ensures
        final(store).sys_preamble() == old(store).sys_preamble(),
        !responds_to(*event) ==> {
            &&& final(store).transcripts() == old(store).transcripts()
            &&& o is Ignored
        },
        responds_to(*event) && contains_token(event.content@, clear_token()) ==> {
            &&& final(store).transcripts() == clear_spec(
                old(store).transcripts(),
                event.channel_id,
            )
            &&& o is Cleared
        },
        responds_to(*event) && !contains_token(event.content@, clear_token()) ==> {
            &&& final(store).transcripts() == append_spec(
                old(store).transcripts(),
                old(store).sys_preamble(),
                event.channel_id,
                user_entry(event.content@),
            )
            &&& o matches RouteOutcome::AwaitReply { transcript } && entries_view(transcript@)
                == final(store).transcripts()[event.channel_id]
        },
{
    if event.author_is_bot {
        return RouteOutcome::Ignored;
    }
    if !(event.is_private || event.mentions_bot) {
        return RouteOutcome::Ignored;
    }
    let wants_clear = find_token(event.content.as_str(), "!clear");
    proof {
        reveal_strlit("!clear");
        assert("!clear"@ =~= clear_token());
    }
    if wants_clear {
        store.clear(event.channel_id);
        RouteOutcome::Cleared
    } else {
        store.append(
            event.channel_id,
            Entry { role: Role::User, content: event.content.clone() },
        );
        let transcript = store.get_or_init(event.channel_id);
        RouteOutcome::AwaitReply { transcript }
    }
}

/// Records the completion endpoint's reply as the assistant's turn.
pub fn record_reply(store: &mut HistoryStore, id: u64, reply: String)
    ensures
        final(store).sys_preamble() == old(store).sys_preamble(),
        final(store).transcripts() == append_spec(
            old(store).transcripts(),
            old(store).sys_preamble(),
            id,
            assistant_entry(reply@),
        ),
{
    store.append(id, Entry { role: Role::Assistant, content: reply });
}

/// The three canned confirmations sent after a reset, in order.
pub fn clear_confirmations() -> (msgs: Vec<String>)
    ensures
        msgs@.len() == 3,
        msgs@[0]@ == "Clearing my memory..."@,
        msgs@[1]@ == "Reverting back to stock ChatGPT..."@,
        msgs@[2]@ == "I don't want to go..."@,
{
    let mut msgs: Vec<String> = Vec::new();
    msgs.push(String::from_str("Clearing my memory..."));
    msgs.push(String::from_str("Reverting back to stock ChatGPT..."));
    msgs.push(String::from_str("I don't want to go..."));
    msgs
}

} // verus!
