//! The decisions of the bot on X (Twitter): which tweets it handles, the
//! tweets it remembers having seen, and the prompt a conversation makes.
use vstd::prelude::*;
use crate::text::{
    debug_quote, debug_quoted, join, join_spec, listed, str_eq, texts_of, to_lowercase,
    unicode_lower,
};
use crate::character::{Character, character_system};
use crate::model::{CompletionRequest, Documents};

verus! {

/// The most tweet ids the bot remembers; at that many it forgets the older half.
pub const MAX_SEEN_TWEET_IDS: usize = 10000;

/// How many of the latest seen tweet ids the home timeline request carries.
pub const RECENT_SEEN_TWEET_IDS: usize = 42;

/// How many parent tweets a conversation thread reaches back at most.
pub const MAX_HISTORY_TWEETS: usize = 21;

/// Forgets the older half of the seen tweet ids once there are
/// `MAX_SEEN_TWEET_IDS` of them.
pub fn forget_old_seen(ids: &mut Vec<String>)
    ensures
        old(ids)@.len() >= MAX_SEEN_TWEET_IDS ==> final(ids)@ == old(ids)@.skip(
            (MAX_SEEN_TWEET_IDS / 2) as int,
        ),
        old(ids)@.len() < MAX_SEEN_TWEET_IDS ==> final(ids)@ == old(ids)@,
{
    if ids.len() >= MAX_SEEN_TWEET_IDS {
        let recent = ids.split_off(MAX_SEEN_TWEET_IDS / 2);
        *ids = recent;
    }
}

/// The latest `RECENT_SEEN_TWEET_IDS` seen tweet ids (all when fewer), in order.
pub fn recent_seen(ids: &Vec<String>) -> (r: Vec<String>)
    ensures
        r@ == if ids@.len() > RECENT_SEEN_TWEET_IDS {
            ids@.skip(ids@.len() - RECENT_SEEN_TWEET_IDS)
        } else {
            ids@
        },
{
    let start: usize = if ids.len() > RECENT_SEEN_TWEET_IDS {
        ids.len() - RECENT_SEEN_TWEET_IDS
    } else {
        0
    };
    let mut r: Vec<String> = Vec::new();
    let mut i: usize = start;
    while i < ids.len()
        invariant
            start <= i <= ids.len(),
            r@ == ids@.subrange(start as int, i as int),
        decreases ids.len() - i,
    {
        r.push(ids[i].clone());
        assert(r@ =~= ids@.subrange(start as int, i + 1));
        i = i + 1;
    }
    assert(ids@.skip(start as int) =~= ids@.subrange(start as int, ids.len() as int));
    r
}

/// A tweet by `user` is the bot's own when their names agree in lowercase.
pub open spec fn by_bot(user: Seq<char>, bot: Seq<char>) -> bool {
    unicode_lower(user) == unicode_lower(bot)
}

/// The bot answers a mention that has text and a user, is not its own, and
/// that it has not seen.
pub open spec fn mention_wanted(text: Seq<char>, user: Seq<char>, id: Seq<char>, bot: Seq<char>, seen: Seq<Seq<char>>) -> bool {
    text.len() > 0 && user.len() > 0 && !by_bot(user, bot) && !seen.contains(id)
}

/// The bot considers a tweet of its home timeline that has text and an id,
/// is not its own, and that it has not seen.
pub open spec fn timeline_tweet_wanted(text: Seq<char>, user: Seq<char>, id: Seq<char>, bot: Seq<char>, seen: Seq<Seq<char>>) -> bool {
    text.len() > 0 && id.len() > 0 && !by_bot(user, bot) && !seen.contains(id)
}

/// Whether two user names agree in lowercase.
fn same_user(user: &str, bot: &str) -> (b: bool)
    ensures
        b == by_bot(user@, bot@),
{
    let a = to_lowercase(user);
    let c = to_lowercase(bot);
    str_eq(a.as_str(), c.as_str())
}

/// Whether the bot answers a mention (see `mention_wanted`).
pub fn mention_to_handle(text: &str, user: &str, id: &str, bot: &str, seen: &Vec<String>) -> (b: bool)
    ensures
        b == mention_wanted(text@, user@, id@, bot@, texts_of(seen@)),
{
    !text.is_empty() && !user.is_empty() && !same_user(user, bot) && !listed(id, seen)
}

/// Whether the bot considers a tweet of its home timeline (see
/// `timeline_tweet_wanted`).
pub fn timeline_tweet_to_handle(text: &str, user: &str, id: &str, bot: &str, seen: &Vec<String>) -> (b: bool)
    ensures
        b == timeline_tweet_wanted(text@, user@, id@, bot@, texts_of(seen@)),
{
    !text.is_empty() && !id.is_empty() && !same_user(user, bot) && !listed(id, seen)
}

/// A line of a conversation: the user's name, a colon, and the text quoted
/// as `{:?}` does.
pub open spec fn thread_line(user: Seq<char>, text: Seq<char>) -> Seq<char> {
    user + ": "@ + debug_quoted(text)
}

/// The lines of a conversation's tweets (user and text of each), oldest first.
pub open spec fn thread_lines(thread: Seq<(String, String)>) -> Seq<Seq<char>> {
    thread.map_values(|t: (String, String)| thread_line(t.0@, t.1@))
}

/// The prompt of a mention: its own text when the conversation holds at
/// most one tweet, else the conversation's lines, one per line.
pub open spec fn mention_prompt(text: Seq<char>, thread: Seq<(String, String)>) -> Seq<char> {
    if thread.len() <= 1 {
        text
    } else {
        join_spec(thread_lines(thread), "\n"@)
    }
}

/// The prompt of a mention whose conversation is `thread` (each tweet as its
/// user and its text, oldest first).
pub fn conversation_prompt(text: String, thread: &Vec<(String, String)>) -> (r: String)
    ensures
        r@ == mention_prompt(text@, thread@),
{
    if thread.len() <= 1 {
        return text;
    }
    let mut lines: Vec<String> = Vec::new();
    let mut i: usize = 0;
    while i < thread.len()
        invariant
            i <= thread.len(),
            lines@.len() == i,
            forall|k: int| 0 <= k < i ==> lines@[k]@ == thread_line(thread@[k].0@, thread@[k].1@),
        decreases thread.len() - i,
    {
        let mut line = thread[i].0.clone();
        line.append(": ");
        let q = debug_quote(thread[i].1.as_str());
        line.append(q.as_str());
        lines.push(line);
        i = i + 1;
    }
    assert(texts_of(lines@) =~= thread_lines(thread@));
    let sep = "\n";
    join(&lines, sep)
}

/// The prompt with which the bot writes a tweet of its own.
pub open spec fn new_tweet_prompt() -> Seq<char> {
    "Share a single brief thought or observation in one short sentence.Be direct and concise. No questions, hashtags, or emojis."@
}

/// The request for a tweet of the bot's own, drawn from recent knowledge:
/// none without knowledge; else the character's request of the tweet prompt,
/// by `user`, with the knowledge as documents.
pub fn new_tweet_request(character: &Character, user: Option<String>, knowledges: Documents) -> (r: Option<CompletionRequest>)
    ensures
        r is None <==> knowledges.0@.len() == 0,
        r matches Some(req) ==> {
            &&& req.system matches Some(s) && s@ == character_system(*character)
            &&& req.prompt@ == new_tweet_prompt()
            &&& req.prompter_name == user
            &&& req.documents.0@ == knowledges.0@
        },
{
    if knowledges.0.len() == 0 {
        return None;
    }
    let prompt = String::from_str(
        "Share a single brief thought or observation in one short sentence.Be direct and concise. No questions, hashtags, or emojis.",
    );
    proof {
        reveal_strlit(
            "Share a single brief thought or observation in one short sentence.Be direct and concise. No questions, hashtags, or emojis.",
        );
    }
    let req = character.to_request(prompt, user).append_documents(knowledges);
    assert(req.documents.0@ =~= knowledges.0@);
    Some(req)
}

/// What one round of the bot does.
#[derive(Debug, PartialEq, Eq, Structural)]
pub enum DaemonActions {
    /// The bot is stopped: wait `STOPPED_WAIT_SECS` and look again.
    WaitStopped,
    /// Answer the latest mentions, then handle the home timeline and post a
    /// tweet of its own where asked, then rest between `MIN_REST_SECS` and
    /// `MAX_REST_SECS` seconds.
    Run { home_timeline: bool, post_tweet: bool },
}

/// How long a stopped bot waits before it looks at its status again.
pub const STOPPED_WAIT_SECS: u64 = 60;

/// The bounds of the rest between two rounds, in seconds.
pub const MIN_REST_SECS: u64 = 60;
pub const MAX_REST_SECS: u64 = 300;

/// The bounds of the pause after each mention, in seconds.
pub const MIN_MENTION_PAUSE_SECS: u64 = 3;
pub const MAX_MENTION_PAUSE_SECS: u64 = 10;

/// The largest draw for the home timeline (drawn from 0 to it; 0 handles it).
pub const TIMELINE_DRAW_MAX: u32 = 10;

/// The largest draw for a tweet of the bot's own (drawn from 0 to it; 0 posts).
pub const POST_DRAW_MAX: u32 = 20;

/// How many of the latest mentions a round fetches.
pub const MENTIONS_PER_ROUND: usize = 20;

/// One round of the bot, from its status and the two random draws (from 0
/// to `TIMELINE_DRAW_MAX` and to `POST_DRAW_MAX`): a stopped bot waits; a
/// running one answers its mentions, handles the home timeline when the first
/// draw is 0, and posts a tweet when the second is 0.
pub fn daemon_step(stopped: bool, timeline_draw: u32, post_draw: u32) -> (a: DaemonActions)
    ensures
        stopped ==> a == DaemonActions::WaitStopped,
        !stopped ==> a == (DaemonActions::Run { home_timeline: timeline_draw == 0, post_tweet: post_draw == 0 }),
{
    if stopped {
        DaemonActions::WaitStopped
    } else {
        DaemonActions::Run { home_timeline: timeline_draw == 0, post_tweet: post_draw == 0 }
    }
}

/// The search that finds the bot's mentions: "@" and its user name.
pub fn mention_query(username: &str) -> (r: String)
    ensures
        r@ == "@"@ + username@,
{
    let mut r = "@".to_string();
    r.append(username);
    r
}

} // verus!
