//! The chat bot: which messages it answers, how it keeps a conversation with
//! each user, and what it says and speaks.

use crate::text::{join, joined, split_whitespace, starts_with, words};
use std::collections::HashSet;
use vstd::bytes::{spec_u64_to_le_bytes, u64_to_le_bytes};
use vstd::prelude::*;
use vstd::string::*;
use vstd::utf8::{decode_utf8, encode_utf8, valid_utf8};

verus! {

broadcast use vstd::std_specs::hash::group_hash_axioms;

/// The most spoken replies that wait to be played.
pub const MAX_VOICE_CHAT_REPLY_QUEUE_LENGTH: usize = 256;

/// The most bytes of conversation that are given to the text generator. It
/// takes more, but gets slow.
pub const MAX_CONVERSATION_HISTORY_LEN: usize = 2750;

/// Seconds for which the conversation with a user is kept: seven days.
pub const HISTORY_TTL_SECS: u64 = 604800;

/// Pause behind each spoken chunk, in milliseconds.
pub const REPLY_PAUSE_MILLIS: u64 = 500;

/// What the bot says when it has joined a channel.
pub const JOINED_REPLY: &'static str = "chatbot joined the channel";

/// Whether a word is a link.
pub open spec fn is_link(word: Seq<char>) -> bool {
    "http://"@.is_prefix_of(word) || "https://"@.is_prefix_of(word)
}

/// The words that are no links, in order.
pub open spec fn plain_words(all: Seq<Seq<char>>) -> Seq<Seq<char>>
    decreases all.len(),
{
    if all.len() == 0 {
        seq![]
    } else if is_link(all.last()) {
        plain_words(all.drop_last())
    } else {
        plain_words(all.drop_last()).push(all.last())
    }
}

/// A text without its links: the words that are no links, with one blank
/// between each two.
pub open spec fn without_links(text: Seq<char>) -> Seq<char> {
    joined(plain_words(words(text)), " "@)
}

/// Takes the links out of a text, so that they are not read out. White space
/// of any kind and length becomes one blank, and none is left at the ends.
pub fn remove_links_from_text(text: &str) -> (r: String)
    ensures
        r@ == without_links(text@),
{
    let all = split_whitespace(text);
    let mut plain: Vec<String> = Vec::new();
    let mut i: usize = 0;
    let ghost seen = all.deep_view();
    assert(seen.take(0) =~= Seq::<Seq<char>>::empty());
    assert(plain.deep_view() =~= plain_words(seen.take(0)));
    while i < all.len()
        invariant
            i <= all.len(),
            seen == all.deep_view(),
            plain.deep_view() == plain_words(seen.take(i as int)),
        decreases all.len() - i,
    {
        proof {
            assert(seen.take(i + 1).drop_last() =~= seen.take(i as int));
            assert(seen.take(i + 1).last() == all[i as int]@);
        }
        let word = all[i].as_str();
        if !starts_with(word, "http://") && !starts_with(word, "https://") {
            let ghost before = plain.deep_view();
            plain.push(String::from_str(word));
            assert(plain.deep_view() =~= before.push(word@));
        }
        i += 1;
    }
    assert(seen.take(i as int) =~= seen);
    join(&plain, " ")
}

/// The end of a conversation that is given to the text generator. A
/// conversation of more bytes than [`MAX_CONVERSATION_HISTORY_LEN`] loses as
/// many characters from its beginning as it has bytes too many, and is cut
/// behind that many characters; a shorter one stays whole.
pub open spec fn truncated(conversation: Seq<char>) -> Seq<char> {
    let bytes = encode_utf8(conversation).len();
    if bytes > MAX_CONVERSATION_HISTORY_LEN {
        let excess = bytes - MAX_CONVERSATION_HISTORY_LEN;
        if excess >= conversation.len() {
            seq![]
        } else if conversation.len() - excess > MAX_CONVERSATION_HISTORY_LEN {
            conversation.subrange(excess, excess + MAX_CONVERSATION_HISTORY_LEN)
        } else {
            conversation.skip(excess)
        }
    } else {
        conversation
    }
}

/// Cuts a conversation down to what is given to the text generator.
pub fn truncate_conversation_length(context: &mut String)
    ensures
        final(context)@ == truncated(old(context)@),
{
    let bytes = context.as_str().as_bytes().len();
    if bytes > MAX_CONVERSATION_HISTORY_LEN {
        let excess = bytes - MAX_CONVERSATION_HISTORY_LEN;
        let n = context.as_str().unicode_len();
        if excess >= n {
            *context = String::new();
        } else if n - excess > MAX_CONVERSATION_HISTORY_LEN {
            let kept = context.as_str().substring_char(
                excess,
                excess + MAX_CONVERSATION_HISTORY_LEN,
            ).to_owned();
            *context = kept;
        } else {
            let kept = context.as_str().substring_char(excess, n).to_owned();
            *context = kept;
        }
    }
}

/// A conversation with what the user said behind it.
pub open spec fn heard(conversation: Seq<char>, message: Seq<char>) -> Seq<char> {
    truncated(conversation + "Me: "@ + message + "\n"@)
}

/// A conversation with what the bot said behind it.
pub open spec fn said(conversation: Seq<char>, message: Seq<char>) -> Seq<char> {
    conversation + "Eliza: "@ + message + "\n"@
}

/// The answer that is written into the channel: what the bot said, and what
/// that is in the users' language.
pub open spec fn written(english: Seq<char>, portuguese: Seq<char>) -> Seq<char> {
    "EN:"@ + english + " \n\nPT: "@ + portuguese
}

/// Puts the user's line behind a conversation and cuts the conversation down
/// to what the text generator is given.
pub fn hear(conversation: String, message_in_english: &str) -> (r: String)
    ensures
        r@ == heard(conversation@, message_in_english@),
{
    let mut conversation = conversation;
    conversation.append("Me: ");
    conversation.append(message_in_english);
    conversation.append("\n");
    truncate_conversation_length(&mut conversation);
    conversation
}

/// Puts the bot's line behind a conversation.
pub fn say(conversation: String, bot_message_in_english: &str) -> (r: String)
    ensures
        r@ == said(conversation@, bot_message_in_english@),
{
    let mut conversation = conversation;
    conversation.append("Eliza: ");
    conversation.append(bot_message_in_english);
    conversation.append("\n");
    conversation
}

/// The answer that is written into the channel.
pub fn write_answer(bot_message_in_english: &str, bot_message_in_portuguese: &str) -> (r: String)
    ensures
        r@ == written(bot_message_in_english@, bot_message_in_portuguese@),
{
    let mut answer = String::from_str("EN:");
    answer.append(bot_message_in_english);
    answer.append(" \n\nPT: ");
    answer.append(bot_message_in_portuguese);
    answer
}

/// The key under which the conversation with a user is kept: the user's
/// number in eight bytes, lowest first.
pub fn history_key(user_id: u64) -> (key: Vec<u8>)
    ensures
        key@ == spec_u64_to_le_bytes(user_id),
        key@.len() == 8,
{
    u64_to_le_bytes(user_id)
}

/// The text that the standard library reads out of bytes when it replaces
/// what is no UTF-8 by the replacement character.
pub uninterp spec fn lossy_text(bytes: Seq<u8>) -> Seq<char>;

/// Reads bytes with `String::from_utf8_lossy`. The text depends on the bytes
/// alone, and bytes that are UTF-8 are read as the text that they encode.
#[verifier::external_body]
fn from_utf8_lossy(bytes: &[u8]) -> (text: String)
    ensures
        text@ == lossy_text(bytes@),
        valid_utf8(bytes@) ==> text@ == decode_utf8(bytes@),
{
    String::from_utf8_lossy(bytes).to_string()
}

/// Something to keep in the cache.
#[derive(Debug, PartialEq, Eq)]
pub struct CacheEntry {
    /// The key to keep it under.
    pub key: Vec<u8>,
    /// The bytes to keep.
    pub value: Vec<u8>,
    /// Seconds to keep it for.
    pub ttl_secs: u64,
}

/// No conversation is kept for the user, and no first conversation was
/// supplied.
#[derive(Clone, Copy, Debug, PartialEq, Eq, Structural)]
pub struct MissingInitialContext;

/// The conversation with a user, given what is kept for the user and the
/// conversation that every user begins with.
pub open spec fn history(cached: Option<Seq<u8>>, initial: Option<Seq<char>>) -> Result<
    Seq<char>,
    MissingInitialContext,
> {
    match cached {
        Some(bytes) => Ok(lossy_text(bytes)),
        None => match initial {
            Some(text) => Ok(text),
            None => Err(MissingInitialContext),
        },
    }
}

/// How long to wait behind a spoken chunk before the next one: as long as
/// the chunk lasts, and a pause.
pub fn reply_wait_millis(duration_millis: u64) -> (r: u64)
    ensures
        r == if duration_millis + REPLY_PAUSE_MILLIS <= u64::MAX {
            (duration_millis + REPLY_PAUSE_MILLIS) as u64
        } else {
            u64::MAX
        },
{
    duration_millis.saturating_add(REPLY_PAUSE_MILLIS)
}

/// The chat bot's state: the channels that it listens in, and whether it
/// speaks its answers.
pub struct ChatBot {
    text_channels: HashSet<u64>,
    voice_chat_enabled: bool,
}

impl ChatBot {
    /// The channels in which the bot answers messages.
    pub closed spec fn channels(self) -> Set<u64> {
        self.text_channels@
    }

    /// Whether the bot speaks its answers in the call.
    pub closed spec fn voice(self) -> bool {
        self.voice_chat_enabled
    }

    /// A bot that listens nowhere yet and speaks its answers.
    pub fn new() -> (bot: ChatBot)
        ensures
            bot.channels() == Set::<u64>::empty(),
            bot.voice(),
    {
        ChatBot { text_channels: HashSet::new(), voice_chat_enabled: true }
    }

    /// Has the bot speak its answers.
    pub fn enable_voice(&mut self)
        ensures
            final(self).voice(),
            final(self).channels() == old(self).channels(),
    {
        self.voice_chat_enabled = true;
    }

    /// Has the bot write its answers only.
    pub fn disable_voice(&mut self)
        ensures
            !final(self).voice(),
            final(self).channels() == old(self).channels(),
    {
        self.voice_chat_enabled = false;
    }

    /// Whether the bot speaks its answers.
    pub fn is_voice_enabled(&self) -> (r: bool)
        ensures
            r == self.voice(),
    {
        self.voice_chat_enabled
    }

    /// Has the bot listen in a channel, and gives what it says there.
    pub fn join_text_channel(&mut self, channel_id: u64) -> (reply: &'static str)
        ensures
            final(self).channels() == old(self).channels().insert(channel_id),
            final(self).voice() == old(self).voice(),
            reply@ == JOINED_REPLY@,
    {
        self.text_channels.insert(channel_id);
        JOINED_REPLY
    }

    /// The conversation with a user: what is kept for the user, read as
    /// text, or else the conversation that every user begins with. What was
    /// kept as the bytes of a text is read back as that text.
    pub fn conversation_history_for_user(
        &self,
        cached: Option<Vec<u8>>,
        initial: Option<String>,
    ) -> (r: Result<String, MissingInitialContext>)
        ensures
            match r {
                Ok(text) => Ok::<Seq<char>, MissingInitialContext>(text@),
                Err(error) => Err(error),
            } == history(
                match cached {
                    Some(bytes) => Some(bytes@),
                    None => None,
                },
                crate::text::option_view(initial),
            ),
            match (cached, r) {
                (Some(kept), Ok(text)) => valid_utf8(kept@) ==> text@ == decode_utf8(kept@),
                (Some(_), Err(_)) => false,
                (None, _) => true,
            },
    {
        match cached {
            Some(bytes) => Ok(from_utf8_lossy(bytes.as_slice())),
            None => match initial {
                Some(text) => Ok(text),
                None => Err(MissingInitialContext),
            },
        }
    }

    /// What is kept of the conversation with a user: its bytes, under the
    /// user's key, for seven days.
    pub fn set_user_history(&self, user_id: u64, history: &str) -> (entry: CacheEntry)
        ensures
            entry.key@ == spec_u64_to_le_bytes(user_id),
            entry.value@ == encode_utf8(history@),
            entry.ttl_secs == HISTORY_TTL_SECS,
    {
        CacheEntry {
            key: history_key(user_id),
            value: history.as_bytes_vec(),
            ttl_secs: HISTORY_TTL_SECS,
        }
    }

    /// Whether the bot answers a message: it answers what others write in a
    /// channel that it listens in, and never itself.
    pub fn answers(&self, is_own: bool, channel_id: u64) -> (r: bool)
        ensures
            r == (!is_own && self.channels().contains(channel_id)),
    {
        !is_own && self.text_channels.contains(&channel_id)
    }
}

} // verus!
