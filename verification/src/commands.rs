//! The commands that users write into a channel, and what the bot makes of a
//! message.

use crate::text::{
    contains, equals, join, joined, occurs, split_whitespace, starts_with, tail, words,
};
use vstd::prelude::*;
use vstd::string::*;

verus! {

/// What a message begins with when it is a command.
pub const PREFIX: &'static str = "b!";

/// The word that the bot teases about.
pub const TEASED_WORD: &'static str = "sexo";

/// What the bot teases with.
pub const TEASE_REPLY: &'static str = "só um sexozinho agora pprt :hot_face:";

/// The highest number that can be drawn for a tease.
pub const TEASE_DRAWS: u32 = 1000;

/// The highest number drawn that teases.
pub const TEASE_LUCK: u32 = 10;

/// The sound that greets.
pub const GREETING_SOUND: &'static str = "yo_zanders.mp3";

/// What the bot says when a history was set.
pub const HISTORY_SET_REPLY: &'static str = "history set";

/// What the bot says when it was told to speak its answers.
pub const VOICE_ENABLED_REPLY: &'static str = "voice chat enabled";

/// What the bot says when it was told to write its answers only.
pub const VOICE_DISABLED_REPLY: &'static str = "voice chat disabled";

/// What the bot says of an argument that it does not know, before the
/// argument.
pub const UNEXPECTED_ARGUMENT_REPLY: &'static str = "unexpected argument: ";

/// A command with its arguments.
#[derive(Debug, PartialEq, Eq)]
pub enum Command {
    /// The bot repeats these words.
    Echo(String),
    /// The bot plays its greeting in the call.
    Zanders,
    /// A command about sounds, with its arguments.
    Sound(Vec<String>),
    /// A command about the chat bot, with its arguments.
    Chatbot(Vec<String>),
    /// A word that is no command.
    Unknown(String),
}

/// A [`Command`] with its text as sequences of characters.
pub enum CommandView {
    Echo(Seq<char>),
    Zanders,
    Sound(Seq<Seq<char>>),
    Chatbot(Seq<Seq<char>>),
    Unknown(Seq<char>),
}

impl View for Command {
    type V = CommandView;

    open spec fn view(&self) -> CommandView {
        match self {
            Command::Echo(text) => CommandView::Echo(text@),
            Command::Zanders => CommandView::Zanders,
            Command::Sound(arguments) => CommandView::Sound(arguments.deep_view()),
            Command::Chatbot(arguments) => CommandView::Chatbot(arguments.deep_view()),
            Command::Unknown(word) => CommandView::Unknown(word@),
        }
    }
}

/// What the bot makes of a message.
#[derive(Debug, PartialEq, Eq)]
pub enum Incoming {
    /// The message is the bot's own, or another bot's: nothing is done.
    Ignored,
    /// The message is no command: it is talk, for the tease and the chat bot.
    Talk,
    /// The message is the prefix alone.
    Empty,
    /// The message is a command.
    Command(Command),
}

/// An [`Incoming`] with its text as sequences of characters.
pub enum IncomingView {
    Ignored,
    Talk,
    Empty,
    Command(CommandView),
}

impl View for Incoming {
    type V = IncomingView;

    open spec fn view(&self) -> IncomingView {
        match self {
            Incoming::Ignored => IncomingView::Ignored,
            Incoming::Talk => IncomingView::Talk,
            Incoming::Empty => IncomingView::Empty,
            Incoming::Command(command) => IncomingView::Command(command@),
        }
    }
}

/// The command that some words are: the first word names it, the others are
/// its arguments.
pub open spec fn command_of(all: Seq<Seq<char>>) -> CommandView
    recommends
        all.len() > 0,
{
    if all[0] == "echo"@ {
        CommandView::Echo(joined(all.skip(1), " "@))
    } else if all[0] == "zanders"@ {
        CommandView::Zanders
    } else if all[0] == "sound"@ {
        CommandView::Sound(all.skip(1))
    } else if all[0] == "chatbot"@ {
        CommandView::Chatbot(all.skip(1))
    } else {
        CommandView::Unknown(all[0])
    }
}

/// What the bot makes of a message, given who wrote it.
pub open spec fn incoming(is_own: bool, author_is_bot: bool, content: Seq<char>) -> IncomingView {
    if is_own || author_is_bot {
        IncomingView::Ignored
    } else if !PREFIX@.is_prefix_of(content) {
        IncomingView::Talk
    } else if words(content.skip(PREFIX@.len() as int)).len() == 0 {
        IncomingView::Empty
    } else {
        IncomingView::Command(command_of(words(content.skip(PREFIX@.len() as int))))
    }
}

/// Decides what to do with a message. Bots are not answered. A message that
/// begins with the prefix is a command: its first word names the command,
/// the words behind it are the arguments. Every other message is talk.
pub fn command_handler(is_own: bool, author_is_bot: bool, content: &str) -> (r: Incoming)
    ensures
        r@ == incoming(is_own, author_is_bot, content@),
{
    if is_own || author_is_bot {
        return Incoming::Ignored;
    }
    if !starts_with(content, PREFIX) {
        return Incoming::Talk;
    }
    let rest = content.substring_char(PREFIX.unicode_len(), content.unicode_len());
    assert(rest@ =~= content@.skip(PREFIX@.len() as int));
    let all = split_whitespace(rest);
    if all.len() == 0 {
        return Incoming::Empty;
    }
    let name = all[0].as_str();
    assert(all.deep_view()[0] == name@);
    let command = if equals(name, "echo") {
        let arguments = tail(&all, 1);
        Command::Echo(join(&arguments, " "))
    } else if equals(name, "zanders") {
        Command::Zanders
    } else if equals(name, "sound") {
        Command::Sound(tail(&all, 1))
    } else if equals(name, "chatbot") {
        Command::Chatbot(tail(&all, 1))
    } else {
        Command::Unknown(String::from_str(name))
    };
    Incoming::Command(command)
}

/// What is said about how the bot speaks.
#[derive(Debug, PartialEq, Eq)]
pub enum VoiceCommand {
    /// The bot is to speak its answers.
    Enable,
    /// The bot is to write its answers only.
    Disable,
    /// Neither: the argument that stood there, if any.
    Unexpected(Option<String>),
}

/// A command about the chat bot.
#[derive(Debug, PartialEq, Eq)]
pub enum ChatbotCommand {
    /// The bot is to listen in the channel of the message.
    Join,
    /// The conversation with the user begins anew.
    ResetHistory,
    /// The conversation with the user becomes this text.
    SetHistory(String),
    /// The bot is to show the conversation with the user.
    ShowHistory,
    /// How the bot is to speak.
    Voice(VoiceCommand),
    /// A word that is no command about the chat bot.
    Unknown(String),
}

/// A [`ChatbotCommand`] with its text as sequences of characters.
pub enum ChatbotCommandView {
    Join,
    ResetHistory,
    SetHistory(Seq<char>),
    ShowHistory,
    VoiceEnable,
    VoiceDisable,
    VoiceUnexpected(Option<Seq<char>>),
    Unknown(Seq<char>),
}

impl View for ChatbotCommand {
    type V = ChatbotCommandView;

    open spec fn view(&self) -> ChatbotCommandView {
        match self {
            ChatbotCommand::Join => ChatbotCommandView::Join,
            ChatbotCommand::ResetHistory => ChatbotCommandView::ResetHistory,
            ChatbotCommand::SetHistory(text) => ChatbotCommandView::SetHistory(text@),
            ChatbotCommand::ShowHistory => ChatbotCommandView::ShowHistory,
            ChatbotCommand::Voice(VoiceCommand::Enable) => ChatbotCommandView::VoiceEnable,
            ChatbotCommand::Voice(VoiceCommand::Disable) => ChatbotCommandView::VoiceDisable,
            ChatbotCommand::Voice(VoiceCommand::Unexpected(argument)) => {
                ChatbotCommandView::VoiceUnexpected(crate::text::option_view(*argument))
            },
            ChatbotCommand::Unknown(word) => ChatbotCommandView::Unknown(word@),
        }
    }
}

/// The command about the chat bot that some arguments are, in a message
/// with this content.
pub open spec fn chatbot_command(arguments: Seq<Seq<char>>, content: Seq<char>) -> ChatbotCommandView {
    if arguments.len() == 0 {
        ChatbotCommandView::Join
    } else if arguments[0] == "eliza"@ {
        ChatbotCommandView::ResetHistory
    } else if arguments[0] == "sethistory"@ {
        ChatbotCommandView::SetHistory(content)
    } else if arguments[0] == "history"@ {
        ChatbotCommandView::ShowHistory
    } else if arguments[0] == "voice"@ {
        if arguments.len() == 1 {
            ChatbotCommandView::VoiceUnexpected(None)
        } else if arguments[1] == "enable"@ {
            ChatbotCommandView::VoiceEnable
        } else if arguments[1] == "disable"@ {
            ChatbotCommandView::VoiceDisable
        } else {
            ChatbotCommandView::VoiceUnexpected(Some(arguments[1]))
        }
    } else {
        ChatbotCommandView::Unknown(arguments[0])
    }
}

/// Reads a command about the chat bot. Without arguments the bot joins the
/// channel. A history that is set is the whole message as it was written,
/// the command included.
pub fn chatbot(arguments: &Vec<String>, content: &str) -> (r: ChatbotCommand)
    ensures
        r@ == chatbot_command(arguments.deep_view(), content@),
{
    if arguments.len() == 0 {
        return ChatbotCommand::Join;
    }
    let name = arguments[0].as_str();
    assert(arguments.deep_view()[0] == name@);
    if equals(name, "eliza") {
        ChatbotCommand::ResetHistory
    } else if equals(name, "sethistory") {
        ChatbotCommand::SetHistory(String::from_str(content))
    } else if equals(name, "history") {
        ChatbotCommand::ShowHistory
    } else if equals(name, "voice") {
        if arguments.len() == 1 {
            ChatbotCommand::Voice(VoiceCommand::Unexpected(None))
        } else {
            let how = arguments[1].as_str();
            assert(arguments.deep_view()[1] == how@);
            if equals(how, "enable") {
                ChatbotCommand::Voice(VoiceCommand::Enable)
            } else if equals(how, "disable") {
                ChatbotCommand::Voice(VoiceCommand::Disable)
            } else {
                ChatbotCommand::Voice(VoiceCommand::Unexpected(Some(String::from_str(how))))
            }
        }
    } else {
        ChatbotCommand::Unknown(String::from_str(name))
    }
}

/// An argument that may be missing, as the standard library writes it for
/// the eyes of a developer.
pub uninterp spec fn debug_text(argument: Option<Seq<char>>) -> Seq<char>;

/// Writes an argument with `format!` and `{:?}`. The text depends on the
/// argument alone; the contract only gives it its name.
#[verifier::external_body]
fn debug(argument: &Option<String>) -> (text: String)
    ensures
        text@ == debug_text(crate::text::option_view(*argument)),
{
    format!("{:?}", argument.as_deref())
}

/// What the bot says of an argument that it does not know.
pub fn unexpected_argument_reply(argument: &Option<String>) -> (reply: String)
    ensures
        reply@ == UNEXPECTED_ARGUMENT_REPLY@ + debug_text(crate::text::option_view(*argument)),
{
    let mut reply = String::from_str(UNEXPECTED_ARGUMENT_REPLY);
    let written = debug(argument);
    reply.append(written.as_str());
    reply
}

/// Whether talk is teased, given the number that was drawn for it: talk
/// that holds the teased word is, when the number is low enough.
pub open spec fn teased(content: Seq<char>, drawn: u32) -> bool {
    occurs(content, TEASED_WORD@) && drawn <= TEASE_LUCK
}

/// Decides whether talk is teased, given the number that was drawn for it.
pub fn teases(content: &str, drawn: u32) -> (r: bool)
    ensures
        r == teased(content@, drawn),
{
    contains(content, TEASED_WORD) && drawn <= TEASE_LUCK
}

/// Draws a number with `rand::thread_rng().gen_range(low..=high)`, which
/// gives a number of that range. It panics if the range is empty, which the
/// precondition rules out, and if the system has nothing to seed the
/// generator with.
#[verifier::external_body]
fn draw(low: u32, high: u32) -> (drawn: u32)
    requires
        low <= high,
    ensures
        low <= drawn <= high,
{
    rand::Rng::gen_range(&mut rand::thread_rng(), low..=high)
}

/// The tease for some talk, if it is teased this time. Talk without the
/// teased word never is; talk with it is when luck has it, and no number is
/// drawn for talk without the word.
pub fn tease(content: &str) -> (reply: Option<&'static str>)
    ensures
        reply matches Some(text) ==> text@ == TEASE_REPLY@ && occurs(content@, TEASED_WORD@),
        !occurs(content@, TEASED_WORD@) ==> reply is None,
        exists|drawn: u32|
            drawn <= TEASE_DRAWS && reply_view(reply) == #[trigger] tease_for(content@, drawn),
{
    if contains(content, TEASED_WORD) {
        let drawn = draw(0, TEASE_DRAWS);
        let reply = if teases(content, drawn) {
            Some(TEASE_REPLY)
        } else {
            None
        };
        assert(reply_view(reply) == tease_for(content@, drawn));
        reply
    } else {
        assert(reply_view(None) == tease_for(content@, 0));
        None
    }
}

/// A reply that may be missing, as a sequence of characters that may be
/// missing.
pub open spec fn reply_view(reply: Option<&'static str>) -> Option<Seq<char>> {
    match reply {
        Some(text) => Some(text@),
        None => None,
    }
}

/// The tease for some talk, given the number that was drawn for it.
pub open spec fn tease_for(content: Seq<char>, drawn: u32) -> Option<Seq<char>> {
    if teased(content, drawn) {
        Some(TEASE_REPLY@)
    } else {
        None
    }
}

} // verus!
