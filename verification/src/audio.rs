//! Sounds in the call: the commands about them, and when the bot may join a
//! call to play one.

use crate::text::equals;
use vstd::prelude::*;
use vstd::string::*;

verus! {

/// Where the sounds that come with the bot lie, seen from the directory in
/// which the bot runs.
pub const ASSETS: &'static str = "./assets/";

/// What the bot says to a command about sounds that says nothing more.
pub const NO_SUBCOMMAND_REPLY: &'static str = "Tu nao passou um subcomando";

/// What the bot says when the link to play is missing.
pub const NO_LINK_REPLY: &'static str = "Faltou o link ae dog";

/// What the bot says when the name of the file to play is missing.
pub const NO_FILE_NAME_REPLY: &'static str = "Faltou o nome do arquivo ae dog";

/// What the bot says to a command about sounds that it does not know.
pub const NOT_FOUND_REPLY: &'static str = "Command not found";

/// What the bot says when the file to play is not there.
pub const NO_FILE_REPLY: &'static str = "Esse arquivo nao existe";

/// What the bot says to a user who is in no call.
pub const USER_NOT_IN_CALL_REPLY: &'static str = "tu nao ta em call dog";

/// What the bot says when it is in another call than the user.
pub const BOT_ELSEWHERE_REPLY: &'static str = "ja to em outra call dog";

/// What a command about sounds asks for.
#[derive(Debug, PartialEq, Eq)]
pub enum SoundCommand {
    /// The sound behind a link is to be played.
    PlayLink(String),
    /// A sound that comes with the bot is to be played, named by its file.
    PlayLocal(String),
    /// Nothing can be played; the bot says why.
    Reply(&'static str),
}

/// A [`SoundCommand`] with its text as sequences of characters.
pub enum SoundCommandView {
    PlayLink(Seq<char>),
    PlayLocal(Seq<char>),
    Reply(Seq<char>),
}

impl View for SoundCommand {
    type V = SoundCommandView;

    open spec fn view(&self) -> SoundCommandView {
        match self {
            SoundCommand::PlayLink(link) => SoundCommandView::PlayLink(link@),
            SoundCommand::PlayLocal(file_name) => SoundCommandView::PlayLocal(file_name@),
            SoundCommand::Reply(reply) => SoundCommandView::Reply(reply@),
        }
    }
}

/// What some arguments of the command about sounds ask for.
pub open spec fn sound_command(arguments: Seq<Seq<char>>) -> SoundCommandView {
    if arguments.len() == 0 {
        SoundCommandView::Reply(NO_SUBCOMMAND_REPLY@)
    } else if arguments[0] == "playlink"@ {
        if arguments.len() == 1 {
            SoundCommandView::Reply(NO_LINK_REPLY@)
        } else {
            SoundCommandView::PlayLink(arguments[1])
        }
    } else if arguments[0] == "playlocal"@ {
        if arguments.len() == 1 {
            SoundCommandView::Reply(NO_FILE_NAME_REPLY@)
        } else {
            SoundCommandView::PlayLocal(arguments[1])
        }
    } else {
        SoundCommandView::Reply(NOT_FOUND_REPLY@)
    }
}

/// Reads the arguments of the command about sounds.
pub fn handler(arguments: &Vec<String>) -> (r: SoundCommand)
    ensures
        r@ == sound_command(arguments.deep_view()),
{
    if arguments.len() == 0 {
        return SoundCommand::Reply(NO_SUBCOMMAND_REPLY);
    }
    let name = arguments[0].as_str();
    assert(arguments.deep_view()[0] == name@);
    if equals(name, "playlink") {
        if arguments.len() == 1 {
            SoundCommand::Reply(NO_LINK_REPLY)
        } else {
            assert(arguments.deep_view()[1] == arguments[1]@);
            SoundCommand::PlayLink(arguments[1].clone())
        }
    } else if equals(name, "playlocal") {
        if arguments.len() == 1 {
            SoundCommand::Reply(NO_FILE_NAME_REPLY)
        } else {
            assert(arguments.deep_view()[1] == arguments[1]@);
            SoundCommand::PlayLocal(arguments[1].clone())
        }
    } else {
        SoundCommand::Reply(NOT_FOUND_REPLY)
    }
}

/// Where a sound that comes with the bot lies.
pub fn local_path(file_name: &str) -> (path: String)
    ensures
        path@ == ASSETS@ + file_name@,
{
    let mut path = String::from_str(ASSETS);
    path.append(file_name);
    path
}

/// What is done about a sound that comes with the bot, given whether its
/// file is there.
pub fn play_local_audio(file_name: &str, exists: bool) -> (r: Result<String, &'static str>)
    ensures
        match r {
            Ok(path) => exists && path@ == ASSETS@ + file_name@,
            Err(reply) => !exists && reply@ == NO_FILE_REPLY@,
        },
{
    if exists {
        Ok(local_path(file_name))
    } else {
        Err(NO_FILE_REPLY)
    }
}

/// Whether the bot joins the call of a user.
#[derive(Clone, Copy, Debug, PartialEq, Eq)]
pub enum JoinDecision {
    /// The bot joins this call, or is in it already.
    Join(u64),
    /// The bot stays where it is and says why.
    Reply(&'static str),
}

/// Whether the bot joins the call of a user, given the calls that the user
/// and the bot are in.
pub open spec fn join_decision(user_channel: Option<u64>, bot_channel: Option<u64>) -> bool {
    match user_channel {
        None => false,
        Some(wanted) => match bot_channel {
            Some(current) => current == wanted,
            None => true,
        },
    }
}

/// Decides whether the bot joins the call of the user who asked for a
/// sound. It follows a user into a call only if it is in no other.
pub fn join_channel(user_channel: Option<u64>, bot_channel: Option<u64>) -> (r: JoinDecision)
    ensures
        match r {
            JoinDecision::Join(channel) => join_decision(user_channel, bot_channel)
                && user_channel == Some(channel),
            JoinDecision::Reply(reply) => !join_decision(user_channel, bot_channel) && reply@
                == if user_channel is None {
                USER_NOT_IN_CALL_REPLY@
            } else {
                BOT_ELSEWHERE_REPLY@
            },
        },
{
    match user_channel {
        None => JoinDecision::Reply(USER_NOT_IN_CALL_REPLY),
        Some(wanted) => match bot_channel {
            Some(current) => if current == wanted {
                JoinDecision::Join(wanted)
            } else {
                JoinDecision::Reply(BOT_ELSEWHERE_REPLY)
            },
            None => JoinDecision::Join(wanted),
        },
    }
}

} // verus!
