use playback_bot::audio::{handler, join_channel, local_path, play_local_audio, JoinDecision, SoundCommand};
use playback_bot::commands::{
    chatbot, command_handler, tease, teases, unexpected_argument_reply, ChatbotCommand, Command,
    Incoming, VoiceCommand, TEASE_REPLY,
};
use playback_bot::tts::Tts;

fn texts(all: &[&str]) -> Vec<String> {
    all.iter().map(|text| text.to_string()).collect()
}

#[test]
fn bots_are_not_answered() {
    assert_eq!(command_handler(true, false, "b!echo a"), Incoming::Ignored);
    assert_eq!(command_handler(false, true, "b!echo a"), Incoming::Ignored);
    assert_eq!(command_handler(true, true, "hello"), Incoming::Ignored);
}

#[test]
fn messages_without_the_prefix_are_talk() {
    assert_eq!(command_handler(false, false, "hello"), Incoming::Talk);
    assert_eq!(command_handler(false, false, " b!echo"), Incoming::Talk);
    assert_eq!(command_handler(false, false, "B!echo"), Incoming::Talk);
    assert_eq!(command_handler(false, false, "b"), Incoming::Talk);
    assert_eq!(command_handler(false, false, ""), Incoming::Talk);
}

#[test]
fn the_prefix_alone_is_no_command() {
    assert_eq!(command_handler(false, false, "b!"), Incoming::Empty);
    assert_eq!(command_handler(false, false, "b!  \n"), Incoming::Empty);
}

#[test]
fn commands_and_their_arguments() {
    let command = |content: &str| match command_handler(false, false, content) {
        Incoming::Command(command) => command,
        other => panic!("no command: {other:?}"),
    };
    assert_eq!(command("b!echo  a   b\tc "), Command::Echo("a b c".to_owned()));
    assert_eq!(command("b!echo"), Command::Echo(String::new()));
    assert_eq!(command("b! echo x"), Command::Echo("x".to_owned()));
    assert_eq!(command("b!zanders now"), Command::Zanders);
    assert_eq!(command("b!sound playlink http://x"), Command::Sound(texts(&["playlink", "http://x"])));
    assert_eq!(command("b!sound"), Command::Sound(vec![]));
    assert_eq!(command("b!chatbot voice enable"), Command::Chatbot(texts(&["voice", "enable"])));
    assert_eq!(command("b!dance"), Command::Unknown("dance".to_owned()));
    assert_eq!(command("b!Echo a"), Command::Unknown("Echo".to_owned()));
}

#[test]
fn chatbot_commands() {
    let content = "b!chatbot sethistory Me: hi";
    assert_eq!(chatbot(&vec![], content), ChatbotCommand::Join);
    assert_eq!(chatbot(&texts(&["eliza"]), content), ChatbotCommand::ResetHistory);
    assert_eq!(
        chatbot(&texts(&["sethistory", "Me:", "hi"]), content),
        ChatbotCommand::SetHistory(content.to_owned())
    );
    assert_eq!(chatbot(&texts(&["history", "x"]), content), ChatbotCommand::ShowHistory);
    assert_eq!(
        chatbot(&texts(&["voice", "enable"]), content),
        ChatbotCommand::Voice(VoiceCommand::Enable)
    );
    assert_eq!(
        chatbot(&texts(&["voice", "disable", "x"]), content),
        ChatbotCommand::Voice(VoiceCommand::Disable)
    );
    assert_eq!(
        chatbot(&texts(&["voice"]), content),
        ChatbotCommand::Voice(VoiceCommand::Unexpected(None))
    );
    assert_eq!(
        chatbot(&texts(&["voice", "loud"]), content),
        ChatbotCommand::Voice(VoiceCommand::Unexpected(Some("loud".to_owned())))
    );
    assert_eq!(chatbot(&texts(&["sing"]), content), ChatbotCommand::Unknown("sing".to_owned()));
}

#[test]
fn unexpected_argument_is_shown_as_written() {
    assert_eq!(unexpected_argument_reply(&None), "unexpected argument: None");
    assert_eq!(
        unexpected_argument_reply(&Some("loud".to_owned())),
        "unexpected argument: Some(\"loud\")"
    );
    assert_eq!(
        unexpected_argument_reply(&Some("a\"b".to_owned())),
        "unexpected argument: Some(\"a\\\"b\")"
    );
}

#[test]
fn tease_needs_the_word_and_luck() {
    assert!(teases("quero sexo", 0));
    assert!(teases("sexo", 10));
    assert!(!teases("sexo", 11));
    assert!(!teases("sexo", 1000));
    assert!(!teases("sex o", 0));
    assert!(!teases("", 0));
    assert!(teases("xsexox", 3));
}

#[test]
fn talk_without_the_word_is_never_teased() {
    for _ in 0..2000 {
        assert_eq!(tease("bom dia"), None);
    }
}

#[test]
fn talk_with_the_word_is_teased_now_and_then() {
    let mut teased = 0;
    let mut spared = 0;
    for _ in 0..20_000 {
        match tease("sexo") {
            Some(reply) => {
                assert_eq!(reply, TEASE_REPLY);
                teased += 1;
            }
            None => spared += 1,
        }
    }
    assert!(teased > 0);
    assert!(spared > teased);
}

#[test]
fn sound_commands() {
    assert_eq!(handler(&vec![]), SoundCommand::Reply("Tu nao passou um subcomando"));
    assert_eq!(handler(&texts(&["playlink"])), SoundCommand::Reply("Faltou o link ae dog"));
    assert_eq!(
        handler(&texts(&["playlink", "http://x", "y"])),
        SoundCommand::PlayLink("http://x".to_owned())
    );
    assert_eq!(
        handler(&texts(&["playlocal"])),
        SoundCommand::Reply("Faltou o nome do arquivo ae dog")
    );
    assert_eq!(handler(&texts(&["playlocal", "a.mp3"])), SoundCommand::PlayLocal("a.mp3".to_owned()));
    assert_eq!(handler(&texts(&["stop"])), SoundCommand::Reply("Command not found"));
}

#[test]
fn local_sounds_lie_in_the_assets() {
    assert_eq!(local_path("yo_zanders.mp3"), "./assets/yo_zanders.mp3");
    assert_eq!(play_local_audio("a.mp3", true), Ok("./assets/a.mp3".to_owned()));
    assert_eq!(play_local_audio("a.mp3", false), Err("Esse arquivo nao existe"));
}

#[test]
fn bot_follows_a_user_only_out_of_no_other_call() {
    assert_eq!(join_channel(None, None), JoinDecision::Reply("tu nao ta em call dog"));
    assert_eq!(join_channel(None, Some(1)), JoinDecision::Reply("tu nao ta em call dog"));
    assert_eq!(join_channel(Some(1), None), JoinDecision::Join(1));
    assert_eq!(join_channel(Some(1), Some(1)), JoinDecision::Join(1));
    assert_eq!(join_channel(Some(1), Some(2)), JoinDecision::Reply("ja to em outra call dog"));
}

#[test]
fn speech_service_requests() {
    let tts = Tts::new();
    let pair = |name: &str, value: &str| (name.to_owned(), value.to_owned());
    assert_eq!(
        tts.request_headers(),
        vec![
            pair("Host", "api.soundoftext.com"),
            pair("Referer", "https://soundoftext.com/"),
            pair("Content-Type", "application/json"),
            pair("Origin", "https://soundoftext.com"),
        ]
    );
    assert_eq!(tts.sound_address("abc"), "https://api.soundoftext.com/sounds/abc");
}
