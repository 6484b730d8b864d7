use playback_bot::chatbot::{
    hear, history_key, reply_wait_millis, say, truncate_conversation_length, write_answer,
    CacheEntry, ChatBot, MissingInitialContext, HISTORY_TTL_SECS, MAX_CONVERSATION_HISTORY_LEN,
};

fn conversation_history(
    cached: Option<Vec<u8>>,
    initial: Option<String>,
) -> Result<String, MissingInitialContext> {
    ChatBot::new().conversation_history_for_user(cached, initial)
}

#[test]
fn short_conversation_stays_whole() {
    let mut conversation = "a".repeat(2750);
    truncate_conversation_length(&mut conversation);
    assert_eq!(conversation, "a".repeat(2750));
    let mut conversation = String::new();
    truncate_conversation_length(&mut conversation);
    assert_eq!(conversation, "");
}

#[test]
fn long_conversation_loses_its_beginning() {
    let mut conversation = format!("{}{}", "a".repeat(10), "b".repeat(2750));
    truncate_conversation_length(&mut conversation);
    assert_eq!(conversation, "b".repeat(2750));
    assert_eq!(MAX_CONVERSATION_HISTORY_LEN, 2750);
}

#[test]
fn longer_characters_cost_more_than_their_share() {
    let mut conversation = format!("{}{}", "á".repeat(10), "b".repeat(2740));
    truncate_conversation_length(&mut conversation);
    assert_eq!(conversation, "b".repeat(2740));
    let mut conversation = "á".repeat(2750);
    truncate_conversation_length(&mut conversation);
    assert_eq!(conversation, "");
    let mut conversation = "á".repeat(2000);
    truncate_conversation_length(&mut conversation);
    assert_eq!(conversation, "á".repeat(750));
}

#[test]
fn lines_of_the_conversation() {
    assert_eq!(hear("Eliza: hi\n".to_owned(), "hello"), "Eliza: hi\nMe: hello\n");
    assert_eq!(say("Me: hello\n".to_owned(), "how are you"), "Me: hello\nEliza: how are you\n");
    assert_eq!(write_answer("good", "bom"), "EN:good \n\nPT: bom");
    let heard = hear("x".repeat(2750), "y");
    assert_eq!(heard, format!("{}Me: y\n", "x".repeat(2750 - 6)));
}

#[test]
fn conversation_is_kept_under_the_users_number() {
    assert_eq!(history_key(1), vec![1, 0, 0, 0, 0, 0, 0, 0]);
    assert_eq!(history_key(0x0102030405060708), vec![8, 7, 6, 5, 4, 3, 2, 1]);
    assert_eq!(HISTORY_TTL_SECS, 60 * 60 * 24 * 7);
}

#[test]
fn kept_conversation_comes_before_the_first_conversation() {
    assert_eq!(
        conversation_history(Some(b"kept".to_vec()), Some("first".to_owned())),
        Ok("kept".to_owned())
    );
    assert_eq!(conversation_history(Some(b"kept".to_vec()), None), Ok("kept".to_owned()));
    assert_eq!(conversation_history(None, Some("first".to_owned())), Ok("first".to_owned()));
    assert_eq!(conversation_history(None, None), Err(MissingInitialContext));
    assert_eq!(
        conversation_history(Some("olá".as_bytes().to_vec()), None),
        Ok("olá".to_owned())
    );
    assert_eq!(
        conversation_history(Some(vec![b'a', 0xff, b'b']), None),
        Ok("a\u{fffd}b".to_owned())
    );
}

#[test]
fn conversation_is_kept_as_its_bytes_for_seven_days() {
    assert_eq!(
        ChatBot::new().set_user_history(258, "olá"),
        CacheEntry {
            key: vec![2, 1, 0, 0, 0, 0, 0, 0],
            value: vec![b'o', b'l', 0xc3, 0xa1],
            ttl_secs: 604800,
        }
    );
    let entry = ChatBot::new().set_user_history(1, "Me: olá\n");
    assert_eq!(conversation_history(Some(entry.value), None), Ok("Me: olá\n".to_owned()));
}

#[test]
fn spoken_chunk_is_followed_by_a_pause() {
    assert_eq!(reply_wait_millis(0), 500);
    assert_eq!(reply_wait_millis(1200), 1700);
    assert_eq!(reply_wait_millis(u64::MAX - 10), u64::MAX);
}

#[test]
fn bot_answers_others_in_its_channels() {
    let mut bot = ChatBot::new();
    assert!(bot.is_voice_enabled());
    assert!(!bot.answers(false, 7));
    assert_eq!(bot.join_text_channel(7), "chatbot joined the channel");
    assert!(bot.answers(false, 7));
    assert!(!bot.answers(true, 7));
    assert!(!bot.answers(false, 8));
    bot.join_text_channel(7);
    bot.join_text_channel(8);
    assert!(bot.answers(false, 7) && bot.answers(false, 8));
}

#[test]
fn voice_is_switched_on_and_off() {
    let mut bot = ChatBot::new();
    bot.disable_voice();
    assert!(!bot.is_voice_enabled());
    bot.disable_voice();
    assert!(!bot.is_voice_enabled());
    bot.enable_voice();
    assert!(bot.is_voice_enabled());
}
