use playback_bot::chatbot::remove_links_from_text;
use playback_bot::tts::{divide_text_into_chunks, split_str_and_include_separator};

#[test]
fn test_remove_links_from_text() {
    let tests = vec![
        (
            "Eu: @d!music search https://www.youtube.com/watch?v=JW1p9j8HVXA",
            "Eu: @d!music search",
        ),
        (
            "D!Pesquisa de música https://www.youtube.com/watch?v=Ao8F3FypsbI",
            "D!Pesquisa de música",
        ),
        (
            "Eu: @d!music search https://www.youtube.com/watch?v=JW1p9j8HVXA",
            "Eu: @d!music search",
        ),
        (
            "D!Pesquisa de música https://www.youtube.com/watch?v=Ao8F3FypsbI",
            "D!Pesquisa de música",
        ),
        ("http://google.com", ""),
        ("https://google.com", ""),
        ("", ""),
        ("123", "123"),
        ("abc", "abc"),
    ];

    for (input, expected) in tests {
        assert_eq!(expected, remove_links_from_text(input), "input={}", input);
    }
}

#[test]
fn test_split_str_and_include_separator() {
    let input = "Once upon a time, in a far away swamp, there lived an ogre named Shrek (Mike Myers) whose precious solitude is suddenly shattered by an invasion of annoying fairy tale characters.";
    let expected = vec![
        (Some(','), String::from("Once upon a time")),
        (Some(','), String::from(" in a far away swamp")),
        (
            Some('.'),
            String::from(" there lived an ogre named Shrek (Mike Myers) whose precious solitude is suddenly shattered by an invasion of annoying fairy tale characters"),
        ),
    ];
    assert_eq!(expected, split_str_and_include_separator(input));
}

#[test]
fn test_divide_text_into_chunks() {
    let tests = vec![(
      r#"
      Once upon a time, in a far away swamp, there lived an ogre named Shrek (Mike Myers) whose precious solitude is suddenly shattered by an invasion of annoying fairy tale characters.
      They were all banished from their kingdom by the evil Lord Farquaad (John Lithgow).
      Determined to save their home -- not to mention his -- Shrek cuts a deal with Farquaad and sets out to rescue Princess Fiona (Cameron Diaz) to be Farquaad's bride.
      Rescuing the Princess may be small compared to her deep, dark secret.
    "#,
    vec![
      "\n      Once upon a time, in a far away swamp, there lived an ogre named Shrek (Mike Myers) whose precious solitude is suddenly shattered by an invasion of annoying fairy tale characters.",
      "\n      They were all banished from their kingdom by the evil Lord Farquaad (John Lithgow).",
      "\n      Determined to save their home -- not to mention his -- Shrek cuts a deal with Farquaad and sets out to rescue Princess Fiona (Cameron Diaz) to be Farquaad's bride.",
      "\n      Rescuing the Princess may be small compared to her deep, dark secret.\n    ",
    ]
    ),
    (
      "",
      vec![]
    ),
    (
      "Once upon. a time in. a far away swamp. there lived an ogre. named Shrek. ",
      vec!["Once upon. a time in. a far away swamp. there lived an ogre. named Shrek. "]
    )
    ];

    for (input, expected) in tests {
        assert_eq!(expected, divide_text_into_chunks(input).unwrap());
    }
}

#[test]
fn links_anywhere_and_any_white_space() {
    assert_eq!(remove_links_from_text("  a \t\nb  "), "a b");
    assert_eq!(remove_links_from_text("https://x.test a http://y.test b"), "a b");
    assert_eq!(remove_links_from_text("see:https://x.test"), "see:https://x.test");
    assert_eq!(remove_links_from_text("a\u{00a0}b\u{3000}c"), "a b c");
    assert_eq!(remove_links_from_text(" \n "), "");
    assert_eq!(remove_links_from_text("HTTP://x.test"), "HTTP://x.test");
}

#[test]
fn split_keeps_what_follows_the_last_separator() {
    assert_eq!(
        split_str_and_include_separator("a,b"),
        vec![(Some(','), "a".to_owned()), (None, "b".to_owned())]
    );
    assert_eq!(split_str_and_include_separator("abc"), vec![(None, "abc".to_owned())]);
    assert_eq!(
        split_str_and_include_separator(",."),
        vec![(Some(','), String::new()), (Some('.'), String::new())]
    );
    assert_eq!(split_str_and_include_separator(""), vec![]);
}

#[test]
fn split_of_a_text_with_a_longer_character() {
    assert_eq!(
        split_str_and_include_separator("olá, mundo. fim"),
        vec![(Some(','), "olá".to_owned()), (Some('.'), " mundo".to_owned())]
    );
    assert_eq!(split_str_and_include_separator("olá"), vec![]);
}

#[test]
fn chunks_close_before_the_limit() {
    let first = "a".repeat(150);
    let second = "b".repeat(60);
    let text = format!("{first}.{second}.");
    assert_eq!(
        divide_text_into_chunks(&text).unwrap(),
        vec![format!("{first}."), format!("{second}.")]
    );
    let second = "b".repeat(49);
    let text = format!("{first}.{second}.");
    assert_eq!(divide_text_into_chunks(&text).unwrap(), vec![text.clone()]);
    let second = "b".repeat(50);
    let text = format!("{first}.{second}.");
    assert_eq!(
        divide_text_into_chunks(&text).unwrap(),
        vec![format!("{first}."), format!("{second}.")]
    );
}

#[test]
fn a_piece_over_the_limit_closes_an_empty_chunk_first() {
    let long = "a".repeat(201);
    let text = format!("{long}.");
    assert_eq!(divide_text_into_chunks(&text).unwrap(), vec![String::new(), text.clone()]);
}

#[test]
fn chunk_limit_counts_bytes() {
    let first = "á".repeat(90);
    let second = "b".repeat(30);
    let text = format!("{first}.{second}.");
    assert_eq!(
        divide_text_into_chunks(&text).unwrap(),
        vec![format!("{first}."), format!("{second}.")]
    );
}
