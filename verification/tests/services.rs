use playback_bot::contracts::{GetOptions, PostOptions};
use playback_bot::infra::cache::redis::{Config, RedisCache};
use playback_bot::json::{parse, Json};
use playback_bot::text_generation::{clean, TextGenerator};
use playback_bot::translation::{translation_of, Translation, TranslationError};

#[test]
fn removes_unnecesary_prefix_from_generated_text() {
    let tests = vec![
        ("Eliza: something something, blah blah", "something something, blah blah"),
        ("Eliza:something something, blah blah", "something something, blah blah"),
        ("Me: something something, blah blah", "something something, blah blah"),
        ("Me:something something, blah blah", "something something, blah blah"),
    ];

    for (input, expected) in tests.into_iter() {
        assert_eq!(expected, clean(input.to_owned()));
    }
}

#[test]
fn speaker_is_taken_out_everywhere_but_only_if_the_text_begins_with_it() {
    assert_eq!(clean("Eliza: hello Eliza: there".to_owned()), "hello there");
    assert_eq!(clean("hello Eliza: there".to_owned()), "hello Eliza: there");
    assert_eq!(clean("Eliza:a Eliza: b Eliza:c".to_owned()), "a  b c");
    assert_eq!(clean("Me: a Eliza: b".to_owned()), "a Eliza: b");
    assert_eq!(clean("Me:Me: x".to_owned()), " x");
    assert_eq!(clean(String::new()), "");
    assert_eq!(clean("Eliza".to_owned()), "Eliza");
}

#[test]
fn text_generator_request() {
    let generator = TextGenerator::new(playback_bot::text_generation::Config {
        chaiml_developer_uuid: "uuid".to_string(),
        chaiml_key: "key".to_string(),
    });
    let pair = |name: &str, value: &str| (name.to_owned(), value.to_owned());
    assert_eq!(
        generator.request(),
        PostOptions {
            headers: Some(vec![
                pair("Host", "model-api-shdxwd54ta-nw.a.run.app"),
                pair("Referer", "https://chai.ml/"),
                pair("Content-Type", "application/json"),
                pair("developer_uid", "uuid"),
                pair("developer_key", "key"),
                pair("Origin", "https://chai.ml"),
            ]),
            timeout: Some(30),
        }
    );
}

#[test]
fn translation_request() {
    let pair = |name: &str, value: &str| (name.to_owned(), value.to_owned());
    assert_eq!(
        Translation::new().request("bom dia", "pt", "en"),
        GetOptions {
            headers: None,
            query: Some(vec![
                pair("sl", "pt"),
                pair("tl", "en"),
                pair("dt", "t"),
                pair("q", "bom dia"),
            ]),
            timeout: Some(30),
        }
    );
}

#[test]
fn translation_is_read_out_of_the_answer() {
    let translation = Translation::new();
    let body = br#"[[["Good morning. ","Bom dia. ",null,null,10],["How are you?","Como vai?",null,null,3]],null,"pt"]"#;
    assert_eq!(translation.read(body), Ok("Good morning. How are you?".to_owned()));
    assert_eq!(translation.read(b"[[]]"), Ok(String::new()));
    assert_eq!(translation.read(b"[[[\"a\"]]] "), Ok("a".to_owned()));
}

#[test]
fn translation_of_another_shape_is_refused() {
    let translation = Translation::new();
    for body in [
        &b"[]"[..],
        b"{}",
        b"null",
        b"[null]",
        b"[\"text\"]",
        b"[[[1]]]",
        b"[[[\"a\"],[]]]",
        b"[[[\"a\"],\"b\"]]",
        b"[[[\"a\"],{\"0\":\"b\"}]]",
    ] {
        assert_eq!(translation.read(body), Err(TranslationError::UnexpectedFormat));
    }
    for body in [&b""[..], b"[", b"[[[\"a\"]]] x", b"\xff"] {
        assert_eq!(translation.read(body), Err(TranslationError::Malformed));
    }
}

#[test]
fn translation_retries() {
    let translation = Translation::new();
    assert!(translation.tries_again(1));
    assert!(translation.tries_again(3));
    assert!(!translation.tries_again(4));
}

#[test]
fn json_documents_become_plain_values() {
    assert_eq!(parse(b"null"), Some(Json::Null));
    assert_eq!(parse(b" true "), Some(Json::Bool(true)));
    assert_eq!(parse(b"12.5"), Some(Json::Number("12.5".to_owned())));
    assert_eq!(parse(b"-3"), Some(Json::Number("-3".to_owned())));
    assert_eq!(parse(b"\"a\\nb\""), Some(Json::Text("a\nb".to_owned())));
    assert_eq!(
        parse(b"[1,[\"x\"],{\"k\":false}]"),
        Some(Json::List(vec![
            Json::Number("1".to_owned()),
            Json::List(vec![Json::Text("x".to_owned())]),
            Json::Object(vec![("k".to_owned(), Json::Bool(false))]),
        ]))
    );
    assert_eq!(parse(b"{\"a\":1"), None);
    assert_eq!(parse(b""), None);
}

#[test]
fn translation_of_a_document() {
    let phrase = |text: &str| Json::List(vec![Json::Text(text.to_owned()), Json::Null]);
    let document = Json::List(vec![Json::List(vec![phrase("a"), phrase("b")]), Json::Null]);
    assert_eq!(translation_of(&document), Some("ab".to_owned()));
    assert_eq!(translation_of(&Json::Null), None);
    assert_eq!(translation_of(&Json::List(vec![])), None);
    assert_eq!(translation_of(&Json::List(vec![Json::List(vec![Json::Null])])), None);
}

#[test]
fn cache_client_is_given_the_configuration() {
    let cache = RedisCache::new(Config {
        host: String::from("127.0.0.1"),
        port: 6379,
        password: String::from("password"),
    })
    .unwrap();
    let settings = cache.connection_settings();
    assert_eq!(settings.host, "127.0.0.1");
    assert_eq!(settings.port, 6379);
    assert_eq!(settings.db, 0);
    assert_eq!(settings.username, None);
    assert_eq!(settings.password, Some("password".to_owned()));
    let info = cache.client().get_connection_info();
    assert_eq!(info.addr, redis::ConnectionAddr::Tcp("127.0.0.1".to_owned(), 6379));
    assert_eq!(info.redis.db, 0);
    assert_eq!(info.redis.username, None);
    assert_eq!(info.redis.password, Some("password".to_owned()));
}
