//! Translation by the web service: what is asked of it, and how its answer
//! is read.

use crate::contracts::{pair, pairs_view, GetOptions};
use crate::json::{parse, parsed, Json};
use vstd::prelude::*;
use vstd::string::*;

verus! {

/// Address of the translation service.
pub const ENDPOINT: &'static str = "https://translate.googleapis.com/translate_a/single?client=gtx";

/// Seconds after which a request is given up.
pub const TIMEOUT_SECS: u64 = 30;

/// How often a failed translation is tried again.
pub const RETRIES: u32 = 3;

/// The answer of the translation service could not be used.
#[derive(Clone, Copy, Debug, PartialEq, Eq, Structural)]
pub enum TranslationError {
    /// The answer is no JSON document.
    Malformed,
    /// The answer is a document of another shape than a list whose first
    /// item lists the translated phrases, each a list that begins with its
    /// text.
    UnexpectedFormat,
}

/// The item of a list at an index. Anything that is no list, and any list
/// that is too short, has the null value there.
pub open spec fn item(document: Json, index: int) -> Json {
    match document {
        Json::List(items) => if 0 <= index < items@.len() {
            items@[index]
        } else {
            Json::Null
        },
        _ => Json::Null,
    }
}

/// The text of one translated phrase: the first item of its list.
pub open spec fn phrase(translation: Json) -> Option<Seq<char>> {
    match item(translation, 0) {
        Json::Text(text) => Some(text@),
        _ => None,
    }
}

/// The texts of all phrases, one behind the other, unless one of them has no
/// text.
pub open spec fn phrases(translations: Seq<Json>) -> Option<Seq<char>>
    decreases translations.len(),
{
    if translations.len() == 0 {
        Some(Seq::<char>::empty())
    } else {
        match (phrases(translations.drop_last()), phrase(translations.last())) {
            (Some(before), Some(text)) => Some(before + text),
            _ => None,
        }
    }
}

/// The translated text that an answer of the service holds.
pub open spec fn translation(document: Json) -> Option<Seq<char>> {
    match item(document, 0) {
        Json::List(translations) => phrases(translations@),
        _ => None,
    }
}

/// What becomes of an answer of the service, given what was read out of it.
pub open spec fn outcome(document: Option<Json>) -> Result<Seq<char>, TranslationError> {
    match document {
        None => Err(TranslationError::Malformed),
        Some(document) => match translation(document) {
            Some(text) => Ok(text),
            None => Err(TranslationError::UnexpectedFormat),
        },
    }
}

/// The parameters of a request for a translation.
pub open spec fn query(text: Seq<char>, from_lang: Seq<char>, to_lang: Seq<char>) -> Seq<
    (Seq<char>, Seq<char>),
> {
    seq![("sl"@, from_lang), ("tl"@, to_lang), ("dt"@, "t"@), ("q"@, text)]
}

fn first_item(document: &Json) -> (r: Option<&Json>)
    ensures
        match r {
            Some(first) => *first == item(*document, 0),
            None => item(*document, 0) is Null,
        },
{
    match document {
        Json::List(items) => if items.len() > 0 {
            Some(&items[0])
        } else {
            None
        },
        _ => None,
    }
}

/// The translated text that an answer of the service holds: the texts of its
/// phrases, one behind the other. There is none if the answer has another
/// shape.
pub fn translation_of(document: &Json) -> (r: Option<String>)
    ensures
        crate::text::option_view(r) == translation(*document),
{
    let translations = match first_item(document) {
        Some(Json::List(translations)) => translations,
        _ => {
            return None;
        },
    };
    let mut text = String::new();
    let mut i: usize = 0;
    while i < translations.len()
        invariant
            i <= translations.len(),
            translation(*document) == phrases(translations@),
            phrases(translations@.take(i as int)) == Some(text@),
        decreases translations.len() - i,
    {
        proof {
            assert(translations@.take(i as int + 1).drop_last() =~= translations@.take(i as int));
        }
        match first_item(&translations[i]) {
            Some(Json::Text(part)) => {
                text.append(part.as_str());
            },
            _ => {
                proof {
                    lemma_phrases_need_every_text(translations@, i as int);
                }
                return None;
            },
        }
        i += 1;
    }
    assert(translations@.take(i as int) =~= translations@);
    Some(text)
}

/// A list with an item that has no text has no translated text as a whole.
pub proof fn lemma_phrases_need_every_text(translations: Seq<Json>, i: int)
    requires
        0 <= i < translations.len(),
        phrase(translations[i]) is None,
    ensures
        phrases(translations) is None,
    decreases translations.len(),
{
    if i < translations.len() - 1 {
        lemma_phrases_need_every_text(translations.drop_last(), i);
    }
}

/// The service's translator.
#[derive(Debug, PartialEq, Eq)]
pub struct Translation {
    retries: u32,
}

impl Translation {
    /// How often a failed translation is tried again.
    pub closed spec fn retries(self) -> u32 {
        self.retries
    }

    /// A translator that tries a failed translation [`RETRIES`] times again.
    pub fn new() -> (translation: Translation)
        ensures
            translation.retries() == RETRIES,
    {
        Translation { retries: RETRIES }
    }

    /// What goes with the request that asks for `text` in another language:
    /// the language it is in, the language wanted, the wish for the text
    /// alone, and the text.
    pub fn request(&self, text: &str, from_lang: &str, to_lang: &str) -> (options: GetOptions)
        ensures
            options.headers is None,
            pairs_view(options.query) == Some(query(text@, from_lang@, to_lang@)),
            options.timeout == Some(TIMEOUT_SECS),
    {
        let mut parameters: Vec<(String, String)> = Vec::new();
        parameters.push(pair("sl", from_lang));
        parameters.push(pair("tl", to_lang));
        parameters.push(pair("dt", "t"));
        parameters.push(pair("q", text));
        assert(parameters.deep_view() =~= query(text@, from_lang@, to_lang@));
        GetOptions { headers: None, query: Some(parameters), timeout: Some(TIMEOUT_SECS) }
    }

    /// Reads the translated text out of the service's answer.
    pub fn read(&self, body: &[u8]) -> (r: Result<String, TranslationError>)
        ensures
            match r {
                Ok(text) => outcome(parsed(body@)) == Ok::<Seq<char>, TranslationError>(text@),
                Err(error) => outcome(parsed(body@)) == Err::<Seq<char>, TranslationError>(error),
            },
    {
        match parse(body) {
            None => Err(TranslationError::Malformed),
            Some(document) => match translation_of(&document) {
                Some(text) => Ok(text),
                None => Err(TranslationError::UnexpectedFormat),
            },
        }
    }

    /// Whether a translation that has failed `failures` times in a row is
    /// tried once more.
    pub fn tries_again(&self, failures: u32) -> (r: bool)
        ensures
            r == (failures <= self.retries()),
    {
        failures <= self.retries
    }
}

} // verus!
