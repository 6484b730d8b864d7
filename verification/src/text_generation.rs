//! Text generation by the web service: what is sent with a request, and how
//! the generated text is cleaned.

use crate::contracts::{pair, pairs_view, PairsView, PostOptions};
use crate::text::{remove_all, starts_with, without};
use vstd::prelude::*;
use vstd::string::*;

verus! {

/// Address of the text generator.
pub const ENDPOINT: &'static str = "https://model-api-shdxwd54ta-nw.a.run.app/generate/gptj";

/// Host of the text generator.
pub const HOST: &'static str = "model-api-shdxwd54ta-nw.a.run.app";

/// The page that requests seem to come from.
pub const REFERER: &'static str = "https://chai.ml/";

/// The site that requests seem to come from.
pub const ORIGIN: &'static str = "https://chai.ml";

/// Seconds after which a request is given up.
pub const TIMEOUT_SECS: u64 = 30;

/// How much of the most likely continuations is sampled from.
pub const TOP_P: u32 = 1;

/// How many of the most likely words are sampled from.
pub const TOP_K: u32 = 40;

/// How many words are asked for.
pub const RESPONSE_LENGTH: u32 = 64;

/// The account under which text is generated.
#[derive(Debug, PartialEq, Eq)]
pub struct Config {
    pub chaiml_developer_uuid: String,
    pub chaiml_key: String,
}

/// The text generator of the service. It continues a conversation: to have
/// it talk about something, give it a conversation about that.
#[derive(Debug, PartialEq, Eq)]
pub struct TextGenerator {
    config: Config,
}

/// The header fields of a request, for an account.
pub open spec fn headers(developer_uuid: Seq<char>, key: Seq<char>) -> PairsView {
    seq![
        ("Host"@, HOST@),
        ("Referer"@, REFERER@),
        ("Content-Type"@, "application/json"@),
        ("developer_uid"@, developer_uuid),
        ("developer_key"@, key),
        ("Origin"@, ORIGIN@),
    ]
}

/// The generated text without the name of a speaker. The service sometimes
/// begins its text with the name of one of the two speakers; if it does, that
/// name is taken out wherever the text has it. The names are tried in a fixed
/// order, and only the first that the text begins with is taken out.
pub open spec fn cleaned(data: Seq<char>) -> Seq<char> {
    if "Eliza: "@.is_prefix_of(data) {
        remove_all(data, "Eliza: "@)
    } else if "Eliza:"@.is_prefix_of(data) {
        remove_all(data, "Eliza:"@)
    } else if "Me: "@.is_prefix_of(data) {
        remove_all(data, "Me: "@)
    } else if "Me:"@.is_prefix_of(data) {
        remove_all(data, "Me:"@)
    } else {
        data
    }
}

/// Takes the name of a speaker out of a generated text that begins with one.
pub fn clean(data: String) -> (r: String)
    ensures
        r@ == cleaned(data@),
{
    if starts_with(data.as_str(), "Eliza: ") {
        without(data.as_str(), "Eliza: ")
    } else if starts_with(data.as_str(), "Eliza:") {
        without(data.as_str(), "Eliza:")
    } else if starts_with(data.as_str(), "Me: ") {
        without(data.as_str(), "Me: ")
    } else if starts_with(data.as_str(), "Me:") {
        without(data.as_str(), "Me:")
    } else {
        data
    }
}

impl TextGenerator {
    /// The account's developer id.
    pub closed spec fn developer_uuid(self) -> Seq<char> {
        self.config.chaiml_developer_uuid@
    }

    /// The account's key.
    pub closed spec fn key(self) -> Seq<char> {
        self.config.chaiml_key@
    }

    /// A text generator that works under an account.
    pub fn new(config: Config) -> (generator: TextGenerator)
        ensures
            generator.developer_uuid() == config.chaiml_developer_uuid@,
            generator.key() == config.chaiml_key@,
    {
        TextGenerator { config }
    }

    /// What goes with a request for text: the header fields, with the
    /// account in them, and the time after which the request is given up.
    pub fn request(&self) -> (options: PostOptions)
        ensures
            pairs_view(options.headers) == Some(headers(self.developer_uuid(), self.key())),
            options.timeout == Some(TIMEOUT_SECS),
    {
        let mut fields: Vec<(String, String)> = Vec::new();
        fields.push(pair("Host", HOST));
        fields.push(pair("Referer", REFERER));
        fields.push(pair("Content-Type", "application/json"));
        fields.push(pair("developer_uid", self.config.chaiml_developer_uuid.as_str()));
        fields.push(pair("developer_key", self.config.chaiml_key.as_str()));
        fields.push(pair("Origin", ORIGIN));
        assert(fields.deep_view() =~= headers(self.developer_uuid(), self.key()));
        PostOptions { headers: Some(fields), timeout: Some(TIMEOUT_SECS) }
    }
}

} // verus!
