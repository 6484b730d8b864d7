//! What is handed to the services that the bot talks to over HTTP.

use vstd::prelude::*;

verus! {

/// A list of names with their values, as sequences of characters.
pub type PairsView = Seq<(Seq<char>, Seq<char>)>;

/// A list of names with their values that may be missing, as the contracts
/// see it.
pub open spec fn pairs_view(pairs: Option<Vec<(String, String)>>) -> Option<PairsView> {
    match pairs {
        Some(pairs) => Some(pairs.deep_view()),
        None => None,
    }
}

/// What goes with a request that posts a body.
#[derive(Debug, PartialEq, Eq)]
pub struct PostOptions {
    /// Header fields to send, in order.
    pub headers: Option<Vec<(String, String)>>,
    /// Seconds after which the request is given up.
    pub timeout: Option<u64>,
}

/// What goes with a request that fetches.
#[derive(Debug, PartialEq, Eq)]
pub struct GetOptions {
    /// Header fields to send, in order.
    pub headers: Option<Vec<(String, String)>>,
    /// Parameters to append to the address as its query, in order.
    pub query: Option<Vec<(String, String)>>,
    /// Seconds after which the request is given up.
    pub timeout: Option<u64>,
}

/// A name with its value.
pub fn pair(name: &str, value: &str) -> (r: (String, String))
    ensures
        r.deep_view() == (name@, value@),
{
    (name.to_owned(), value.to_owned())
}

} // verus!
