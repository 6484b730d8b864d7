//! Watch links of the video site: what such a link is, how the video id is
//! read out of one, and which player page shows it.

use crate::infra::browser::action::{Action, ActionView};
use crate::text::{chars_of, option_view, starts_with};
use vstd::prelude::*;
use vstd::string::*;

verus! {

/// Every watch link begins with these characters.
pub const SCHEME: &'static str = "https://";

/// The path of a watch link begins with these characters.
pub const WATCH_PATH: &'static str = "/watch";

/// The parameter of a watch link that holds the video id begins with these
/// characters; its value follows them.
pub const ID_PARAMETER: &'static str = "v=";

/// Why no video id came out of a link.
#[derive(Debug, PartialEq, Eq)]
pub enum YoutubeUrlError {
    /// The link is not a watch link at all. Holds the link.
    UnsupportedUrl(String),
    /// A watch link in which no video id was found. Holds the link.
    UnableToGetVideoId(String),
}

/// A [`YoutubeUrlError`] with its text as a sequence of characters.
pub enum YoutubeUrlErrorView {
    UnsupportedUrl(Seq<char>),
    UnableToGetVideoId(Seq<char>),
}

impl View for YoutubeUrlError {
    type V = YoutubeUrlErrorView;

    open spec fn view(&self) -> YoutubeUrlErrorView {
        match self {
            YoutubeUrlError::UnsupportedUrl(url) => YoutubeUrlErrorView::UnsupportedUrl(url@),
            YoutubeUrlError::UnableToGetVideoId(url) => YoutubeUrlErrorView::UnableToGetVideoId(
                url@,
            ),
        }
    }
}

/// What is said of a link that is no watch link, before the link itself.
pub const UNSUPPORTED_MESSAGE: &'static str = "the url is not supported: ";

/// What is said of a watch link without a video id.
pub const NO_VIDEO_ID_MESSAGE: &'static str =
    "it was not possible to get the video id from the youtube url";

impl YoutubeUrlError {
    /// The error in words.
    pub fn message(&self) -> (text: String)
        ensures
            text@ == match self@ {
                YoutubeUrlErrorView::UnsupportedUrl(url) => UNSUPPORTED_MESSAGE@ + url,
                YoutubeUrlErrorView::UnableToGetVideoId(_) => NO_VIDEO_ID_MESSAGE@,
            },
    {
        match self {
            YoutubeUrlError::UnsupportedUrl(url) => {
                let mut text = String::from_str(UNSUPPORTED_MESSAGE);
                text.append(url.as_str());
                text
            },
            YoutubeUrlError::UnableToGetVideoId(_) => String::from_str(NO_VIDEO_ID_MESSAGE),
        }
    }
}

/// An outcome of looking for a video id, with its text as sequences of
/// characters.
pub open spec fn outcome_view(outcome: Result<String, YoutubeUrlError>) -> Result<
    Seq<char>,
    YoutubeUrlErrorView,
> {
    match outcome {
        Ok(id) => Ok(id@),
        Err(error) => Err(error@),
    }
}

/// How many characters of a text stand before the first `mark`; all of
/// them, if the text has none.
pub open spec fn position(text: Seq<char>, mark: char) -> nat
    decreases text.len(),
{
    if text.len() == 0 || text[0] == mark {
        0
    } else {
        1 + position(text.skip(1), mark)
    }
}

/// What follows the scheme in a link that begins with it.
pub open spec fn behind_scheme(url: Seq<char>) -> Seq<char> {
    url.skip(SCHEME@.len() as int)
}

/// The host of a link that begins with the scheme: what stands between the
/// scheme and the first slash behind it.
pub open spec fn host(url: Seq<char>) -> Seq<char> {
    behind_scheme(url).take(position(behind_scheme(url), '/') as int)
}

/// The path of a link that begins with the scheme, with all that follows
/// it: what stands from the first slash behind the scheme on.
pub open spec fn path(url: Seq<char>) -> Seq<char> {
    behind_scheme(url).skip(position(behind_scheme(url), '/') as int)
}

/// Whether a link is a watch link: it begins with the scheme, names a host,
/// and its path begins with the path of the watch page. Which host it names
/// is not asked.
pub open spec fn is_watch_link(url: Seq<char>) -> bool {
    if SCHEME@.is_prefix_of(url) {
        host(url).len() > 0 && WATCH_PATH@.is_prefix_of(path(url))
    } else {
        false
    }
}

/// The query of a link: what follows its first question mark, if it has one.
pub open spec fn query(url: Seq<char>) -> Option<Seq<char>> {
    if position(url, '?') < url.len() {
        Some(url.skip(position(url, '?') as int + 1))
    } else {
        None
    }
}

/// The value of the id parameter in a query, if the query has the parameter.
/// The parameters of a query stand between ampersands; the first of them
/// that is the id parameter decides, and its value is all that follows its
/// name, up to the next ampersand or the end.
pub open spec fn parameter_value(query: Seq<char>) -> Option<Seq<char>>
    decreases query.len(),
{
    let end = position(query, '&');
    let parameter = query.take(end as int);
    if ID_PARAMETER@.is_prefix_of(parameter) {
        Some(parameter.skip(ID_PARAMETER@.len() as int))
    } else if end < query.len() {
        parameter_value(query.skip(end as int + 1))
    } else {
        None
    }
}

/// The video id of a link: the value of the id parameter in its query, if
/// there is one and it is not empty.
pub open spec fn video_id(url: Seq<char>) -> Option<Seq<char>> {
    match query(url) {
        Some(query) => match parameter_value(query) {
            Some(value) => if value.len() > 0 {
                Some(value)
            } else {
                None
            },
            None => None,
        },
        None => None,
    }
}

/// What a link yields: a link that is no watch link is unsupported, a watch
/// link yields its video id, whole, and a watch link without one is an error
/// of its own.
pub open spec fn video_id_outcome(url: Seq<char>) -> Result<Seq<char>, YoutubeUrlErrorView> {
    if !is_watch_link(url) {
        Err(YoutubeUrlErrorView::UnsupportedUrl(url))
    } else {
        match video_id(url) {
            Some(id) => Ok(id),
            None => Err(YoutubeUrlErrorView::UnableToGetVideoId(url)),
        }
    }
}

/// The first `mark` of a text stands where [`position`] says, and none
/// stands before it.
pub proof fn lemma_position(text: Seq<char>, mark: char)
    ensures
        position(text, mark) <= text.len(),
        position(text, mark) < text.len() ==> text[position(text, mark) as int] == mark,
        forall|i: int| 0 <= i < position(text, mark) ==> text[i] != mark,
    decreases text.len(),
{
    if text.len() > 0 && text[0] != mark {
        lemma_position(text.skip(1), mark);
        assert forall|i: int| 0 <= i < position(text, mark) implies text[i] != mark by {
            if i > 0 {
                assert(text.skip(1)[i - 1] == text[i]);
            }
        }
    }
}

/// Behind a text without the mark, the first mark is the first one of what
/// follows.
pub proof fn lemma_position_behind(head: Seq<char>, tail: Seq<char>, mark: char)
    requires
        forall|i: int| 0 <= i < head.len() ==> head[i] != mark,
    ensures
        position(head + tail, mark) == head.len() + position(tail, mark),
    decreases head.len(),
{
    if head.len() == 0 {
        assert(head + tail =~= tail);
    } else {
        assert((head + tail)[0] == head[0]);
        assert((head + tail).skip(1) =~= head.skip(1) + tail);
        assert forall|i: int| 0 <= i < head.skip(1).len() implies head.skip(1)[i] != mark by {
            assert(head.skip(1)[i] == head[i + 1]);
        }
        lemma_position_behind(head.skip(1), tail, mark);
    }
}

/// The link to the watch page of a host, with a query.
pub open spec fn watch_link(site: Seq<char>, query: Seq<char>) -> Seq<char> {
    SCHEME@ + site + WATCH_PATH@ + seq!['?'] + query
}

/// Whether a text holds a character.
pub open spec fn holds(text: Seq<char>, mark: char) -> bool {
    exists|i: int| 0 <= i < text.len() && text[i] == mark
}

/// The link to the watch page of a host is a watch link, and its query is
/// the one it was made with.
pub proof fn lemma_watch_link(site: Seq<char>, wanted: Seq<char>)
    requires
        site.len() > 0,
        !holds(site, '/'),
        !holds(site, '?'),
    ensures
        is_watch_link(watch_link(site, wanted)),
        query(watch_link(site, wanted)) == Some(wanted),
{
    reveal_strlit("https://");
    reveal_strlit("/watch");
    let url = watch_link(site, wanted);
    let rest = WATCH_PATH@ + seq!['?'] + wanted;
    assert(url.subrange(0, SCHEME@.len() as int) =~= SCHEME@);
    assert(behind_scheme(url) =~= site + rest);
    assert(rest[0] == '/');
    lemma_position_behind(site, rest, '/');
    assert(host(url) =~= site);
    assert(path(url) =~= rest);
    assert(rest.subrange(0, WATCH_PATH@.len() as int) =~= WATCH_PATH@);
    let head = SCHEME@ + site + WATCH_PATH@;
    assert forall|i: int| 0 <= i < head.len() implies head[i] != '?' by {
        if SCHEME@.len() <= i < SCHEME@.len() + site.len() {
            assert(head[i] == site[i - SCHEME@.len()]);
        }
    }
    let tail = seq!['?'] + wanted;
    assert(url =~= head + tail);
    assert(tail[0] == '?');
    lemma_position_behind(head, tail, '?');
    assert(url.skip(head.len() as int + 1) =~= wanted);
}

/// A query that begins with the id parameter has the parameter's value, all
/// of it up to the next ampersand or the end.
pub proof fn lemma_id_parameter_first(value: Seq<char>, rest: Seq<char>)
    requires
        !holds(value, '&'),
        rest.len() > 0 ==> rest[0] == '&',
    ensures
        parameter_value(ID_PARAMETER@ + value + rest) == Some(value),
{
    reveal_strlit("v=");
    let head = ID_PARAMETER@ + value;
    assert forall|i: int| 0 <= i < head.len() implies head[i] != '&' by {
        if i >= ID_PARAMETER@.len() {
            assert(head[i] == value[i - ID_PARAMETER@.len()]);
        }
    }
    lemma_position_behind(head, rest, '&');
    let whole = ID_PARAMETER@ + value + rest;
    assert(whole =~= head + rest);
    assert(whole.take(head.len() as int) =~= head);
    assert(head.subrange(0, ID_PARAMETER@.len() as int) =~= ID_PARAMETER@);
    assert(head.skip(ID_PARAMETER@.len() as int) =~= value);
}

/// A parameter that is not the id parameter is passed over: the value is
/// looked for in what follows its ampersand.
pub proof fn lemma_other_parameter_first(other: Seq<char>, rest: Seq<char>)
    requires
        !holds(other, '&'),
        !ID_PARAMETER@.is_prefix_of(other),
    ensures
        parameter_value(other + seq!['&'] + rest) == parameter_value(rest),
        parameter_value(other) is None,
{
    let tail = seq!['&'] + rest;
    assert(tail[0] == '&');
    lemma_position_behind(other, tail, '&');
    let whole = other + seq!['&'] + rest;
    assert(whole =~= other + tail);
    assert(whole.take(other.len() as int) =~= other);
    assert(whole.skip(other.len() as int + 1) =~= rest);
    lemma_position_behind(other, Seq::<char>::empty(), '&');
    assert(other + Seq::<char>::empty() =~= other);
    assert(other.take(other.len() as int) =~= other);
}

/// The link to the watch page of any host yields the whole value of its id
/// parameter, where that parameter comes first and has a value.
pub proof fn lemma_watch_link_yields_its_id(site: Seq<char>, id: Seq<char>, rest: Seq<char>)
    requires
        site.len() > 0,
        !holds(site, '/'),
        !holds(site, '?'),
        id.len() > 0,
        !holds(id, '&'),
        rest.len() > 0 ==> rest[0] == '&',
    ensures
        video_id_outcome(watch_link(site, ID_PARAMETER@ + id + rest)) == Ok::<
            Seq<char>,
            YoutubeUrlErrorView,
        >(id),
{
    lemma_watch_link(site, ID_PARAMETER@ + id + rest);
    lemma_id_parameter_first(id, rest);
}

/// The position of the first `mark` at or behind a position of a text; the
/// text's length, if there is none.
fn find(chars: &Vec<char>, from: usize, mark: char) -> (at: usize)
    requires
        from <= chars.len(),
    ensures
        from <= at <= chars.len(),
        at == from + position(chars@.skip(from as int), mark),
{
    let mut at = from;
    while at < chars.len() && chars[at] != mark
        invariant
            from <= at <= chars.len(),
            position(chars@.skip(from as int), mark) == (at - from) + position(
                chars@.skip(at as int),
                mark,
            ),
        decreases chars.len() - at,
    {
        assert(chars@.skip(at as int)[0] == chars@[at as int]);
        assert(chars@.skip(at as int).skip(1) =~= chars@.skip(at + 1));
        at += 1;
    }
    proof {
        if at < chars.len() {
            assert(chars@.skip(at as int)[0] == chars@[at as int]);
        }
    }
    at
}

/// Whether a link is a watch link.
pub fn is_youtube_watch_link(url: &str) -> (r: bool)
    ensures
        r == is_watch_link(url@),
{
    if !starts_with(url, SCHEME) {
        return false;
    }
    let chars = chars_of(url);
    let begin = SCHEME.unicode_len();
    let slash = find(&chars, begin, '/');
    let behind = url.substring_char(slash, chars.len());
    assert(url@.subrange(slash as int, chars.len() as int) =~= path(url@));
    slash > begin && starts_with(behind, WATCH_PATH)
}

/// The video id of a link, if it has one: the whole value of the first id
/// parameter of its query, unless that value is empty.
pub fn video_id_of(url: &str) -> (r: Option<String>)
    ensures
        option_view(r) == video_id(url@),
{
    let chars = chars_of(url);
    let n = chars.len();
    let mark = find(&chars, 0, '?');
    assert(chars@.skip(0) =~= url@);
    if mark >= n {
        return None;
    }
    let name = ID_PARAMETER.unicode_len();
    let mut start = mark + 1;
    loop
        invariant
            mark < start <= n,
            n == url@.len(),
            chars@ == url@,
            name == ID_PARAMETER@.len(),
            query(url@) == Some(url@.skip(mark + 1)),
            parameter_value(url@.skip(mark + 1)) == parameter_value(url@.skip(start as int)),
        decreases n - start,
    {
        let end = find(&chars, start, '&');
        let parameter = url.substring_char(start, end);
        assert(parameter@ =~= url@.skip(start as int).take(end - start));
        if starts_with(parameter, ID_PARAMETER) {
            let value = url.substring_char(start + name, end);
            assert(value@ =~= parameter@.skip(name as int));
            if end > start + name {
                return Some(value.to_owned());
            } else {
                return None;
            }
        }
        if end >= n {
            return None;
        }
        assert(url@.skip(start as int).skip(end - start + 1) =~= url@.skip(end + 1));
        start = end + 1;
    }
}

/// Reads the video id out of a watch link.
pub fn get_video_id_from_youtube_url(url: &str) -> (r: Result<String, YoutubeUrlError>)
    ensures
        outcome_view(r) == video_id_outcome(url@),
{
    if !is_youtube_watch_link(url) {
        return Err(YoutubeUrlError::UnsupportedUrl(url.to_owned()));
    }
    match video_id_of(url) {
        Some(id) => Ok(id),
        None => Err(YoutubeUrlError::UnableToGetVideoId(url.to_owned())),
    }
}

/// Address of the player page on the local file service, up to the port.
pub const PLAYER_HOST: &'static str = "http://localhost:";

/// Path and query of the player page, up to the video id.
pub const PLAYER_VIDEO_QUERY: &'static str = "/static/index.html?youtube_video_id=";

/// Address of the player page that embeds one video.
pub open spec fn player_page(port: Seq<char>, video_id: Seq<char>) -> Seq<char> {
    PLAYER_HOST@ + port + PLAYER_VIDEO_QUERY@ + video_id
}

/// How a video of the video site is opened in the focused tab: the tab goes to
/// the player page of the local file service, which embeds the video.
pub fn open_video(video_id: &str, port: &str) -> (script: Vec<Action>)
    ensures
        script.deep_view() == seq![ActionView::Goto(player_page(port@, video_id@))],
{
    let mut address = String::from_str(PLAYER_HOST);
    address.append(port);
    address.append(PLAYER_VIDEO_QUERY);
    address.append(video_id);
    let mut script: Vec<Action> = Vec::new();
    script.push(Action::Goto(address));
    assert(script.deep_view() =~= seq![ActionView::Goto(player_page(port@, video_id@))]);
    script
}

} // verus!
