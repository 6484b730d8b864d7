//! Speech synthesis by the web service. It takes a limited number of
//! characters at a time, so a longer text is cut at its punctuation and sent
//! in chunks.

use crate::contracts::{pair, PairsView};
use crate::text::chars_of;
use vstd::prelude::*;
use vstd::string::*;
use vstd::utf8::encode_utf8;

verus! {

/// The most bytes of text that the service takes at a time.
pub const CHUNK_LIMIT: usize = 200;

/// Address at which a sound is ordered, and below which it is fetched.
pub const SOUNDS_URL: &'static str = "https://api.soundoftext.com/sounds";

/// The engine that speaks.
pub const ENGINE: &'static str = "google";

/// The voice that speaks.
pub const VOICE: &'static str = "pt-BR";

/// Whether a text may be cut behind this character.
pub open spec fn is_separator(c: char) -> bool {
    c == '.' || c == ','
}

/// A piece of a text: what stands before a separator, with the separator,
/// or what stands behind the last one.
pub type PieceView = (Option<char>, Seq<char>);

/// A text read up to some point: the pieces that a separator has closed, and
/// what has been read since the last separator.
pub struct Scan {
    pub pieces: Seq<PieceView>,
    pub rest: Seq<char>,
}

/// Reads a whole text, closing a piece at each separator.
pub open spec fn scan(text: Seq<char>) -> Scan
    decreases text.len(),
{
    if text.len() == 0 {
        Scan { pieces: seq![], rest: seq![] }
    } else {
        let before = scan(text.drop_last());
        if is_separator(text.last()) {
            Scan { pieces: before.pieces.push((Some(text.last()), before.rest)), rest: seq![] }
        } else {
            Scan { pieces: before.pieces, rest: before.rest.push(text.last()) }
        }
    }
}

/// The pieces of a text. What stands behind the last separator is a piece
/// of its own, without separator, if every character of the text takes one
/// byte; in a text with a longer character it is left out.
pub open spec fn pieces(text: Seq<char>) -> Seq<PieceView> {
    let read = scan(text);
    if read.rest.len() > 0 && encode_utf8(text).len() == text.len() {
        read.pieces.push((None, read.rest))
    } else {
        read.pieces
    }
}

/// Pieces as the contracts see them.
pub open spec fn pieces_view(pieces: Seq<(Option<char>, String)>) -> Seq<PieceView> {
    Seq::new(pieces.len(), |i: int| (pieces[i].0, pieces[i].1@))
}

/// Cuts a text into its pieces, each with the separator that ends it.
pub fn split_str_and_include_separator(text: &str) -> (r: Vec<(Option<char>, String)>)
    ensures
        pieces_view(r@) == pieces(text@),
{
    let chars = chars_of(text);
    let n = chars.len();
    let bytes = text.as_bytes().len();
    let mut found: Vec<(Option<char>, String)> = Vec::new();
    let mut start: usize = 0;
    let mut i: usize = 0;
    assert(text@.take(0) =~= Seq::<char>::empty());
    assert(pieces_view(found@) =~= scan(text@.take(0)).pieces);
    while i < n
        invariant
            start <= i <= n,
            n == text@.len(),
            chars@ == text@,
            pieces_view(found@) == scan(text@.take(i as int)).pieces,
            scan(text@.take(i as int)).rest == text@.subrange(start as int, i as int),
        decreases n - i,
    {
        let c = chars[i];
        proof {
            assert(text@.take(i + 1).drop_last() =~= text@.take(i as int));
            assert(text@.take(i + 1).last() == c);
        }
        if c == '.' || c == ',' {
            let ghost before = found@;
            found.push((Some(c), text.substring_char(start, i).to_owned()));
            assert(pieces_view(found@) =~= pieces_view(before).push(
                (Some(c), text@.subrange(start as int, i as int)),
            ));
            start = i + 1;
            assert(text@.subrange(start as int, i + 1) =~= Seq::<char>::empty());
        } else {
            assert(text@.subrange(start as int, i + 1) =~= text@.subrange(
                start as int,
                i as int,
            ).push(c));
        }
        i += 1;
    }
    assert(text@.take(n as int) =~= text@);
    if start < n && bytes == n {
        let ghost before = found@;
        found.push((None, text.substring_char(start, n).to_owned()));
        assert(pieces_view(found@) =~= pieces_view(before).push(
            (None, text@.subrange(start as int, n as int)),
        ));
    }
    found
}

/// Every separator of a piece is one of the characters at which a text may
/// be cut.
pub proof fn lemma_pieces_end_in_separators(text: Seq<char>, i: int)
    requires
        0 <= i < pieces(text).len(),
    ensures
        pieces(text)[i].0 matches Some(c) ==> is_separator(c),
{
    if i < scan(text).pieces.len() {
        lemma_scan_ends_in_separators(text, i);
    }
}

/// Every piece that the reading of a text has closed ends in a separator.
pub proof fn lemma_scan_ends_in_separators(text: Seq<char>, i: int)
    requires
        0 <= i < scan(text).pieces.len(),
    ensures
        scan(text).pieces[i].0 matches Some(c) && is_separator(c),
    decreases text.len(),
{
    if text.len() > 0 {
        let before = scan(text.drop_last());
        if i < before.pieces.len() {
            lemma_scan_ends_in_separators(text.drop_last(), i);
        }
    }
}

/// How many bytes a text takes.
pub open spec fn bytes_of(text: Seq<char>) -> nat {
    encode_utf8(text).len()
}

/// A piece with its separator behind it.
pub open spec fn with_separator(piece: PieceView) -> Seq<char> {
    match piece.0 {
        Some(c) => piece.1.push(c),
        None => piece.1,
    }
}

/// Chunks in the making: those that are full, and the one that is being
/// filled.
pub struct Filling {
    pub chunks: Seq<Seq<char>>,
    pub buffer: Seq<char>,
}

/// Fills chunks with pieces, in order. A piece goes into the chunk that is
/// being filled, unless the chunk and the piece without its separator take
/// more bytes together than the service takes at a time; then the chunk is
/// closed as it is, empty or not, and the piece begins the next one. So a
/// chunk is too long only where a single piece is.
pub open spec fn fill(pieces: Seq<PieceView>) -> Filling
    decreases pieces.len(),
{
    if pieces.len() == 0 {
        Filling { chunks: seq![], buffer: seq![] }
    } else {
        let before = fill(pieces.drop_last());
        let piece = pieces.last();
        if bytes_of(before.buffer) + bytes_of(piece.1) > CHUNK_LIMIT {
            Filling { chunks: before.chunks.push(before.buffer), buffer: with_separator(piece) }
        } else {
            Filling { chunks: before.chunks, buffer: before.buffer + with_separator(piece) }
        }
    }
}

/// The chunks that a sequence of pieces fills, the last one included.
pub open spec fn filled(pieces: Seq<PieceView>) -> Seq<Seq<char>> {
    let full = fill(pieces);
    if full.buffer.len() > 0 {
        full.chunks.push(full.buffer)
    } else {
        full.chunks
    }
}

/// The chunks of a text.
pub open spec fn chunks(text: Seq<char>) -> Seq<Seq<char>> {
    filled(pieces(text))
}

/// A text could not be cut into chunks.
#[derive(Clone, Copy, Debug, PartialEq, Eq, Structural)]
pub enum ChunkError {
    /// A chunk did not take the text written to it.
    Write,
}

/// Fills chunks with pieces whose separators are among those at which a text
/// may be cut.
fn fill_chunks(pieces: &Vec<(Option<char>, String)>) -> (r: Vec<String>)
    requires
        forall|i: int|
            0 <= i < pieces.len() ==> (#[trigger] pieces[i].0 matches Some(c) ==> is_separator(c)),
    ensures
        r.deep_view() == filled(pieces_view(pieces@)),
{
    let ghost all = pieces_view(pieces@);
    let mut done: Vec<String> = Vec::new();
    let mut buffer = String::new();
    let mut i: usize = 0;
    assert(all.take(0) =~= Seq::<PieceView>::empty());
    assert(done.deep_view() =~= fill(all.take(0)).chunks);
    while i < pieces.len()
        invariant
            i <= pieces.len(),
            all == pieces_view(pieces@),
            forall|i: int|
                0 <= i < pieces.len() ==> (#[trigger] pieces[i].0 matches Some(c) ==> is_separator(
                    c,
                )),
            done.deep_view() == fill(all.take(i as int)).chunks,
            buffer@ == fill(all.take(i as int)).buffer,
        decreases pieces.len() - i,
    {
        let separator = pieces[i].0;
        let piece = pieces[i].1.as_str();
        proof {
            assert(all.take(i + 1).drop_last() =~= all.take(i as int));
            assert(all.take(i + 1).last() == (separator, piece@));
        }
        let held = buffer.as_str().as_bytes().len();
        let more = piece.as_bytes().len();
        if more > CHUNK_LIMIT || held > CHUNK_LIMIT - more {
            let ghost before = done.deep_view();
            done.push(buffer);
            assert(done.deep_view() =~= before.push(fill(all.take(i as int)).buffer));
            buffer = String::new();
        }
        let ghost begun = buffer@;
        buffer.append(piece);
        match separator {
            Some(c) => {
                assert(is_separator(c));
                proof {
                    reveal_strlit(".");
                    reveal_strlit(",");
                }
                if c == '.' {
                    buffer.append(".");
                } else {
                    buffer.append(",");
                }
                assert(buffer@ =~= begun + piece@.push(c));
            },
            None => {},
        }
        i += 1;
    }
    assert(all.take(i as int) =~= all);
    if buffer.as_str().unicode_len() > 0 {
        let ghost before = done.deep_view();
        done.push(buffer);
        assert(done.deep_view() =~= before.push(fill(all).buffer));
    }
    done
}

/// Cuts a text into chunks for the service. The text is cut only behind a
/// full stop or a comma, and every chunk holds as many pieces as fit.
pub fn divide_text_into_chunks(text: &str) -> (r: Result<Vec<String>, ChunkError>)
    ensures
        r is Ok,
        r->Ok_0.deep_view() == chunks(text@),
{
    let pieces = split_str_and_include_separator(text);
    proof {
        assert forall|i: int| 0 <= i < pieces.len() implies (#[trigger] pieces[i].0 matches Some(c)
            ==> is_separator(c)) by {
            lemma_pieces_end_in_separators(text@, i);
            assert(pieces_view(pieces@)[i].0 == pieces[i].0);
        }
    }
    Ok(fill_chunks(&pieces))
}

/// Host of the speech service.
pub const HOST: &'static str = "api.soundoftext.com";

/// The page that requests seem to come from.
pub const REFERER: &'static str = "https://soundoftext.com/";

/// The site that requests seem to come from.
pub const ORIGIN: &'static str = "https://soundoftext.com";

/// The header fields of every request to the speech service.
pub open spec fn headers() -> PairsView {
    seq![
        ("Host"@, HOST@),
        ("Referer"@, REFERER@),
        ("Content-Type"@, "application/json"@),
        ("Origin"@, ORIGIN@),
    ]
}

/// Address at which an ordered sound is asked for.
pub open spec fn sound_url(id: Seq<char>) -> Seq<char> {
    SOUNDS_URL@ + "/"@ + id
}

/// The speech service's speaker.
#[derive(Clone, Copy, Debug, PartialEq, Eq, Structural)]
pub struct Tts {}

impl Tts {
    /// A speaker.
    pub fn new() -> Tts {
        Tts {  }
    }

    /// The header fields that go with every request.
    pub fn request_headers(&self) -> (fields: Vec<(String, String)>)
        ensures
            fields.deep_view() == headers(),
    {
        let mut fields: Vec<(String, String)> = Vec::new();
        fields.push(pair("Host", HOST));
        fields.push(pair("Referer", REFERER));
        fields.push(pair("Content-Type", "application/json"));
        fields.push(pair("Origin", ORIGIN));
        assert(fields.deep_view() =~= headers());
        fields
    }

    /// The address at which an ordered sound is asked for.
    pub fn sound_address(&self, id: &str) -> (address: String)
        ensures
            address@ == sound_url(id@),
    {
        let mut address = String::from_str(SOUNDS_URL);
        address.append("/");
        address.append(id);
        address
    }
}

} // verus!
