//! Small string routines shared by the rest of the crate.

use vstd::prelude::*;
use vstd::string::*;

verus! {

/// A text that may be missing, as a sequence of characters that may be
/// missing.
pub open spec fn option_view(text: Option<String>) -> Option<Seq<char>> {
    match text {
        Some(text) => Some(text@),
        None => None,
    }
}

/// Whether `text` begins with `prefix`, character by character.
pub fn starts_with(text: &str, prefix: &str) -> (r: bool)
    ensures
        r == prefix@.is_prefix_of(text@),
{
    let wanted = prefix.unicode_len();
    if text.unicode_len() < wanted {
        return false;
    }
    let head = text.substring_char(0, wanted);
    let same = head.to_owned() == prefix.to_owned();
    proof {
        if same {
            assert(text@.subrange(0, wanted as int) =~= prefix@);
        }
    }
    same
}

/// The character that stands for one decimal digit.
pub open spec fn digit(d: nat) -> char {
    if d == 0 {
        '0'
    } else if d == 1 {
        '1'
    } else if d == 2 {
        '2'
    } else if d == 3 {
        '3'
    } else if d == 4 {
        '4'
    } else if d == 5 {
        '5'
    } else if d == 6 {
        '6'
    } else if d == 7 {
        '7'
    } else if d == 8 {
        '8'
    } else {
        '9'
    }
}

/// A number written in base ten, without sign or leading zeros.
pub open spec fn decimal(n: nat) -> Seq<char>
    decreases n,
{
    if n < 10 {
        seq![digit(n)]
    } else {
        decimal(n / 10).push(digit(n % 10))
    }
}

fn digit_text(d: u64) -> (r: &'static str)
    requires
        d < 10,
    ensures
        r@ == seq![digit(d as nat)],
{
    proof {
        reveal_strlit("0");
        reveal_strlit("1");
        reveal_strlit("2");
        reveal_strlit("3");
        reveal_strlit("4");
        reveal_strlit("5");
        reveal_strlit("6");
        reveal_strlit("7");
        reveal_strlit("8");
        reveal_strlit("9");
    }
    let r = if d == 0 {
        "0"
    } else if d == 1 {
        "1"
    } else if d == 2 {
        "2"
    } else if d == 3 {
        "3"
    } else if d == 4 {
        "4"
    } else if d == 5 {
        "5"
    } else if d == 6 {
        "6"
    } else if d == 7 {
        "7"
    } else if d == 8 {
        "8"
    } else {
        "9"
    };
    assert(r@ =~= seq![digit(d as nat)]);
    r
}

/// Writes `n` in base ten behind what `out` already holds.
pub fn push_decimal(out: &mut String, n: u64)
    ensures
        final(out)@ == old(out)@ + decimal(n as nat),
    decreases n,
{
    if n >= 10 {
        push_decimal(out, n / 10);
    }
    out.append(digit_text(n % 10));
    assert(out@ =~= old(out)@ + decimal(n as nat));
}

/// A text without any occurrence of `target`: the occurrences are found from
/// left to right and do not overlap. Without a target, nothing is removed.
pub open spec fn remove_all(text: Seq<char>, target: Seq<char>) -> Seq<char>
    decreases text.len(),
{
    if target.len() == 0 || text.len() < target.len() {
        text
    } else if target.is_prefix_of(text) {
        remove_all(text.skip(target.len() as int), target)
    } else {
        seq![text[0]] + remove_all(text.skip(1), target)
    }
}

/// Removes every occurrence of `target` from a text.
pub fn without(text: &str, target: &str) -> (r: String)
    ensures
        r@ == remove_all(text@, target@),
{
    let n = text.unicode_len();
    let m = target.unicode_len();
    if m == 0 {
        return String::from_str(text);
    }
    let mut out = String::new();
    let mut i: usize = 0;
    assert(text@.skip(0) =~= text@);
    assert(out@ + remove_all(text@, target@) =~= remove_all(text@, target@));
    while i < n
        invariant
            i <= n,
            n == text@.len(),
            m == target@.len(),
            m > 0,
            out@ + remove_all(text@.skip(i as int), target@) == remove_all(text@, target@),
        decreases n - i,
    {
        let rest = text.substring_char(i, n);
        assert(rest@ =~= text@.skip(i as int));
        if starts_with(rest, target) {
            assert(rest@.skip(m as int) =~= text@.skip(i + m));
            i += m;
        } else {
            let ghost before = out@;
            out.append(text.substring_char(i, i + 1));
            assert(rest@.skip(1) =~= text@.skip(i + 1));
            assert(text@.subrange(i as int, i + 1) =~= seq![rest@[0]]);
            if n - i < m {
                assert(remove_all(rest@, target@) == rest@);
                assert(remove_all(rest@.skip(1), target@) == rest@.skip(1));
                assert(rest@ =~= seq![rest@[0]] + rest@.skip(1));
            }
            assert(out@ + remove_all(text@.skip(i + 1), target@) =~= before + remove_all(
                rest@,
                target@,
            ));
            i += 1;
        }
    }
    assert(text@.skip(n as int) =~= Seq::<char>::empty());
    assert(out@ =~= remove_all(text@, target@));
    out
}

/// The characters of a text.
pub fn chars_of(text: &str) -> (chars: Vec<char>)
    ensures
        chars@ == text@,
{
    let mut chars: Vec<char> = Vec::new();
    for c in it: text.chars()
        invariant
            chars@ == it.seq().take(it.index() as int),
            it.seq() == text@,
    {
        chars.push(c);
        assert(chars@ =~= it.seq().take(it.index() + 1));
    }
    assert(chars@ =~= text@);
    chars
}

/// Whether a character is white space in the eyes of the standard library,
/// which goes by the property `White_Space` of the Unicode character
/// database.
pub uninterp spec fn white_space(c: char) -> bool;

/// Asks `char::is_whitespace`. The answer depends on the character alone; the
/// contract only gives it its name.
#[verifier::external_body]
fn is_whitespace(c: char) -> (r: bool)
    ensures
        r == white_space(c),
{
    c.is_whitespace()
}

/// A text read up to some point: the words that a blank has closed, and what
/// has been read of the word that is open.
pub struct WordScan {
    pub words: Seq<Seq<char>>,
    pub rest: Seq<char>,
}

/// Whether the character at a position counts as a blank. A position without
/// a mark is none.
pub open spec fn is_blank(blank: Seq<bool>, i: int) -> bool {
    0 <= i < blank.len() && blank[i]
}

/// Reads the first `upto` characters of a text, closing a word at each
/// blank; `blank` marks the blanks, position by position.
pub open spec fn scan_words(text: Seq<char>, blank: Seq<bool>, upto: nat) -> WordScan
    decreases upto,
{
    if upto == 0 || upto > text.len() {
        WordScan { words: seq![], rest: seq![] }
    } else {
        let before = scan_words(text, blank, (upto - 1) as nat);
        if !is_blank(blank, upto - 1) {
            WordScan { words: before.words, rest: before.rest.push(text[upto - 1]) }
        } else if before.rest.len() > 0 {
            WordScan { words: before.words.push(before.rest), rest: seq![] }
        } else {
            before
        }
    }
}

/// The words of a text whose blanks are marked: its longest stretches without
/// a blank, in order.
pub open spec fn words_between(text: Seq<char>, blank: Seq<bool>) -> Seq<Seq<char>> {
    let read = scan_words(text, blank, text.len());
    if read.rest.len() > 0 {
        read.words.push(read.rest)
    } else {
        read.words
    }
}

/// The marks of a text's white space, position by position.
pub open spec fn white_spaces(text: Seq<char>) -> Seq<bool> {
    Seq::new(text.len(), |i: int| white_space(text[i]))
}

/// The words of a text: its longest stretches without white space, in order.
pub open spec fn words(text: Seq<char>) -> Seq<Seq<char>> {
    words_between(text, white_spaces(text))
}

/// Cuts a text into its words, given which of its characters are blanks.
pub fn split_between(text: &str, blank: &Vec<bool>) -> (r: Vec<String>)
    ensures
        r.deep_view() == words_between(text@, blank@),
{
    let n = text.unicode_len();
    let mut found: Vec<String> = Vec::new();
    let mut start: usize = 0;
    let mut i: usize = 0;
    assert(found.deep_view() =~= scan_words(text@, blank@, 0).words);
    assert(text@.subrange(0, 0) =~= scan_words(text@, blank@, 0).rest);
    while i < n
        invariant
            start <= i <= n,
            n == text@.len(),
            found.deep_view() == scan_words(text@, blank@, i as nat).words,
            scan_words(text@, blank@, i as nat).rest == text@.subrange(start as int, i as int),
        decreases n - i,
    {
        if i < blank.len() && blank[i] {
            if start < i {
                let ghost before = found.deep_view();
                found.push(text.substring_char(start, i).to_owned());
                assert(found.deep_view() =~= before.push(text@.subrange(start as int, i as int)));
            }
            start = i + 1;
            assert(text@.subrange(start as int, i + 1) =~= Seq::<char>::empty());
        } else {
            assert(text@.subrange(start as int, i + 1) =~= text@.subrange(
                start as int,
                i as int,
            ).push(text@[i as int]));
        }
        i += 1;
    }
    if start < n {
        let ghost before = found.deep_view();
        found.push(text.substring_char(start, n).to_owned());
        assert(found.deep_view() =~= before.push(text@.subrange(start as int, n as int)));
    }
    found
}

/// Cuts a text into its words.
pub fn split_whitespace(text: &str) -> (r: Vec<String>)
    ensures
        r.deep_view() == words(text@),
{
    let chars = chars_of(text);
    let mut blank: Vec<bool> = Vec::new();
    let mut i: usize = 0;
    while i < chars.len()
        invariant
            i <= chars.len(),
            chars@ == text@,
            blank@ == white_spaces(text@.take(i as int)),
        decreases chars.len() - i,
    {
        blank.push(is_whitespace(chars[i]));
        assert(blank@ =~= white_spaces(text@.take(i + 1)));
        i += 1;
    }
    assert(text@.take(i as int) =~= text@);
    split_between(text, &blank)
}

/// Texts one behind the other, with a separator between each two.
pub open spec fn joined(texts: Seq<Seq<char>>, separator: Seq<char>) -> Seq<char>
    decreases texts.len(),
{
    if texts.len() == 0 {
        seq![]
    } else if texts.len() == 1 {
        texts[0]
    } else {
        joined(texts.drop_last(), separator) + separator + texts.last()
    }
}

/// Puts texts one behind the other, with a separator between each two.
pub fn join(texts: &Vec<String>, separator: &str) -> (r: String)
    ensures
        r@ == joined(texts.deep_view(), separator@),
{
    let mut out = String::new();
    let mut i: usize = 0;
    let ghost all = texts.deep_view();
    assert(all.take(0) =~= Seq::<Seq<char>>::empty());
    while i < texts.len()
        invariant
            i <= texts.len(),
            all == texts.deep_view(),
            out@ == joined(all.take(i as int), separator@),
        decreases texts.len() - i,
    {
        proof {
            assert(all.take(i + 1).drop_last() =~= all.take(i as int));
            assert(all.take(i + 1).last() == texts[i as int]@);
        }
        if i > 0 {
            out.append(separator);
        }
        out.append(texts[i].as_str());
        proof {
            if i == 0 {
                assert(out@ =~= texts[0]@);
                assert(all.take(1)[0] == texts[0]@);
            }
        }
        i += 1;
    }
    assert(all.take(i as int) =~= all);
    out
}

/// Whether two texts are the same, character by character.
pub fn equals(first: &str, second: &str) -> (r: bool)
    ensures
        r == (first@ == second@),
{
    first.to_owned() == second.to_owned()
}

/// Whether `pattern` stands somewhere in `text`.
pub open spec fn occurs(text: Seq<char>, pattern: Seq<char>) -> bool {
    exists|i: int| 0 <= i <= text.len() && #[trigger] pattern.is_prefix_of(text.skip(i))
}

/// Whether `pattern` stands somewhere in `text`.
pub fn contains(text: &str, pattern: &str) -> (r: bool)
    ensures
        r == occurs(text@, pattern@),
{
    let n = text.unicode_len();
    let mut i: usize = 0;
    while i <= n
        invariant
            i <= n + 1,
            n == text@.len(),
            forall|j: int| 0 <= j < i ==> !#[trigger] pattern@.is_prefix_of(text@.skip(j)),
        decreases n + 1 - i,
    {
        let rest = text.substring_char(i, n);
        assert(rest@ =~= text@.skip(i as int));
        if starts_with(rest, pattern) {
            return true;
        }
        if i == n {
            return false;
        }
        i += 1;
    }
    false
}

/// The texts of a list from some position on; none if the list is shorter.
pub fn tail(texts: &Vec<String>, from: usize) -> (r: Vec<String>)
    ensures
        r.deep_view() == if from <= texts.len() {
            texts.deep_view().skip(from as int)
        } else {
            Seq::<Seq<char>>::empty()
        },
{
    let mut rest: Vec<String> = Vec::new();
    if from > texts.len() {
        assert(rest.deep_view() =~= Seq::<Seq<char>>::empty());
        return rest;
    }
    let mut i = from;
    assert(rest.deep_view() =~= texts.deep_view().subrange(from as int, i as int));
    while i < texts.len()
        invariant
            from <= i <= texts.len(),
            rest.deep_view() == texts.deep_view().subrange(from as int, i as int),
        decreases texts.len() - i,
    {
        let ghost before = rest.deep_view();
        rest.push(texts[i].clone());
        assert(rest.deep_view() =~= before.push(texts[i as int]@));
        assert(rest.deep_view() =~= texts.deep_view().subrange(from as int, i + 1));
        i += 1;
    }
    assert(rest.deep_view() =~= texts.deep_view().skip(from as int));
    rest
}

} // verus!
