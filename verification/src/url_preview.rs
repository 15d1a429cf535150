//! Links in the text of a message.

use crate::text::{chars_of, text_of_chars};
use vstd::prelude::*;

verus! {

/// Whether a character may stand in a link after `https://`: a letter or a
/// digit of ASCII, or one of ``-._~:/?#[]@!$&'()*+,;=%``.
pub open spec fn url_char(c: char) -> bool {
    ||| 'a' <= c <= 'z'
    ||| 'A' <= c <= 'Z'
    ||| '0' <= c <= '9'
    ||| c == '-'
    ||| c == '.'
    ||| c == '_'
    ||| c == '~'
    ||| c == ':'
    ||| c == '/'
    ||| c == '?'
    ||| c == '#'
    ||| c == '['
    ||| c == ']'
    ||| c == '@'
    ||| c == '!'
    ||| c == '$'
    ||| c == '&'
    ||| c == '\''
    ||| c == '('
    ||| c == ')'
    ||| c == '*'
    ||| c == '+'
    ||| c == ','
    ||| c == ';'
    ||| c == '='
    ||| c == '%'
}

/// How a link begins.
pub open spec fn scheme() -> Seq<char> {
    seq!['h', 't', 't', 'p', 's', ':', '/', '/']
}

/// Whether a link begins at a position: `https://` stands there, and after
/// it at least one character that may stand in a link.
pub open spec fn url_starts_at(text: Seq<char>, at: int) -> bool {
    &&& 0 <= at
    &&& at + 8 < text.len()
    &&& text.subrange(at, at + 8) == scheme()
    &&& url_char(text[at + 8])
}

/// Where the characters that may stand in a link end, from a position on.
pub open spec fn url_end(text: Seq<char>, from: int) -> int
    decreases text.len() - from,
{
    if 0 <= from < text.len() && url_char(text[from]) {
        url_end(text, from + 1)
    } else {
        from
    }
}

/// The first link at or after a position, as long as it goes.
pub open spec fn first_url_from(text: Seq<char>, at: int) -> Option<Seq<char>>
    decreases text.len() - at,
{
    if at < 0 || at >= text.len() {
        None
    } else if url_starts_at(text, at) {
        Some(text.subrange(at, url_end(text, at + 8)))
    } else {
        first_url_from(text, at + 1)
    }
}

/// The first link in a text, as long as it goes.
pub open spec fn first_url(text: Seq<char>) -> Option<Seq<char>> {
    first_url_from(text, 0)
}

/// A link that was found is a piece of the text, begins with `https://`, and
/// holds nothing but characters that may stand in a link after that.
pub proof fn lemma_first_url_is_a_link(text: Seq<char>, at: int)
    requires
        0 <= at,
    ensures
        match first_url_from(text, at) {
            Some(url) => url.len() > 8 && url.subrange(0, 8) == scheme() && (forall|i: int|
                8 <= i < url.len() ==> url_char(#[trigger] url[i])) && (exists|start: int|
                at <= start && start + url.len() <= text.len() && #[trigger] text.subrange(
                    start,
                    start + url.len(),
                ) == url),
            None => forall|start: int| at <= start ==> !url_starts_at(text, start),
        },
    decreases text.len() - at,
{
    if at < text.len() {
        if url_starts_at(text, at) {
            let end = url_end(text, at + 8);
            lemma_url_end(text, at + 8);
            let url = text.subrange(at, end);
            assert(url.subrange(0, 8) =~= text.subrange(at, at + 8));
            assert(text.subrange(at, at + url.len()) == url);
        } else {
            lemma_first_url_is_a_link(text, at + 1);
        }
    }
}

/// The characters up to the end of a link may all stand in a link, and the
/// one after the end, if there is one, may not.
pub proof fn lemma_url_end(text: Seq<char>, from: int)
    requires
        0 <= from <= text.len(),
    ensures
        from <= url_end(text, from) <= text.len(),
        forall|i: int| from <= i < url_end(text, from) ==> url_char(#[trigger] text[i]),
        url_end(text, from) < text.len() ==> !url_char(text[url_end(text, from)]),
    decreases text.len() - from,
{
    if from < text.len() && url_char(text[from]) {
        lemma_url_end(text, from + 1);
    }
}

fn is_url_char(c: char) -> (answer: bool)
    ensures
        answer == url_char(c),
{
    ('a' <= c && c <= 'z') || ('A' <= c && c <= 'Z') || ('0' <= c && c <= '9') || c == '-' || c == '.' || c == '_'
        || c == '~' || c == ':' || c == '/' || c == '?' || c == '#' || c == '[' || c == ']' || c == '@' || c == '!'
        || c == '$' || c == '&' || c == '\'' || c == '(' || c == ')' || c == '*' || c == '+' || c == ',' || c == ';'
        || c == '=' || c == '%'
}

fn starts_url(chars: &Vec<char>, at: usize) -> (answer: bool)
    ensures
        answer == url_starts_at(chars@, at as int),
{
    if chars.len() < 9 || at >= chars.len() - 8 {
        return false;
    }
    let here = chars[at] == 'h' && chars[at + 1] == 't' && chars[at + 2] == 't' && chars[at + 3] == 'p' && chars[at
        + 4] == 's' && chars[at + 5] == ':' && chars[at + 6] == '/' && chars[at + 7] == '/';
    proof {
        let piece = chars@.subrange(at as int, at + 8);
        if here {
            assert(piece =~= scheme());
        } else {
            assert(piece[0] == chars@[at as int]);
            assert(piece[1] == chars@[at + 1]);
            assert(piece[2] == chars@[at + 2]);
            assert(piece[3] == chars@[at + 3]);
            assert(piece[4] == chars@[at + 4]);
            assert(piece[5] == chars@[at + 5]);
            assert(piece[6] == chars@[at + 6]);
            assert(piece[7] == chars@[at + 7]);
        }
    }
    here && is_url_char(chars[at + 8])
}

/// Extract the first HTTPS URL from text content.
///
/// The URL begins at the first place where `https://` is followed by a
/// character that may stand in a link, and goes on as long as such characters
/// follow.
pub fn extract_first_url(content: &str) -> (url: Option<String>)
    ensures
        match url {
            Some(found) => first_url(content@) == Some(found@),
            None => first_url(content@) is None,
        },
{
    let chars = chars_of(content);
    let mut at: usize = 0;
    while at < chars.len()
        invariant
            at <= chars@.len(),
            chars@ == content@,
            first_url(chars@) == first_url_from(chars@, at as int),
        decreases chars@.len() - at,
    {
        if starts_url(&chars, at) {
            let mut end: usize = at + 8;
            while end < chars.len() && is_url_char(chars[end])
                invariant
                    at + 8 <= end <= chars@.len(),
                    url_end(chars@, at + 8) == url_end(chars@, end as int),
                decreases chars@.len() - end,
            {
                end += 1;
            }
            assert(url_end(chars@, end as int) == end);
            assert(first_url_from(chars@, at as int) == Some(chars@.subrange(at as int, end as int)));
            return Some(text_of_chars(&chars, at, end));
        }
        at += 1;
    }
    None
}

} // verus!
