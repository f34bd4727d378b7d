//! The request line: which text, if any, a request asks to look up.
use vstd::prelude::*;
use crate::text::{append_chars, chars_of, split_words, string_of_chars, words};

verus! {

/// What `url` makes of an absolute URL: `None` where `Url::parse` rejects
/// it, else the decoded name/value pairs of its query, in order.
pub uninterp spec fn url_query_pairs(url: Seq<char>) -> Option<Seq<(Seq<char>, Seq<char>)>>;

/// The views of a sequence of string pairs.
pub open spec fn pair_views(v: Seq<(String, String)>) -> Seq<(Seq<char>, Seq<char>)> {
    v.map_values(|p: (String, String)| (p.0@, p.1@))
}

/// Relies on `url::Url::parse` and `Url::query_pairs`: parses `url`, and
/// hands out the decoded query pairs of the result.
#[verifier::external_body]
fn query_pairs_of(url: &str) -> (r: Option<Vec<(String, String)>>)
    ensures
        match r {
            None => url_query_pairs(url@) is None,
            Some(v) => url_query_pairs(url@) == Some(pair_views(v@)),
        },
{
    url::Url::parse(url).ok().map(
        |u| u.query_pairs().map(|(k, v)| (k.into_owned(), v.into_owned())).collect(),
    )
}

/// The position of the first line break at or after `i`, or the length.
pub open spec fn line_end(s: Seq<char>, i: int) -> int
    decreases s.len() - i,
{
    if i >= s.len() {
        s.len() as int
    } else if s[i] == '\n' {
        i
    } else {
        line_end(s, i + 1)
    }
}

/// The first line of a request.
pub open spec fn first_line(s: Seq<char>) -> Seq<char> {
    s.take(line_end(s, 0))
}

/// The request target: the second word of the first line.
pub open spec fn request_target(request: Seq<char>) -> Option<Seq<char>> {
    let w = words(first_line(request));
    if w.len() >= 2 {
        Some(w[1])
    } else {
        None
    }
}

/// The base that a request target is resolved against.
pub open spec fn local_base() -> Seq<char> {
    seq!['h', 't', 't', 'p', ':', '/', '/', 'l', 'o', 'c', 'a', 'l', 'h', 'o', 's', 't']
}

/// The name of the query key that carries the text.
pub open spec fn text_key() -> Seq<char> {
    seq!['t', 'e', 'x', 't']
}

/// The value of the first pair whose name is `text`.
pub open spec fn first_text_value(pairs: Seq<(Seq<char>, Seq<char>)>) -> Option<Seq<char>>
    decreases pairs.len(),
{
    if pairs.len() == 0 {
        None
    } else if pairs[0].0 == text_key() {
        Some(pairs[0].1)
    } else {
        first_text_value(pairs.drop_first())
    }
}

/// The text to look up, given the query pairs: the value of the first
/// `text` pair, where it is not empty.
pub open spec fn lookup_text(pairs: Seq<(Seq<char>, Seq<char>)>) -> Option<Seq<char>> {
    match first_text_value(pairs) {
        Some(v) => if v.len() > 0 {
            Some(v)
        } else {
            None
        },
        None => None,
    }
}

/// The text that a request asks to look up, if any.
pub open spec fn request_text(request: Seq<char>) -> Option<Seq<char>> {
    match request_target(request) {
        None => None,
        Some(t) => match url_query_pairs(local_base() + t) {
            None => None,
            Some(pairs) => lookup_text(pairs),
        },
    }
}

/// Picks the text to look up out of decoded query pairs: the value of the
/// first pair named `text`, where that value is not empty.
pub fn text_of_pairs(pairs: &Vec<(String, String)>) -> (r: Option<String>)
    ensures
        match r {
            None => lookup_text(pair_views(pairs@)) is None,
            Some(v) => lookup_text(pair_views(pairs@)) == Some(v@),
        },
{
    let ghost all = pair_views(pairs@);
    let n = pairs.len();
    let mut i: usize = 0;
    assert(all.skip(0) =~= all);
    while i < n
        invariant
            n == pairs.len(),
            i <= n,
            all == pair_views(pairs@),
            first_text_value(all) == first_text_value(all.skip(i as int)),
        decreases n - i,
    {
        let key = chars_of(pairs[i].0.as_str());
        let is_text = key.len() == 4 && key[0] == 't' && key[1] == 'e' && key[2] == 'x'
            && key[3] == 't';
        assert(all.skip(i as int)[0] == all[i as int]);
        if is_text {
            assert(key@ =~= text_key());
            let value = pairs[i].1.clone();
            if value.as_str().is_empty() {
                return None;
            }
            return Some(value);
        }
        proof {
            if key@ == text_key() {
                assert(key@[1] == 'e');
            }
            assert(all.skip(i as int).drop_first() =~= all.skip(i as int + 1));
        }
        i = i + 1;
    }
    assert(all.skip(n as int).len() == 0);
    None
}

/// Splits off the first line of `s`.
fn first_line_of(s: &Vec<char>) -> (r: Vec<char>)
    ensures
        r@ == first_line(s@),
{
    let n = s.len();
    let mut r: Vec<char> = Vec::new();
    let mut i: usize = 0;
    while i < n && s[i] != '\n'
        invariant
            n == s.len(),
            i <= n,
            line_end(s@, 0) == line_end(s@, i as int),
            r@ == s@.take(i as int),
        decreases n - i,
    {
        r.push(s[i]);
        i = i + 1;
        assert(r@ =~= s@.take(i as int));
    }
    r
}

/// The text that a request asks to look up: the value of the `text` query
/// key of the target in the request's first line, decoded. `None` where the
/// line has no target, the target does not parse, or the key is missing or
/// empty.
pub fn parse_word_from_request(request: &str) -> (r: Option<String>)
    ensures
        match r {
            None => request_text(request@) is None,
            Some(v) => request_text(request@) == Some(v@),
        },
{
    let all = chars_of(request);
    let line = first_line_of(&all);
    let parts = split_words(&line);
    if parts.len() < 2 {
        return None;
    }
    let mut url = chars_of("http://localhost");
    proof {
        reveal_strlit("http://localhost");
        assert(url@ =~= local_base());
    }
    assert(parts@[1]@ == words(first_line(request@))[1]);
    append_chars(&mut url, &parts[1]);
    let url = string_of_chars(&url);
    match query_pairs_of(url.as_str()) {
        None => None,
        Some(pairs) => text_of_pairs(&pairs),
    }
}

} // verus!
