//! The URL that a request is forwarded to.

use crate::text::{ends_with_char, strip_leading, without_leading};
use vstd::prelude::*;

verus! {

/// The URL that `Url::parse` reads from `text`, in its serialised form, or
/// `None` where it reports an error.
pub uninterp spec fn parsed_url(text: Seq<char>) -> Option<Seq<char>>;

/// `Url::parse`: the parsed URL as text, and an error becomes `None`.
#[verifier::external_body]
pub(crate) fn parse_url(text: &str) -> (r: Option<String>)
    ensures
        match r {
            Some(url) => parsed_url(text@) == Some(url@),
            None => parsed_url(text@) is None,
        },
{
    reqwest::Url::parse(text).ok().map(String::from)
}

/// Why no target URL could be made.
#[derive(Debug, Clone, Copy, PartialEq, Eq, Structural)]
pub enum TargetError {
    /// The joined text is not a URL.
    MalformedTarget,
}

/// The query of a request as characters.
pub open spec fn query_view(query: Option<&str>) -> Option<Seq<char>> {
    match query {
        Some(q) => Some(q@),
        None => None,
    }
}

/// `base`, with a slash behind it unless it ends in one.
pub open spec fn slash_ended(base: Seq<char>) -> Seq<char> {
    if base.len() > 0 && base.last() == '/' {
        base
    } else {
        base.push('/')
    }
}

/// What the query adds to a target: a question mark and the query, or nothing.
pub open spec fn query_suffix(query: Option<Seq<char>>) -> Seq<char> {
    match query {
        Some(q) => seq!['?'] + q,
        None => Seq::empty(),
    }
}

/// The text of the target: the base, one slash, the path without the slashes
/// that it starts with, and the query behind a question mark.
pub open spec fn target_text(base: Seq<char>, path: Seq<char>, query: Option<Seq<char>>) -> Seq<
    char,
> {
    slash_ended(base) + without_leading(path, '/') + query_suffix(query)
}

/// Joins base, path and query into the text of the target.
pub fn join_target(base: &str, path: &str, query: Option<&str>) -> (r: String)
    ensures
        r@ == target_text(base@, path@, query_view(query)),
{
    proof {
        reveal_strlit("/");
        reveal_strlit("?");
        assert("/"@ == seq!['/']);
        assert("?"@ == seq!['?']);
    }
    let mut out = String::from_str(base);
    if !ends_with_char(base, '/') {
        out.append("/");
    }
    out.append(strip_leading(path, '/'));
    match query {
        Some(q) => {
            out.append("?");
            out.append(q);
            assert(out@ == target_text(base@, path@, query_view(query)));
        },
        None => {
            assert(out@ == target_text(base@, path@, query_view(query)));
        },
    }
    out
}

/// Resolves the target of a request: the joined text, parsed as a URL. What
/// does not parse is a malformed target.
pub fn resolve(base: &str, path: &str, query: Option<&str>) -> (r: Result<String, TargetError>)
    ensures
        match r {
            Ok(url) => parsed_url(target_text(base@, path@, query_view(query))) == Some(url@),
            Err(e) => e == TargetError::MalformedTarget && parsed_url(
                target_text(base@, path@, query_view(query)),
            ) is None,
        },
{
    let text = join_target(base, path, query);
    match parse_url(text.as_str()) {
        Some(url) => Ok(url),
        None => Err(TargetError::MalformedTarget),
    }
}

/// Stripping the leading run of `c` leaves a suffix of the text that does not
/// begin with `c`, and all that went was `c`.
pub proof fn lemma_without_leading(s: Seq<char>, c: char)
    ensures
        without_leading(s, c).len() <= s.len(),
        without_leading(s, c) == s.skip(s.len() - without_leading(s, c).len()),
        without_leading(s, c).len() > 0 ==> without_leading(s, c)[0] != c,
        forall|i: int| 0 <= i < s.len() - without_leading(s, c).len() ==> s[i] == c,
    decreases s.len(),
{
    if s.len() > 0 && s[0] == c {
        let rest = s.skip(1);
        lemma_without_leading(rest, c);
        let kept = without_leading(rest, c);
        assert(rest.skip(rest.len() - kept.len()) == s.skip(s.len() - kept.len()));
        assert forall|i: int| 0 <= i < s.len() - kept.len() implies s[i] == c by {
            if i > 0 {
                assert(s[i] == rest[i - 1]);
            }
        }
    } else {
        assert(s.skip(0) == s);
    }
}

/// The target is the base, then the normalised path, then the query: the
/// base is followed by exactly one slash of its own or one that was added,
/// the path comes without the slashes that it began with, and a query stands
/// at the end, word for word, behind a question mark.
pub proof fn law_target_shape(base: Seq<char>, path: Seq<char>, query: Option<Seq<char>>)
    ensures
        ({
            let target = target_text(base, path, query);
            let head = slash_ended(base);
            let tail = without_leading(path, '/');
            &&& base.is_prefix_of(head)
            &&& head.len() <= base.len() + 1
            &&& head.last() == '/'
            &&& head.is_prefix_of(target)
            &&& target.subrange(head.len() as int, (head.len() + tail.len()) as int) == tail
            &&& tail.len() > 0 ==> tail[0] != '/'
            &&& tail.len() <= path.len()
            &&& path.skip(path.len() - tail.len()) == tail
            &&& forall|i: int| 0 <= i < path.len() - tail.len() ==> path[i] == '/'
            &&& match query {
                Some(q) => {
                    &&& target.len() == head.len() + tail.len() + 1 + q.len()
                    &&& target[(head.len() + tail.len()) as int] == '?'
                    &&& target.skip(target.len() - q.len()) == q
                },
                None => target == head + tail,
            }
        }),
{
    lemma_without_leading(path, '/');
}

} // verus!
