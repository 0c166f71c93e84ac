//! The text of request targets: where the origin of a URL ends, and how a
//! path and a query are joined behind it.
//!
//! A URL is read here as `scheme "://" authority rest`. The origin is
//! everything up to the end of the authority; the rest holds the path, the
//! query behind the first `?` and the fragment behind the first `#`.

use vstd::prelude::*;
use vstd::string::*;

verus! {

/// A scheme starts with an ASCII letter.
pub open spec fn is_scheme_start(c: char) -> bool {
    ('a' <= c && c <= 'z') || ('A' <= c && c <= 'Z')
}

/// A scheme goes on with ASCII letters, digits, `+`, `-` and `.`.
pub open spec fn is_scheme_char(c: char) -> bool {
    is_scheme_start(c) || ('0' <= c && c <= '9') || c == '+' || c == '-' || c == '.'
}

/// The authority ends before the first `/`, `?` or `#`.
pub open spec fn ends_authority(c: char) -> bool {
    c == '/' || c == '?' || c == '#'
}

/// The first index at or after `from` whose character satisfies `stop`;
/// the length of `text` where there is none.
pub open spec fn first_stop(text: Seq<char>, from: int, stop: spec_fn(char) -> bool) -> int
    decreases text.len() - from,
{
    if from >= text.len() {
        text.len() as int
    } else if stop(text[from]) {
        from
    } else {
        first_stop(text, from + 1, stop)
    }
}

/// Length of the scheme: the longest prefix made of scheme characters.
pub open spec fn scheme_len(text: Seq<char>) -> int {
    first_stop(text, 0, |c: char| !is_scheme_char(c))
}

/// Length of the origin: where the authority that follows `://` ends.
pub open spec fn origin_len(text: Seq<char>) -> int {
    first_stop(text, scheme_len(text) + 3, |c: char| ends_authority(c))
}

/// `text` starts with a scheme, `://` and an authority that is not empty.
pub open spec fn has_origin(text: Seq<char>) -> bool {
    let n = scheme_len(text);
    &&& n + 3 < text.len()
    &&& is_scheme_start(text[0])
    &&& text[n] == ':'
    &&& text[n + 1] == '/'
    &&& text[n + 2] == '/'
    &&& n + 3 < origin_len(text)
}

/// The origin of `text`: scheme, `://` and authority.
pub open spec fn origin_of(text: Seq<char>) -> Seq<char> {
    text.take(origin_len(text))
}

/// `text` is an origin and nothing more.
pub open spec fn is_origin(text: Seq<char>) -> bool {
    has_origin(text) && origin_len(text) == text.len()
}

/// The scheme of `text`.
pub open spec fn scheme_of(text: Seq<char>) -> Seq<char> {
    text.take(scheme_len(text))
}

/// The authority of `text`: host, and port and user information where
/// they are given.
pub open spec fn authority_of(text: Seq<char>) -> Seq<char> {
    text.subrange(scheme_len(text) + 3, origin_len(text))
}

/// What follows the origin, without the fragment.
pub open spec fn path_and_query_of(text: Seq<char>) -> Seq<char> {
    let rest = text.skip(origin_len(text));
    rest.take(first_stop(rest, 0, |c: char| c == '#'))
}

/// The path of `text`: what follows the origin, up to the query.
pub open spec fn path_of(text: Seq<char>) -> Seq<char> {
    let joined = path_and_query_of(text);
    joined.take(first_stop(joined, 0, |c: char| c == '?'))
}

/// The query of `text`: what follows the first `?` behind the origin.
pub open spec fn query_of(text: Seq<char>) -> Option<Seq<char>> {
    let joined = path_and_query_of(text);
    let mark = first_stop(joined, 0, |c: char| c == '?');
    if mark < joined.len() {
        Some(joined.skip(mark + 1))
    } else {
        None
    }
}

/// A path with its query behind a `?`; the path alone where there is no
/// query.
pub open spec fn path_and_query(path: Seq<char>, query: Option<Seq<char>>) -> Seq<char> {
    match query {
        Some(q) => path + seq!['?'] + q,
        None => path,
    }
}

/// The target at the upstream: its origin, then the request's own path
/// and query.
pub open spec fn upstream_target(
    origin: Seq<char>,
    path: Seq<char>,
    query: Option<Seq<char>>,
) -> Seq<char> {
    origin + path_and_query(path, query)
}

/// A path and a query as a request brings them: the path is empty or
/// starts with `/` and holds no `?` or `#`, and the query holds no `#`.
pub open spec fn is_request_target(path: Seq<char>, query: Option<Seq<char>>) -> bool {
    &&& path.len() > 0 ==> path[0] == '/'
    &&& forall|k: int| 0 <= k < path.len() ==> path[k] != '?' && path[k] != '#'
    &&& query matches Some(q) ==> forall|k: int| 0 <= k < q.len() ==> q[k] != '#'
}

/// The characters of an optional string slice.
pub open spec fn text_of(part: Option<&str>) -> Option<Seq<char>> {
    match part {
        Some(s) => Some(s@),
        None => None,
    }
}

/// `first_stop` stays within the text, skips only characters that do not
/// stop it, and rests on one that does unless it reached the end.
pub proof fn lemma_first_stop(text: Seq<char>, from: int, stop: spec_fn(char) -> bool)
    requires
        0 <= from <= text.len(),
    ensures
        from <= first_stop(text, from, stop) <= text.len(),
        forall|k: int| from <= k < first_stop(text, from, stop) ==> !stop(#[trigger] text[k]),
        first_stop(text, from, stop) < text.len() ==> stop(text[first_stop(text, from, stop)]),
    decreases text.len() - from,
{
    if from < text.len() && !stop(text[from]) {
        lemma_first_stop(text, from + 1, stop);
    }
}

/// An index that is reached over characters that do not stop, and that
/// stops or is the end, is the one `first_stop` finds.
pub proof fn lemma_first_stop_is(
    text: Seq<char>,
    from: int,
    stop: spec_fn(char) -> bool,
    at: int,
)
    requires
        0 <= from <= at <= text.len(),
        forall|k: int| from <= k < at ==> !stop(#[trigger] text[k]),
        at < text.len() ==> stop(text[at]),
    ensures
        first_stop(text, from, stop) == at,
    decreases at - from,
{
    if from < at {
        assert(!stop(text[from]));
        lemma_first_stop_is(text, from + 1, stop, at);
    }
}

/// The origin of a text that has one is itself an origin.
pub proof fn lemma_origin_of_is_origin(text: Seq<char>)
    requires
        has_origin(text),
    ensures
        is_origin(origin_of(text)),
        origin_of(origin_of(text)) == origin_of(text),
{
    let n = scheme_len(text);
    let m = origin_len(text);
    let origin = origin_of(text);
    let not_scheme = |c: char| !is_scheme_char(c);
    let ends = |c: char| ends_authority(c);
    lemma_first_stop(text, 0, not_scheme);
    lemma_first_stop(text, n + 3, ends);
    assert(!is_scheme_char(':'));
    assert forall|k: int| 0 <= k < n implies !not_scheme(#[trigger] origin[k]) by {
        assert(!not_scheme(text[k]));
    }
    lemma_first_stop_is(origin, 0, not_scheme, n);
    assert forall|k: int| n + 3 <= k < m implies !ends(#[trigger] origin[k]) by {
        assert(!ends(text[k]));
    }
    lemma_first_stop_is(origin, n + 3, ends, m);
    assert(origin.take(m) == origin);
}

/// Appending a path and a query to an origin changes nothing in front of
/// them and nothing in them: the target that results has the origin's
/// scheme and authority, and exactly the path and the query it was given.
///
/// This holds for a path that is empty or starts with `/` and holds no
/// `?` or `#`, and for a query that holds no `#`. Any other path would
/// run into the authority or be cut short by its own `?` or `#`.
pub proof fn lemma_target_keeps_origin_and_path(
    origin: Seq<char>,
    path: Seq<char>,
    query: Option<Seq<char>>,
)
    requires
        is_origin(origin),
        is_request_target(path, query),
    ensures
        has_origin(upstream_target(origin, path, query)),
        origin_of(upstream_target(origin, path, query)) == origin,
        scheme_of(upstream_target(origin, path, query)) == scheme_of(origin),
        authority_of(upstream_target(origin, path, query)) == authority_of(origin),
        path_and_query_of(upstream_target(origin, path, query)) == path_and_query(path, query),
        path_of(upstream_target(origin, path, query)) == path,
        query_of(upstream_target(origin, path, query)) == query,
{
    let joined = path_and_query(path, query);
    let target = upstream_target(origin, path, query);
    let n = scheme_len(origin);
    let m = origin.len() as int;
    let not_scheme = |c: char| !is_scheme_char(c);
    let ends = |c: char| ends_authority(c);
    let is_hash = |c: char| c == '#';
    let is_mark = |c: char| c == '?';

    // The origin is found again in front of the target.
    lemma_first_stop(origin, 0, not_scheme);
    lemma_first_stop(origin, n + 3, ends);
    assert(!is_scheme_char(':'));
    assert forall|k: int| 0 <= k < n implies !not_scheme(#[trigger] target[k]) by {
        assert(!not_scheme(origin[k]));
    }
    assert(target[n] == origin[n]);
    lemma_first_stop_is(target, 0, not_scheme, n);
    assert forall|k: int| n + 3 <= k < m implies !ends(#[trigger] target[k]) by {
        assert(!ends(origin[k]));
    }
    if joined.len() > 0 {
        assert(target[m] == joined[0]);
        assert(ends(joined[0])) by {
            if path.len() > 0 {
                assert(joined[0] == path[0]);
            } else {
                assert(query is Some);
                assert(joined[0] == '?');
            }
        }
    }
    lemma_first_stop_is(target, n + 3, ends, m);
    assert(target[n + 1] == origin[n + 1]);
    assert(target[n + 2] == origin[n + 2]);
    assert(target[0] == origin[0]);
    assert(target.take(m) == origin);
    assert(target.take(n) == origin.take(n));
    assert(target.subrange(n + 3, m) == origin.subrange(n + 3, m));

    // Behind it stand the path and the query, with no fragment to drop.
    let rest = target.skip(m);
    assert(rest == joined);
    assert forall|k: int| 0 <= k < joined.len() implies !is_hash(#[trigger] joined[k]) by {
        if k < path.len() {
            assert(joined[k] == path[k]);
        } else {
            let q = query->0;
            if k > path.len() {
                assert(joined[k] == q[k - path.len() - 1]);
            }
        }
    }
    lemma_first_stop_is(joined, 0, is_hash, joined.len() as int);
    assert(joined.take(joined.len() as int) == joined);

    // The first `?` parts the path from the query.
    assert forall|k: int| 0 <= k < path.len() implies !is_mark(#[trigger] joined[k]) by {
        assert(joined[k] == path[k]);
    }
    lemma_first_stop_is(joined, 0, is_mark, path.len() as int);
    assert(joined.take(path.len() as int) == path);
    if let Some(q) = query {
        assert(joined.skip(path.len() as int + 1) == q);
    }
}

/// Whether `c` may start a scheme.
pub fn starts_scheme(c: char) -> (yes: bool)
    ensures
        yes == is_scheme_start(c),
{
    (c >= 'a' && c <= 'z') || (c >= 'A' && c <= 'Z')
}

/// Whether `c` may stand in a scheme.
pub fn continues_scheme(c: char) -> (yes: bool)
    ensures
        yes == is_scheme_char(c),
{
    starts_scheme(c) || (c >= '0' && c <= '9') || c == '+' || c == '-' || c == '.'
}

/// The origin of `url`: its scheme, `://` and authority, without whatever
/// path, query or fragment follows. `None` where `url` does not start
/// with a scheme, `://` and an authority of at least one character.
pub fn split_origin(url: &str) -> (origin: Option<String>)
    ensures
        match origin {
            Some(o) => has_origin(url@) && o@ == origin_of(url@) && is_origin(o@),
            None => !has_origin(url@),
        },
{
    let ghost not_scheme = |c: char| !is_scheme_char(c);
    let ghost ends = |c: char| ends_authority(c);
    let len: usize = url.unicode_len();
    if len == 0 {
        return None;
    }
    if !starts_scheme(url.get_char(0)) {
        return None;
    }
    let mut n: usize = 0;
    while n < len
        invariant
            n <= len,
            len == url@.len(),
            forall|k: int| 0 <= k < n ==> is_scheme_char(#[trigger] url@[k]),
        ensures
            n <= len,
            forall|k: int| 0 <= k < n ==> is_scheme_char(#[trigger] url@[k]),
            n < len ==> !is_scheme_char(url@[n as int]),
        decreases len - n,
    {
        if !continues_scheme(url.get_char(n)) {
            break;
        }
        n = n + 1;
    }
    proof {
        assert forall|k: int| 0 <= k < n implies !not_scheme(#[trigger] url@[k]) by {
            assert(is_scheme_char(url@[k]));
        }
        lemma_first_stop_is(url@, 0, not_scheme, n as int);
    }
    if len - n <= 3 {
        return None;
    }
    if url.get_char(n) != ':' || url.get_char(n + 1) != '/' || url.get_char(n + 2) != '/' {
        return None;
    }
    let start: usize = n + 3;
    let mut m: usize = start;
    while m < len
        invariant
            start <= m <= len,
            len == url@.len(),
            forall|k: int| start <= k < m ==> !ends_authority(#[trigger] url@[k]),
        ensures
            start <= m <= len,
            forall|k: int| start <= k < m ==> !ends_authority(#[trigger] url@[k]),
            m < len ==> ends_authority(url@[m as int]),
        decreases len - m,
    {
        let c: char = url.get_char(m);
        if c == '/' || c == '?' || c == '#' {
            break;
        }
        m = m + 1;
    }
    proof {
        assert forall|k: int| start <= k < m implies !ends(#[trigger] url@[k]) by {
            assert(!ends_authority(url@[k]));
        }
        lemma_first_stop_is(url@, start as int, ends, m as int);
    }
    if m == start {
        return None;
    }
    let origin = String::from_str(url.substring_char(0, m));
    proof {
        assert(url@.subrange(0, m as int) == url@.take(m as int));
        lemma_origin_of_is_origin(url@);
    }
    Some(origin)
}

/// Joins a path and its query as they stand in a request target: the
/// path, then `?` and the query where there is one.
pub fn join_path_and_query(path: &str, query: Option<&str>) -> (joined: String)
    ensures
        joined@ == path_and_query(path@, text_of(query)),
{
    let joined = String::from_str(path);
    match query {
        Some(q) => {
            proof {
                reveal_strlit("?");
                assert("?"@ == seq!['?']);
            }
            joined.concat("?").concat(q)
        },
        None => joined,
    }
}

} // verus!
