use vstd::prelude::*;
use vstd::string::*;

verus! {

/// The URL obtained by appending one path segment to a base URL: the two are
/// separated by exactly one `/`, whether or not the base already ends with one.
pub open spec fn spec_url_join(base: Seq<char>, path: Seq<char>) -> Seq<char> {
    if base.len() > 0 && base[base.len() - 1] == '/' {
        base + path
    } else {
        base + seq!['/'] + path
    }
}

/// Append the path segment `path` to the base URL `url`, inserting a `/`
/// separator unless the base already ends with one.
pub fn url_join(url: &str, path: &str) -> (r: String)
    ensures
        r@ == spec_url_join(url@, path@),
{
    let n = url.unicode_len();
    if n > 0 && url.get_char(n - 1) == '/' {
        let s = url.to_owned();
        s.concat(path)
    } else {
        let s = url.to_owned();
        let s = s.concat("/");
        let r = s.concat(path);
        proof {
            reveal_strlit("/");
            assert("/"@ =~= seq!['/']);
            assert(r@ =~= spec_url_join(url@, path@));
        }
        r
    }
}

/// Whether the URL already carries a query string, that is, holds a `?`.
pub open spec fn spec_has_query(url: Seq<char>) -> bool {
    exists|i: int| 0 <= i < url.len() && url[i] == '?'
}

/// Whether `url` holds a `?`, which marks the start of its query string.
pub fn has_query(url: &str) -> (b: bool)
    ensures
        b == spec_has_query(url@),
{
    let n = url.unicode_len();
    let mut i: usize = 0;
    while i < n
        invariant
            n == url@.len(),
            0 <= i <= n,
            forall|j: int| 0 <= j < i ==> url@[j] != '?',
        decreases n - i,
    {
        if url.get_char(i) == '?' {
            proof {
                assert(url@[i as int] == '?');
            }
            return true;
        }
        i += 1;
    }
    false
}

/// The URL obtained by appending the query pair `key=value`: the pair follows
/// a `?` when the URL has no query yet, and a `&` otherwise.
pub open spec fn spec_append_query(url: Seq<char>, key: Seq<char>, value: Seq<char>) -> Seq<char> {
    url + (if spec_has_query(url) {
        seq!['&']
    } else {
        seq!['?']
    }) + key + seq!['='] + value
}

/// Append `key=value` to the URL's query string, starting it with `?` when
/// none exists yet and extending it with `&` otherwise.
pub fn append_query(url: &str, key: &str, value: &str) -> (r: String)
    ensures
        r@ == spec_append_query(url@, key@, value@),
{
    let sep = if has_query(url) {
        "&"
    } else {
        "?"
    };
    let s = url.to_owned();
    let s = s.concat(sep);
    let s = s.concat(key);
    let s = s.concat("=");
    let r = s.concat(value);
    proof {
        reveal_strlit("&");
        reveal_strlit("?");
        reveal_strlit("=");
        assert("&"@ =~= seq!['&']);
        assert("?"@ =~= seq!['?']);
        assert("="@ =~= seq!['=']);
        assert(r@ =~= spec_append_query(url@, key@, value@));
    }
    r
}

} // verus!
