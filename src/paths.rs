//! Splitting of request URIs and script paths.

use vstd::prelude::*;

verus! {

/// `i` is the index of the first occurrence of `c` in `s`.
pub open spec fn first_at(s: Seq<char>, c: char, i: int) -> bool {
    0 <= i < s.len() && s[i] == c && forall|j: int| 0 <= j < i ==> s[j] != c
}

/// `i` is the index of the last occurrence of `c` in `s`.
pub open spec fn last_at(s: Seq<char>, c: char, i: int) -> bool {
    0 <= i < s.len() && s[i] == c && forall|j: int| i < j < s.len() ==> s[j] != c
}

pub open spec fn occurs(s: Seq<char>, c: char) -> bool {
    exists|i: int| 0 <= i < s.len() && s[i] == c
}

pub open spec fn first_index(s: Seq<char>, c: char) -> int {
    choose|i: int| first_at(s, c, i)
}

pub open spec fn last_index(s: Seq<char>, c: char) -> int {
    choose|i: int| last_at(s, c, i)
}

/// The path part of a URI: everything before the first `?`.
pub open spec fn uri_path(uri: Seq<char>) -> Seq<char> {
    if occurs(uri, '?') {
        uri.subrange(0, first_index(uri, '?'))
    } else {
        uri
    }
}

/// The query part of a URI: everything after the first `?`, if there is one.
pub open spec fn uri_query(uri: Seq<char>) -> Option<Seq<char>> {
    if occurs(uri, '?') {
        Some(uri.subrange(first_index(uri, '?') + 1, uri.len() as int))
    } else {
        None
    }
}

/// The last component of a path: everything after the last `/`.
pub open spec fn file_name(p: Seq<char>) -> Seq<char> {
    if occurs(p, '/') {
        p.subrange(last_index(p, '/') + 1, p.len() as int)
    } else {
        p
    }
}

/// The directory of a path: everything before the last `/`, or `/` itself
/// where that is the first character.
pub open spec fn parent_dir(p: Seq<char>) -> Seq<char> {
    if occurs(p, '/') {
        if last_index(p, '/') == 0 {
            seq!['/']
        } else {
            p.subrange(0, last_index(p, '/'))
        }
    } else {
        Seq::empty()
    }
}

proof fn lemma_first(s: Seq<char>, c: char, i: int)
    requires
        first_at(s, c, i),
    ensures
        occurs(s, c),
        first_index(s, c) == i,
{
    let k = first_index(s, c);
    assert(first_at(s, c, k));
    if k < i {
        assert(s[k] != c);
    }
    if i < k {
        assert(s[i] != c);
    }
}

proof fn lemma_last(s: Seq<char>, c: char, i: int)
    requires
        last_at(s, c, i),
    ensures
        occurs(s, c),
        last_index(s, c) == i,
{
    let k = last_index(s, c);
    assert(last_at(s, c, k));
    if k < i {
        assert(s[i] != c);
    }
    if i < k {
        assert(s[k] != c);
    }
}

/// The index of the first `c` in `s`.
pub fn find_first(s: &str, c: char) -> (r: Option<usize>)
    ensures
        match r {
            Some(i) => first_at(s@, c, i as int),
            None => !occurs(s@, c),
        },
{
    let n = s.unicode_len();
    let mut i: usize = 0;
    while i < n
        invariant
            n == s@.len(),
            i <= n,
            forall|j: int| 0 <= j < i ==> s@[j] != c,
        decreases n - i,
    {
        if s.get_char(i) == c {
            return Some(i);
        }
        i = i + 1;
    }
    None
}

/// The index of the last `c` in `s`.
pub fn find_last(s: &str, c: char) -> (r: Option<usize>)
    ensures
        match r {
            Some(i) => last_at(s@, c, i as int),
            None => !occurs(s@, c),
        },
{
    let n = s.unicode_len();
    let mut i: usize = n;
    while i > 0
        invariant
            n == s@.len(),
            i <= n,
            forall|j: int| i <= j < n ==> s@[j] != c,
        decreases i,
    {
        if s.get_char(i - 1) == c {
            return Some(i - 1);
        }
        i = i - 1;
    }
    None
}

/// Splits a URI at its first `?` into path and query.
pub fn parse_uri(uri: &str) -> (r: (String, Option<String>))
    ensures
        r.0@ == uri_path(uri@),
        match uri_query(uri@) {
            Some(q) => r.1 matches Some(x) && x@ == q,
            None => r.1 is None,
        },
{
    match find_first(uri, '?') {
        Some(pos) => {
            proof {
                lemma_first(uri@, '?', pos as int);
            }
            let n = uri.unicode_len();
            let path = uri.substring_char(0, pos).to_owned();
            let query = uri.substring_char(pos + 1, n).to_owned();
            (path, Some(query))
        },
        None => (uri.to_owned(), None),
    }
}

/// The last component of a path.
pub fn path_file_name(p: &str) -> (r: String)
    ensures
        r@ == file_name(p@),
{
    match find_last(p, '/') {
        Some(pos) => {
            proof {
                lemma_last(p@, '/', pos as int);
            }
            let n = p.unicode_len();
            p.substring_char(pos + 1, n).to_owned()
        },
        None => p.to_owned(),
    }
}

/// The directory of a path.
pub fn path_parent(p: &str) -> (r: String)
    ensures
        r@ == parent_dir(p@),
{
    match find_last(p, '/') {
        Some(pos) => {
            proof {
                lemma_last(p@, '/', pos as int);
            }
            if pos == 0 {
                let mut r = String::new();
                crate::text::push_char(&mut r, '/');
                assert(r@ =~= seq!['/']);
                r
            } else {
                p.substring_char(0, pos).to_owned()
            }
        },
        None => String::new(),
    }
}

} // verus!
