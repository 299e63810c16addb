//! From a dataset identifier to the names derived from it: the cache key,
//! the path of the cache entry, and the name of the fetch job.

use vstd::prelude::*;
use crate::text::chars_of;

verus! {

/// The scheme marker that a dataset identifier carries: `s3://`.
pub open spec fn scheme_marker() -> Seq<char> {
    seq!['s', '3', ':', '/', '/']
}

/// The character that introduces an escape in a cache key: `%`.
pub open spec fn escape_mark() -> char {
    '%'
}

/// Whether `c` has a meaning of its own in a cache key and so is written
/// behind an escape mark: the reserved character `-`, the escape mark, and the
/// dot, which alone or doubled would name a directory.
pub open spec fn is_special(c: char) -> bool {
    c == '-' || c == '%' || c == '.'
}

/// What stands for one character of an identifier in its cache key: `-` for
/// a path separator, the character behind an escape mark if it is special,
/// and the character itself otherwise.
pub open spec fn code_of(c: char) -> Seq<char> {
    if c == '/' {
        seq!['-']
    } else if is_special(c) {
        seq!['%', c]
    } else {
        seq![c]
    }
}

/// `s` with each character replaced by what stands for it.
pub open spec fn escaped(s: Seq<char>) -> Seq<char>
    decreases s.len(),
{
    if s.len() == 0 {
        s
    } else {
        code_of(s[0]) + escaped(s.skip(1))
    }
}

/// The cache key of an identifier without a scheme marker starts with this.
pub open spec fn bare_prefix() -> Seq<char> {
    seq!['%', '_']
}

/// The cache key of the identifier that is the scheme marker and no more.
pub open spec fn empty_body_key() -> Seq<char> {
    seq!['%', '0']
}

/// The cache key of a dataset identifier. The scheme marker at the front is
/// dropped and the rest is escaped, so that `s3://models/m1` has the key
/// `models-m1`. An identifier without the marker keeps a prefix that no
/// escaped text starts with, and so does the marker alone.
pub open spec fn cache_key_of(did: Seq<char>) -> Seq<char> {
    if scheme_marker().is_prefix_of(did) {
        if did.len() == 5 {
            empty_body_key()
        } else {
            escaped(did.skip(5))
        }
    } else {
        bare_prefix() + escaped(did)
    }
}

fn marker_at(s: &Vec<char>, i: usize) -> (found: bool)
    requires
        i < s.len(),
    ensures
        found == scheme_marker().is_prefix_of(s@.skip(i as int)),
{
    let n = s.len();
    if n - i < 5 {
        return false;
    }
    let found = s[i] == 's' && s[i + 1] == '3' && s[i + 2] == ':' && s[i + 3] == '/' && s[i + 4]
        == '/';
    proof {
        let rest = s@.skip(i as int);
        let m = scheme_marker();
        if found {
            assert(rest.subrange(0, 5) =~= m);
        } else {
            if m.is_prefix_of(rest) {
                assert(rest.subrange(0, 5) == m);
                assert(rest[0] == m[0] && rest[1] == m[1] && rest[2] == m[2] && rest[3] == m[3]
                    && rest[4] == m[4]);
            }
        }
    }
    found
}

/// Computes the cache key of `did`: the scheme marker at the front is
/// dropped, each path separator becomes `-`, and a character that would be
/// taken for something else is written behind `%`.
pub fn cache_key(did: &str) -> (key: String)
    ensures
        key@ == cache_key_of(did@),
{
    let s = chars_of(did);
    let n = s.len();
    let marked = n >= 5 && marker_at(&s, 0);
    proof {
        assert(s@.skip(0) =~= s@);
        if n < 5 && scheme_marker().is_prefix_of(s@) {
            assert(false);
        }
        reveal_strlit("%0");
        reveal_strlit("%_");
        assert("%0"@ =~= empty_body_key());
        assert("%_"@ =~= bare_prefix());
    }
    if marked && n == 5 {
        return "%0".to_owned();
    }
    let start: usize = if marked {
        5
    } else {
        0
    };
    let mut key = if marked {
        String::new()
    } else {
        "%_".to_owned()
    };
    let ghost prefix = key@;
    let mut i: usize = start;
    proof {
        assert(prefix + escaped(s@.skip(start as int)) =~= cache_key_of(did@));
    }
    while i < n
        invariant
            n == s.len(),
            s@ == did@,
            start <= i <= n,
            key@ + escaped(s@.skip(i as int)) == cache_key_of(did@),
        decreases n - i,
    {
        let ghost rest = s@.skip(i as int);
        let ghost before = key@;
        let c = s[i];
        proof {
            assert(rest.skip(1) =~= s@.skip(i + 1));
            assert(rest[0] == c);
        }
        if c == '/' {
            key.push('-');
            proof {
                assert(before.push('-') + escaped(rest.skip(1)) =~= before + escaped(rest));
            }
        } else if c == '-' || c == '%' || c == '.' {
            key.push('%');
            key.push(c);
            proof {
                assert(before.push('%').push(c) + escaped(rest.skip(1)) =~= before + escaped(rest));
            }
        } else {
            key.push(c);
            proof {
                assert(before.push(c) + escaped(rest.skip(1)) =~= before + escaped(rest));
            }
        }
        i += 1;
    }
    proof {
        assert(escaped(s@.skip(n as int)) =~= Seq::<char>::empty());
        assert(key@ + Seq::<char>::empty() =~= key@);
    }
    key
}

/// Where a dataset lies in the object store.
#[derive(Clone, Debug, PartialEq, Eq)]
pub struct ObjectLocation {
    pub bucket: String,
    pub key: String,
}

/// The position of the first path separator in `s`, or the length of `s` if
/// it holds none.
pub open spec fn separator_at(s: Seq<char>) -> int
    decreases s.len(),
{
    if s.len() == 0 || s[0] == '/' {
        0
    } else {
        1 + separator_at(s.skip(1))
    }
}

/// The bucket and the object key that a dataset identifier names: it has the
/// form `s3://<bucket>/<key>` with neither part empty, and the bucket ends at
/// the first path separator.
pub open spec fn object_location_of(did: Seq<char>) -> Option<(Seq<char>, Seq<char>)> {
    if scheme_marker().is_prefix_of(did) {
        let rest = did.skip(5);
        let cut = separator_at(rest);
        if 0 < cut && cut + 1 < rest.len() {
            Some((rest.take(cut), rest.skip(cut + 1)))
        } else {
            None
        }
    } else {
        None
    }
}

proof fn lemma_separator_at(s: Seq<char>, i: int)
    requires
        0 <= i <= s.len(),
        forall|j: int| 0 <= j < i ==> s[j] != '/',
        i == s.len() || s[i] == '/',
    ensures
        separator_at(s) == i,
    decreases i,
{
    if i > 0 {
        let rest = s.skip(1);
        assert forall|j: int| 0 <= j < i - 1 implies rest[j] != '/' by {
            assert(rest[j] == s[j + 1]);
        }
        lemma_separator_at(rest, i - 1);
    }
}

fn text_between(s: &Vec<char>, from: usize, to: usize) -> (t: String)
    requires
        from <= to <= s.len(),
    ensures
        t@ == s@.subrange(from as int, to as int),
{
    let mut t = String::new();
    let mut i: usize = from;
    while i < to
        invariant
            from <= i <= to,
            to <= s.len(),
            t@ == s@.subrange(from as int, i as int),
        decreases to - i,
    {
        t.push(s[i]);
        proof {
            assert(s@.subrange(from as int, i + 1) =~= s@.subrange(from as int, i as int).push(
                s@[i as int],
            ));
        }
        i += 1;
    }
    t
}

/// Splits a dataset identifier of the form `s3://<bucket>/<key>` into its
/// bucket and its object key; `None` for any other identifier.
pub fn object_location(did: &str) -> (r: Option<ObjectLocation>)
    ensures
        match r {
            Some(at) => object_location_of(did@) == Some((at.bucket@, at.key@)),
            None => object_location_of(did@) is None,
        },
{
    let s = chars_of(did);
    let n = s.len();
    if n < 5 || !marker_at(&s, 0) {
        proof {
            assert(s@.skip(0) =~= s@);
        }
        return None;
    }
    proof {
        assert(s@.skip(0) =~= s@);
    }
    let ghost rest = s@.skip(5);
    let mut i: usize = 5;
    while i < n && s[i] != '/'
        invariant
            5 <= i <= n,
            n == s.len(),
            rest == s@.skip(5),
            forall|j: int| 0 <= j < i - 5 ==> rest[j] != '/',
        decreases n - i,
    {
        i += 1;
    }
    proof {
        lemma_separator_at(rest, i - 5);
    }
    if i == 5 || n - i <= 1 {
        return None;
    }
    let bucket = text_between(&s, 5, i);
    let key = text_between(&s, i + 1, n);
    proof {
        assert(rest.take(i - 5) =~= s@.subrange(5, i as int));
        assert(rest.skip(i - 5 + 1) =~= s@.subrange(i + 1, n as int));
    }
    Some(ObjectLocation { bucket, key })
}

/// The path a download is written to before it is complete: `<path>.part`,
/// beside the entry's own path.
pub open spec fn staging_path_of(path: Seq<char>) -> Seq<char> {
    path + seq!['.', 'p', 'a', 'r', 't']
}

/// Computes the path a download is written to before it is complete. The
/// downloader renames it to the entry's path once the last byte is written,
/// so that no half-written file is ever seen at that path.
pub fn staging_path(path: &str) -> (staging: String)
    ensures
        staging@ == staging_path_of(path@),
{
    proof {
        reveal_strlit(".part");
        assert(".part"@ =~= seq!['.', 'p', 'a', 'r', 't']);
    }
    path.to_owned().concat(".part")
}

/// The prefix of every fetch job's name: `fetcher-`.
pub open spec fn job_prefix() -> Seq<char> {
    seq!['f', 'e', 't', 'c', 'h', 'e', 'r', '-']
}

/// The name of the fetch job for a cache key.
pub open spec fn job_name_of(key: Seq<char>) -> Seq<char> {
    job_prefix() + key
}

/// The path of the cache entry for a cache key under a cache root.
pub open spec fn cache_path_of(root: Seq<char>, key: Seq<char>) -> Seq<char> {
    root + seq!['/'] + key
}

/// Computes the name of the fetch job for `key`: `fetcher-<key>`.
pub fn job_name(key: &str) -> (name: String)
    ensures
        name@ == job_name_of(key@),
{
    proof {
        reveal_strlit("fetcher-");
        assert("fetcher-"@ =~= job_prefix());
    }
    "fetcher-".to_owned().concat(key)
}

/// Computes the path of the cache entry for `key`: `<root>/<key>`.
pub fn cache_path(root: &str, key: &str) -> (path: String)
    ensures
        path@ == cache_path_of(root@, key@),
{
    proof {
        reveal_strlit("/");
        assert("/"@ =~= seq!['/']);
    }
    root.to_owned().concat("/").concat(key)
}

/// What escaped text starts with: never a path separator and never a dot,
/// and an escape mark at its front is followed by a special character.
pub proof fn lemma_escaped_head(s: Seq<char>)
    requires
        s.len() > 0,
    ensures
        escaped(s).len() >= 1,
        escaped(s)[0] != '/',
        escaped(s)[0] != '.',
        escaped(s)[0] == '%' ==> escaped(s).len() >= 2 && is_special(escaped(s)[1]),
{
    let head = code_of(s[0]);
    let tail = escaped(s.skip(1));
    assert(escaped(s) == head + tail);
    assert((head + tail)[0] == head[0]);
    if head.len() == 2 {
        assert((head + tail)[1] == head[1]);
    }
}

/// Escaped text holds no path separator.
pub proof fn lemma_escaped_has_no_separator(s: Seq<char>)
    ensures
        !escaped(s).contains('/'),
    decreases s.len(),
{
    if s.len() > 0 {
        lemma_escaped_has_no_separator(s.skip(1));
        let head = code_of(s[0]);
        let tail = escaped(s.skip(1));
        assert forall|i: int| 0 <= i < (head + tail).len() implies (head + tail)[i] != '/' by {
            if i >= head.len() {
                assert((head + tail)[i] == tail[i - head.len()]);
                assert(tail.contains(tail[i - head.len()]));
            } else {
                assert((head + tail)[i] == head[i]);
            }
        }
    }
}

/// Two texts that are escaped to the same text are the same text.
pub proof fn lemma_escaped_injective(a: Seq<char>, b: Seq<char>)
    requires
        escaped(a) == escaped(b),
    ensures
        a == b,
    decreases a.len(),
{
    if a.len() == 0 {
        if b.len() > 0 {
            lemma_escaped_head(b);
        }
        assert(a =~= b);
    } else if b.len() == 0 {
        lemma_escaped_head(a);
    } else {
        let ca = code_of(a[0]);
        let cb = code_of(b[0]);
        let ta = escaped(a.skip(1));
        let tb = escaped(b.skip(1));
        assert(escaped(a) == ca + ta);
        assert(escaped(b) == cb + tb);
        assert((ca + ta)[0] == ca[0]);
        assert((cb + tb)[0] == cb[0]);
        if ca.len() == 2 {
            assert(cb[0] == '%');
            assert(cb.len() == 2);
            assert((ca + ta)[1] == ca[1]);
            assert((cb + tb)[1] == cb[1]);
        } else {
            assert(ca[0] != '%');
            assert(cb.len() == 1);
        }
        assert(a[0] == b[0]);
        assert(ta =~= (ca + ta).skip(ca.len() as int));
        assert(tb =~= (cb + tb).skip(cb.len() as int));
        lemma_escaped_injective(a.skip(1), b.skip(1));
        assert(a =~= seq![a[0]] + a.skip(1));
        assert(b =~= seq![b[0]] + b.skip(1));
    }
}

/// The mapping from dataset identifiers to cache keys is injective: two
/// identifiers with the same cache key are the same identifier.
pub proof fn lemma_cache_key_injective(a: Seq<char>, b: Seq<char>)
    requires
        cache_key_of(a) == cache_key_of(b),
    ensures
        a == b,
{
    let m = scheme_marker();
    let a_marked = m.is_prefix_of(a);
    let b_marked = m.is_prefix_of(b);
    if a_marked {
        assert(a =~= m + a.skip(5));
    }
    if b_marked {
        assert(b =~= m + b.skip(5));
    }
    if a.len() > 5 {
        lemma_escaped_head(a.skip(5));
    }
    if b.len() > 5 {
        lemma_escaped_head(b.skip(5));
    }
    if a_marked && b_marked {
        if a.len() > 5 && b.len() > 5 {
            lemma_escaped_injective(a.skip(5), b.skip(5));
        } else if a.len() == 5 && b.len() == 5 {
            assert(a.skip(5) =~= b.skip(5));
        } else if a.len() == 5 {
            assert(empty_body_key()[1] == '0');
        } else {
            assert(empty_body_key()[1] == '0');
        }
    } else if !a_marked && !b_marked {
        let ka = bare_prefix() + escaped(a);
        let kb = bare_prefix() + escaped(b);
        assert(escaped(a) =~= ka.skip(2));
        assert(escaped(b) =~= kb.skip(2));
        lemma_escaped_injective(a, b);
    } else if a_marked {
        let kb = bare_prefix() + escaped(b);
        assert(kb[0] == '%' && kb[1] == '_');
        assert(empty_body_key()[1] == '0');
    } else {
        let ka = bare_prefix() + escaped(a);
        assert(ka[0] == '%' && ka[1] == '_');
        assert(empty_body_key()[1] == '0');
    }
}

/// A cache key names a single file under the cache root: it is not empty,
/// holds no path separator, and is neither `.` nor `..`.
pub proof fn lemma_cache_key_is_a_file_name(did: Seq<char>)
    ensures
        cache_key_of(did).len() > 0,
        !cache_key_of(did).contains('/'),
        cache_key_of(did)[0] != '.',
{
    let key = cache_key_of(did);
    if scheme_marker().is_prefix_of(did) {
        if did.len() > 5 {
            lemma_escaped_head(did.skip(5));
            lemma_escaped_has_no_separator(did.skip(5));
        } else {
            assert forall|i: int| 0 <= i < key.len() implies key[i] != '/' by {}
        }
    } else {
        lemma_escaped_has_no_separator(did);
        let tail = escaped(did);
        assert forall|i: int| 0 <= i < key.len() implies key[i] != '/' by {
            if i >= 2 {
                assert(key[i] == tail[i - 2]);
                assert(tail.contains(tail[i - 2]));
            }
        }
    }
}

/// The identifier `s3://models/m1` has the cache key `models-m1`: a path of
/// plain characters is written as it is, with `-` for each separator.
pub proof fn lemma_cache_key_of_a_plain_path()
    ensures
        cache_key_of(seq!['s', '3', ':', '/', '/', 'm', 'o', 'd', 'e', 'l', 's', '/', 'm', '1'])
            == seq!['m', 'o', 'd', 'e', 'l', 's', '-', 'm', '1'],
{
    let did = seq!['s', '3', ':', '/', '/', 'm', 'o', 'd', 'e', 'l', 's', '/', 'm', '1'];
    let body = seq!['m', 'o', 'd', 'e', 'l', 's', '/', 'm', '1'];
    assert(did.subrange(0, 5) =~= scheme_marker());
    assert(did.skip(5) =~= body);
    reveal_with_fuel(escaped, 10);
    assert(body.skip(1) =~= seq!['o', 'd', 'e', 'l', 's', '/', 'm', '1']);
    assert(body.skip(1).skip(1) =~= seq!['d', 'e', 'l', 's', '/', 'm', '1']);
    assert(body.skip(1).skip(1).skip(1) =~= seq!['e', 'l', 's', '/', 'm', '1']);
    assert(body.skip(1).skip(1).skip(1).skip(1) =~= seq!['l', 's', '/', 'm', '1']);
    assert(body.skip(1).skip(1).skip(1).skip(1).skip(1) =~= seq!['s', '/', 'm', '1']);
    assert(body.skip(1).skip(1).skip(1).skip(1).skip(1).skip(1) =~= seq!['/', 'm', '1']);
    assert(body.skip(1).skip(1).skip(1).skip(1).skip(1).skip(1).skip(1) =~= seq!['m', '1']);
    assert(body.skip(1).skip(1).skip(1).skip(1).skip(1).skip(1).skip(1).skip(1) =~= seq!['1']);
    assert(body.skip(1).skip(1).skip(1).skip(1).skip(1).skip(1).skip(1).skip(1).skip(1)
        =~= Seq::<char>::empty());
    assert(escaped(body) =~= seq!['m', 'o', 'd', 'e', 'l', 's', '-', 'm', '1']);
}

/// Fetch jobs of different cache keys have different names.
pub proof fn lemma_job_name_injective(a: Seq<char>, b: Seq<char>)
    requires
        job_name_of(a) == job_name_of(b),
    ensures
        a == b,
{
    assert(job_name_of(a).skip(8) =~= a);
    assert(job_name_of(b).skip(8) =~= b);
}

} // verus!
