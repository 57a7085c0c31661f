//! Strict parser for the `scheme://container/key` object addresses the
//! transfer manager accepts.
//!
//! An address is valid when it starts with the literal prefix `s3://` (the
//! leading letter may also be upper case), the remainder holds at least one
//! `/`, and the part after the first such `/` — the key — is non-empty.
//! The container is everything between the prefix and that first `/`.  No
//! further validation is performed: no character-set checks, no
//! normalization, no percent-decoding.

use vstd::prelude::*;

verus! {

/// Reason an address string was rejected, as human-readable text.
#[derive(Debug, PartialEq, Eq)]
pub struct InvalidS3Uri {
    pub message: &'static str,
}

impl InvalidS3Uri {
    pub fn from_static(message: &'static str) -> (r: InvalidS3Uri)
        ensures
            r.message@ == message@,
    {
        InvalidS3Uri { message }
    }
}

/// A parsed object address: the storage container and the object key.
#[derive(Debug, PartialEq, Eq)]
pub struct S3Uri {
    pub bucket: String,
    pub key: String,
}

/// The address starts with `s3://` or `S3://`: only the case of the
/// leading letter is free.
pub open spec fn scheme_ok(s: Seq<char>) -> bool {
    &&& s.len() >= 5
    &&& (s[0] == 's' || s[0] == 'S')
    &&& s[1] == '3'
    &&& s[2] == ':'
    &&& s[3] == '/'
    &&& s[4] == '/'
}

/// Index of the first `/` at or after position `from`, or `s.len()` when
/// there is none.
pub open spec fn first_slash_from(s: Seq<char>, from: int) -> int
    decreases s.len() - from,
{
    if from < 0 || from >= s.len() {
        s.len() as int
    } else if s[from] == '/' {
        from
    } else {
        first_slash_from(s, from + 1)
    }
}

/// The address parses: scheme present, a `/` after it, and a non-empty key.
pub open spec fn parse_ok(s: Seq<char>) -> bool {
    scheme_ok(s) && first_slash_from(s, 5) + 1 < s.len()
}

/// The container part of a valid address: everything between the scheme
/// prefix and the first `/` after it.
pub open spec fn addr_bucket(s: Seq<char>) -> Seq<char> {
    s.subrange(5, first_slash_from(s, 5))
}

/// The key part of a valid address: everything after the first `/` past
/// the scheme prefix; it may itself contain `/`.
pub open spec fn addr_key(s: Seq<char>) -> Seq<char> {
    s.subrange(first_slash_from(s, 5) + 1, s.len() as int)
}

/// The exact diagnostic `parse` reports for an invalid address.
pub open spec fn parse_fail_message(s: Seq<char>) -> Seq<char> {
    if !scheme_ok(s) {
        "S3 Uri must start with s3:// or S3://"@
    } else if first_slash_from(s, 5) == s.len() {
        "Incomplete S3 Uri"@
    } else {
        "Missing key from S3 Uri"@
    }
}

/// Skipping a slash-free prefix does not move the first slash.
proof fn lemma_first_slash_skip(s: Seq<char>, from: int, i: int)
    requires
        0 <= from <= i <= s.len(),
        forall|j: int| from <= j < i ==> s[j] != '/',
    ensures
        first_slash_from(s, from) == first_slash_from(s, i),
    decreases i - from,
{
    if from < i {
        lemma_first_slash_skip(s, from + 1, i);
    }
}

impl S3Uri {
    /// Splits a textual address into container and key.
    ///
    /// Succeeds exactly on the valid addresses (`parse_ok`), yielding the
    /// container before the first `/` after the scheme and the key after
    /// it; otherwise reports the scheme, the missing `/`, or the empty key,
    /// in that order of precedence.
    pub fn parse(uri: &str) -> (r: Result<S3Uri, InvalidS3Uri>)
        ensures
            match r {
                Ok(a) => {
                    &&& parse_ok(uri@)
                    &&& a.bucket@ == addr_bucket(uri@)
                    &&& a.key@ == addr_key(uri@)
                },
                Err(e) => {
                    &&& !parse_ok(uri@)
                    &&& e.message@ == parse_fail_message(uri@)
                },
            },
    {
        let n = uri.unicode_len();
        if n < 5 {
            return Err(InvalidS3Uri::from_static("S3 Uri must start with s3:// or S3://"));
        }
        let c0 = uri.get_char(0);
        let c1 = uri.get_char(1);
        let c2 = uri.get_char(2);
        let c3 = uri.get_char(3);
        let c4 = uri.get_char(4);
        if !((c0 == 's' || c0 == 'S') && c1 == '3' && c2 == ':' && c3 == '/' && c4 == '/') {
            return Err(InvalidS3Uri::from_static("S3 Uri must start with s3:// or S3://"));
        }
        let mut i: usize = 5;
        while i < n && uri.get_char(i) != '/'
            invariant
                5 <= i <= n,
                n == uri@.len(),
                forall|j: int| 5 <= j < i ==> uri@[j] != '/',
            decreases n - i,
        {
            i = i + 1;
        }
        proof {
            lemma_first_slash_skip(uri@, 5, i as int);
        }
        if i == n {
            return Err(InvalidS3Uri::from_static("Incomplete S3 Uri"));
        }
        if i + 1 == n {
            return Err(InvalidS3Uri::from_static("Missing key from S3 Uri"));
        }
        let bucket = uri.substring_char(5, i);
        let key = uri.substring_char(i + 1, n);
        Ok(S3Uri { bucket: bucket.to_owned(), key: key.to_owned() })
    }
}

/// Law: an address written as scheme, slash-free container, `/`, and a
/// non-empty key parses back into exactly that container and that key.
pub proof fn lemma_parse_recovers_parts(s: Seq<char>, c: Seq<char>, k: Seq<char>)
    requires
        scheme_ok(s),
        s.subrange(5, s.len() as int) == c + seq!['/'] + k,
        forall|j: int| 0 <= j < c.len() ==> c[j] != '/',
        k.len() > 0,
    ensures
        parse_ok(s),
        addr_bucket(s) == c,
        addr_key(s) == k,
{
    let rest = s.subrange(5, s.len() as int);
    assert(rest.len() == c.len() + 1 + k.len());
    assert forall|j: int| 5 <= j < 5 + c.len() implies s[j] != '/' by {
        assert(rest[j - 5] == c[j - 5]);
    }
    assert(s[5 + c.len() as int] == rest[c.len() as int]);
    assert(rest[c.len() as int] == '/');
    lemma_first_slash_skip(s, 5, 5 + c.len() as int);
    assert(first_slash_from(s, 5) == 5 + c.len() as int);
    assert(addr_bucket(s) =~= c);
    assert forall|t: int| 0 <= t < k.len() implies addr_key(s)[t] == k[t] by {
        let p = 5 + c.len() as int + 1 + t;
        assert(addr_key(s)[t] == s[p]);
        assert(s[p] == rest[p - 5]);
        assert(rest[c.len() as int + 1 + t] == k[t]);
    }
    assert(addr_key(s) =~= k);
}

} // verus!
