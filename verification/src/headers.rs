//! Request headers as the library sees them, and the lookups made on them.
use vstd::prelude::*;

use crate::text::{
    before_first, before_first_spec, eq_ignore_ascii_case, eq_ignore_ascii_case_spec,
    lemma_strip_own_prefix, strip_prefix,
    strip_prefix_spec, trim, trim_spec,
};

verus! {

/// One request header: its name, and its value where that value is visible ASCII text.
pub struct HeaderEntry {
    pub name: String,
    pub value: Option<String>,
}

/// The headers of a request, in the order the server received them.
pub struct RequestHeaders {
    pub entries: Vec<HeaderEntry>,
}

/// The text of an optional string.
pub open spec fn opt_view(o: Option<String>) -> Option<Seq<char>> {
    match o {
        Some(s) => Some(s@),
        None => None,
    }
}

/// The first header named `name` (names compared ignoring ASCII case): its
/// value where it is text, `Some(None)` where it is not text, `None` where no
/// header has that name.
pub open spec fn header_lookup(entries: Seq<HeaderEntry>, name: Seq<char>) -> Option<Option<Seq<char>>>
    decreases entries.len(),
{
    if entries.len() == 0 {
        None
    } else if eq_ignore_ascii_case_spec(entries[0].name@, name) {
        Some(opt_view(entries[0].value))
    } else {
        header_lookup(entries.drop_first(), name)
    }
}

/// The text of the first header named `name`, or empty text.
pub open spec fn header_text(entries: Seq<HeaderEntry>, name: Seq<char>) -> Seq<char> {
    match header_lookup(entries, name) {
        Some(Some(v)) => v,
        _ => Seq::empty(),
    }
}

impl RequestHeaders {
    /// No headers.
    pub fn new() -> (r: Self)
        ensures
            r.entries@ == Seq::<HeaderEntry>::empty(),
    {
        RequestHeaders { entries: Vec::new() }
    }

    /// Adds a header after those already present.
    pub fn append(&mut self, name: String, value: Option<String>)
        ensures
            final(self).entries@ == old(self).entries@.push(HeaderEntry { name, value }),
    {
        self.entries.push(HeaderEntry { name, value });
    }

    /// The position of the first header named `name`.
    fn find(&self, name: &str) -> (r: Option<usize>)
        ensures
            r is None ==> header_lookup(self.entries@, name@) is None,
            r matches Some(i) ==> i < self.entries@.len() && header_lookup(self.entries@, name@)
                == Some(opt_view(self.entries@[i as int].value)),
    {
        let n: usize = self.entries.len();
        let mut i: usize = 0;
        assert(self.entries@.skip(0) =~= self.entries@);
        while i < n
            invariant
                n == self.entries@.len(),
                i <= n,
                header_lookup(self.entries@, name@) == header_lookup(
                    self.entries@.skip(i as int),
                    name@,
                ),
            decreases n - i,
        {
            if eq_ignore_ascii_case(self.entries[i].name.as_str(), name) {
                return Some(i);
            }
            assert(self.entries@.skip(i as int).drop_first() =~= self.entries@.skip(i + 1));
            i += 1;
        }
        None
    }

    /// Whether a header named `name` is present.
    pub fn contains_key(&self, name: &str) -> (r: bool)
        ensures
            r == header_lookup(self.entries@, name@) is Some,
    {
        self.find(name).is_some()
    }

    /// The value of the first header named `name`, where it is text.
    pub fn get(&self, name: &str) -> (r: Option<&str>)
        ensures
            r matches Some(v) ==> header_lookup(self.entries@, name@) == Some(Some(v@)),
            r is None ==> !(header_lookup(self.entries@, name@) matches Some(Some(_))),
    {
        match self.find(name) {
            Some(i) => match &self.entries[i].value {
                Some(v) => Some(v.as_str()),
                None => None,
            },
            None => None,
        }
    }
}

/// The text of the first header named `name`, or `""`.
pub fn header_value<'a>(headers: &'a RequestHeaders, name: &str) -> (r: &'a str)
    ensures
        r@ == header_text(headers.entries@, name@),
{
    match headers.get(name) {
        Some(v) => v,
        None => {
            proof {
                reveal_strlit("");
            }
            ""
        },
    }
}

/// The bearer token of an `Authorization: Bearer <token>` header.
pub open spec fn bearer_token(entries: Seq<HeaderEntry>) -> Option<Seq<char>> {
    match header_lookup(entries, "Authorization"@) {
        Some(Some(v)) => strip_prefix_spec(v, "Bearer "@),
        _ => None,
    }
}

/// Takes the token out of an `Authorization: Bearer <token>` header.
pub fn extract_token(headers: &RequestHeaders) -> (r: Option<&str>)
    ensures
        r matches Some(t) ==> bearer_token(headers.entries@) == Some(t@),
        r is None ==> bearer_token(headers.entries@) is None,
{
    match headers.get("Authorization") {
        Some(v) => strip_prefix(v, "Bearer "),
        None => None,
    }
}

/// The first address of an `X-Forwarded-For` header: the text before its
/// first comma, trimmed.
pub open spec fn forwarded_for_spec(entries: Seq<HeaderEntry>) -> Option<Seq<char>> {
    match header_lookup(entries, "X-Forwarded-For"@) {
        Some(Some(v)) => Some(trim_spec(before_first_spec(v, ','))),
        _ => None,
    }
}

/// The first address of the `X-Forwarded-For` header, where there is one.
pub fn forwarded_for(headers: &RequestHeaders) -> (r: Option<&str>)
    ensures
        r matches Some(t) ==> forwarded_for_spec(headers.entries@) == Some(t@),
        r is None ==> forwarded_for_spec(headers.entries@) is None,
{
    match headers.get("X-Forwarded-For") {
        Some(v) => Some(trim(before_first(v, ','))),
        None => None,
    }
}


/// A header lookup finds the first header whose name matches, ignoring
/// ASCII case: a header added after one of that name is never found, and
/// one added where there was none is found, with its value.
pub proof fn lemma_lookup_first_match(entries: Seq<HeaderEntry>, h: HeaderEntry, name: Seq<char>)
    ensures
        header_lookup(entries, name) is Some ==> header_lookup(entries.push(h), name)
            == header_lookup(entries, name),
        (header_lookup(entries, name) is None && eq_ignore_ascii_case_spec(h.name@, name))
            ==> header_lookup(entries.push(h), name) == Some(opt_view(h.value)),
        (header_lookup(entries, name) is None && !eq_ignore_ascii_case_spec(h.name@, name))
            ==> header_lookup(entries.push(h), name) is None,
    decreases entries.len(),
{
    if entries.len() > 0 {
        assert(entries.push(h).drop_first() =~= entries.drop_first().push(h));
        lemma_lookup_first_match(entries.drop_first(), h, name);
    } else {
        assert(entries.push(h).drop_first() =~= Seq::<HeaderEntry>::empty());
        assert(entries.push(h)[0] == h);
        assert(header_lookup(Seq::<HeaderEntry>::empty(), name) is None);
    }
}

/// The token of `Authorization: Bearer <t>` is `t`; where the header's value
/// is too short to start with `Bearer `, there is no token.
pub proof fn lemma_bearer(entries: Seq<HeaderEntry>, t: Seq<char>)
    ensures
        header_lookup(entries, "Authorization"@) == Some(Some("Bearer "@ + t)) ==> bearer_token(
            entries,
        ) == Some(t),
        header_lookup(entries, "Authorization"@) is None ==> bearer_token(entries) is None,
{
    lemma_strip_own_prefix("Bearer "@, t);
}

} // verus!
