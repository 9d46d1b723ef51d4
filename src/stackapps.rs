use vstd::prelude::*;

use crate::html::{fragment_edges, rendered, strip_tags};

verus! {

/// The search endpoint that every source is queried through.
pub const SEARCH_URL: &'static str = "https://api.stackexchange.com/2.3/search/excerpts";

/// One search result: markup title and body, the question's id, and when it
/// was created, in seconds since the Unix epoch (UTC).
#[derive(Debug)]
pub struct SearchExcerpt {
    pub title: String,
    pub excerpt: String,
    pub question_id: u64,
    pub creation_date: i64,
}

/// A decoded search answer: its items, and how many seconds the server asks
/// the caller to wait before the items count as returned.
#[derive(Debug)]
pub struct Response<T> {
    pub items: Vec<T>,
    pub backoff: u64,
}

pub open spec fn digit_char(d: nat) -> char {
    if d == 0 {
        '0'
    } else if d == 1 {
        '1'
    } else if d == 2 {
        '2'
    } else if d == 3 {
        '3'
    } else if d == 4 {
        '4'
    } else if d == 5 {
        '5'
    } else if d == 6 {
        '6'
    } else if d == 7 {
        '7'
    } else if d == 8 {
        '8'
    } else {
        '9'
    }
}

/// The decimal digits of `n`, most significant first, without leading zeros.
pub open spec fn decimal(n: nat) -> Seq<char>
    decreases n,
{
    if n < 10 {
        seq![digit_char(n)]
    } else {
        decimal(n / 10).push(digit_char(n % 10))
    }
}

/// The page of a question on a site.
pub open spec fn question_url_of(site: Seq<char>, id: nat) -> Seq<char> {
    "https://"@ + site + "/questions/"@ + decimal(id)
}

fn digit_str(d: u64) -> (r: &'static str)
    requires
        d < 10,
    ensures
        r@ == seq![digit_char(d as nat)],
{
    if d == 0 {
        proof { reveal_strlit("0"); }
        "0"
    } else if d == 1 {
        proof { reveal_strlit("1"); }
        "1"
    } else if d == 2 {
        proof { reveal_strlit("2"); }
        "2"
    } else if d == 3 {
        proof { reveal_strlit("3"); }
        "3"
    } else if d == 4 {
        proof { reveal_strlit("4"); }
        "4"
    } else if d == 5 {
        proof { reveal_strlit("5"); }
        "5"
    } else if d == 6 {
        proof { reveal_strlit("6"); }
        "6"
    } else if d == 7 {
        proof { reveal_strlit("7"); }
        "7"
    } else if d == 8 {
        proof { reveal_strlit("8"); }
        "8"
    } else {
        proof { reveal_strlit("9"); }
        "9"
    }
}

/// Appends the decimal digits of `n`.
pub fn push_decimal(buf: &mut String, n: u64)
    ensures
        final(buf)@ == old(buf)@ + decimal(n as nat),
    decreases n,
{
    if n >= 10 {
        push_decimal(buf, n / 10);
    }
    buf.append(digit_str(n % 10));
    assert(final(buf)@ =~= old(buf)@ + decimal(n as nat));
}

impl SearchExcerpt {
    pub fn question_url(&self, site: &str) -> (r: String)
        ensures
            r@ == question_url_of(site@, self.question_id as nat),
    {
        let mut url = String::from_str("https://");
        url.append(site);
        url.append("/questions/");
        push_decimal(&mut url, self.question_id);
        url
    }

    pub fn sanitized_title(&self) -> (r: String)
        ensures
            r@ == rendered(fragment_edges(self.title@)),
    {
        strip_tags(self.title.as_str())
    }

    pub fn sanitized_excerpt(&self) -> (r: String)
        ensures
            r@ == rendered(fragment_edges(self.excerpt@)),
    {
        strip_tags(self.excerpt.as_str())
    }
}

impl<T> Response<T> {
    /// Splits the answer into the wait that it asks for (none when the
    /// backoff is zero) and its items, unchanged. The caller waits that long
    /// before it treats the items as returned.
    pub fn delayed(self) -> (r: (Option<u64>, Vec<T>))
        ensures
            r.0 == (if self.backoff > 0 { Some(self.backoff) } else { None::<u64> }),
            r.1@ == self.items@,
    {
        let wait = if self.backoff > 0 { Some(self.backoff) } else { None };
        (wait, self.items)
    }
}

pub open spec fn param_is(p: (String, String), name: Seq<char>, value: Seq<char>) -> bool {
    p.0@ == name && p.1@ == value
}

/// The query parameters of a search of `site` for `query`: most relevant
/// first, a hundred to a page, with the caller's key.
pub fn search_params(site: &str, query: &str, key: &str) -> (r: Vec<(String, String)>)
    ensures
        r@.len() == 6,
        param_is(r@[0], "order"@, "desc"@),
        param_is(r@[1], "sort"@, "relevance"@),
        param_is(r@[2], "pagesize"@, "100"@),
        param_is(r@[3], "site"@, site@),
        param_is(r@[4], "q"@, query@),
        param_is(r@[5], "key"@, key@),
{
    let mut r: Vec<(String, String)> = Vec::new();
    r.push((String::from_str("order"), String::from_str("desc")));
    r.push((String::from_str("sort"), String::from_str("relevance")));
    r.push((String::from_str("pagesize"), String::from_str("100")));
    r.push((String::from_str("site"), String::from_str(site)));
    r.push((String::from_str("q"), String::from_str(query)));
    r.push((String::from_str("key"), String::from_str(key)));
    r
}

} // verus!
