//! Session cookies from the browser's store: what to ask the store, and how
//! its answer is presented to the code-review service.

use crate::text::{join, joined, texts};
use vstd::prelude::*;
use vstd::string::*;

verus! {

/// The question that selects the cookies of the host `hostname` and of its
/// subdomains from the browser's store.
pub open spec fn cookies_question(hostname: Seq<char>) -> Seq<char> {
    "SELECT name, value FROM moz_cookies WHERE host = '"@ + hostname + "' OR host = '."@ + hostname
        + "'"@
}

/// One cookie as a request presents it.
pub open spec fn cookie_text(cookie: (Seq<char>, Seq<char>)) -> Seq<char> {
    cookie.0 + "="@ + cookie.1 + ";"@
}

/// The cookies as a request presents them: one after the other, with a
/// blank between each two.
pub open spec fn cookies_text(cookies: Seq<(Seq<char>, Seq<char>)>) -> Seq<char> {
    joined(cookies.map_values(|c: (Seq<char>, Seq<char>)| cookie_text(c)), " "@)
}

/// The question to put to the browser's store for the cookies of `hostname`.
pub fn cookies_query(hostname: &str) -> (query: String)
    ensures
        query@ == cookies_question(hostname@),
{
    let mut query = String::from_str("SELECT name, value FROM moz_cookies WHERE host = '");
    query.append(hostname);
    query.append("' OR host = '.");
    query.append(hostname);
    query.append("'");
    query
}

/// The value of the header that carries the cookies `rows`, each a name and
/// a value.
pub fn cookie_header(rows: &Vec<(String, String)>) -> (value: String)
    ensures
        value@ == cookies_text(rows@.map_values(|c: (String, String)| (c.0@, c.1@))),
{
    let ghost cookies = rows@.map_values(|c: (String, String)| (c.0@, c.1@));
    let ghost wanted = cookies.map_values(|c: (Seq<char>, Seq<char>)| cookie_text(c));
    let mut parts: Vec<String> = Vec::new();
    let mut i: usize = 0;
    while i < rows.len()
        invariant
            i <= rows.len(),
            cookies == rows@.map_values(|c: (String, String)| (c.0@, c.1@)),
            wanted == cookies.map_values(|c: (Seq<char>, Seq<char>)| cookie_text(c)),
            texts(parts@) == wanted.take(i as int),
        decreases rows.len() - i,
    {
        let mut part = rows[i].0.clone();
        part.append("=");
        part.append(rows[i].1.as_str());
        part.append(";");
        parts.push(part);
        assert(wanted.take(i + 1) =~= wanted.take(i as int).push(wanted[i as int]));
        i = i + 1;
    }
    assert(wanted.take(i as int) =~= wanted);
    join(&parts, " ")
}

} // verus!
