//! Formatting of request URIs.

use crate::error::ForecastError;
use crate::options::QueryOptions;
use vstd::prelude::*;

verus! {

/// The origin that every request goes to.
pub const API_URL: &'static str = "https://api.darksky.net";

/// `<base>/forecast/<token>/<lat>,<long>`, the path shared by both URI forms.
pub open spec fn forecast_path(token: Seq<char>, lat: Seq<char>, long: Seq<char>) -> Seq<char> {
    API_URL@ + "/forecast/"@ + token + "/"@ + lat + ","@ + long
}

/// The URI of a forecast request without options.
pub open spec fn simple_uri(token: Seq<char>, lat: Seq<char>, long: Seq<char>) -> Seq<char> {
    forecast_path(token, lat, long) + "?units=auto"@
}

/// Formats a URI for retrieving a forecast without options.
///
/// `lat` and `long` are the decimal text of the coordinates, written into the
/// URI as they are.
pub fn uri(token: &str, lat: &str, long: &str) -> (r: String)
    ensures
        r@ == simple_uri(token@, lat@, long@),
{
    let mut r = String::from_str(API_URL);
    r.append("/forecast/");
    r.append(token);
    r.append("/");
    r.append(lat);
    r.append(",");
    r.append(long);
    r.append("?units=auto");
    r
}

/// One option as the query string carries it: `key=value&`.
pub open spec fn option_pair(entry: (Seq<char>, Seq<char>)) -> Seq<char> {
    entry.0 + "="@ + entry.1 + "&"@
}

/// The options one after another, each followed by `&`.
pub open spec fn query_of(entries: Seq<(Seq<char>, Seq<char>)>) -> Seq<char>
    decreases entries.len(),
{
    if entries.len() == 0 {
        Seq::empty()
    } else {
        query_of(entries.drop_last()) + option_pair(entries.last())
    }
}

/// `,<time>` where a time is given.
pub open spec fn time_part(time: Option<Seq<char>>) -> Seq<char> {
    match time {
        Some(t) => ","@ + t,
        None => Seq::empty(),
    }
}

/// The URI of a forecast request with options. The `?` stands there even
/// without options, and the last option keeps its `&`.
pub open spec fn optioned_uri(
    token: Seq<char>,
    lat: Seq<char>,
    long: Seq<char>,
    time: Option<Seq<char>>,
    entries: Seq<(Seq<char>, Seq<char>)>,
) -> Seq<char> {
    forecast_path(token, lat, long) + time_part(time) + "?"@ + query_of(entries)
}

/// The text of an optional string.
pub open spec fn text_of(s: Option<String>) -> Option<Seq<char>> {
    match s {
        Some(s) => Some(s@),
        None => None,
    }
}

/// Formats a URI for retrieving a forecast with options.
///
/// `lat` and `long` are the decimal text of the coordinates and `time` the
/// caller's text of the requested time, all written into the URI as they are.
/// The options follow in their order in `options`. Building the URI only
/// appends text, which cannot fail, so the result is always `Ok`.
pub fn uri_optioned(
    token: &str,
    lat: &str,
    long: &str,
    time: Option<String>,
    options: QueryOptions,
) -> (r: Result<String, ForecastError>)
    ensures
        r matches Ok(u) && u@ == optioned_uri(
            token@,
            lat@,
            long@,
            text_of(time),
            options@,
        ),
{
    let ghost t = text_of(time);
    let mut u = String::from_str(API_URL);
    u.append("/forecast/");
    u.append(token);
    u.append("/");
    u.append(lat);
    u.append(",");
    u.append(long);
    if let Some(tm) = time {
        u.append(",");
        u.append(tm.as_str());
    }
    u.append("?");
    let ghost head = u@;
    assert(head == forecast_path(token@, lat@, long@) + time_part(t) + "?"@);
    let n = options.len();
    let mut i: usize = 0;
    while i < n
        invariant
            n == options@.len(),
            i <= n,
            u@ == head + query_of(options@.take(i as int)),
        decreases n - i,
    {
        let (k, v) = options.entry(i);
        u.append(k);
        u.append("=");
        u.append(v);
        u.append("&");
        assert(options@.take(i as int + 1).drop_last() =~= options@.take(i as int));
        i = i + 1;
    }
    assert(options@.take(n as int) =~= options@);
    Ok(u)
}

/// Whether `part` occurs in `s` at position `p`.
pub open spec fn occurs_at(s: Seq<char>, part: Seq<char>, p: int) -> bool {
    0 <= p && p + part.len() <= s.len() && s.subrange(p, p + part.len()) == part
}

/// Whether `part` occurs somewhere in `s`.
pub open spec fn contains(s: Seq<char>, part: Seq<char>) -> bool {
    exists|p: int| occurs_at(s, part, p)
}

/// The query string holds the pair of each option, wherever it stands.
proof fn lemma_query_holds_pair(entries: Seq<(Seq<char>, Seq<char>)>, i: int) -> (p: int)
    requires
        0 <= i < entries.len(),
    ensures
        occurs_at(query_of(entries), option_pair(entries[i]), p),
    decreases entries.len(),
{
    let front = query_of(entries.drop_last());
    let last = option_pair(entries.last());
    assert(query_of(entries) == front + last);
    if i == entries.len() - 1 {
        assert((front + last).subrange(front.len() as int, (front + last).len() as int) =~= last);
        front.len() as int
    } else {
        let p = lemma_query_holds_pair(entries.drop_last(), i);
        let pair = option_pair(entries[i]);
        assert(entries.drop_last()[i] == entries[i]);
        assert((front + last).subrange(p, p + pair.len()) =~= front.subrange(p, p + pair.len()));
        p
    }
}

/// Every option's `key=value&` occurs in the URI built with it, whatever the
/// order and number of the options.
pub proof fn lemma_every_option_in_uri(
    token: Seq<char>,
    lat: Seq<char>,
    long: Seq<char>,
    time: Option<Seq<char>>,
    entries: Seq<(Seq<char>, Seq<char>)>,
)
    ensures
        forall|i: int|
            0 <= i < entries.len() ==> contains(
                optioned_uri(token, lat, long, time, entries),
                #[trigger] option_pair(entries[i]),
            ),
{
    let head = forecast_path(token, lat, long) + time_part(time) + "?"@;
    let q = query_of(entries);
    assert forall|i: int| 0 <= i < entries.len() implies contains(
        optioned_uri(token, lat, long, time, entries),
        #[trigger] option_pair(entries[i]),
    ) by {
        let p = lemma_query_holds_pair(entries, i);
        let pair = option_pair(entries[i]);
        assert((head + q).subrange(head.len() + p, head.len() + p + pair.len()) =~= q.subrange(
            p,
            p + pair.len(),
        ));
        assert(optioned_uri(token, lat, long, time, entries) == head + q);
        assert(occurs_at(optioned_uri(token, lat, long, time, entries), pair, head.len() + p));
    }
}

} // verus!
