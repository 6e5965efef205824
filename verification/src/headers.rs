use vstd::prelude::*;

use crate::text::{header_text, header_value_text, join_with, joined};

verus! {

/// Header names and values as plain character sequences.
pub open spec fn headers_view(headers: Seq<(&'static str, String)>) -> Seq<(Seq<char>, Seq<char>)> {
    headers.map_values(|h: (&'static str, String)| (h.0@, h.1@))
}

/// The headers that the Nar stock service expects, with `ua` as User-Agent.
pub open spec fn nar_header_table(ua: Seq<char>) -> Seq<(Seq<char>, Seq<char>)> {
    seq![
        ("Accept"@, "application/json, text/plain, */*"@),
        ("Accept-Encoding"@, "gzip, deflate, br, zstd"@),
        ("Accept-Language"@, "tr-TR,tr;q=0.9,en-US;q=0.8,en;q=0.7"@),
        ("Priority"@, "u=1, i"@),
        ("Provider-Id"@, "1"@),
        ("Referer"@, "https://esim.nar.az"@),
        ("Referrer"@, "1"@),
        ("Sec-CH-UA"@, "\"Not)A;Brand\";v=\"8\", \"Chromium\";v=\"138\", \"Google Chrome\";v=\"138\""@),
        ("Sec-CH-UA-Mobile"@, "?0"@),
        ("Sec-CH-UA-Platform"@, "\"Linux\""@),
        ("Sec-Fetch-Dest"@, "empty"@),
        ("Sec-Fetch-Mode"@, "cors"@),
        ("Sec-Fetch-Site"@, "same-origin"@),
        ("User-Agent"@, ua),
        ("X-API-Key"@, "f14b1e9f-ddaa-4537-ad81-6bc910927caa"@),
        ("X-API-Version"@, "1.0.0"@),
        ("X-App-Id"@, "b6920d9083c8e76685bcc8db34b8c9bb"@),
        ("X-Session-Id"@, "607538e2-a52c-42b3-b926-2d9293298b95"@),
    ]
}

/// Request headers for the Nar stock service.
pub fn nar_headers(ua: &str) -> (headers: Vec<(&'static str, String)>)
    ensures
        headers_view(headers@) == nar_header_table(ua@),
{
    let headers = vec![
        ("Accept", "application/json, text/plain, */*".to_string()),
        ("Accept-Encoding", "gzip, deflate, br, zstd".to_string()),
        ("Accept-Language", "tr-TR,tr;q=0.9,en-US;q=0.8,en;q=0.7".to_string()),
        ("Priority", "u=1, i".to_string()),
        ("Provider-Id", "1".to_string()),
        ("Referer", "https://esim.nar.az".to_string()),
        ("Referrer", "1".to_string()),
        ("Sec-CH-UA", "\"Not)A;Brand\";v=\"8\", \"Chromium\";v=\"138\", \"Google Chrome\";v=\"138\"".to_string()),
        ("Sec-CH-UA-Mobile", "?0".to_string()),
        ("Sec-CH-UA-Platform", "\"Linux\"".to_string()),
        ("Sec-Fetch-Dest", "empty".to_string()),
        ("Sec-Fetch-Mode", "cors".to_string()),
        ("Sec-Fetch-Site", "same-origin".to_string()),
        ("User-Agent", ua.to_string()),
        ("X-API-Key", "f14b1e9f-ddaa-4537-ad81-6bc910927caa".to_string()),
        ("X-API-Version", "1.0.0".to_string()),
        ("X-App-Id", "b6920d9083c8e76685bcc8db34b8c9bb".to_string()),
        ("X-Session-Id", "607538e2-a52c-42b3-b926-2d9293298b95".to_string()),
    ];
    assert(headers_view(headers@) =~= nar_header_table(ua@));
    headers
}

/// The headers that the Bakcell stock service expects, with `ua` as User-Agent.
pub open spec fn bakcell_header_table(ua: Seq<char>) -> Seq<(Seq<char>, Seq<char>)> {
    seq![
        ("Accept"@, "application/json, text/plain, */*"@),
        ("Accept-Encoding"@, "gzip, deflate, br, zstd"@),
        ("Accept-Language"@, "tr-TR,tr;q=0.9,en-US;q=0.8,en;q=0.7"@),
        ("Origin"@, "https://www.bakcell.com"@),
        ("Provider-Id"@, "2"@),
        ("Referer"@, "https://www.bakcell.com/"@),
        ("Referrer"@, "2"@),
        ("Sec-CH-UA"@, "\"Not)A;Brand\";v=\"8\", \"Chromium\";v=\"138\", \"Google Chrome\";v=\"138\""@),
        ("Sec-CH-UA-Mobile"@, "?0"@),
        ("Sec-CH-UA-Platform"@, "\"Linux\""@),
        ("Sec-Fetch-Dest"@, "empty"@),
        ("Sec-Fetch-Mode"@, "cors"@),
        ("Sec-Fetch-Site"@, "same-site"@),
        ("User-Agent"@, ua),
        ("X-API-Version"@, "1.0.0"@),
        ("X-App-Id"@, "b6920d9083c8e76685bcc8db34b8c9bb"@),
    ]
}

/// Request headers for the Bakcell stock service.
pub fn bakcell_headers(ua: &str) -> (headers: Vec<(&'static str, String)>)
    ensures
        headers_view(headers@) == bakcell_header_table(ua@),
{
    let headers = vec![
        ("Accept", "application/json, text/plain, */*".to_string()),
        ("Accept-Encoding", "gzip, deflate, br, zstd".to_string()),
        ("Accept-Language", "tr-TR,tr;q=0.9,en-US;q=0.8,en;q=0.7".to_string()),
        ("Origin", "https://www.bakcell.com".to_string()),
        ("Provider-Id", "2".to_string()),
        ("Referer", "https://www.bakcell.com/".to_string()),
        ("Referrer", "2".to_string()),
        ("Sec-CH-UA", "\"Not)A;Brand\";v=\"8\", \"Chromium\";v=\"138\", \"Google Chrome\";v=\"138\"".to_string()),
        ("Sec-CH-UA-Mobile", "?0".to_string()),
        ("Sec-CH-UA-Platform", "\"Linux\"".to_string()),
        ("Sec-Fetch-Dest", "empty".to_string()),
        ("Sec-Fetch-Mode", "cors".to_string()),
        ("Sec-Fetch-Site", "same-site".to_string()),
        ("User-Agent", ua.to_string()),
        ("X-API-Version", "1.0.0".to_string()),
        ("X-App-Id", "b6920d9083c8e76685bcc8db34b8c9bb".to_string()),
    ];
    assert(headers_view(headers@) =~= bakcell_header_table(ua@));
    headers
}

/// The headers after adding the cookies a site handed out: a `Cookie` header
/// goes last, and only when there are any cookies.
pub open spec fn with_cookie_view(headers: Seq<(Seq<char>, Seq<char>)>, cookies: Seq<char>) -> Seq<
    (Seq<char>, Seq<char>),
> {
    if cookies.len() == 0 {
        headers
    } else {
        headers.push(("Cookie"@, cookies))
    }
}

/// Adds the `Cookie` header when `cookies` is not empty.
pub fn add_cookie(headers: &mut Vec<(&'static str, String)>, cookies: String)
    ensures
        headers_view(final(headers)@) == with_cookie_view(headers_view(old(headers)@), cookies@),
{
    if !cookies.as_str().is_empty() {
        let ghost before = headers@;
        let ghost cookie_view = cookies@;
        headers.push(("Cookie", cookies));
        assert(headers_view(headers@) =~= headers_view(before).push(("Cookie"@, cookie_view)));
    }
}

/// The `Cookie` value made of the `Set-Cookie` values a site answered with:
/// each read as text, joined by "; ".
pub open spec fn cookie_line(set_cookies: Seq<Seq<u8>>) -> Seq<char> {
    joined(set_cookies.map_values(|v: Seq<u8>| header_text(v)), "; "@)
}

/// Builds the `Cookie` value from the raw `Set-Cookie` header values.
pub fn cookie_header(set_cookies: &Vec<Vec<u8>>) -> (line: String)
    ensures
        line@ == cookie_line(set_cookies@.map_values(|v: Vec<u8>| v@)),
{
    let mut texts: Vec<String> = Vec::new();
    let mut i: usize = 0;
    while i < set_cookies.len()
        invariant
            i <= set_cookies.len(),
            texts.len() == i,
            forall|j: int| 0 <= j < i ==> #[trigger] texts@[j]@ == header_text(set_cookies@[j]@),
        decreases set_cookies.len() - i,
    {
        texts.push(header_value_text(&set_cookies[i]));
        i = i + 1;
    }
    let line = join_with(&texts, "; ");
    assert(texts@.map_values(|p: String| p@) =~= set_cookies@.map_values(|v: Vec<u8>| v@).map_values(
        |v: Seq<u8>| header_text(v),
    ));
    line
}

/// A copy of a header list.
pub fn copy_headers(headers: &Vec<(&'static str, String)>) -> (copy: Vec<(&'static str, String)>)
    ensures
        headers_view(copy@) == headers_view(headers@),
{
    let mut copy: Vec<(&'static str, String)> = Vec::new();
    let mut i: usize = 0;
    while i < headers.len()
        invariant
            i <= headers.len(),
            headers_view(copy@) =~= headers_view(headers@).take(i as int),
        decreases headers.len() - i,
    {
        let ghost before = copy@;
        let (name, value) = &headers[i];
        copy.push((*name, value.clone()));
        assert(headers_view(copy@) =~= headers_view(before).push(headers_view(headers@)[i as int]));
        i = i + 1;
    }
    copy
}

} // verus!
