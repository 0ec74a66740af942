//! The HTTP side: `POST /<method>` carries one call, `OPTIONS` answers a
//! CORS preflight, and every other verb is refused.
use vstd::prelude::*;
use vstd::utf8::{valid_utf8, decode_utf8};
use crate::actor::{Actor, dispatch_outcome};
use crate::server::Service;
use crate::json::json_parse;

verus! {

/// A response: its status code, its headers in order, and its body.
#[derive(Clone, Debug)]
pub struct HttpResponse {
    pub status: u16,
    pub headers: Vec<(String, String)>,
    pub body: String,
}

/// The plain content of an `HttpResponse`.
pub struct HttpReply {
    pub status: u16,
    pub headers: Seq<(Seq<char>, Seq<char>)>,
    pub body: Seq<char>,
}

impl View for HttpResponse {
    type V = HttpReply;

    open spec fn view(&self) -> HttpReply {
        HttpReply {
            status: self.status,
            headers: self.headers@.map_values(|h: (String, String)| (h.0@, h.1@)),
            body: self.body@,
        }
    }
}

/// The CORS headers of every answer to a call or a preflight.
pub open spec fn cors_headers() -> Seq<(Seq<char>, Seq<char>)> {
    seq![
        ("Access-Control-Allow-Origin"@, "*"@),
        ("Access-Control-Allow-Methods"@, "POST, OPTIONS"@),
        ("Access-Control-Allow-Headers"@, "Content-Type"@),
    ]
}

/// The headers of the answer to a call.
pub open spec fn call_headers() -> Seq<(Seq<char>, Seq<char>)> {
    seq![("Content-Type"@, "application/json"@)] + cors_headers()
}

/// The headers of the answer to a preflight.
pub open spec fn preflight_headers() -> Seq<(Seq<char>, Seq<char>)> {
    cors_headers().push(("Content-Length"@, "0"@))
}

/// The headers of the answer to a refused verb.
pub open spec fn refusal_headers() -> Seq<(Seq<char>, Seq<char>)> {
    seq![("Content-Type"@, "text/plain"@), ("Access-Control-Allow-Origin"@, "*"@)]
}

/// A path without its leading slashes.
pub open spec fn strip_slashes(path: Seq<char>) -> Seq<char>
    decreases path.len(),
{
    if path.len() > 0 && path[0] == '/' {
        strip_slashes(path.drop_first())
    } else {
        path
    }
}

/// The answer of `actor` to a request with this verb, path and body.
pub open spec fn http_outcome<A: Actor + ?Sized>(
    actor: &A,
    verb: Seq<char>,
    path: Seq<char>,
    body: Seq<u8>,
) -> HttpReply {
    if !valid_utf8(body) {
        HttpReply { status: 400, headers: Seq::empty(), body: "Invalid UTF-8 in request body"@ }
    } else if verb == "POST"@ {
        HttpReply {
            status: 200,
            headers: call_headers(),
            body: dispatch_outcome(actor, strip_slashes(path), json_parse(decode_utf8(body))),
        }
    } else if verb == "OPTIONS"@ {
        HttpReply { status: 200, headers: preflight_headers(), body: Seq::empty() }
    } else {
        HttpReply { status: 405, headers: refusal_headers(), body: "Method Not Allowed"@ }
    }
}

/// Relies on `std::str::from_utf8`: the text of the bytes, where they are
/// valid UTF-8.
#[verifier::external_body]
fn utf8_text(b: &[u8]) -> (r: Option<&str>)
    ensures
        r is Some <==> valid_utf8(b@),
        r is Some ==> r->Some_0@ == decode_utf8(b@),
{
    match std::str::from_utf8(b) {
        Ok(s) => Some(s),
        Err(_) => None,
    }
}

fn header(name: &str, value: &str) -> (r: (String, String))
    ensures
        r.0@ == name@,
        r.1@ == value@,
{
    (name.to_owned(), value.to_owned())
}

/// The method name in a request path: the path without its leading slashes.
pub fn method_name_of(path: &str) -> (r: &str)
    ensures
        r@ == strip_slashes(path@),
{
    let n = path.unicode_len();
    let mut i: usize = 0;
    assert(path@.subrange(0, n as int) =~= path@);
    while i < n && path.get_char(i) == '/'
        invariant
            n == path@.len(),
            0 <= i <= n,
            strip_slashes(path@) == strip_slashes(path@.subrange(i as int, n as int)),
        decreases n - i,
    {
        let ghost rest = path@.subrange(i as int, n as int);
        assert(rest.drop_first() =~= path@.subrange(i as int + 1, n as int));
        i = i + 1;
    }
    let r = path.substring_char(i, n);
    r
}

/// Answers one HTTP request whose body has been read in full.
pub fn handle_http_request<A: Actor>(
    service: &Service<A>,
    verb: &str,
    path: &str,
    body: &[u8],
) -> (r: HttpResponse)
    ensures
        r@ == http_outcome(&service.actor(), verb@, path@, body@),
{
    let text = match utf8_text(body) {
        Some(t) => t,
        None => {
            let r = HttpResponse {
                status: 400,
                headers: Vec::new(),
                body: "Invalid UTF-8 in request body".to_owned(),
            };
            assert(r@.headers =~= Seq::<(Seq<char>, Seq<char>)>::empty());
            return r;
        },
    };
    let verb_text = verb.to_owned();
    if verb_text == "POST".to_owned() {
        let answer = service.dispatch(method_name_of(path), text);
        let headers = vec![
            header("Content-Type", "application/json"),
            header("Access-Control-Allow-Origin", "*"),
            header("Access-Control-Allow-Methods", "POST, OPTIONS"),
            header("Access-Control-Allow-Headers", "Content-Type"),
        ];
        let r = HttpResponse { status: 200, headers, body: answer };
        assert(r@.headers =~= call_headers());
        r
    } else if verb_text == "OPTIONS".to_owned() {
        let headers = vec![
            header("Access-Control-Allow-Origin", "*"),
            header("Access-Control-Allow-Methods", "POST, OPTIONS"),
            header("Access-Control-Allow-Headers", "Content-Type"),
            header("Content-Length", "0"),
        ];
        let r = HttpResponse { status: 200, headers, body: String::new() };
        assert(r@.headers =~= preflight_headers());
        assert(r@.body =~= Seq::<char>::empty());
        r
    } else {
        let headers = vec![
            header("Content-Type", "text/plain"),
            header("Access-Control-Allow-Origin", "*"),
        ];
        let r = HttpResponse { status: 405, headers, body: "Method Not Allowed".to_owned() };
        assert(r@.headers =~= refusal_headers());
        r
    }
}

/// The answer when the request body could not be read.
pub fn unreadable_body_response() -> (r: HttpResponse)
    ensures
        r@.status == 400,
        r@.headers.len() == 0,
        r@.body == "Failed to read request body"@,
{
    let r = HttpResponse {
        status: 400,
        headers: Vec::new(),
        body: "Failed to read request body".to_owned(),
    };
    assert(r@.headers =~= Seq::<(Seq<char>, Seq<char>)>::empty());
    r
}

} // verus!
