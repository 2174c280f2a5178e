//! The HTTP router: every request is dispatched to exactly one handler by
//! method and path, with fixed precedence. A `POST` to the increment path
//! reaches the counter only with a conforming body of bounded size; a `GET`
//! of the root serves the rendered index page, taking precedence over any
//! asset registered at the root; any other `GET` falls back to exact-match
//! asset lookup; everything else is answered with a method-not-allowed
//! outcome. `route_of` is the dispatch decision itself, as a function of
//! method and path alone; `decide` computes it, each route's handler is
//! proved to produce the outcome that route owes, and `handle` strings the
//! two together. A shell that holds the counter behind a
//! multi-reader/single-writer lock can call `decide` and then the one
//! handler, taking the lock exclusively only for the increment route —
//! `handle_index` reads the counter through a shared borrow.

use vstd::prelude::*;
use vstd::string::StringExecFns;
use crate::assets::AssetTable;
use crate::counter::Counter;
use crate::counter::sat_add;
use crate::json::IncrementResp;
use crate::json::increment_resp_body;
use crate::json::parse_increment;
use crate::json::spec_increment_resp_body;
use crate::json::spec_parse_increment;
use crate::numfmt::dec_digits;
use crate::render::render_index;
use crate::render::rendered_ok;
use crate::render::spec_page_html;

verus! {

/// The request methods the service distinguishes. Everything that is
/// neither `GET` nor `POST` falls together.
#[derive(Clone, Copy, PartialEq, Eq, Structural)]
pub enum Method {
    Get,
    Post,
    Other,
}

/// A response body: text the service wrote, raw stored bytes, or nothing.
pub enum ResponseBody {
    Text(String),
    Raw(Vec<u8>),
    Empty,
}

/// What the service answers: a status code, an optional content type, and
/// a body.
pub struct Response {
    pub status: u16,
    pub content_type: Option<String>,
    pub body: ResponseBody,
}

/// The largest request body the increment route accepts, in bytes.
pub const BODY_LIMIT: usize = 16384;

/// The handler a request is dispatched to.
#[derive(Clone, Copy, PartialEq, Eq, Structural)]
pub enum Route {
    Increment,
    Index,
    StaticLookup,
    NoRoute,
}

/// The dispatch decision: first the increment route, then the index route,
/// then the static fallback. It depends on method and path alone — in
/// particular, no registered asset can divert a `GET` of the root away from
/// the index page.
pub open spec fn route_of(method: Method, path: Seq<char>) -> Route {
    match method {
        Method::Post => if path == "/increment/counter"@ {
            Route::Increment
        } else {
            Route::NoRoute
        },
        Method::Get => if path == "/"@ {
            Route::Index
        } else {
            Route::StaticLookup
        },
        Method::Other => Route::NoRoute,
    }
}

/// What the increment route answers. An oversized body is refused outright;
/// a body the grammar rejects is refused as malformed; in both cases the
/// counter is untouched. A conforming body has its increment applied —
/// saturating — and the response announces the value the writer then sees.
pub open spec fn increment_outcome(
    pre: Counter,
    post: Counter,
    body: Seq<u8>,
    r: Response,
) -> bool {
    if body.len() > BODY_LIMIT {
        &&& r.status == 413
        &&& r.content_type is None
        &&& r.body is Empty
        &&& post == pre
    } else {
        match spec_parse_increment(body) {
            Some(d) => {
                &&& r.status == 200
                &&& (r.content_type matches Some(ct) && ct@ == "application/json"@)
                &&& (r.body matches ResponseBody::Text(s) && s@ == spec_increment_resp_body(
                    sat_add(pre.current(), d),
                ))
                &&& post.current() == sat_add(pre.current(), d)
                &&& post.history() == pre.history().push(d)
            },
            None => {
                &&& r.status == 400
                &&& r.content_type is None
                &&& r.body is Empty
                &&& post == pre
            },
        }
    }
}

/// What the index route answers for a counter reading `value`: the page for
/// that value, as HTML with status 200 — or, should the template engine
/// fail, its diagnostic text in the page's place, still with status 200.
pub open spec fn index_outcome(value: u32, r: Response) -> bool {
    &&& r.status == 200
    &&& (r.content_type matches Some(ct) && ct@ == "text/html; charset=utf-8"@)
    &&& r.body is Text
    &&& (rendered_ok(dec_digits(value as nat)) ==> (r.body matches ResponseBody::Text(s) && s@
        == spec_page_html(value)))
}

/// What the static fallback answers: the asset stored under the exact
/// request path, verbatim and with its stored content type, or a 404 with
/// an empty body.
pub open spec fn static_outcome(assets: AssetTable, path: Seq<char>, r: Response) -> bool {
    match assets.lookup(path) {
        Some(a) => {
            &&& r.status == 200
            &&& (r.content_type matches Some(ct) && ct@ == a.content_type@)
            &&& (r.body matches ResponseBody::Raw(c) && c@ == a.content@)
        },
        None => {
            &&& r.status == 404
            &&& r.content_type is None
            &&& r.body is Empty
        },
    }
}

/// What a request that no route accepts is answered with.
pub open spec fn no_route_outcome(r: Response) -> bool {
    &&& r.status == 405
    &&& r.content_type is None
    &&& r.body is Empty
}

/// The index route takes every `GET` of the root path, whatever assets are
/// registered: dispatch never consults the asset table, so an asset stored
/// under the root path is unreachable by it.
pub proof fn lemma_index_precedence(path: Seq<char>)
    requires
        path == "/"@,
    ensures
        route_of(Method::Get, path) is Index,
{
}

fn path_is(path: &str, lit: &str) -> (r: bool)
    ensures
        r == (path@ == lit@),
{
    let a = path.to_owned();
    let b = lit.to_owned();
    a == b
}

fn copy_bytes(src: &Vec<u8>) -> (r: Vec<u8>)
    ensures
        r@ == src@,
{
    let mut out: Vec<u8> = Vec::new();
    let mut i: usize = 0;
    while i < src.len()
        invariant
            i <= src@.len(),
            out@ == src@.take(i as int),
        decreases src@.len() - i,
    {
        out.push(src[i]);
        proof {
            assert(out@ =~= src@.take(i + 1));
        }
        i = i + 1;
    }
    proof {
        assert(src@.take(src@.len() as int) =~= src@);
    }
    out
}

/// Compute the dispatch decision for one request.
pub fn decide(method: Method, path: &str) -> (r: Route)
    ensures
        r == route_of(method, path@),
{
    match method {
        Method::Post => {
            if path_is(path, "/increment/counter") {
                Route::Increment
            } else {
                Route::NoRoute
            }
        },
        Method::Get => {
            if path_is(path, "/") {
                Route::Index
            } else {
                Route::StaticLookup
            }
        },
        Method::Other => Route::NoRoute,
    }
}

/// Answer an increment request: refuse an oversized or nonconforming body
/// without touching the counter, otherwise apply the increment and announce
/// the new value.
pub fn handle_increment(counter: &mut Counter, body: &[u8]) -> (r: Response)
    requires
        old(counter).wf(),
    ensures
        final(counter).wf(),
        increment_outcome(*old(counter), *final(counter), body@, r),
{
    if body.len() > BODY_LIMIT {
        Response { status: 413, content_type: None, body: ResponseBody::Empty }
    } else {
        match parse_increment(body) {
            Some(req) => {
                let new_state = counter.write(req.increment_by);
                let resp = IncrementResp { new_state };
                let text = increment_resp_body(&resp);
                Response {
                    status: 200,
                    content_type: Some(String::from_str("application/json")),
                    body: ResponseBody::Text(text),
                }
            },
            None => Response { status: 400, content_type: None, body: ResponseBody::Empty },
        }
    }
}

/// Answer an index request: read the counter — through a shared borrow, so
/// concurrent readers need not exclude each other — and serve the page for
/// the value read.
pub fn handle_index(counter: &Counter) -> (r: Response)
    ensures
        index_outcome(counter.current(), r),
{
    let value = counter.read();
    let page = render_index(value);
    Response {
        status: 200,
        content_type: Some(String::from_str("text/html; charset=utf-8")),
        body: ResponseBody::Text(page),
    }
}

/// Answer a static-asset request: the stored asset for an exact path match,
/// a 404 with an empty body for a miss.
pub fn handle_static(assets: &AssetTable, path: &str) -> (r: Response)
    requires
        assets.wf(),
    ensures
        static_outcome(*assets, path@, r),
{
    match assets.resolve(path) {
        Some(a) => {
            let content_type = a.content_type.clone();
            let content = copy_bytes(&a.content);
            Response {
                status: 200,
                content_type: Some(content_type),
                body: ResponseBody::Raw(content),
            }
        },
        None => Response { status: 404, content_type: None, body: ResponseBody::Empty },
    }
}

/// Answer a request no route accepts.
pub fn handle_no_route() -> (r: Response)
    ensures
        no_route_outcome(r),
{
    Response { status: 405, content_type: None, body: ResponseBody::Empty }
}

/// Dispatch one request and answer it: exactly one handler runs, chosen by
/// `route_of`, and only the increment route may change the counter.
pub fn handle(
    counter: &mut Counter,
    assets: &AssetTable,
    method: Method,
    path: &str,
    body: &[u8],
) -> (r: Response)
    requires
        assets.wf(),
        old(counter).wf(),
    ensures
        final(counter).wf(),
        route_of(method, path@) is Increment ==> increment_outcome(
            *old(counter),
            *final(counter),
            body@,
            r,
        ),
        route_of(method, path@) is Index ==> *final(counter) == *old(counter) && index_outcome(
            old(counter).current(),
            r,
        ),
        route_of(method, path@) is StaticLookup ==> *final(counter) == *old(counter)
            && static_outcome(*assets, path@, r),
        route_of(method, path@) is NoRoute ==> *final(counter) == *old(counter)
            && no_route_outcome(r),
{
    match decide(method, path) {
        Route::Increment => handle_increment(counter, body),
        Route::Index => handle_index(counter),
        Route::StaticLookup => handle_static(assets, path),
        Route::NoRoute => handle_no_route(),
    }
}

} // verus!
