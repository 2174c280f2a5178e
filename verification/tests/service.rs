use counter_service::assets::AssetTable;
use counter_service::assets::StaticAsset;
use counter_service::counter::Counter;
use counter_service::json::parse_increment;
use counter_service::json::increment_resp_body;
use counter_service::json::IncrementResp;
use counter_service::numfmt::u32_digits;
use counter_service::render::render_index;
use counter_service::router::handle;
use counter_service::router::Method;
use counter_service::router::Response;
use counter_service::router::ResponseBody;
use counter_service::router::BODY_LIMIT;

fn body_text(r: &Response) -> &str {
    match &r.body {
        ResponseBody::Text(s) => s.as_str(),
        _ => panic!("expected a text body"),
    }
}

fn body_raw(r: &Response) -> &[u8] {
    match &r.body {
        ResponseBody::Raw(c) => c.as_slice(),
        _ => panic!("expected a raw body"),
    }
}

fn body_is_empty(r: &Response) -> bool {
    matches!(r.body, ResponseBody::Empty)
}

fn asset(path: &str, content_type: &str, content: &[u8]) -> StaticAsset {
    StaticAsset {
        path: path.to_string(),
        content_type: content_type.to_string(),
        content: content.to_vec(),
    }
}

#[test]
fn counter_starts_at_zero() {
    let c = Counter::new();
    assert_eq!(c.read(), 0);
}

#[test]
fn write_returns_running_sum() {
    let mut c = Counter::new();
    assert_eq!(c.write(5), 5);
    assert_eq!(c.read(), 5);
    assert_eq!(c.write(7), 12);
    assert_eq!(c.read(), 12);
}

#[test]
fn reads_are_prefix_sums_of_writes() {
    let mut c = Counter::new();
    assert_eq!(c.read(), 0);
    c.write(1);
    assert_eq!(c.read(), 1);
    c.write(2);
    assert_eq!(c.read(), 3);
    c.write(3);
    assert_eq!(c.read(), 6);
}

#[test]
fn write_saturates_at_max() {
    let mut c = Counter::new();
    assert_eq!(c.write(u32::MAX), u32::MAX);
    assert_eq!(c.write(5), u32::MAX);
    assert_eq!(c.read(), u32::MAX);
}

#[test]
fn parse_accepts_plain_body() {
    let r = parse_increment(b"{\"increment_by\": 5}").expect("conforming body");
    assert_eq!(r.increment_by, 5);
}

#[test]
fn parse_accepts_whitespace_and_bounds() {
    let r = parse_increment(b" \t\r\n{ \"increment_by\" : 42 } ").expect("conforming body");
    assert_eq!(r.increment_by, 42);
    let r = parse_increment(b"{\"increment_by\":0}").expect("conforming body");
    assert_eq!(r.increment_by, 0);
    let r = parse_increment(b"{\"increment_by\":4294967295}").expect("conforming body");
    assert_eq!(r.increment_by, u32::MAX);
}

#[test]
fn parse_rejects_nonconforming_bodies() {
    assert!(parse_increment(b"").is_none());
    assert!(parse_increment(b"{}").is_none());
    assert!(parse_increment(b"{\"increment\": 5}").is_none());
    assert!(parse_increment(b"{\"increment_by\": -5}").is_none());
    assert!(parse_increment(b"{\"increment_by\": 5.0}").is_none());
    assert!(parse_increment(b"{\"increment_by\": 05}").is_none());
    assert!(parse_increment(b"{\"increment_by\": 4294967296}").is_none());
    assert!(parse_increment(b"{\"increment_by\": 99999999999999999999}").is_none());
    assert!(parse_increment(b"{\"increment_by\": 5} x").is_none());
    assert!(parse_increment(b"{\"increment_by\": 5").is_none());
    assert!(parse_increment(b"\"increment_by\": 5}").is_none());
}

#[test]
fn response_body_is_exact() {
    let s = increment_resp_body(&IncrementResp { new_state: 5 });
    assert_eq!(s, "{\"new_state\":5}");
    let s = increment_resp_body(&IncrementResp { new_state: 4294967295 });
    assert_eq!(s, "{\"new_state\":4294967295}");
}

#[test]
fn decimal_digits_are_exact() {
    assert_eq!(u32_digits(0), "0");
    assert_eq!(u32_digits(7), "7");
    assert_eq!(u32_digits(120), "120");
    assert_eq!(u32_digits(u32::MAX), "4294967295");
}

#[test]
fn rendered_page_embeds_value() {
    let page = render_index(5);
    assert!(page.starts_with("<!doctype html>"));
    assert!(page.contains("window.initial_counter_state=\"5\";"));
    assert!(page.ends_with("</body></html>"));
    let page = render_index(4294967295);
    assert!(page.contains("window.initial_counter_state=\"4294967295\";"));
}

#[test]
fn asset_lookup_is_exact_match() {
    let mut t = AssetTable::new();
    assert!(t.register(asset("/app.js", "application/javascript", b"console.log(1);")));
    assert!(t.register(asset("/css/app.css", "text/css", b"body{}")));
    assert!(t.contains("/app.js"));
    assert!(!t.contains("/app.js/"));
    assert!(!t.contains("app.js"));
    let a = t.resolve("/css/app.css").expect("registered");
    assert_eq!(a.content_type, "text/css");
    assert_eq!(a.content, b"body{}");
    assert!(t.resolve("/missing").is_none());
}

#[test]
fn duplicate_registration_is_refused() {
    let mut t = AssetTable::new();
    assert!(t.register(asset("/a", "text/plain", b"one")));
    assert!(!t.register(asset("/a", "text/plain", b"two")));
    let a = t.resolve("/a").expect("registered");
    assert_eq!(a.content, b"one");
}

#[test]
fn post_increment_applies_and_answers() {
    let mut c = Counter::new();
    let t = AssetTable::new();
    let r = handle(&mut c, &t, Method::Post, "/increment/counter", b"{\"increment_by\": 5}");
    assert_eq!(r.status, 200);
    assert_eq!(r.content_type.as_deref(), Some("application/json"));
    assert_eq!(body_text(&r), "{\"new_state\":5}");
    assert_eq!(c.read(), 5);
}

#[test]
fn oversized_body_is_rejected_and_counter_unchanged() {
    let mut c = Counter::new();
    let t = AssetTable::new();
    let mut big = Vec::new();
    big.extend_from_slice(b"{\"increment_by\": 5}");
    big.resize(BODY_LIMIT + 1, b' ');
    let r = handle(&mut c, &t, Method::Post, "/increment/counter", &big);
    assert_eq!(r.status, 413);
    assert!(body_is_empty(&r));
    assert_eq!(c.read(), 0);
}

#[test]
fn malformed_body_is_rejected_and_counter_unchanged() {
    let mut c = Counter::new();
    let t = AssetTable::new();
    let r = handle(&mut c, &t, Method::Post, "/increment/counter", b"{\"increment_by\": oops}");
    assert_eq!(r.status, 400);
    assert!(body_is_empty(&r));
    assert_eq!(c.read(), 0);
}

#[test]
fn index_after_increment_embeds_literal_value() {
    let mut c = Counter::new();
    let t = AssetTable::new();
    let r = handle(&mut c, &t, Method::Post, "/increment/counter", b"{\"increment_by\": 5}");
    assert_eq!(r.status, 200);
    let r = handle(&mut c, &t, Method::Get, "/", b"");
    assert_eq!(r.status, 200);
    assert_eq!(r.content_type.as_deref(), Some("text/html; charset=utf-8"));
    assert!(body_text(&r).contains("window.initial_counter_state=\"5\";"));
    assert_eq!(c.read(), 5);
}

#[test]
fn unmatched_get_is_404_with_empty_body() {
    let mut c = Counter::new();
    let t = AssetTable::new();
    let r = handle(&mut c, &t, Method::Get, "/nonexistent-path", b"");
    assert_eq!(r.status, 404);
    assert!(body_is_empty(&r));
    assert!(r.content_type.is_none());
}

#[test]
fn get_serves_registered_asset() {
    let mut c = Counter::new();
    let mut t = AssetTable::new();
    assert!(t.register(asset("/app.js", "application/javascript", b"console.log(1);")));
    let r = handle(&mut c, &t, Method::Get, "/app.js", b"");
    assert_eq!(r.status, 200);
    assert_eq!(r.content_type.as_deref(), Some("application/javascript"));
    assert_eq!(body_raw(&r), b"console.log(1);");
}

#[test]
fn index_takes_precedence_over_root_asset() {
    let mut c = Counter::new();
    let mut t = AssetTable::new();
    assert!(t.register(asset("/", "text/plain", b"shadowed")));
    let r = handle(&mut c, &t, Method::Get, "/", b"");
    assert_eq!(r.status, 200);
    assert_eq!(r.content_type.as_deref(), Some("text/html; charset=utf-8"));
    assert!(body_text(&r).contains("window.initial_counter_state=\"0\";"));
}

#[test]
fn get_of_increment_path_falls_back_to_assets() {
    let mut c = Counter::new();
    let t = AssetTable::new();
    let r = handle(&mut c, &t, Method::Get, "/increment/counter", b"");
    assert_eq!(r.status, 404);
    assert!(body_is_empty(&r));
}

#[test]
fn other_requests_are_method_not_allowed() {
    let mut c = Counter::new();
    let t = AssetTable::new();
    let r = handle(&mut c, &t, Method::Post, "/", b"{\"increment_by\": 5}");
    assert_eq!(r.status, 405);
    assert!(body_is_empty(&r));
    assert_eq!(c.read(), 0);
    let r = handle(&mut c, &t, Method::Other, "/", b"");
    assert_eq!(r.status, 405);
    assert!(body_is_empty(&r));
}
