//! The page renderer: a counter value becomes the HTML index document that
//! embeds the value, written in decimal, as initial client-side state. The
//! document is the fixed template with the value substituted for its one
//! placeholder. Rendering is delegated to the template engine; should it
//! ever fail, the failure is absorbed by answering with its diagnostic text
//! instead of the page — the index request itself never fails.

use vstd::prelude::*;
use crate::numfmt::all_digit_chars;
use crate::numfmt::dec_digits;
use crate::numfmt::lemma_dec_digits_are_digits;
use crate::numfmt::u32_digits;

verus! {

/// The document text before the embedded counter value.
pub open spec fn spec_page_prefix() -> Seq<char> {
    "<!doctype html><html><head><meta charset=\"utf-8\" /><title>Increment</title><link rel=\"stylesheet\" href=\"/css/app.css\" ></head><body><script>window.initial_counter_state=\""@
}

/// The document text after the embedded counter value.
pub open spec fn spec_page_suffix() -> Seq<char> {
    "\";</script><script src=\"/app.js\"></script></body></html>"@
}

/// The rendered index document for the counter value `v`.
pub open spec fn spec_page_html(v: u32) -> Seq<char> {
    spec_page_prefix() + dec_digits(v as nat) + spec_page_suffix()
}

/// Whether the template engine succeeds in rendering the index template
/// with this substituted text; its outcome depends on that text alone.
pub uninterp spec fn rendered_ok(digits: Seq<char>) -> bool;

fn template_prefix() -> (r: &'static str)
    ensures
        r@ == spec_page_prefix(),
{
    "<!doctype html><html><head><meta charset=\"utf-8\" /><title>Increment</title><link rel=\"stylesheet\" href=\"/css/app.css\" ></head><body><script>window.initial_counter_state=\""
}

fn template_suffix() -> (r: &'static str)
    ensures
        r@ == spec_page_suffix(),
{
    "\";</script><script src=\"/app.js\"></script></body></html>"
}

/// Relies on `handlebars::Handlebars::{new, register_template_string, render}`:
/// rendering a registered template whose only element besides plain text is
/// the placeholder `{{initial_counter_state}}` substitutes the value bound to
/// that name, passed through the default HTML escape, which leaves decimal
/// digits unchanged; the plain text is emitted verbatim.
#[verifier::external_body]
fn hb_render_counter(digits: &str) -> (r: Result<String, String>)
    requires
        all_digit_chars(digits@),
    ensures
        r is Ok == rendered_ok(digits@),
        r matches Ok(s) ==> s@ == spec_page_prefix() + digits@ + spec_page_suffix(),
{
    let template = format!("{}{}{}", template_prefix(), "{{initial_counter_state}}", template_suffix());
    let mut hb = handlebars::Handlebars::new();
    if let Err(e) = hb.register_template_string("index.html", template) {
        return Err(e.to_string());
    }
    let mut data = std::collections::BTreeMap::new();
    data.insert("initial_counter_state", digits);
    match hb.render("index.html", &data) {
        Ok(page) => Ok(page),
        Err(e) => Err(e.to_string()),
    }
}

/// The soft-failure policy of the index page: serve the rendered page when
/// rendering succeeded, and the engine's diagnostic text in its place when
/// it failed — the request itself never fails.
pub fn page_or_diagnostic(rendered: Result<String, String>) -> (r: String)
    ensures
        rendered matches Ok(page) ==> r == page,
        rendered matches Err(diagnostic) ==> r == diagnostic,
{
    match rendered {
        Ok(page) => page,
        Err(diagnostic) => diagnostic,
    }
}

/// Render the index page embedding `counter_value`. When the template
/// engine succeeds — and nothing in the fixed template gives it reason not
/// to — the result is exactly the page for that value; otherwise it is the
/// engine's diagnostic text, served by the policy of `page_or_diagnostic`.
pub fn render_index(counter_value: u32) -> (r: String)
    ensures
        rendered_ok(dec_digits(counter_value as nat)) ==> r@ == spec_page_html(counter_value),
{
    let digits = u32_digits(counter_value);
    proof {
        lemma_dec_digits_are_digits(counter_value as nat);
    }
    page_or_diagnostic(hb_render_counter(digits.as_str()))
}

} // verus!
