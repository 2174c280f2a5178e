//! The wire format of the increment API. A request body is a JSON object
//! with the single member `increment_by`, whose value is an unsigned 32-bit
//! decimal integer; a response body is a JSON object with the single member
//! `new_state`. `spec_parse_increment` is the grammar: it says, for every
//! byte string, whether the body conforms and which value it carries, and
//! `parse_increment` is proved to decide exactly that. The response body is
//! built verbatim by `increment_resp_body`.

use vstd::prelude::*;
use vstd::string::StringExecFns;
use crate::numfmt::dec_digits;
use crate::numfmt::u32_digits;

verus! {

/// The increment request: how much to add to the counter.
pub struct IncrementReq {
    pub increment_by: u32,
}

/// The increment response: the counter value right after the write.
pub struct IncrementResp {
    pub new_state: u32,
}

/// JSON insignificant whitespace: space, tab, line feed, carriage return.
pub open spec fn json_ws(b: u8) -> bool {
    b == 32 || b == 9 || b == 10 || b == 13
}

/// An ASCII decimal digit byte.
pub open spec fn is_digit(b: u8) -> bool {
    48 <= b <= 57
}

/// The first position at or after `i` that does not hold whitespace.
pub open spec fn skip_ws(s: Seq<u8>, i: int) -> int
    decreases s.len() - i,
{
    if 0 <= i < s.len() && json_ws(s[i]) {
        skip_ws(s, i + 1)
    } else {
        i
    }
}

/// The first position at or after `i` that does not hold a digit.
pub open spec fn digits_end(s: Seq<u8>, i: int) -> int
    decreases s.len() - i,
{
    if 0 <= i < s.len() && is_digit(s[i]) {
        digits_end(s, i + 1)
    } else {
        i
    }
}

/// The number written by a run of digit bytes, most significant first.
pub open spec fn dec_val(s: Seq<u8>) -> int
    decreases s.len(),
{
    if s.len() == 0 {
        0
    } else {
        dec_val(s.drop_last()) * 10 + (s.last() - 48)
    }
}

/// The quoted member name `increment_by` starts at position `i`.
pub open spec fn key_at(s: Seq<u8>, i: int) -> bool {
    &&& 0 <= i
    &&& i + 14 <= s.len()
    &&& s[i] == '"' as u8
    &&& s[i + 1] == 'i' as u8
    &&& s[i + 2] == 'n' as u8
    &&& s[i + 3] == 'c' as u8
    &&& s[i + 4] == 'r' as u8
    &&& s[i + 5] == 'e' as u8
    &&& s[i + 6] == 'm' as u8
    &&& s[i + 7] == 'e' as u8
    &&& s[i + 8] == 'n' as u8
    &&& s[i + 9] == 't' as u8
    &&& s[i + 10] == '_' as u8
    &&& s[i + 11] == 'b' as u8
    &&& s[i + 12] == 'y' as u8
    &&& s[i + 13] == '"' as u8
}

/// The grammar of a conforming request body, and the value it carries.
///
/// A body conforms exactly when it is, up to JSON whitespace,
/// `{ "increment_by" : <n> }` where `<n>` is a decimal integer without a
/// leading zero (other than the number `0` itself) whose value fits in an
/// unsigned 32-bit integer. Anything else — a missing or misspelled member,
/// a fractional, signed or overlarge number, trailing bytes — does not.
pub open spec fn spec_parse_increment(s: Seq<u8>) -> Option<u32> {
    let i0 = skip_ws(s, 0);
    if !(i0 < s.len() && s[i0] == '{' as u8) {
        None
    } else {
        let i1 = skip_ws(s, i0 + 1);
        if !key_at(s, i1) {
            None
        } else {
            let i2 = skip_ws(s, i1 + 14);
            if !(i2 < s.len() && s[i2] == ':' as u8) {
                None
            } else {
                let i3 = skip_ws(s, i2 + 1);
                let j = digits_end(s, i3);
                if j == i3 {
                    None
                } else if s[i3] == '0' as u8 && j > i3 + 1 {
                    None
                } else if dec_val(s.subrange(i3, j)) > u32::MAX {
                    None
                } else {
                    let i4 = skip_ws(s, j);
                    if !(i4 < s.len() && s[i4] == '}' as u8) {
                        None
                    } else if skip_ws(s, i4 + 1) != s.len() {
                        None
                    } else {
                        Some(dec_val(s.subrange(i3, j)) as u32)
                    }
                }
            }
        }
    }
}

proof fn lemma_skip_ws_bounds(s: Seq<u8>, i: int)
    requires
        0 <= i <= s.len(),
    ensures
        i <= skip_ws(s, i) <= s.len(),
    decreases s.len() - i,
{
    if i < s.len() && json_ws(s[i]) {
        lemma_skip_ws_bounds(s, i + 1);
    }
}

proof fn lemma_digits_end_bounds(s: Seq<u8>, i: int)
    requires
        0 <= i <= s.len(),
    ensures
        i <= digits_end(s, i) <= s.len(),
        forall|k: int| i <= k < digits_end(s, i) ==> is_digit(s[k]),
    decreases s.len() - i,
{
    if i < s.len() && is_digit(s[i]) {
        lemma_digits_end_bounds(s, i + 1);
    }
}

proof fn lemma_dec_val_nonneg(s: Seq<u8>)
    requires
        forall|k: int| 0 <= k < s.len() ==> is_digit(s[k]),
    ensures
        dec_val(s) >= 0,
    decreases s.len(),
{
    if s.len() > 0 {
        lemma_dec_val_nonneg(s.drop_last());
    }
}

/// The value of a digit run only grows as the run is extended to the right.
proof fn lemma_dec_val_take_le(s: Seq<u8>, i: int)
    requires
        forall|k: int| 0 <= k < s.len() ==> is_digit(s[k]),
        0 <= i <= s.len(),
    ensures
        dec_val(s.take(i)) <= dec_val(s),
    decreases s.len() - i,
{
    if i == s.len() {
        assert(s.take(i) =~= s);
    } else {
        assert(s.take(i + 1).drop_last() =~= s.take(i));
        assert(s.take(i + 1).last() == s[i]);
        lemma_dec_val_nonneg(s.take(i));
        lemma_dec_val_take_le(s, i + 1);
    }
}

fn skip_ws_exec(s: &[u8], i: usize) -> (r: usize)
    requires
        i <= s@.len(),
    ensures
        r == skip_ws(s@, i as int),
        i <= r <= s@.len(),
{
    let mut k: usize = i;
    while k < s.len() && (s[k] == 32 || s[k] == 9 || s[k] == 10 || s[k] == 13)
        invariant
            i <= k <= s@.len(),
            skip_ws(s@, i as int) == skip_ws(s@, k as int),
        decreases s@.len() - k,
    {
        k = k + 1;
    }
    k
}

fn digits_end_exec(s: &[u8], i: usize) -> (r: usize)
    requires
        i <= s@.len(),
    ensures
        r == digits_end(s@, i as int),
        i <= r <= s@.len(),
{
    let mut k: usize = i;
    while k < s.len() && 48 <= s[k] && s[k] <= 57
        invariant
            i <= k <= s@.len(),
            digits_end(s@, i as int) == digits_end(s@, k as int),
        decreases s@.len() - k,
    {
        k = k + 1;
    }
    k
}

fn key_at_exec(s: &[u8], i: usize) -> (r: bool)
    requires
        i <= s@.len(),
    ensures
        r == key_at(s@, i as int),
{
    if s.len() - i < 14 {
        return false;
    }
    s[i] == 34 && s[i + 1] == 105 && s[i + 2] == 110 && s[i + 3] == 99 && s[i + 4] == 114 && s[i
        + 5] == 101 && s[i + 6] == 109 && s[i + 7] == 101 && s[i + 8] == 110 && s[i + 9] == 116
        && s[i + 10] == 95 && s[i + 11] == 98 && s[i + 12] == 121 && s[i + 13] == 34
}

/// Read the value of the digit run `s[start..end]`, or report that it does
/// not fit in an unsigned 32-bit integer.
fn dec_value_u32(s: &[u8], start: usize, end: usize) -> (r: Option<u32>)
    requires
        start < end <= s@.len(),
        forall|k: int| start <= k < end ==> is_digit(s@[k]),
    ensures
        r is Some <==> dec_val(s@.subrange(start as int, end as int)) <= u32::MAX,
        r matches Some(v) ==> v == dec_val(s@.subrange(start as int, end as int)),
{
    let ghost run = s@.subrange(start as int, end as int);
    let mut acc: u64 = 0;
    let mut k: usize = start;
    while k < end
        invariant
            start <= k <= end <= s@.len(),
            forall|m: int| start <= m < end ==> is_digit(s@[m]),
            run == s@.subrange(start as int, end as int),
            acc == dec_val(run.take(k - start)),
            acc <= u32::MAX,
        decreases end - k,
    {
        let b = s[k];
        assert(is_digit(s@[k as int]));
        let next: u64 = acc * 10 + ((b - 48) as u64);
        proof {
            assert(run.take(k - start + 1).drop_last() =~= run.take(k - start));
            assert(run.take(k - start + 1).last() == run[k - start]);
            assert(run[k - start] == s@[k as int]);
        }
        if next > 0xffff_ffff {
            proof {
                lemma_dec_val_take_le(run, k - start + 1);
            }
            return None;
        }
        acc = next;
        k = k + 1;
    }
    proof {
        assert(run.take(end - start) =~= run);
    }
    Some(acc as u32)
}

/// Decide whether `body` conforms to the request grammar, and extract the
/// carried increment when it does: the result is `Some` exactly on the
/// bodies that `spec_parse_increment` accepts, with the same value.
pub fn parse_increment(body: &[u8]) -> (r: Option<IncrementReq>)
    ensures
        r is Some <==> spec_parse_increment(body@) is Some,
        r matches Some(q) ==> spec_parse_increment(body@) == Some(q.increment_by),
{
    let i0 = skip_ws_exec(body, 0);
    if !(i0 < body.len() && body[i0] == 123) {
        return None;
    }
    let i1 = skip_ws_exec(body, i0 + 1);
    if !key_at_exec(body, i1) {
        return None;
    }
    let i2 = skip_ws_exec(body, i1 + 14);
    if !(i2 < body.len() && body[i2] == 58) {
        return None;
    }
    let i3 = skip_ws_exec(body, i2 + 1);
    let j = digits_end_exec(body, i3);
    proof {
        lemma_digits_end_bounds(body@, i3 as int);
    }
    if j == i3 {
        return None;
    }
    if body[i3] == 48 && j > i3 + 1 {
        return None;
    }
    let value = match dec_value_u32(body, i3, j) {
        Some(v) => v,
        None => {
            return None;
        },
    };
    let i4 = skip_ws_exec(body, j);
    if !(i4 < body.len() && body[i4] == 125) {
        return None;
    }
    if skip_ws_exec(body, i4 + 1) != body.len() {
        return None;
    }
    Some(IncrementReq { increment_by: value })
}

/// The response body announcing the counter value `n`.
pub open spec fn spec_increment_resp_body(n: u32) -> Seq<char> {
    "{\"new_state\":"@ + dec_digits(n as nat) + "}"@
}

/// Write the response announcing the counter value after a write.
pub fn increment_resp_body(resp: &IncrementResp) -> (r: String)
    ensures
        r@ == spec_increment_resp_body(resp.new_state),
{
    let mut s = String::from_str("{\"new_state\":");
    let d = u32_digits(resp.new_state);
    s.append(d.as_str());
    s.append("}");
    proof {
        assert(s@ =~= spec_increment_resp_body(resp.new_state));
    }
    s
}

} // verus!
