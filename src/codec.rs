use vstd::prelude::*;

use crate::json::{decode_json, json_of, Json};

verus! {

/// One inbound event: `<nonce><JSON array>` with the event name first.
#[derive(Debug)]
pub struct EventMessage {
    pub nonce: u64,
    pub event: String,
    pub args: Vec<Json>,
}

/// Why an inbound text frame was refused.
#[derive(Clone, Copy, Debug, PartialEq, Eq, Structural)]
pub enum ParseError {
    MissingNonce,
    NonceOverflow,
    InvalidJson,
    NotAnArray,
    MissingEvent,
    EventNotString,
}

pub open spec fn is_digit(b: u8) -> bool {
    48 <= b && b <= 57
}

/// The index where the run of ASCII digits that starts at `i` ends.
pub open spec fn digit_end(s: Seq<u8>, i: int) -> int
    decreases s.len() - i,
{
    if 0 <= i < s.len() && is_digit(s[i]) {
        digit_end(s, i + 1)
    } else {
        i
    }
}

/// The decimal value of a sequence of ASCII digits.
pub open spec fn digits_value(s: Seq<u8>) -> nat
    decreases s.len(),
{
    if s.len() == 0 {
        0
    } else {
        digits_value(s.drop_last()) * 10 + (s.last() - 48) as nat
    }
}

/// The length of the nonce at the start of a frame.
pub open spec fn nonce_len(s: Seq<u8>) -> int {
    digit_end(s, 0)
}

pub open spec fn nonce_value(s: Seq<u8>) -> nat {
    digits_value(s.subrange(0, nonce_len(s)))
}

/// What follows the nonce.
pub open spec fn frame_body(s: Seq<u8>) -> Seq<u8> {
    s.subrange(nonce_len(s), s.len() as int)
}

/// The error that a frame is refused with, or `None` where it is a valid
/// event message.
pub open spec fn frame_error(s: Seq<u8>) -> Option<ParseError> {
    if nonce_len(s) == 0 {
        Some(ParseError::MissingNonce)
    } else if nonce_value(s) > u64::MAX {
        Some(ParseError::NonceOverflow)
    } else {
        match json_of(frame_body(s)) {
            None => Some(ParseError::InvalidJson),
            Some(Json::Array(items)) => {
                if items@.len() == 0 {
                    Some(ParseError::MissingEvent)
                } else {
                    match items@[0] {
                        Json::Str(_) => None,
                        _ => Some(ParseError::EventNotString),
                    }
                }
            },
            Some(_) => Some(ParseError::NotAnArray),
        }
    }
}

/// The elements of the frame's JSON array.
pub open spec fn frame_items(s: Seq<u8>) -> Seq<Json> {
    match json_of(frame_body(s)) {
        Some(Json::Array(items)) => items@,
        _ => Seq::empty(),
    }
}

pub open spec fn frame_event(s: Seq<u8>) -> Seq<char> {
    match frame_items(s)[0] {
        Json::Str(e) => e@,
        _ => Seq::empty(),
    }
}

pub open spec fn frame_args(s: Seq<u8>) -> Seq<Json> {
    frame_items(s).subrange(1, frame_items(s).len() as int)
}

proof fn lemma_digit_end_bounds(s: Seq<u8>, i: int)
    requires
        0 <= i <= s.len(),
    ensures
        i <= digit_end(s, i) <= s.len(),
        forall|k: int| i <= k < digit_end(s, i) ==> is_digit(#[trigger] s[k]),
        digit_end(s, i) < s.len() ==> !is_digit(s[digit_end(s, i)]),
    decreases s.len() - i,
{
    if i < s.len() && is_digit(s[i]) {
        lemma_digit_end_bounds(s, i + 1);
    }
}

/// Reads the nonce and decodes the JSON array of an inbound text frame.
/// The scan of the nonce stops at the end of the buffer.
pub fn parse_frame(data: &[u8]) -> (r: Result<EventMessage, ParseError>)
    ensures
        match r {
            Ok(m) => frame_error(data@) is None && m.nonce == nonce_value(data@)
                && m.event@ == frame_event(data@) && m.args@ == frame_args(data@),
            Err(e) => frame_error(data@) == Some(e),
        },
{
    let ghost s = data@;
    proof {
        lemma_digit_end_bounds(s, 0);
    }
    let mut count: usize = 0;
    let mut nonce: u64 = 0;
    let mut overflow: bool = false;
    while count < data.len() && data[count] >= 48 && data[count] <= 57
        invariant
            0 <= count <= s.len(),
            s == data@,
            digit_end(s, count as int) == nonce_len(s),
            forall|k: int| 0 <= k < count ==> is_digit(#[trigger] s[k]),
            !overflow ==> nonce == digits_value(s.subrange(0, count as int)),
            overflow ==> digits_value(s.subrange(0, count as int)) > u64::MAX,
        decreases data.len() - count,
    {
        let d: u64 = (data[count] - 48) as u64;
        let ghost prev = s.subrange(0, count as int);
        assert(s.subrange(0, count + 1).drop_last() =~= prev);
        if !overflow {
            if nonce > 1844674407370955161 || (nonce == 1844674407370955161 && d > 5) {
                overflow = true;
                assert(digits_value(prev) * 10 + d > u64::MAX) by (nonlinear_arith)
                    requires
                        digits_value(prev) > 1844674407370955161 || (digits_value(prev)
                            == 1844674407370955161 && d > 5),
                ;
            } else {
                assert(nonce * 10 + d <= u64::MAX) by (nonlinear_arith)
                    requires
                        nonce <= 1844674407370955161,
                        d <= 9,
                        nonce == 1844674407370955161 ==> d <= 5,
                ;
                nonce = nonce * 10 + d;
            }
        } else {
            assert(digits_value(prev) * 10 + d > u64::MAX) by (nonlinear_arith)
                requires
                    digits_value(prev) > u64::MAX,
            ;
        }
        count = count + 1;
    }
    if count == 0 {
        return Err(ParseError::MissingNonce);
    }
    if overflow {
        return Err(ParseError::NonceOverflow);
    }
    let mut body: Vec<u8> = Vec::new();
    let mut i: usize = count;
    while i < data.len()
        invariant
            count <= i <= s.len(),
            s == data@,
            body@ == s.subrange(count as int, i as int),
        decreases data.len() - i,
    {
        body.push(data[i]);
        i = i + 1;
    }
    assert(body@ == frame_body(s));
    match decode_json(body.as_slice()) {
        None => Err(ParseError::InvalidJson),
        Some(Json::Array(mut items)) => {
            if items.len() == 0 {
                return Err(ParseError::MissingEvent);
            }
            let first = items.remove(0);
            match first {
                Json::Str(event) => {
                    assert(items@ =~= frame_args(s));
                    Ok(EventMessage { nonce, event, args: items })
                },
                _ => Err(ParseError::EventNotString),
            }
        },
        Some(_) => Err(ParseError::NotAnArray),
    }
}

} // verus!

verus! {

/// A frame that is empty or does not start with an ASCII digit has no
/// nonce and is refused.
pub proof fn lemma_no_leading_digit_is_refused(s: Seq<u8>)
    requires
        s.len() == 0 || !is_digit(s[0]),
    ensures
        frame_error(s) == Some(ParseError::MissingNonce),
{
}

/// A frame whose body after the nonce is not JSON, is JSON but not an
/// array, or is an empty array, is refused.
pub proof fn lemma_bad_body_is_refused(s: Seq<u8>)
    requires
        match json_of(frame_body(s)) {
            Some(Json::Array(items)) => items@.len() == 0,
            _ => true,
        },
    ensures
        frame_error(s) is Some,
{
}

} // verus!

verus! {

pub open spec fn all_digits(s: Seq<u8>) -> bool {
    forall|k: int| 0 <= k < s.len() ==> is_digit(#[trigger] s[k])
}

/// The value of a non-empty run of ASCII digits that fits in a `u64`.
pub open spec fn decimal_of(s: Seq<u8>) -> Option<u64> {
    if s.len() > 0 && all_digits(s) && digits_value(s) <= u64::MAX {
        Some(digits_value(s) as u64)
    } else {
        None
    }
}

/// Reads a whole byte string as an unsigned decimal number.
pub fn parse_decimal(b: &[u8]) -> (r: Option<u64>)
    ensures
        r == decimal_of(b@),
{
    let ghost s = b@;
    let mut i: usize = 0;
    let mut value: u64 = 0;
    while i < b.len()
        invariant
            i <= s.len(),
            s == b@,
            all_digits(s.subrange(0, i as int)),
            value == digits_value(s.subrange(0, i as int)),
        decreases b.len() - i,
    {
        let c = b[i];
        if c < 48 || c > 57 {
            assert(!is_digit(s[i as int]));
            return None;
        }
        let d: u64 = (c - 48) as u64;
        let ghost sub = s.subrange(0, i + 1);
        assert(sub.drop_last() =~= s.subrange(0, i as int));
        assert(all_digits(sub));
        if value > 1844674407370955161 || (value == 1844674407370955161 && d > 5) {
            assert(digits_value(sub) > u64::MAX) by (nonlinear_arith)
                requires
                    digits_value(sub) == value * 10 + d,
                    value > 1844674407370955161 || (value == 1844674407370955161 && d > 5),
            ;
            assert forall|j: int| i + 1 <= j <= s.len() && all_digits(s.subrange(0, j)) implies
                digits_value(s.subrange(0, j)) > u64::MAX by {
                lemma_digits_grow(s, i + 1, j);
            }
            assert(s.subrange(0, s.len() as int) =~= s);
            return None;
        }
        assert(value * 10 + d <= u64::MAX) by (nonlinear_arith)
            requires
                value <= 1844674407370955161,
                value == 1844674407370955161 ==> d <= 5,
                d <= 9,
        ;
        value = value * 10 + d;
        i = i + 1;
    }
    assert(s.subrange(0, i as int) =~= s);
    if i == 0 {
        None
    } else {
        Some(value)
    }
}

/// Appending digits never makes the value smaller.
proof fn lemma_digits_grow(s: Seq<u8>, i: int, j: int)
    requires
        0 <= i <= j <= s.len(),
        all_digits(s.subrange(0, j)),
    ensures
        digits_value(s.subrange(0, i)) <= digits_value(s.subrange(0, j)),
    decreases j - i,
{
    if i < j {
        assert(s.subrange(0, j).drop_last() =~= s.subrange(0, j - 1));
        assert(all_digits(s.subrange(0, j - 1)));
        lemma_digits_grow(s, i, j - 1);
    }
}

} // verus!
