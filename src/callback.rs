use vstd::prelude::*;
use vstd::string::{StrSliceExecFns, StringExecFns};
use vstd::utf8::{decode_utf8, encode_utf8, valid_utf8};

verus! {

/// The port on the local host where the authorization callback arrives.
pub const CALLBACK_PORT: u16 = 8888;

/// The length of the request span that holds the code and the state:
/// `GET /callback?code=`, the code, `&state=`, the state.
pub const REQUEST_SPAN_LEN: usize = 318;

/// Where the authorization code begins and ends in the request span.
pub const CODE_START: usize = 19;
pub const CODE_END: usize = 295;

/// Where the anti-forgery state begins in the request span.
pub const STATE_START: usize = 302;

/// What the request span holds before the code.
pub const REQUEST_PREFIX: &'static str = "GET /callback?code=";

/// What the request span holds between the code and the state.
pub const STATE_SEPARATOR: &'static str = "&state=";

/// What the callback answers once it has the code.
pub const CALLBACK_RESPONSE: &'static str = "HTTP/1.1 200 OK\ncontent-length: 39\ncontent-type: text/plain\n\nSuccess! You may now close this window.";

/// The request span is well formed: ASCII text of the expected length that
/// reads `GET /callback?code=`, the code, `&state=`, the state.
pub open spec fn well_formed_span(b: Seq<u8>) -> bool {
    &&& b.len() == REQUEST_SPAN_LEN
    &&& valid_utf8(b)
    &&& vstd::utf8::is_ascii_chars(decode_utf8(b))
    &&& decode_utf8(b).subrange(0, CODE_START as int) == REQUEST_PREFIX@
    &&& decode_utf8(b).subrange(CODE_END as int, STATE_START as int) == STATE_SEPARATOR@
}

/// Relies on `String::from_utf8`: it accepts exactly the valid UTF-8 byte
/// sequences and decodes them.
#[verifier::external_body]
fn decode_text(b: &[u8]) -> (r: Option<String>)
    ensures
        r is Some <==> valid_utf8(b@),
        r matches Some(s) ==> s@ == decode_utf8(b@),
{
    String::from_utf8(b.to_vec()).ok()
}

/// The authorization code and the anti-forgery state that the request span
/// carries at their fixed places, or `None` where the span is malformed and
/// the connection is to be dropped.
pub fn parse_callback_request(span: &[u8]) -> (r: Option<(String, String)>)
    ensures
        r is Some <==> well_formed_span(span@),
        r matches Some((code, state)) ==> {
            &&& code@ == decode_utf8(span@).subrange(CODE_START as int, CODE_END as int)
            &&& state@ == decode_utf8(span@).subrange(STATE_START as int, REQUEST_SPAN_LEN as int)
        },
{
    if span.len() != REQUEST_SPAN_LEN {
        return None;
    }
    let text = match decode_text(span) {
        Some(t) => t,
        None => return None,
    };
    let s = text.as_str();
    if !s.is_ascii() {
        return None;
    }
    proof {
        vstd::utf8::decode_utf8_encode_utf8(span@);
        vstd::utf8::is_ascii_chars_encode_utf8(s@);
        assert(s@.len() == encode_utf8(s@).len());
    }
    let prefix = s.substring_ascii(0, CODE_START).to_owned();
    if prefix != String::from_str(REQUEST_PREFIX) {
        return None;
    }
    let separator = s.substring_ascii(CODE_END, STATE_START).to_owned();
    if separator != String::from_str(STATE_SEPARATOR) {
        return None;
    }
    let code = s.substring_ascii(CODE_START, CODE_END).to_owned();
    let state = s.substring_ascii(STATE_START, REQUEST_SPAN_LEN).to_owned();
    Some((code, state))
}

} // verus!
