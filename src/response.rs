//! The synthetic JSON responses the proxy answers with itself.

use vstd::prelude::*;
use vstd::string::*;
use crate::text::{digit_char, append_digit};

verus! {

/// The content type of every synthetic response.
pub const CONTENT_TYPE: &'static str = "application/json";

/// A response generated by the proxy: a status and a JSON body.
#[derive(Clone, Debug, PartialEq, Eq)]
pub struct JsonResponse {
    pub status: u16,
    pub body: String,
}

/// One character as it stands inside a JSON string: `"` and `\` are escaped
/// with a backslash, control characters as `\u00XX`.
pub open spec fn escape_char(c: char) -> Seq<char> {
    if c == '"' {
        seq!['\\', '"']
    } else if c == '\\' {
        seq!['\\', '\\']
    } else if (c as u32) < 32 {
        seq!['\\', 'u', '0', '0', digit_char((c as u32 / 16) as int), digit_char((c as u32 % 16) as int)]
    } else {
        seq![c]
    }
}

/// Appends the `\u00XX` escape of a control character.
fn append_control_escape(body: &mut String, code: u32)
    requires
        code < 32,
    ensures
        final(body)@ == old(body)@ + seq!['\\', 'u', '0', '0', digit_char((code / 16) as int), digit_char((code % 16) as int)],
{
    proof {
        reveal_strlit("\\u00");
    }
    body.append("\\u00");
    append_digit(body, (code / 16) as u64);
    append_digit(body, (code % 16) as u64);
    assert(body@ =~= old(body)@ + seq!['\\', 'u', '0', '0', digit_char((code / 16) as int), digit_char((code % 16) as int)]);
}

/// A message as it stands inside a JSON string.
pub open spec fn json_escape(s: Seq<char>) -> Seq<char>
    decreases s.len(),
{
    if s.len() == 0 {
        Seq::empty()
    } else {
        json_escape(s.drop_last()) + escape_char(s.last())
    }
}

/// `{"error":"<msg>"}` with the message escaped.
pub open spec fn error_body(msg: Seq<char>) -> Seq<char> {
    seq!['{', '"', 'e', 'r', 'r', 'o', 'r', '"', ':', '"'] + json_escape(msg) + seq!['"', '}']
}

/// A response with `status` and the body `{"error":"<msg>"}`.
pub fn json_error(status: u16, msg: &str) -> (r: JsonResponse)
    ensures
        r.status == status,
        r.body@ == error_body(msg@),
{
    proof {
        reveal_strlit("{\"error\":\"");
        reveal_strlit("\"}");
    }
    let mut body = String::from_str("{\"error\":\"");
    let n = msg.unicode_len();
    let mut i: usize = 0;
    while i < n
        invariant
            n == msg@.len(),
            i <= n,
            body@ == seq!['{', '"', 'e', 'r', 'r', 'o', 'r', '"', ':', '"'] + json_escape(
                msg@.subrange(0, i as int),
            ),
        decreases n - i,
    {
        proof {
            reveal_strlit("\\\"");
            reveal_strlit("\\\\");
        }
        let ghost before = body@;
        let c = msg.get_char(i);
        if c == '"' {
            body.append("\\\"");
        } else if c == '\\' {
            body.append("\\\\");
        } else if (c as u32) < 32 {
            append_control_escape(&mut body, c as u32);
        } else {
            body.append(msg.substring_char(i, i + 1));
        }
        proof {
            let next = msg@.subrange(0, i + 1);
            assert(next.drop_last() =~= msg@.subrange(0, i as int));
            assert(next.last() == c);
            assert(body@ =~= before + escape_char(c));
        }
        i = i + 1;
    }
    assert(msg@.subrange(0, n as int) =~= msg@);
    body.append("\"}");
    JsonResponse { status, body }
}

} // verus!
