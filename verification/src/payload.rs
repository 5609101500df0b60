//! The outbound notification body: a JSON object with the message text
//! under the fixed `content` field, with standard JSON string escaping.

use vstd::prelude::*;
use vstd::string::{StringExecFns, StrSliceExecFns};
use crate::format::{digit_char, digit_str};

verus! {

/// The escape sequence for one character inside a JSON string literal:
/// quote, backslash and control characters are escaped, everything else
/// stands for itself.
pub open spec fn json_escape_char(c: char) -> Seq<char> {
    if c == '"' {
        seq!['\\', '"']
    } else if c == '\\' {
        seq!['\\', '\\']
    } else if c == '\u{8}' {
        seq!['\\', 'b']
    } else if c == '\t' {
        seq!['\\', 't']
    } else if c == '\n' {
        seq!['\\', 'n']
    } else if c == '\u{c}' {
        seq!['\\', 'f']
    } else if c == '\r' {
        seq!['\\', 'r']
    } else if (c as u32) < 0x20 {
        seq!['\\', 'u', '0', '0', digit_char(((c as u32) / 16) as nat), digit_char(
            ((c as u32) % 16) as nat,
        )]
    } else {
        seq![c]
    }
}

/// A whole text escaped for use inside a JSON string literal.
pub open spec fn json_escape(s: Seq<char>) -> Seq<char>
    decreases s.len(),
{
    if s.len() == 0 {
        Seq::empty()
    } else {
        json_escape(s.drop_last()) + json_escape_char(s.last())
    }
}

/// The JSON body delivered to the sink for a message.
pub open spec fn spec_payload(msg: Seq<char>) -> Seq<char> {
    "{\"content\":\""@ + json_escape(msg) + "\"}"@
}

/// Relies on `String::push` from std: appends exactly the one character
/// to the end of the string.
#[verifier::external_body]
fn push_char(out: &mut String, c: char)
    ensures
        final(out)@ == old(out)@ + seq![c],
{
    out.push(c);
}

/// Appends the escape sequence of one character.
fn append_escaped_char(out: &mut String, c: char)
    ensures
        final(out)@ == old(out)@ + json_escape_char(c),
{
    if c == '"' {
        out.append("\\\"");
        proof {
            reveal_strlit("\\\"");
            assert(out@ =~= old(out)@ + json_escape_char(c));
        }
    } else if c == '\\' {
        out.append("\\\\");
        proof {
            reveal_strlit("\\\\");
            assert(out@ =~= old(out)@ + json_escape_char(c));
        }
    } else if c == '\u{8}' {
        out.append("\\b");
        proof {
            reveal_strlit("\\b");
            assert(out@ =~= old(out)@ + json_escape_char(c));
        }
    } else if c == '\t' {
        out.append("\\t");
        proof {
            reveal_strlit("\\t");
            assert(out@ =~= old(out)@ + json_escape_char(c));
        }
    } else if c == '\n' {
        out.append("\\n");
        proof {
            reveal_strlit("\\n");
            assert(out@ =~= old(out)@ + json_escape_char(c));
        }
    } else if c == '\u{c}' {
        out.append("\\f");
        proof {
            reveal_strlit("\\f");
            assert(out@ =~= old(out)@ + json_escape_char(c));
        }
    } else if c == '\r' {
        out.append("\\r");
        proof {
            reveal_strlit("\\r");
            assert(out@ =~= old(out)@ + json_escape_char(c));
        }
    } else {
        let code: u32 = c as u32;
        if code < 0x20 {
            out.append("\\u00");
            out.append(digit_str((code / 16) as u8));
            out.append(digit_str((code % 16) as u8));
            proof {
                reveal_strlit("\\u00");
                assert(out@ =~= old(out)@ + json_escape_char(c));
            }
        } else {
            push_char(out, c);
            proof {
                assert(out@ =~= old(out)@ + json_escape_char(c));
            }
        }
    }
}

/// Builds the JSON notification body for a message.
pub fn notification_payload(msg: &str) -> (p: String)
    ensures
        p@ == spec_payload(msg@),
{
    let mut p = String::new();
    p.append("{\"content\":\"");
    let ghost prefix: Seq<char> = p@;
    let n: usize = msg.unicode_len();
    let mut i: usize = 0;
    while i < n
        invariant
            n == msg@.len(),
            i <= n,
            p@ == prefix + json_escape(msg@.take(i as int)),
        decreases n - i,
    {
        let c: char = msg.get_char(i);
        append_escaped_char(&mut p, c);
        proof {
            assert(msg@.take(i as int + 1).drop_last() =~= msg@.take(i as int));
            assert(msg@.take(i as int + 1).last() == c);
            assert(p@ =~= prefix + json_escape(msg@.take(i as int + 1)));
        }
        i = i + 1;
    }
    p.append("\"}");
    proof {
        assert(msg@.take(n as int) =~= msg@);
        assert(p@ =~= spec_payload(msg@));
    }
    p
}

} // verus!
