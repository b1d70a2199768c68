use vstd::prelude::*;
use vstd::string::StrSliceExecFns;
use vstd::string::StringExecFns;
use crate::errors::ClientError;

verus! {

/// The lower-case hexadecimal digit for a value below 16.
pub open spec fn hex_digit_spec(n: int) -> char {
    if n == 0 { '0' }
    else if n == 1 { '1' }
    else if n == 2 { '2' }
    else if n == 3 { '3' }
    else if n == 4 { '4' }
    else if n == 5 { '5' }
    else if n == 6 { '6' }
    else if n == 7 { '7' }
    else if n == 8 { '8' }
    else if n == 9 { '9' }
    else if n == 10 { 'a' }
    else if n == 11 { 'b' }
    else if n == 12 { 'c' }
    else if n == 13 { 'd' }
    else if n == 14 { 'e' }
    else { 'f' }
}

/// How one character is written inside a JSON string literal: quotes and
/// backslashes get a backslash escape, control characters get their short
/// escape or a `\u00XX` escape, and every other character stands as itself.
pub open spec fn escape_char_spec(c: char) -> Seq<char> {
    if c == '"' { seq!['\\', '"'] }
    else if c == '\\' { seq!['\\', '\\'] }
    else if c == '\n' { seq!['\\', 'n'] }
    else if c == '\r' { seq!['\\', 'r'] }
    else if c == '\t' { seq!['\\', 't'] }
    else if (c as u32) < 0x20 {
        seq!['\\', 'u', '0', '0', hex_digit_spec(c as u32 as int / 16), hex_digit_spec(c as u32 as int % 16)]
    }
    else { seq![c] }
}

/// A whole string written as the contents of a JSON string literal.
pub open spec fn escape_spec(s: Seq<char>) -> Seq<char>
    decreases s.len(),
{
    if s.len() == 0 {
        Seq::empty()
    } else {
        escape_char_spec(s[0]) + escape_spec(s.drop_first())
    }
}

proof fn lemma_escape_push(s: Seq<char>, c: char)
    ensures
        escape_spec(s.push(c)) == escape_spec(s) + escape_char_spec(c),
    decreases s.len(),
{
    if s.len() == 0 {
        assert(s.push(c)[0] == c);
        assert(s.push(c).drop_first() =~= Seq::<char>::empty());
        assert(escape_spec(Seq::<char>::empty()) == Seq::<char>::empty());
        assert(escape_spec(s.push(c)) == escape_char_spec(c) + escape_spec(Seq::<char>::empty()));
        assert(escape_spec(s.push(c)) =~= escape_char_spec(c));
        assert(escape_spec(s) + escape_char_spec(c) =~= escape_char_spec(c));
    } else {
        assert(s.push(c).drop_first() =~= s.drop_first().push(c));
        lemma_escape_push(s.drop_first(), c);
        assert(escape_spec(s.push(c)) =~= escape_spec(s) + escape_char_spec(c));
    }
}

/// The lower-case hexadecimal digit for a value below 16, as a one-character
/// string slice.
fn hex_digit(n: u32) -> (r: &'static str)
    requires
        n < 16,
    ensures
        r@ =~= seq![hex_digit_spec(n as int)],
{
    proof {
        reveal_strlit("0");
        reveal_strlit("1");
        reveal_strlit("2");
        reveal_strlit("3");
        reveal_strlit("4");
        reveal_strlit("5");
        reveal_strlit("6");
        reveal_strlit("7");
        reveal_strlit("8");
        reveal_strlit("9");
        reveal_strlit("a");
        reveal_strlit("b");
        reveal_strlit("c");
        reveal_strlit("d");
        reveal_strlit("e");
        reveal_strlit("f");
    }
    if n == 0 { "0" }
    else if n == 1 { "1" }
    else if n == 2 { "2" }
    else if n == 3 { "3" }
    else if n == 4 { "4" }
    else if n == 5 { "5" }
    else if n == 6 { "6" }
    else if n == 7 { "7" }
    else if n == 8 { "8" }
    else if n == 9 { "9" }
    else if n == 10 { "a" }
    else if n == 11 { "b" }
    else if n == 12 { "c" }
    else if n == 13 { "d" }
    else if n == 14 { "e" }
    else { "f" }
}

/// Writes a string as the contents of a JSON string literal. The result never
/// contains an unescaped quote, backslash or control character, so enclosing
/// it in quotes always yields a well-formed JSON string.
pub fn escape_json(s: &str) -> (r: String)
    ensures
        r@ == escape_spec(s@),
{
    let n = s.unicode_len();
    let mut out = String::new();
    let mut i: usize = 0;
    while i < n
        invariant
            i <= n,
            n == s@.len(),
            out@ == escape_spec(s@.take(i as int)),
        decreases n - i,
    {
        let c = s.get_char(i);
        if c == '"' {
            out.append("\\\"");
            proof {
                reveal_strlit("\\\"");
                assert("\\\""@ =~= escape_char_spec(c));
            }
        } else if c == '\\' {
            out.append("\\\\");
            proof {
                reveal_strlit("\\\\");
                assert("\\\\"@ =~= escape_char_spec(c));
            }
        } else if c == '\n' {
            out.append("\\n");
            proof {
                reveal_strlit("\\n");
                assert("\\n"@ =~= escape_char_spec(c));
            }
        } else if c == '\r' {
            out.append("\\r");
            proof {
                reveal_strlit("\\r");
                assert("\\r"@ =~= escape_char_spec(c));
            }
        } else if c == '\t' {
            out.append("\\t");
            proof {
                reveal_strlit("\\t");
                assert("\\t"@ =~= escape_char_spec(c));
            }
        } else if (c as u32) < 0x20 {
            let ghost before: Seq<char> = out@;
            out.append("\\u00");
            out.append(hex_digit((c as u32) / 16));
            out.append(hex_digit((c as u32) % 16));
            proof {
                reveal_strlit("\\u00");
                assert("\\u00"@ =~= seq!['\\', 'u', '0', '0']);
                assert(out@ =~= before + escape_char_spec(c));
            }
        } else {
            let piece = s.substring_char(i, i + 1);
            out.append(piece);
            proof {
                assert(piece@ =~= seq![c]);
                assert(escape_char_spec(c) =~= seq![c]);
            }
        }
        proof {
            lemma_escape_push(s@.take(i as int), s@[i as int]);
            assert(s@.take(i + 1 as int) =~= s@.take(i as int).push(s@[i as int]));
        }
        i = i + 1;
    }
    proof {
        assert(s@.take(n as int) =~= s@);
    }
    out
}

/// The error envelope for one message: a response-shaped document whose data
/// payload is absent and whose error list holds exactly one entry carrying the
/// message text, with no location or path metadata.
pub open spec fn envelope_spec(msg: Seq<char>) -> Seq<char> {
    "{\"errors\":[{\"message\":\""@ + escape_spec(msg) + "\"}]}"@
}

/// Converts any client error into the serialized error envelope carrying the
/// error's display message as the single entry. Pure; cannot fail.
pub fn render_client_error(e: &ClientError) -> (r: String)
    ensures
        r@ == envelope_spec(e.message_spec()),
{
    let msg = e.message();
    let escaped = escape_json(msg.as_str());
    let mut out = String::from_str("{\"errors\":[{\"message\":\"");
    out.append(escaped.as_str());
    out.append("\"}]}");
    proof {
        assert(out@ =~= envelope_spec(e.message_spec()));
    }
    out
}

} // verus!
