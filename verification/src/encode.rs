//! Rendering the handshake acknowledgement as a JSON body, with the
//! challenge string escaped as JSON demands.

use vstd::prelude::*;
use vstd::string::StrSliceExecFns;
use vstd::string::StringExecFns;
use crate::webhook::VerificationResponse;

verus! {

/// The hexadecimal digit for a nibble.
pub open spec fn hex_char(n: int) -> char {
    if n == 0 {
        '0'
    } else if n == 1 {
        '1'
    } else if n == 2 {
        '2'
    } else if n == 3 {
        '3'
    } else if n == 4 {
        '4'
    } else if n == 5 {
        '5'
    } else if n == 6 {
        '6'
    } else if n == 7 {
        '7'
    } else if n == 8 {
        '8'
    } else if n == 9 {
        '9'
    } else if n == 10 {
        'a'
    } else if n == 11 {
        'b'
    } else if n == 12 {
        'c'
    } else if n == 13 {
        'd'
    } else if n == 14 {
        'e'
    } else {
        'f'
    }
}

/// How one character appears inside a JSON string literal: quotes and
/// backslashes gain a backslash, control characters become `\u00` plus
/// two hexadecimal digits, everything else stands as it is.
pub open spec fn escape_char(c: char) -> Seq<char> {
    if c == '"' {
        seq!['\\', '"']
    } else if c == '\\' {
        seq!['\\', '\\']
    } else if (c as u32) < 32 {
        seq!['\\', 'u', '0', '0', hex_char((c as u32) as int / 16), hex_char(
            (c as u32) as int % 16,
        )]
    } else {
        seq![c]
    }
}

/// A whole string escaped for use inside a JSON string literal.
pub open spec fn json_escape(s: Seq<char>) -> Seq<char>
    decreases s.len(),
{
    if s.len() == 0 {
        Seq::empty()
    } else {
        escape_char(s[0]) + json_escape(s.drop_first())
    }
}

proof fn lemma_escape_snoc(s: Seq<char>, c: char)
    ensures
        json_escape(s.push(c)) == json_escape(s) + escape_char(c),
    decreases s.len(),
{
    assert(s.push(c)[0] == if s.len() == 0 {
        c
    } else {
        s[0]
    });
    if s.len() == 0 {
        assert(s.push(c).drop_first() =~= Seq::<char>::empty());
        assert(json_escape(Seq::<char>::empty()) == Seq::<char>::empty());
        assert(json_escape(s.push(c)) == escape_char(c) + json_escape(Seq::<char>::empty()));
        assert(json_escape(s.push(c)) =~= json_escape(s) + escape_char(c));
    } else {
        assert(s.push(c).drop_first() =~= s.drop_first().push(c));
        lemma_escape_snoc(s.drop_first(), c);
        assert(json_escape(s.push(c)) == escape_char(s[0]) + json_escape(s.drop_first().push(c)));
        assert(escape_char(s[0]) + (json_escape(s.drop_first()) + escape_char(c)) =~= (escape_char(
            s[0],
        ) + json_escape(s.drop_first())) + escape_char(c));
        assert(json_escape(s.push(c)) =~= json_escape(s) + escape_char(c));
    }
}

fn hex_low(n: u32) -> (r: &'static str)
    requires
        n < 16,
    ensures
        r@ == seq![hex_char(n as int)],
{
    proof {
        reveal_strlit("0");
        reveal_strlit("1");
        reveal_strlit("2");
        reveal_strlit("3");
        reveal_strlit("4");
        reveal_strlit("5");
        reveal_strlit("6");
        reveal_strlit("7");
        reveal_strlit("8");
        reveal_strlit("9");
        reveal_strlit("a");
        reveal_strlit("b");
        reveal_strlit("c");
        reveal_strlit("d");
        reveal_strlit("e");
        reveal_strlit("f");
    }
    let r = if n == 0 {
        "0"
    } else if n == 1 {
        "1"
    } else if n == 2 {
        "2"
    } else if n == 3 {
        "3"
    } else if n == 4 {
        "4"
    } else if n == 5 {
        "5"
    } else if n == 6 {
        "6"
    } else if n == 7 {
        "7"
    } else if n == 8 {
        "8"
    } else if n == 9 {
        "9"
    } else if n == 10 {
        "a"
    } else if n == 11 {
        "b"
    } else if n == 12 {
        "c"
    } else if n == 13 {
        "d"
    } else if n == 14 {
        "e"
    } else {
        "f"
    };
    proof {
        assert(r@ =~= seq![hex_char(n as int)]);
    }
    r
}

/// Escape a string for use inside a JSON string literal.
pub fn escape_json(s: &str) -> (out: String)
    ensures
        out@ == json_escape(s@),
{
    let n = s.unicode_len();
    let mut out = String::new();
    let mut i: usize = 0;
    while i < n
        invariant
            n == s@.len(),
            0 <= i <= n,
            out@ == json_escape(s@.subrange(0, i as int)),
        decreases n - i,
    {
        let c = s.get_char(i);
        proof {
            assert(s@.subrange(0, i as int).push(c) =~= s@.subrange(0, i as int + 1));
            lemma_escape_snoc(s@.subrange(0, i as int), c);
        }
        if c == '"' {
            out.append("\\\"");
            proof {
                reveal_strlit("\\\"");
                assert(("\\\"")@ =~= escape_char(c));
            }
        } else if c == '\\' {
            out.append("\\\\");
            proof {
                reveal_strlit("\\\\");
                assert(("\\\\")@ =~= escape_char(c));
            }
        } else if (c as u32) < 32 {
            out.append("\\u00");
            let code = c as u32;
            let hi = if code >= 16 {
                "1"
            } else {
                "0"
            };
            out.append(hi);
            out.append(hex_low(code % 16));
            proof {
                reveal_strlit("\\u00");
                reveal_strlit("0");
                reveal_strlit("1");
                assert(("\\u00")@ + hi@ + seq![hex_char(code as int % 16)] =~= escape_char(c));
            }
        } else {
            let piece = s.substring_char(i, i + 1);
            out.append(piece);
            proof {
                assert(piece@ =~= escape_char(c));
            }
        }
        i = i + 1;
        proof {
            assert(out@ =~= json_escape(s@.subrange(0, i as int)));
        }
    }
    proof {
        assert(s@.subrange(0, n as int) =~= s@);
    }
    out
}

/// The value of a hexadecimal digit as this encoder writes them, or -1
/// for any other character.
pub open spec fn hex_val(c: char) -> int {
    if c == '0' {
        0
    } else if c == '1' {
        1
    } else if c == '2' {
        2
    } else if c == '3' {
        3
    } else if c == '4' {
        4
    } else if c == '5' {
        5
    } else if c == '6' {
        6
    } else if c == '7' {
        7
    } else if c == '8' {
        8
    } else if c == '9' {
        9
    } else if c == 'a' {
        10
    } else if c == 'b' {
        11
    } else if c == 'c' {
        12
    } else if c == 'd' {
        13
    } else if c == 'e' {
        14
    } else if c == 'f' {
        15
    } else {
        -1
    }
}

/// The character with a given code, for codes a `\u00` escape can carry.
pub open spec fn char_of_code(n: int) -> char {
    (n as u32) as char
}

/// Reading a JSON-escaped string back: the inverse reading of
/// `json_escape`'s output, undefined on text that is not a well-formed
/// escape of anything.
pub open spec fn json_unescape(s: Seq<char>) -> Option<Seq<char>>
    decreases s.len(),
{
    if s.len() == 0 {
        Some(Seq::empty())
    } else if s[0] == '\\' {
        if s.len() >= 2 && (s[1] == '"' || s[1] == '\\') {
            match json_unescape(s.skip(2)) {
                Some(t) => Some(seq![s[1]] + t),
                None => None,
            }
        } else if s.len() >= 6 && s[1] == 'u' && s[2] == '0' && s[3] == '0' && hex_val(s[4]) >= 0
            && hex_val(s[5]) >= 0 {
            match json_unescape(s.skip(6)) {
                Some(t) => Some(seq![char_of_code(16 * hex_val(s[4]) + hex_val(s[5]))] + t),
                None => None,
            }
        } else {
            None
        }
    } else if (s[0] as u32) < 32 || s[0] == '"' {
        None
    } else {
        match json_unescape(s.skip(1)) {
            Some(t) => Some(seq![s[0]] + t),
            None => None,
        }
    }
}

/// The echo law: escaping loses nothing.  Whatever challenge string the
/// provider sent — empty, unicode, full of quotes — reading the escaped
/// form back yields that string exactly.
pub proof fn lemma_escape_unescape(s: Seq<char>)
    ensures
        json_unescape(json_escape(s)) == Some(s),
    decreases s.len(),
{
    if s.len() == 0 {
    } else {
        let c = s[0];
        let e = escape_char(c);
        let rest = json_escape(s.drop_first());
        let whole = json_escape(s);
        lemma_escape_unescape(s.drop_first());
        assert(whole == e + rest);
        assert(forall|i: int| 0 <= i < e.len() ==> whole[i] == e[i]);
        if c == '"' || c == '\\' {
            assert(whole.skip(2) =~= rest);
            assert(json_unescape(whole) == Some(seq![c] + s.drop_first()));
            assert(seq![c] + s.drop_first() =~= s);
        } else if (c as u32) < 32 {
            let code = (c as u32) as int;
            assert(hex_val(hex_char(code / 16)) == code / 16);
            assert(hex_val(hex_char(code % 16)) == code % 16);
            assert(16 * (code / 16) + code % 16 == code);
            vstd::utf8::char_u32_cast(c, c as u32);
            assert(char_of_code(code) == c);
            assert(whole.skip(6) =~= rest);
            assert(json_unescape(whole) == Some(seq![c] + s.drop_first()));
            assert(seq![c] + s.drop_first() =~= s);
        } else {
            assert(whole.skip(1) =~= rest);
            assert(json_unescape(whole) == Some(seq![c] + s.drop_first()));
            assert(seq![c] + s.drop_first() =~= s);
        }
    }
}

/// The acknowledgement body: a JSON object whose one field `hub.challenge`
/// carries the escaped challenge.
pub open spec fn ack_body(challenge: Seq<char>) -> Seq<char> {
    "{\"hub.challenge\":\""@ + json_escape(challenge) + "\"}"@
}

/// Render the handshake acknowledgement as its JSON body.
pub fn encode_verification_response(resp: &VerificationResponse) -> (body: String)
    ensures
        body@ == ack_body(resp.challenge@),
{
    let mut out = String::from_str("{\"hub.challenge\":\"");
    let escaped = escape_json(resp.challenge.as_str());
    out.append(escaped.as_str());
    out.append("\"}");
    proof {
        assert(out@ =~= ack_body(resp.challenge@));
    }
    out
}

} // verus!
