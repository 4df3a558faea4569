//! Encoding of string values into JSON wire text.
//!
//! The payloads this pipeline emits have a fixed key set, so the library
//! writes them out directly: each member value is a quoted string whose
//! characters are escaped as the JSON grammar demands. The short escapes
//! (`\"`, `\\`, `\b`, `\t`, `\n`, `\f`, `\r`) are used where they exist and
//! the remaining control characters take the `\u00XX` form; all other
//! characters stand for themselves.

use vstd::prelude::*;
use vstd::string::StrSliceExecFns;
use vstd::string::StringExecFns;

verus! {

broadcast use vstd::string::group_string_axioms;

/// The lower-case hexadecimal digit for `d` (0 to 15).
pub open spec fn hex_digit_char(d: int) -> char {
    if d == 0 {
        '0'
    } else if d == 1 {
        '1'
    } else if d == 2 {
        '2'
    } else if d == 3 {
        '3'
    } else if d == 4 {
        '4'
    } else if d == 5 {
        '5'
    } else if d == 6 {
        '6'
    } else if d == 7 {
        '7'
    } else if d == 8 {
        '8'
    } else if d == 9 {
        '9'
    } else if d == 10 {
        'a'
    } else if d == 11 {
        'b'
    } else if d == 12 {
        'c'
    } else if d == 13 {
        'd'
    } else if d == 14 {
        'e'
    } else {
        'f'
    }
}

/// How one character is written inside a JSON string literal.
pub open spec fn json_escape_char_spec(c: char) -> Seq<char> {
    if c == '"' {
        seq!['\\', '"']
    } else if c == '\\' {
        seq!['\\', '\\']
    } else if c == '\u{8}' {
        seq!['\\', 'b']
    } else if c == '\u{9}' {
        seq!['\\', 't']
    } else if c == '\u{A}' {
        seq!['\\', 'n']
    } else if c == '\u{C}' {
        seq!['\\', 'f']
    } else if c == '\u{D}' {
        seq!['\\', 'r']
    } else if (c as u32) < 32 {
        seq!['\\', 'u', '0', '0', hex_digit_char((c as u32) as int / 16), hex_digit_char(
            (c as u32) as int % 16,
        )]
    } else {
        seq![c]
    }
}

/// The body of a JSON string literal holding the characters `s`.
pub open spec fn json_escape_spec(s: Seq<char>) -> Seq<char>
    decreases s.len(),
{
    if s.len() == 0 {
        Seq::empty()
    } else {
        json_escape_spec(s.drop_last()) + json_escape_char_spec(s.last())
    }
}

/// The full JSON string literal for `s`: a quote, the escaped body, a quote.
pub open spec fn json_quoted_spec(s: Seq<char>) -> Seq<char> {
    seq!['"'] + json_escape_spec(s) + seq!['"']
}

/// The `\u00XX` escape for a control character.
fn control_escape(c: char) -> (r: &'static str)
    requires
        (c as u32) < 32,
    ensures
        r@ == seq![
            '\\',
            'u',
            '0',
            '0',
            hex_digit_char((c as u32) as int / 16),
            hex_digit_char((c as u32) as int % 16),
        ],
{
    proof {
        reveal_strlit("\\u0000");
        reveal_strlit("\\u0001");
        reveal_strlit("\\u0002");
        reveal_strlit("\\u0003");
        reveal_strlit("\\u0004");
        reveal_strlit("\\u0005");
        reveal_strlit("\\u0006");
        reveal_strlit("\\u0007");
        reveal_strlit("\\u0008");
        reveal_strlit("\\u0009");
        reveal_strlit("\\u000a");
        reveal_strlit("\\u000b");
        reveal_strlit("\\u000c");
        reveal_strlit("\\u000d");
        reveal_strlit("\\u000e");
        reveal_strlit("\\u000f");
        reveal_strlit("\\u0010");
        reveal_strlit("\\u0011");
        reveal_strlit("\\u0012");
        reveal_strlit("\\u0013");
        reveal_strlit("\\u0014");
        reveal_strlit("\\u0015");
        reveal_strlit("\\u0016");
        reveal_strlit("\\u0017");
        reveal_strlit("\\u0018");
        reveal_strlit("\\u0019");
        reveal_strlit("\\u001a");
        reveal_strlit("\\u001b");
        reveal_strlit("\\u001c");
        reveal_strlit("\\u001d");
        reveal_strlit("\\u001e");
        reveal_strlit("\\u001f");
    }
    let code: u32 = c as u32;
    match code {
        0 => "\\u0000",
        1 => "\\u0001",
        2 => "\\u0002",
        3 => "\\u0003",
        4 => "\\u0004",
        5 => "\\u0005",
        6 => "\\u0006",
        7 => "\\u0007",
        8 => "\\u0008",
        9 => "\\u0009",
        10 => "\\u000a",
        11 => "\\u000b",
        12 => "\\u000c",
        13 => "\\u000d",
        14 => "\\u000e",
        15 => "\\u000f",
        16 => "\\u0010",
        17 => "\\u0011",
        18 => "\\u0012",
        19 => "\\u0013",
        20 => "\\u0014",
        21 => "\\u0015",
        22 => "\\u0016",
        23 => "\\u0017",
        24 => "\\u0018",
        25 => "\\u0019",
        26 => "\\u001a",
        27 => "\\u001b",
        28 => "\\u001c",
        29 => "\\u001d",
        30 => "\\u001e",
        _ => {
            proof {
                assert(code == 31);
            }
            "\\u001f"
        },
    }
}

/// Escapes `s` as the body of a JSON string literal.
pub fn json_escape(s: &str) -> (r: String)
    ensures
        r@ == json_escape_spec(s@),
{
    let len = s.unicode_len();
    let mut out = String::new();
    let mut i: usize = 0;
    while i < len
        invariant
            i <= len,
            len == s@.len(),
            out@ == json_escape_spec(s@.take(i as int)),
        decreases len - i,
    {
        proof {
            reveal_strlit("\\\"");
            reveal_strlit("\\\\");
            reveal_strlit("\\b");
            reveal_strlit("\\t");
            reveal_strlit("\\n");
            reveal_strlit("\\f");
            reveal_strlit("\\r");
        }
        let c = s.get_char(i);
        if c == '"' {
            out.append("\\\"");
        } else if c == '\\' {
            out.append("\\\\");
        } else if c == '\u{8}' {
            out.append("\\b");
        } else if c == '\u{9}' {
            out.append("\\t");
        } else if c == '\u{A}' {
            out.append("\\n");
        } else if c == '\u{C}' {
            out.append("\\f");
        } else if c == '\u{D}' {
            out.append("\\r");
        } else {
            let code: u32 = c as u32;
            if code < 32 {
                let piece = control_escape(c);
                out.append(piece);
            } else {
                let piece = s.substring_char(i, i + 1);
                out.append(piece);
                proof {
                    assert(piece@ =~= seq![s@[i as int]]);
                }
            }
        }
        proof {
            assert(s@.take(i + 1).drop_last() =~= s@.take(i as int));
            assert(s@.take(i + 1).last() == s@[i as int]);
            assert(out@ =~= json_escape_spec(s@.take(i as int)) + json_escape_char_spec(
                s@[i as int],
            ));
        }
        i = i + 1;
    }
    proof {
        assert(s@.take(len as int) =~= s@);
    }
    out
}

/// Writes `s` as a complete JSON string literal, quotes included.
pub fn json_quote(s: &str) -> (r: String)
    ensures
        r@ == json_quoted_spec(s@),
{
    proof {
        reveal_strlit("\"");
    }
    let mut out = String::from_str("\"");
    let body = json_escape(s);
    out.append(body.as_str());
    out.append("\"");
    proof {
        assert(out@ =~= json_quoted_spec(s@));
    }
    out
}

/// Whether no character of `t` is a colon.
pub open spec fn colon_free(t: Seq<char>) -> bool {
    forall|i: int| 0 <= i < t.len() ==> t[i] != ':'
}

/// The characters after the last colon of `s`, or `None` when `s` has no
/// colon at all.
pub open spec fn after_last_colon(s: Seq<char>) -> Option<Seq<char>>
    decreases s.len(),
{
    if s.len() == 0 {
        None
    } else if s.last() == ':' {
        Some(Seq::empty())
    } else {
        match after_last_colon(s.drop_last()) {
            Some(t) => Some(t.push(s.last())),
            None => None,
        }
    }
}

/// After a colon, a colon-free tail is read back exactly.
pub proof fn lemma_after_last_colon_append(prefix: Seq<char>, t: Seq<char>)
    requires
        colon_free(t),
    ensures
        after_last_colon(prefix + seq![':'] + t) == Some(t),
    decreases t.len(),
{
    let s = prefix + seq![':'] + t;
    if t.len() == 0 {
        assert(s.last() == ':');
        assert(after_last_colon(s) == Some(Seq::<char>::empty()));
        assert(Seq::<char>::empty() =~= t);
    } else {
        assert(s.last() == t.last());
        assert(t.last() != ':');
        assert(s.drop_last() =~= prefix + seq![':'] + t.drop_last());
        assert(colon_free(t.drop_last()));
        lemma_after_last_colon_append(prefix, t.drop_last());
        assert(after_last_colon(s) == Some(t.drop_last().push(t.last())));
        assert(t.drop_last().push(t.last()) =~= t);
    }
}

/// A string with no colon has nothing after a last colon.
pub proof fn lemma_after_last_colon_none(s: Seq<char>)
    requires
        colon_free(s),
    ensures
        after_last_colon(s) is None,
    decreases s.len(),
{
    if s.len() > 0 {
        lemma_after_last_colon_none(s.drop_last());
    }
}

} // verus!
