//! Rendering of write instructions into bytes: the destination path derived
//! from a destination key, and the JSON object `{"id":...,"name":...}` that
//! is persisted for a currency. Both are functions of the instruction
//! alone, so equal instructions always render identically.

use vstd::prelude::*;

use crate::engine::{DestKey, DestKeyV, WriteInstruction, WriteInstructionV};
use crate::model::{Currency, CurrencyV};

verus! {

/// Relies on String::push: appends exactly the given character.
#[verifier::external_body]
fn push_char(s: &mut String, c: char)
    ensures
        final(s)@ == old(s)@.push(c),
{
    s.push(c);
}

/// The character for one hexadecimal digit (lower case).
pub open spec fn hex_digit(n: int) -> char {
    if n == 0 {
        '0'
    } else if n == 1 {
        '1'
    } else if n == 2 {
        '2'
    } else if n == 3 {
        '3'
    } else if n == 4 {
        '4'
    } else if n == 5 {
        '5'
    } else if n == 6 {
        '6'
    } else if n == 7 {
        '7'
    } else if n == 8 {
        '8'
    } else if n == 9 {
        '9'
    } else if n == 10 {
        'a'
    } else if n == 11 {
        'b'
    } else if n == 12 {
        'c'
    } else if n == 13 {
        'd'
    } else if n == 14 {
        'e'
    } else {
        'f'
    }
}

fn hex_digit_exec(n: u32) -> (c: char)
    requires
        n < 16,
    ensures
        c == hex_digit(n as int),
{
    if n == 0 {
        '0'
    } else if n == 1 {
        '1'
    } else if n == 2 {
        '2'
    } else if n == 3 {
        '3'
    } else if n == 4 {
        '4'
    } else if n == 5 {
        '5'
    } else if n == 6 {
        '6'
    } else if n == 7 {
        '7'
    } else if n == 8 {
        '8'
    } else if n == 9 {
        '9'
    } else if n == 10 {
        'a'
    } else if n == 11 {
        'b'
    } else if n == 12 {
        'c'
    } else if n == 13 {
        'd'
    } else if n == 14 {
        'e'
    } else {
        'f'
    }
}

/// How one character appears inside a JSON string literal: quote and
/// backslash are escaped, the named control characters use their short
/// escapes, every other control character uses `\u00` and two hex digits,
/// and everything else stands for itself.
pub open spec fn escape_char(c: char) -> Seq<char> {
    if c == '"' {
        seq!['\\', '"']
    } else if c == '\\' {
        seq!['\\', '\\']
    } else if c == '\u{8}' {
        seq!['\\', 'b']
    } else if c == '\t' {
        seq!['\\', 't']
    } else if c == '\n' {
        seq!['\\', 'n']
    } else if c == '\u{c}' {
        seq!['\\', 'f']
    } else if c == '\r' {
        seq!['\\', 'r']
    } else if (c as u32) < 0x20 {
        seq!['\\', 'u', '0', '0', hex_digit((c as u32) as int / 16), hex_digit(
            (c as u32) as int % 16,
        )]
    } else {
        seq![c]
    }
}

/// The body of a JSON string literal holding the given text: each
/// character escaped as [`escape_char`] says, in order.
pub open spec fn json_escaped(s: Seq<char>) -> Seq<char>
    decreases s.len(),
{
    if s.len() == 0 {
        Seq::empty()
    } else {
        json_escaped(s.drop_last()) + escape_char(s.last())
    }
}

fn append_escaped(r: &mut String, c: char)
    ensures
        final(r)@ == old(r)@ + escape_char(c),
{
    if c == '"' {
        r.append("\\\"");
        proof {
            reveal_strlit("\\\"");
            assert(("\\\"")@ =~= escape_char(c));
        }
    } else if c == '\\' {
        r.append("\\\\");
        proof {
            reveal_strlit("\\\\");
            assert(("\\\\")@ =~= escape_char(c));
        }
    } else if c == '\u{8}' {
        r.append("\\b");
        proof {
            reveal_strlit("\\b");
            assert(("\\b")@ =~= escape_char(c));
        }
    } else if c == '\t' {
        r.append("\\t");
        proof {
            reveal_strlit("\\t");
            assert(("\\t")@ =~= escape_char(c));
        }
    } else if c == '\n' {
        r.append("\\n");
        proof {
            reveal_strlit("\\n");
            assert(("\\n")@ =~= escape_char(c));
        }
    } else if c == '\u{c}' {
        r.append("\\f");
        proof {
            reveal_strlit("\\f");
            assert(("\\f")@ =~= escape_char(c));
        }
    } else if c == '\r' {
        r.append("\\r");
        proof {
            reveal_strlit("\\r");
            assert(("\\r")@ =~= escape_char(c));
        }
    } else {
        let v = c as u32;
        if v < 0x20 {
            let ghost before = r@;
            r.append("\\u00");
            push_char(r, hex_digit_exec(v / 16));
            push_char(r, hex_digit_exec(v % 16));
            proof {
                reveal_strlit("\\u00");
                assert(r@ =~= before + escape_char(c));
            }
        } else {
            push_char(r, c);
            proof {
                assert(old(r)@.push(c) =~= old(r)@ + escape_char(c));
            }
        }
    }
}

/// Renders the body of a JSON string literal holding the given text.
pub fn escape_json_string(s: &str) -> (r: String)
    ensures
        r@ == json_escaped(s@),
{
    let n = s.unicode_len();
    let mut r = String::new();
    let mut i: usize = 0;
    while i < n
        invariant
            n == s@.len(),
            i <= n,
            r@ == json_escaped(s@.take(i as int)),
        decreases n - i,
    {
        let c = s.get_char(i);
        append_escaped(&mut r, c);
        proof {
            assert(s@.take(i as int + 1).drop_last() =~= s@.take(i as int));
            assert(s@.take(i as int + 1).last() == c);
        }
        i += 1;
    }
    proof {
        assert(s@.take(n as int) =~= s@);
    }
    r
}

/// The destination path of a key, relative to the output root: canonical
/// artifacts under `currencies/`, source-scoped artifacts under
/// `sources/<source id>/currencies/`.
pub open spec fn path_spec(k: DestKeyV) -> Seq<char> {
    match k {
        DestKeyV::Canonical { currency_id } => "currencies/"@ + currency_id,
        DestKeyV::SourceScoped { source_id, local_id } => "sources/"@ + source_id + "/currencies/"@
            + local_id,
    }
}

/// Renders the destination path of a key, relative to the output root.
pub fn render_path(k: &DestKey) -> (r: String)
    ensures
        r@ == path_spec(k@),
{
    match k {
        DestKey::Canonical { currency_id } => {
            let mut r = String::from_str("currencies/");
            r.append(currency_id.as_str());
            r
        },
        DestKey::SourceScoped { source_id, local_id } => {
            let mut r = String::from_str("sources/");
            r.append(source_id.as_str());
            r.append("/currencies/");
            r.append(local_id.as_str());
            proof {
                assert(r@ =~= path_spec(k@));
            }
            r
        },
    }
}

/// The persisted JSON object of a currency: exactly its identifier and
/// display name, as `{"id":"...","name":"..."}` with both strings escaped.
pub open spec fn currency_json_spec(c: CurrencyV) -> Seq<char> {
    "{\"id\":\""@ + json_escaped(c.id) + "\",\"name\":\""@ + json_escaped(c.name) + "\"}"@
}

/// Renders the JSON object persisted for a currency.
pub fn render_currency(c: &Currency) -> (r: String)
    ensures
        r@ == currency_json_spec(c@),
{
    let mut r = String::from_str("{\"id\":\"");
    let id = escape_json_string(c.id.as_str());
    r.append(id.as_str());
    r.append("\",\"name\":\"");
    let name = escape_json_string(c.name.as_str());
    r.append(name.as_str());
    r.append("\"}");
    proof {
        assert(r@ =~= currency_json_spec(c@));
    }
    r
}

/// What one write instruction persists: the destination path and the JSON
/// bytes written there.
pub open spec fn artifact_spec(w: WriteInstructionV) -> (Seq<char>, Seq<char>) {
    (path_spec(w.key), currency_json_spec(w.value))
}

/// Renders one write instruction into its destination path and JSON body.
pub fn render_artifact(w: &WriteInstruction) -> (r: (String, String))
    ensures
        (r.0@, r.1@) == artifact_spec(w@),
{
    (render_path(&w.key), render_currency(&w.value))
}

} // verus!
