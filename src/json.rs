//! Text rendering of annotation values: the compact JSON-like format of the
//! payload, and the display text of sample cells.
use vstd::prelude::*;
use crate::value::{
    NoteVal, NoteValue, entries_view, lemma_entries_view, lemma_list_view, list_view,
};

verus! {

/// The escape sequence JSON uses for one character of a string.
pub open spec fn char_escape(c: char) -> Seq<char> {
    if c == '"' {
        seq!['\\', '"']
    } else if c == '\\' {
        seq!['\\', '\\']
    } else if c == '\x08' {
        seq!['\\', 'b']
    } else if c == '\t' {
        seq!['\\', 't']
    } else if c == '\n' {
        seq!['\\', 'n']
    } else if c == '\x0c' {
        seq!['\\', 'f']
    } else if c == '\r' {
        seq!['\\', 'r']
    } else if (c as u32) < 0x20 {
        seq!['\\', 'u', '0', '0', hex_digit((c as u32) / 16), hex_digit((c as u32) % 16)]
    } else {
        seq![c]
    }
}

/// Lower-case hexadecimal digit of `d < 16`.
pub open spec fn hex_digit(d: u32) -> char {
    if d < 10 {
        (('0' as u32) + d) as char
    } else {
        (('a' as u32) + d - 10) as char
    }
}

/// The characters of `s` with JSON string escapes applied.
pub open spec fn json_escaped(s: Seq<char>) -> Seq<char>
    decreases s.len(),
{
    if s.len() == 0 {
        Seq::empty()
    } else {
        json_escaped(s.drop_last()) + char_escape(s.last())
    }
}

/// `s` as a JSON string literal.
pub open spec fn json_quoted(s: Seq<char>) -> Seq<char> {
    seq!['"'] + json_escaped(s) + seq!['"']
}

/// Rendering of a value in the payload format.
pub open spec fn value_text(v: NoteVal) -> Seq<char>
    decreases v,
{
    match v {
        NoteVal::Null => "null"@,
        NoteVal::Bool(b) => if b {
            "true"@
        } else {
            "false"@
        },
        NoteVal::Number(t) => t,
        NoteVal::Text(s) => json_quoted(s),
        NoteVal::List(items) => "["@ + items_text(items) + "]"@,
        NoteVal::Object(es) => "{"@ + members_text(es) + "}"@,
    }
}

/// Comma-separated rendering of list items.
pub open spec fn items_text(s: Seq<NoteVal>) -> Seq<char>
    decreases s,
{
    if s.len() == 0 {
        Seq::empty()
    } else if s.len() == 1 {
        value_text(s[0])
    } else {
        items_text(s.drop_last()) + ","@ + value_text(s.last())
    }
}

/// Comma-separated `"key":value` members of an object.
pub open spec fn members_text(s: Seq<(Seq<char>, NoteVal)>) -> Seq<char>
    decreases s,
{
    if s.len() == 0 {
        Seq::empty()
    } else if s.len() == 1 {
        json_quoted(s[0].0) + ":"@ + value_text(s[0].1)
    } else {
        members_text(s.drop_last()) + ","@ + json_quoted(s.last().0) + ":"@ + value_text(s.last().1)
    }
}

/// Rendering of an object with the given members.
pub open spec fn object_text(s: Seq<(Seq<char>, NoteVal)>) -> Seq<char> {
    "{"@ + members_text(s) + "}"@
}

/// The model of a list of key / encoded-value pairs.
pub open spec fn text_entries(s: Seq<(String, String)>) -> Seq<(Seq<char>, Seq<char>)> {
    s.map_values(|e: (String, String)| (e.0@, e.1@))
}

/// Comma-separated `"key":text` members whose values are already encoded.
pub open spec fn encoded_members_text(s: Seq<(Seq<char>, Seq<char>)>) -> Seq<char>
    decreases s.len(),
{
    if s.len() == 0 {
        Seq::empty()
    } else if s.len() == 1 {
        json_quoted(s[0].0) + ":"@ + s[0].1
    } else {
        encoded_members_text(s.drop_last()) + ","@ + json_quoted(s.last().0) + ":"@ + s.last().1
    }
}

/// An object whose member values are already encoded.
pub open spec fn encoded_object_text(s: Seq<(Seq<char>, Seq<char>)>) -> Seq<char> {
    "{"@ + encoded_members_text(s) + "}"@
}

/// The members of `text` parsed as a JSON object, each value in compact JSON
/// text; `None` when `text` is not a JSON object.
pub uninterp spec fn json_object_members(text: Seq<char>) -> Option<Seq<(Seq<char>, Seq<char>)>>;

/// The string that `text` denotes as a JSON string literal; `None` when it is
/// not one.
pub uninterp spec fn json_string_value(text: Seq<char>) -> Option<Seq<char>>;

/// Relies on `serde_json::from_str` into a `serde_json::Map` (failing when the
/// text is not a JSON object) and on `Value`'s `Display`, which writes compact JSON.
#[verifier::external_body]
pub(crate) fn parse_object_members(text: &str) -> (r: Option<Vec<(String, String)>>)
    ensures
        match r {
            Some(v) => json_object_members(text@) == Some(text_entries(v@)),
            None => json_object_members(text@) is None,
        },
{
    serde_json::from_str::<serde_json::Map<String, serde_json::Value>>(text).ok().map(
        |m| m.into_iter().map(|(k, v)| (k, v.to_string())).collect(),
    )
}

/// Relies on `serde_json::from_str` into a `String`: decodes a JSON string literal.
#[verifier::external_body]
pub(crate) fn parse_string_literal(text: &str) -> (r: Option<String>)
    ensures
        match r {
            Some(s) => json_string_value(text@) == Some(s@),
            None => json_string_value(text@) is None,
        },
{
    serde_json::from_str::<String>(text).ok()
}

/// Renders an object whose member values are already encoded.
pub fn render_encoded_object(es: &Vec<(String, String)>) -> (r: String)
    ensures
        r@ == encoded_object_text(text_entries(es@)),
{
    let ghost ev = text_entries(es@);
    let mut out = String::from_str("{");
    let ghost start = out@;
    let mut i: usize = 0;
    while i < es.len()
        invariant
            i <= es@.len(),
            ev == text_entries(es@),
            start == "{"@,
            out@ == start + encoded_members_text(ev.take(i as int)),
        decreases es@.len() - i,
    {
        if i > 0 {
            out.append(",");
        }
        write_quoted(es[i].0.as_str(), &mut out);
        out.append(":");
        out.append(es[i].1.as_str());
        proof {
            assert(ev.take(i + 1).drop_last() =~= ev.take(i as int));
            assert(ev.take(i + 1).last() == ev[i as int]);
            if i == 0 {
                assert(ev.take(1)[0] == ev[0]);
            }
        }
        i = i + 1;
    }
    out.append("}");
    assert(ev.take(i as int) =~= ev);
    assert(out@ =~= encoded_object_text(ev));
    out
}

/// Relies on `serde_json::to_string` on a `str`: the JSON string literal, quoted,
/// with `"`, `\` and control characters escaped; writing into a `Vec` cannot fail.
#[verifier::external_body]
fn quote_json(s: &str) -> (r: Option<String>)
    ensures
        r is Some,
        r->0@ == json_quoted(s@),
{
    serde_json::to_string(s).ok()
}

/// Appends `s` as a JSON string literal.
pub fn write_quoted(s: &str, out: &mut String)
    ensures
        final(out)@ == old(out)@ + json_quoted(s@),
{
    match quote_json(s) {
        Some(t) => out.append(t.as_str()),
        None => {
            out.append("\"");
            out.append(s);
            out.append("\"");
        },
    }
}

/// Appends the rendering of `v`.
pub fn write_value(v: &NoteValue, out: &mut String)
    ensures
        final(out)@ == old(out)@ + value_text(v@),
    decreases v,
{
    let ghost start = out@;
    match v {
        NoteValue::Null => out.append("null"),
        NoteValue::Bool(b) => {
            if *b {
                out.append("true")
            } else {
                out.append("false")
            }
        },
        NoteValue::Number(t) => out.append(t.as_str()),
        NoteValue::Text(s) => write_quoted(s.as_str(), out),
        NoteValue::List(items) => {
            out.append("[");
            write_items(items, out);
            out.append("]");
        },
        NoteValue::Object(es) => {
            out.append("{");
            write_members(es, out);
            out.append("}");
        },
    }
}

/// Renders a value.
pub fn render_value(v: &NoteValue) -> (r: String)
    ensures
        r@ == value_text(v@),
{
    let mut out = String::new();
    write_value(v, &mut out);
    assert(out@ =~= value_text(v@));
    out
}

/// Appends the renderings of list items, comma-separated.
pub fn write_items(items: &Vec<NoteValue>, out: &mut String)
    ensures
        final(out)@ == old(out)@ + items_text(list_view(items@)),
    decreases items,
{
    proof {
        lemma_list_view(items@);
    }
    let ghost start = out@;
    let ghost lv = list_view(items@);
    let mut i: usize = 0;
    while i < items.len()
        invariant
            i <= items@.len(),
            lv == list_view(items@),
            lv.len() == items@.len(),
            forall|j: int| 0 <= j < items@.len() ==> #[trigger] lv[j] == items@[j]@,
            out@ == start + items_text(lv.take(i as int)),
        decreases items@.len() - i,
    {
        if i > 0 {
            out.append(",");
        }
        write_value(&items[i], out);
        proof {
            assert(lv.take(i + 1).drop_last() =~= lv.take(i as int));
            assert(lv.take(i + 1).last() == lv[i as int]);
            if i == 0 {
                assert(lv.take(1)[0] == lv[0]);
            }
        }
        i = i + 1;
    }
    assert(lv.take(i as int) =~= lv);
}

/// Appends the members `"key":value` of an object, comma-separated.
pub fn write_members(es: &Vec<(String, NoteValue)>, out: &mut String)
    ensures
        final(out)@ == old(out)@ + members_text(entries_view(es@)),
    decreases es,
{
    proof {
        lemma_entries_view(es@);
    }
    let ghost start = out@;
    let ghost ev = entries_view(es@);
    let mut i: usize = 0;
    while i < es.len()
        invariant
            i <= es@.len(),
            ev == entries_view(es@),
            ev.len() == es@.len(),
            forall|j: int| 0 <= j < es@.len() ==> #[trigger] ev[j] == (es@[j].0@, es@[j].1@),
            out@ == start + members_text(ev.take(i as int)),
        decreases es@.len() - i,
    {
        if i > 0 {
            out.append(",");
        }
        write_quoted(es[i].0.as_str(), out);
        out.append(":");
        write_value(&es[i].1, out);
        proof {
            assert(ev.take(i + 1).drop_last() =~= ev.take(i as int));
            assert(ev.take(i + 1).last() == ev[i as int]);
            if i == 0 {
                assert(ev.take(1)[0] == ev[0]);
            }
        }
        i = i + 1;
    }
    assert(ev.take(i as int) =~= ev);
}

/// Renders an object with the given members.
pub fn render_object(es: &Vec<(String, NoteValue)>) -> (r: String)
    ensures
        r@ == object_text(entries_view(es@)),
{
    let mut out = String::new();
    out.append("{");
    write_members(es, &mut out);
    out.append("}");
    assert(out@ =~= object_text(entries_view(es@)));
    out
}

} // verus!
