//! Compact JSON text, assembled piece by piece.
use vstd::prelude::*;
use vstd::string::*;

verus! {

/// The digit `d` as a character, in base sixteen with small letters.
pub open spec fn spec_hex(d: int) -> char {
    if d == 0 {
        '0'
    } else if d == 1 {
        '1'
    } else if d == 2 {
        '2'
    } else if d == 3 {
        '3'
    } else if d == 4 {
        '4'
    } else if d == 5 {
        '5'
    } else if d == 6 {
        '6'
    } else if d == 7 {
        '7'
    } else if d == 8 {
        '8'
    } else if d == 9 {
        '9'
    } else if d == 10 {
        'a'
    } else if d == 11 {
        'b'
    } else if d == 12 {
        'c'
    } else if d == 13 {
        'd'
    } else if d == 14 {
        'e'
    } else {
        'f'
    }
}

/// Whether a character cannot stand for itself inside a JSON string: the
/// quote, the backslash and the control characters below the space.
pub open spec fn needs_escape(c: char) -> bool {
    c == '"' || c == '\\' || (c as u32) < 0x20
}

/// A character as it stands inside a JSON string: the quote and the
/// backslash behind a backslash, the five control characters that have a
/// letter as that letter behind a backslash, the other control characters
/// as `\u00` and two hex digits, and every other character as itself.
pub open spec fn spec_escaped_char(c: char) -> Seq<char> {
    if c == '"' {
        seq!['\\', '"']
    } else if c == '\\' {
        seq!['\\', '\\']
    } else if c == '\u{8}' {
        seq!['\\', 'b']
    } else if c == '\t' {
        seq!['\\', 't']
    } else if c == '\n' {
        seq!['\\', 'n']
    } else if c == '\u{c}' {
        seq!['\\', 'f']
    } else if c == '\r' {
        seq!['\\', 'r']
    } else if (c as u32) < 0x20 {
        seq!['\\', 'u', '0', '0', spec_hex((c as u32) as int / 16), spec_hex((c as u32) as int % 16)]
    } else {
        seq![c]
    }
}

/// The characters of a text as they stand inside a JSON string.
pub open spec fn spec_escaped(text: Seq<char>) -> Seq<char>
    decreases text.len(),
{
    if text.len() == 0 {
        Seq::empty()
    } else {
        spec_escaped(text.drop_last()) + spec_escaped_char(text.last())
    }
}

/// The compact JSON rendering of a string value: escaped, between quotes.
pub open spec fn json_string_text(text: Seq<char>) -> Seq<char> {
    seq!['"'] + spec_escaped(text) + seq!['"']
}

/// The decimal digits of a number, without leading zeros.
pub open spec fn spec_digits(n: nat) -> Seq<char>
    decreases n,
{
    if n < 10 {
        seq![spec_hex(n as int)]
    } else {
        spec_digits(n / 10).push(spec_hex((n % 10) as int))
    }
}

/// The JSON rendering of an unsigned integer: its decimal digits.
pub open spec fn json_unsigned_text(n: u64) -> Seq<char> {
    spec_digits(n as nat)
}

/// The JSON rendering of a signed integer: its decimal digits, behind a
/// minus sign where it is negative.
pub open spec fn json_signed_text(n: i64) -> Seq<char> {
    if n < 0 {
        seq!['-'] + spec_digits((-(n as int)) as nat)
    } else {
        spec_digits(n as nat)
    }
}

/// Renders `text` through `Display` of `serde_json::Value::String`, which
/// writes the compact form: the text between quotes, with the quote, the
/// backslash and the control characters escaped.
#[verifier::external_body]
pub(crate) fn quote(text: &str) -> (r: String)
    ensures
        r@ == json_string_text(text@),
{
    serde_json::Value::String(text.to_string()).to_string()
}

/// Renders `n` through `Display` of `serde_json::Number`, made by its
/// `From<u64>`: the decimal digits of the number.
#[verifier::external_body]
pub(crate) fn unsigned(n: u64) -> (r: String)
    ensures
        r@ == json_unsigned_text(n),
{
    serde_json::Number::from(n).to_string()
}

/// Renders `n` through `Display` of `serde_json::Number`, made by its
/// `From<i64>`: a minus sign where the number is negative, then the
/// decimal digits of its magnitude.
#[verifier::external_body]
pub(crate) fn signed(n: i64) -> (r: String)
    ensures
        r@ == json_signed_text(n),
{
    serde_json::Number::from(n).to_string()
}

/// A text without a character that needs an escape stands for itself.
pub proof fn lemma_plain_text(text: Seq<char>)
    requires
        forall|i: int| 0 <= i < text.len() ==> !needs_escape(#[trigger] text[i]),
    ensures
        spec_escaped(text) == text,
        json_string_text(text) == seq!['"'] + text + seq!['"'],
    decreases text.len(),
{
    if text.len() > 0 {
        lemma_plain_text(text.drop_last());
        assert(!needs_escape(text.last()));
        assert(spec_escaped_char(text.last()) == seq![text.last()]);
        assert(text.drop_last() + seq![text.last()] =~= text);
    }
}

/// The views of a sequence of strings.
pub open spec fn texts(items: Seq<String>) -> Seq<Seq<char>> {
    items.map_values(|s: String| s@)
}

/// The view of an optional string.
pub open spec fn opt_text(item: Option<String>) -> Option<Seq<char>> {
    match item {
        Some(s) => Some(s@),
        None => None,
    }
}

pub open spec fn spec_boolean(b: bool) -> Seq<char> {
    if b { "true"@ } else { "false"@ }
}

pub open spec fn spec_nullable(item: Option<Seq<char>>) -> Seq<char> {
    match item {
        Some(s) => json_string_text(s),
        None => "null"@,
    }
}

/// Already rendered items, separated by commas.
pub open spec fn spec_joined(items: Seq<Seq<char>>) -> Seq<char>
    decreases items.len(),
{
    if items.len() == 0 {
        Seq::empty()
    } else if items.len() == 1 {
        items[0]
    } else {
        spec_joined(items.drop_last()) + ","@ + items.last()
    }
}

/// A JSON array of already rendered items.
pub open spec fn spec_array(items: Seq<Seq<char>>) -> Seq<char> {
    "["@ + spec_joined(items) + "]"@
}

/// A JSON array of string values.
pub open spec fn spec_string_array(items: Seq<Seq<char>>) -> Seq<char> {
    spec_array(items.map_values(|s: Seq<char>| json_string_text(s)))
}

/// The items where every one of them could be rendered.
pub open spec fn spec_all(items: Seq<Option<Seq<char>>>) -> Option<Seq<Seq<char>>> {
    if forall|i: int| 0 <= i < items.len() ==> (#[trigger] items[i]) is Some {
        Some(items.map_values(|o: Option<Seq<char>>| o.unwrap()))
    } else {
        None
    }
}

pub fn boolean(b: bool) -> (r: String)
    ensures
        r@ == spec_boolean(b),
{
    if b { String::from_str("true") } else { String::from_str("false") }
}

pub fn nullable(item: &Option<String>) -> (r: String)
    ensures
        r@ == spec_nullable(opt_text(*item)),
{
    match item {
        Some(s) => quote(s.as_str()),
        None => String::from_str("null"),
    }
}

/// Joins rendered items into one JSON array.
pub fn array(items: &Vec<String>) -> (r: String)
    ensures
        r@ == spec_array(texts(items@)),
{
    let mut out = String::from_str("[");
    let mut i: usize = 0;
    while i < items.len()
        invariant
            i <= items.len(),
            out@ == "["@ + spec_joined(texts(items@).take(i as int)),
        decreases items.len() - i,
    {
        proof {
            let done = texts(items@).take(i as int);
            let next = texts(items@).take(i + 1);
            assert(next.drop_last() =~= done);
            assert(next.last() == items@[i as int]@);
            if i == 0 {
                assert(spec_joined(done) =~= Seq::<char>::empty());
                assert("["@ + spec_joined(next) =~= "["@ + spec_joined(done) + items@[i as int]@);
            } else {
                assert("["@ + spec_joined(next) =~= "["@ + spec_joined(done) + ","@ + items@[i as int]@);
            }
        }
        if i > 0 {
            out.append(",");
        }
        out.append(items[i].as_str());
        i = i + 1;
    }
    proof {
        assert(texts(items@).take(i as int) =~= texts(items@));
    }
    out.append("]");
    out
}

/// Renders each string as a JSON string value and joins them into an array.
pub fn string_array(items: &Vec<String>) -> (r: String)
    ensures
        r@ == spec_string_array(texts(items@)),
{
    let mut rendered: Vec<String> = Vec::new();
    let mut i: usize = 0;
    while i < items.len()
        invariant
            i <= items.len(),
            rendered@.len() == i,
            forall|j: int| 0 <= j < i ==> (#[trigger] rendered@[j])@ == json_string_text(items@[j]@),
        decreases items.len() - i,
    {
        rendered.push(quote(items[i].as_str()));
        i = i + 1;
    }
    proof {
        assert(texts(rendered@) =~= texts(items@).map_values(|s: Seq<char>| json_string_text(s)));
    }
    array(&rendered)
}

} // verus!
