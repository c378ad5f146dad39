//! JSON texts.
use vstd::prelude::*;

verus! {

/// A hexadecimal digit, in lower case.
pub open spec fn hex_digit(digit: int) -> char {
    if digit < 10 {
        ('0' as int + digit) as char
    } else {
        ('a' as int + digit - 10) as char
    }
}

/// A character inside a JSON string: a quote, a backslash and the control characters are escaped,
/// the common ones by a letter and the others by their number.
pub open spec fn json_char(c: char) -> Seq<char> {
    if c == '"' || c == '\\' {
        seq!['\\', c]
    } else if c == '\x08' {
        seq!['\\', 'b']
    } else if c == '\t' {
        seq!['\\', 't']
    } else if c == '\n' {
        seq!['\\', 'n']
    } else if c == '\x0c' {
        seq!['\\', 'f']
    } else if c == '\r' {
        seq!['\\', 'r']
    } else if (c as int) < 32 {
        seq!['\\', 'u', '0', '0', hex_digit(c as int / 16), hex_digit(c as int % 16)]
    } else {
        seq![c]
    }
}

/// The characters of a text inside a JSON string.
pub open spec fn json_chars(text: Seq<char>) -> Seq<char>
    decreases text.len(),
{
    if text.len() == 0 {
        Seq::empty()
    } else {
        json_char(text[0]) + json_chars(text.drop_first())
    }
}

/// A text as a JSON string, which is a JavaScript literal too.
#[verifier::opaque]
pub open spec fn json_text(text: Seq<char>) -> Seq<char> {
    seq!['"'] + json_chars(text) + seq!['"']
}

/// `serde_json::to_string` on a text: it gives the JSON string of the text. Writing a text into
/// memory does not fail.
#[verifier::external_body]
pub(crate) fn json_string(text: &str) -> (json: String)
    ensures
        json@ == json_text(text@),
{
    serde_json::to_string(text).expect("a text can be written as JSON")
}

/// How a character stands in a JSON string tells which character it is, and holds no control
/// character.
proof fn json_char_tells(one: char, other: char)
    ensures
        json_char(one) == json_char(other) ==> one == other,
        forall|i: int| 0 <= i < json_char(one).len() ==> (#[trigger] json_char(one)[i]) as int >= 32,
{
    assert(hex_digit(0) == '0' && hex_digit(1) == '1');
    let a = json_char(one);
    let b = json_char(other);
    if a == b {
        assert(a[0] == b[0]);
        if a.len() == 2 {
            assert(a[1] == b[1]);
        } else if a.len() == 6 {
            assert(a[4] == b[4] && a[5] == b[5]);
            let (low, lower) = (one as int % 16, other as int % 16);
            assert(hex_digit(low) == hex_digit(lower));
            assert(0 <= low < 16 && 0 <= lower < 16);
            assert(low == lower);
            assert(one as int / 16 == other as int / 16);
        }
    }
}

/// The characters of a JSON string tell which text they stand for.
proof fn json_chars_tell_texts_apart(one: Seq<char>, other: Seq<char>)
    requires
        json_chars(one) == json_chars(other),
    ensures
        one == other,
    decreases one.len(),
{
    let chars = json_chars(one);
    if one.len() > 0 && other.len() > 0 {
        let first = json_char(one[0]);
        let second = json_char(other[0]);
        let after = json_chars(one.drop_first());
        let behind = json_chars(other.drop_first());
        assert(chars == first + after);
        assert(chars == second + behind);
        assert(first[0] == chars[0] && second[0] == chars[0]);
        if first.len() > 1 {
            assert(first[1] == chars[1] && second[1] == chars[1]);
        }
        assert(first.len() == second.len());
        assert(first =~= chars.take(first.len() as int));
        assert(second =~= chars.take(first.len() as int));
        json_char_tells(one[0], other[0]);
        assert(after =~= chars.skip(first.len() as int));
        assert(behind =~= chars.skip(first.len() as int));
        json_chars_tell_texts_apart(one.drop_first(), other.drop_first());
        assert(one =~= seq![one[0]] + one.drop_first());
        assert(other =~= seq![other[0]] + other.drop_first());
    } else if one.len() > 0 {
        assert(json_chars(one).len() > 0);
    } else if other.len() > 0 {
        assert(json_chars(other).len() > 0);
    } else {
        assert(one =~= other);
    }
}

/// A JSON string tells which text it stands for: different texts have different JSON strings.
pub proof fn json_texts_tell_texts_apart(one: Seq<char>, other: Seq<char>)
    ensures
        json_text(one) == json_text(other) <==> one == other,
{
    reveal(json_text);
    if json_text(one) == json_text(other) {
        let json = json_text(one);
        assert(json_chars(one) =~= json.subrange(1, json.len() - 1));
        assert(json_chars(other) =~= json.subrange(1, json.len() - 1));
        json_chars_tell_texts_apart(one, other);
    }
}

/// A JSON string holds no control character, so a script that carries one has no line broken in it.
pub proof fn json_texts_hold_no_control_characters(text: Seq<char>, i: int)
    requires
        0 <= i < json_text(text).len(),
    ensures
        json_text(text)[i] as int >= 32,
{
    reveal(json_text);
    if 0 < i < json_text(text).len() - 1 {
        json_chars_hold_no_control_characters(text, i - 1);
    }
}

/// The characters inside a JSON string are no control characters.
proof fn json_chars_hold_no_control_characters(text: Seq<char>, i: int)
    requires
        0 <= i < json_chars(text).len(),
    ensures
        json_chars(text)[i] as int >= 32,
    decreases text.len(),
{
    let first = json_char(text[0]);
    json_char_tells(text[0], text[0]);
    if i >= first.len() {
        json_chars_hold_no_control_characters(text.drop_first(), i - first.len());
    }
}

/// A member of a JSON object, as far as it is told apart.
#[derive(Debug, PartialEq, Eq)]
pub enum JsonMember {
    Text(String),
    Flag(bool),
    Other,
}

/// Model of [`JsonMember`].
#[verifier::ext_equal]
pub enum JsonMemberView {
    Text(Seq<char>),
    Flag(bool),
    Other,
}

impl View for JsonMember {
    type V = JsonMemberView;

    open spec fn view(&self) -> JsonMemberView {
        match self {
            JsonMember::Text(text) => JsonMemberView::Text(text@),
            JsonMember::Flag(flag) => JsonMemberView::Flag(*flag),
            JsonMember::Other => JsonMemberView::Other,
        }
    }
}

/// What `serde_json::from_str` reads from a JSON text, as far as it is asked for: the member of the
/// object with the given name, or why the text is no JSON.
pub uninterp spec fn member_of(json: Seq<char>, name: Seq<char>) -> Result<
    Option<JsonMemberView>,
    Seq<char>,
>;

/// `serde_json::from_str` into a `serde_json::Value`, of which the member with the given name is
/// given. The failure is given as its text.
#[verifier::external_body]
pub(crate) fn json_member(json: &str, name: &str) -> (member: Result<Option<JsonMember>, String>)
    ensures
        (match member {
            Ok(member) => Ok(crate::model::opt_view(member)),
            Err(error) => Err(error@),
        }) == member_of(json@, name@),
{
    match serde_json::from_str::<serde_json::Value>(json) {
        Ok(value) => Ok(match value.get(name) {
            Some(serde_json::Value::String(text)) => Some(JsonMember::Text(text.clone())),
            Some(serde_json::Value::Bool(flag)) => Some(JsonMember::Flag(*flag)),
            Some(_) => Some(JsonMember::Other),
            None => None,
        }),
        Err(error) => Err(error.to_string()),
    }
}

/// A member that is a text.
pub open spec fn as_text(member: Option<JsonMemberView>) -> Option<Seq<char>> {
    match member {
        Some(JsonMemberView::Text(text)) => Some(text),
        _ => None,
    }
}

/// A member that is a text.
pub fn text_member(member: Option<JsonMember>) -> (text: Option<String>)
    ensures
        crate::model::opt_view(text) == as_text(crate::model::opt_view(member)),
{
    match member {
        Some(JsonMember::Text(text)) => Some(text),
        _ => None,
    }
}

/// A member that is a truth value.
pub open spec fn as_flag(member: Option<JsonMemberView>) -> Option<bool> {
    match member {
        Some(JsonMemberView::Flag(flag)) => Some(flag),
        _ => None,
    }
}

/// A member that is a truth value.
pub fn flag_member(member: Option<JsonMember>) -> (flag: Option<bool>)
    ensures
        flag == as_flag(crate::model::opt_view(member)),
{
    match member {
        Some(JsonMember::Flag(flag)) => Some(flag),
        _ => None,
    }
}

/// The number that a hexadecimal digit stands for.
pub open spec fn digit_value(digit: char) -> int {
    if '0' <= digit <= '9' {
        digit as int - 48
    } else {
        digit as int - 87
    }
}

/// A control character without a letter of its own is written as its number, in four hexadecimal
/// digits.
pub proof fn control_characters_are_numbered(c: char)
    requires
        (c as int) < 32,
        c != '\x08' && c != '\t' && c != '\n' && c != '\x0c' && c != '\r',
    ensures
        json_char(c).len() == 6,
        json_char(c)[0] == '\\' && json_char(c)[1] == 'u',
        json_char(c)[2] == '0' && json_char(c)[3] == '0',
        digit_value(json_char(c)[4]) * 16 + digit_value(json_char(c)[5]) == c as int,
{
    let (high, low) = (c as int / 16, c as int % 16);
    assert(0 <= high < 2 && 0 <= low < 16 && high * 16 + low == c as int);
    assert(hex_digit(high) == (48 + high) as char);
    if low < 10 {
        assert(hex_digit(low) == (48 + low) as char);
    } else {
        assert(hex_digit(low) == (87 + low) as char);
    }
}

} // verus!
