//! Texts as sequences of characters: comparing, trimming, searching, joining.
use vstd::prelude::*;

verus! {

/// `String::push` appends one character at the end.
pub assume_specification[ String::push ](text: &mut String, c: char)
    ensures
        final(text)@ == old(text)@.push(c),
;

/// Whether two texts hold the same characters.
pub fn same_text(a: &str, b: &str) -> (same: bool)
    ensures
        same == (a@ == b@),
{
    a.to_owned() == b.to_owned()
}

/// Whether an optional text is present and holds the same characters as `wanted`.
pub fn is_text(item: &Option<String>, wanted: &str) -> (same: bool)
    ensures
        same == (crate::model::opt_view(*item) == Some(wanted@)),
{
    match item {
        Some(text) => same_text(text.as_str(), wanted),
        None => false,
    }
}

/// Two texts, one after the other.
pub fn text2(a: &str, b: &str) -> (text: String)
    ensures
        text@ == a@ + b@,
{
    let mut text = a.to_owned();
    text.append(b);
    text
}

/// Three texts, one after the other.
pub fn text3(a: &str, b: &str, c: &str) -> (text: String)
    ensures
        text@ == a@ + b@ + c@,
{
    let mut text = text2(a, b);
    text.append(c);
    text
}

/// Four texts, one after the other.
pub fn text4(a: &str, b: &str, c: &str, d: &str) -> (text: String)
    ensures
        text@ == a@ + b@ + c@ + d@,
{
    let mut text = text3(a, b, c);
    text.append(d);
    text
}

/// Five texts, one after the other.
pub fn text5(a: &str, b: &str, c: &str, d: &str, e: &str) -> (text: String)
    ensures
        text@ == a@ + b@ + c@ + d@ + e@,
{
    let mut text = text4(a, b, c, d);
    text.append(e);
    text
}

/// Seven texts, one after the other.
pub fn text7(a: &str, b: &str, c: &str, d: &str, e: &str, f: &str, g: &str) -> (text: String)
    ensures
        text@ == a@ + b@ + c@ + d@ + e@ + f@ + g@,
{
    let mut text = text5(a, b, c, d, e);
    text.append(f);
    text.append(g);
    text
}

/// The characters of a text.
pub fn chars_of(text: &str) -> (chars: Vec<char>)
    ensures
        chars@ == text@,
{
    let mut chars: Vec<char> = Vec::new();
    for c in it: text.chars()
        invariant
            chars@ == it.seq().take(it.index() as int),
    {
        chars.push(c);
    }
    chars
}

/// The text made of the characters at `from..to`.
pub fn text_of_range(chars: &Vec<char>, from: usize, to: usize) -> (text: String)
    requires
        from <= to <= chars@.len(),
    ensures
        text@ == chars@.subrange(from as int, to as int),
{
    let mut text = String::new();
    for i in from..to
        invariant
            from <= to <= chars@.len(),
            text@ == chars@.subrange(from as int, i as int),
    {
        text.push(chars[i]);
        assert(chars@.subrange(from as int, i as int).push(chars@[i as int])
            =~= chars@.subrange(from as int, i + 1));
    }
    text
}

/// The characters with the Unicode property `White_Space`.
pub open spec fn white_space(c: char) -> bool {
    ||| '\u{9}' <= c <= '\u{d}'
    ||| c == ' '
    ||| c == '\u{85}'
    ||| c == '\u{a0}'
    ||| c == '\u{1680}'
    ||| '\u{2000}' <= c <= '\u{200a}'
    ||| c == '\u{2028}'
    ||| c == '\u{2029}'
    ||| c == '\u{202f}'
    ||| c == '\u{205f}'
    ||| c == '\u{3000}'
}

/// Whether `c` has the Unicode property `White_Space`.
pub fn is_white_space(c: char) -> (white: bool)
    ensures
        white == white_space(c),
{
    ('\u{9}' <= c && c <= '\u{d}') || c == ' ' || c == '\u{85}' || c == '\u{a0}' || c == '\u{1680}'
        || ('\u{2000}' <= c && c <= '\u{200a}') || c == '\u{2028}' || c == '\u{2029}'
        || c == '\u{202f}' || c == '\u{205f}' || c == '\u{3000}'
}

/// `text` without the white space before its first other character.
pub open spec fn trim_start(text: Seq<char>) -> Seq<char>
    decreases text.len(),
{
    if text.len() > 0 && white_space(text[0]) {
        trim_start(text.drop_first())
    } else {
        text
    }
}

/// `text` without the white space after its last other character.
pub open spec fn trim_end(text: Seq<char>) -> Seq<char>
    decreases text.len(),
{
    if text.len() > 0 && white_space(text.last()) {
        trim_end(text.drop_last())
    } else {
        text
    }
}

/// `text` without white space at either end.
pub open spec fn trim(text: Seq<char>) -> Seq<char> {
    trim_end(trim_start(text))
}

/// The text without white space at either end.
pub fn trimmed(text: &str) -> (inner: String)
    ensures
        inner@ == trim(text@),
{
    let chars = chars_of(text);
    let mut from: usize = 0;
    assert(chars@.subrange(0, chars@.len() as int) =~= chars@);
    while from < chars.len() && is_white_space(chars[from])
        invariant
            from <= chars@.len(),
            trim_start(chars@) == trim_start(chars@.subrange(from as int, chars@.len() as int)),
        decreases chars@.len() - from,
    {
        assert(chars@.subrange(from as int, chars@.len() as int).drop_first() =~= chars@.subrange(
            from + 1,
            chars@.len() as int,
        ));
        from += 1;
    }
    let mut to: usize = chars.len();
    assert(trim_start(chars@) == chars@.subrange(from as int, to as int));
    while from < to && is_white_space(chars[to - 1])
        invariant
            from <= to <= chars@.len(),
            trim(chars@) == trim_end(chars@.subrange(from as int, to as int)),
        decreases to,
    {
        assert(chars@.subrange(from as int, to as int).drop_last() =~= chars@.subrange(
            from as int,
            to - 1,
        ));
        to -= 1;
    }
    text_of_range(&chars, from, to)
}

/// Whether every character of the text is white space.
pub fn is_blank(text: &str) -> (blank: bool)
    ensures
        blank == (trim(text@).len() == 0),
{
    let inner = trimmed(text);
    inner.as_str().is_empty()
}

/// A trimmed text starts and ends with a character that is no white space, or is empty.
pub proof fn trim_leaves_no_outer_white_space(text: Seq<char>)
    ensures
        trim(text).len() > 0 ==> !white_space(trim(text)[0]) && !white_space(trim(text).last()),
{
    trim_start_head(text);
    trim_end_keeps_head(trim_start(text));
}

proof fn trim_start_head(text: Seq<char>)
    ensures
        trim_start(text).len() > 0 ==> !white_space(trim_start(text)[0]),
    decreases text.len(),
{
    if text.len() > 0 && white_space(text[0]) {
        trim_start_head(text.drop_first());
    }
}

proof fn trim_end_keeps_head(text: Seq<char>)
    ensures
        trim_end(text).len() > 0 ==> trim_end(text)[0] == text[0] && !white_space(
            trim_end(text).last(),
        ),
    decreases text.len(),
{
    if text.len() > 0 && white_space(text.last()) {
        trim_end_keeps_head(text.drop_last());
    }
}

/// Trimming a trimmed text changes nothing.
pub proof fn trim_is_idempotent(text: Seq<char>)
    ensures
        trim(trim(text)) == trim(text),
{
    trim_leaves_no_outer_white_space(text);
}

/// Whether `text` begins with `prefix`.
pub open spec fn has_prefix(text: Seq<char>, prefix: Seq<char>) -> bool {
    prefix.len() <= text.len() && text.take(prefix.len() as int) == prefix
}

/// Whether the text begins with `prefix`.
pub fn starts_with(text: &str, prefix: &str) -> (found: bool)
    ensures
        found == has_prefix(text@, prefix@),
{
    let n: usize = prefix.unicode_len();
    if n > text.unicode_len() {
        return false;
    }
    let head = text.substring_char(0, n);
    assert(head@ =~= text@.take(n as int));
    same_text(head, prefix)
}

/// Whether the text holds the character.
pub fn contains_char(text: &str, wanted: char) -> (found: bool)
    ensures
        found == text@.contains(wanted),
{
    let chars = chars_of(text);
    for i in 0..chars.len()
        invariant
            chars@ == text@,
            forall|j: int| 0 <= j < i ==> chars@[j] != wanted,
    {
        if chars[i] == wanted {
            assert(text@[i as int] == wanted);
            return true;
        }
    }
    false
}

/// Where a character first stands in a text, or the text's length.
pub open spec fn first_at(text: Seq<char>, c: char) -> nat
    decreases text.len(),
{
    if text.len() == 0 || text[0] == c {
        0
    } else {
        1 + first_at(text.drop_first(), c)
    }
}

/// Where a character first stands, or the length of a text that does not hold it.
pub proof fn first_at_found(text: Seq<char>, c: char, n: int)
    requires
        0 <= n <= text.len(),
        forall|i: int| 0 <= i < n ==> text[i] != c,
        n < text.len() ==> text[n] == c,
    ensures
        first_at(text, c) == n,
    decreases text.len(),
{
    if n > 0 {
        first_at_found(text.drop_first(), c, n - 1);
    }
}

/// Where the character first stands at or after `from`, or the number of characters.
pub fn find_from(chars: &Vec<char>, c: char, from: usize) -> (at: usize)
    requires
        from <= chars@.len(),
    ensures
        from <= at <= chars@.len(),
        at == from + first_at(chars@.skip(from as int), c),
{
    let mut at = from;
    while at < chars.len() && chars[at] != c
        invariant
            from <= at <= chars@.len(),
            forall|i: int| from <= i < at ==> chars@[i] != c,
        decreases chars@.len() - at,
    {
        at += 1;
    }
    proof {
        first_at_found(chars@.skip(from as int), c, at - from);
    }
    at
}

/// Whether any character of the text is white space.
pub open spec fn any_white_space(text: Seq<char>) -> bool {
    exists|i: int| 0 <= i < text.len() && white_space(#[trigger] text[i])
}

/// Whether any character of the text is white space.
pub fn has_white_space(text: &str) -> (found: bool)
    ensures
        found == any_white_space(text@),
{
    let chars = chars_of(text);
    for i in 0..chars.len()
        invariant
            chars@ == text@,
            forall|j: int| 0 <= j < i ==> !white_space(#[trigger] chars@[j]),
    {
        if is_white_space(chars[i]) {
            assert(white_space(text@[i as int]));
            return true;
        }
    }
    false
}

/// Whether `needle` stands in `text` at `at`.
pub open spec fn stands_at(text: Seq<char>, needle: Seq<char>, at: int) -> bool {
    0 <= at && at + needle.len() <= text.len() && text.subrange(at, at + needle.len()) == needle
}

/// Whether `needle` stands anywhere in `text`.
pub open spec fn holds_text(text: Seq<char>, needle: Seq<char>) -> bool {
    exists|at: int| #[trigger] stands_at(text, needle, at)
}

/// Whether `needle` stands in the text at `at`.
pub fn is_at(text: &Vec<char>, needle: &Vec<char>, at: usize) -> (found: bool)
    ensures
        found == stands_at(text@, needle@, at as int),
{
    if at > text.len() || needle.len() > text.len() - at {
        return false;
    }
    for k in 0..needle.len()
        invariant
            at + needle.len() <= text.len(),
            forall|j: int| 0 <= j < k ==> text@[at + j] == needle@[j],
    {
        if text[at + k] != needle[k] {
            assert(text@.subrange(at as int, at + needle@.len())[k as int] != needle@[k as int]);
            return false;
        }
    }
    assert(text@.subrange(at as int, at + needle@.len()) =~= needle@);
    true
}

/// Whether `needle` stands anywhere in the text.
pub fn contains_text(text: &str, needle: &str) -> (found: bool)
    ensures
        found == holds_text(text@, needle@),
{
    let text_chars = chars_of(text);
    let needle_chars = chars_of(needle);
    for at in 0..text_chars.len()
        invariant
            text_chars@ == text@,
            needle_chars@ == needle@,
            forall|j: int| 0 <= j < at ==> !#[trigger] stands_at(text@, needle@, j),
    {
        if is_at(&text_chars, &needle_chars, at) {
            return true;
        }
    }
    if is_at(&text_chars, &needle_chars, text_chars.len()) {
        return true;
    }
    assert forall|j: int| !#[trigger] stands_at(text@, needle@, j) by {
        if j >= text@.len() {
            assert(j > text@.len() || j == text@.len());
        }
    }
    false
}

/// `text` with each occurrence of `needle` replaced, taken from the left without overlap.
pub open spec fn replace(text: Seq<char>, needle: Seq<char>, with: Seq<char>) -> Seq<char>
    recommends
        needle.len() > 0,
    decreases text.len(),
{
    if needle.len() == 0 || text.len() == 0 {
        text
    } else if stands_at(text, needle, 0) {
        with + replace(text.skip(needle.len() as int), needle, with)
    } else {
        seq![text[0]] + replace(text.drop_first(), needle, with)
    }
}

/// The text with each occurrence of `needle` replaced, taken from the left without overlap.
pub fn replaced(text: &str, needle: &str, with: &str) -> (result: String)
    requires
        needle@.len() > 0,
    ensures
        result@ == replace(text@, needle@, with@),
{
    let chars = chars_of(text);
    let needle_chars = chars_of(needle);
    let mut result = String::new();
    let mut at: usize = 0;
    assert(chars@.skip(0) =~= chars@);
    while at < chars.len()
        invariant
            needle_chars@ == needle@,
            needle@.len() > 0,
            chars@ == text@,
            at <= chars@.len(),
            replace(text@, needle@, with@) == result@ + replace(
                chars@.skip(at as int),
                needle@,
                with@,
            ),
        decreases chars@.len() - at,
    {
        let ghost rest = chars@.skip(at as int);
        let ghost before = result@;
        if is_at(&chars, &needle_chars, at) {
            assert(rest.subrange(0, needle@.len() as int) =~= chars@.subrange(
                at as int,
                at + needle@.len(),
            ));
            assert(stands_at(rest, needle@, 0));
            assert(rest.skip(needle@.len() as int) =~= chars@.skip(at + needle@.len()));
            result.append(with);
            at += needle_chars.len();
            assert(before + (with@ + replace(chars@.skip(at as int), needle@, with@)) =~= result@
                + replace(chars@.skip(at as int), needle@, with@));
        } else {
            assert(!stands_at(rest, needle@, 0)) by {
                if stands_at(rest, needle@, 0) {
                    assert(rest.subrange(0, needle@.len() as int) =~= chars@.subrange(
                        at as int,
                        at + needle@.len(),
                    ));
                }
            }
            assert(rest.drop_first() =~= chars@.skip(at + 1));
            assert(rest[0] == chars@[at as int]);
            result.push(chars[at]);
            at += 1;
            assert(before + (seq![rest[0]] + replace(chars@.skip(at as int), needle@, with@))
                =~= result@ + replace(chars@.skip(at as int), needle@, with@));
        }
    }
    assert(chars@.skip(at as int) =~= Seq::<char>::empty());
    assert(result@ + Seq::<char>::empty() =~= result@);
    result
}

/// `c`, or its lower-case letter if it is an ASCII capital.
pub open spec fn ascii_lower(c: char) -> char {
    if 'A' <= c <= 'Z' {
        ((c as u32) + 32) as char
    } else {
        c
    }
}

/// `text` with its ASCII capitals in lower case.
pub open spec fn lower(text: Seq<char>) -> Seq<char> {
    Seq::new(text.len(), |i: int| ascii_lower(text[i]))
}

/// The character, or its lower-case letter if it is an ASCII capital.
pub fn lower_char(c: char) -> (result: char)
    ensures
        result == ascii_lower(c),
{
    if 'A' <= c && c <= 'Z' {
        ((c as u8) + 32) as char
    } else {
        c
    }
}

/// The text with its ASCII capitals in lower case.
pub fn lowered(text: &str) -> (result: String)
    ensures
        result@ == lower(text@),
{
    let chars = chars_of(text);
    let mut result = String::new();
    for i in 0..chars.len()
        invariant
            chars@ == text@,
            result@ =~= lower(text@).take(i as int),
    {
        result.push(lower_char(chars[i]));
    }
    assert(lower(text@).take(chars@.len() as int) =~= lower(text@));
    result
}

/// Text in lower case stays as it is.
pub proof fn lower_is_idempotent(text: Seq<char>)
    ensures
        lower(lower(text)) == lower(text),
{
    assert(lower(lower(text)) =~= lower(text));
}

/// The first `limit` characters of `text`, or all of it.
pub open spec fn clip(text: Seq<char>, limit: nat) -> Seq<char> {
    if text.len() <= limit {
        text
    } else {
        text.take(limit as int)
    }
}

/// The first `limit` characters of the text, or all of it.
pub fn clipped(text: String, limit: usize) -> (result: String)
    ensures
        result@ == clip(text@, limit as nat),
{
    let n: usize = text.as_str().unicode_len();
    if n <= limit {
        return text;
    }
    let head = text.as_str().substring_char(0, limit);
    assert(head@ =~= text@.take(limit as int));
    head.to_owned()
}

/// The character of the decimal digit `d`.
pub open spec fn digit(d: nat) -> char
    recommends
        d < 10,
{
    (48 + d) as char
}

/// `n` in decimal digits, without leading zeros.
pub open spec fn decimal(n: nat) -> Seq<char>
    decreases n,
{
    if n < 10 {
        seq![digit(n)]
    } else {
        decimal(n / 10).push(digit(n % 10))
    }
}

/// The number in decimal digits.
pub fn decimal_text(n: u64) -> (text: String)
    ensures
        text@ == decimal(n as nat),
    decreases n,
{
    let last = (48 + (n % 10) as u8) as char;
    if n < 10 {
        let mut text = String::new();
        text.push(last);
        assert(text@ =~= decimal(n as nat));
        text
    } else {
        let mut text = decimal_text(n / 10);
        text.push(last);
        text
    }
}

/// `n` in decimal digits, with a minus sign if it is negative.
pub open spec fn signed_decimal(n: int) -> Seq<char> {
    if n < 0 {
        "-"@ + decimal((-n) as nat)
    } else {
        decimal(n as nat)
    }
}

/// The number in decimal digits, with a minus sign if it is negative.
pub fn signed_decimal_text(n: i32) -> (text: String)
    ensures
        text@ == signed_decimal(n as int),
{
    if n < 0 {
        let size = decimal_text((0 - (n as i64)) as u64);
        text2("-", size.as_str())
    } else {
        decimal_text(n as u64)
    }
}

/// Whether `a` stands before `b` when texts are ordered character by character.
pub open spec fn text_before(a: Seq<char>, b: Seq<char>) -> bool
    decreases a.len(),
{
    if b.len() == 0 {
        false
    } else if a.len() == 0 {
        true
    } else if a[0] == b[0] {
        text_before(a.drop_first(), b.drop_first())
    } else {
        a[0] < b[0]
    }
}

/// Whether `a` stands before `b` when texts are ordered character by character.
pub fn is_text_before(a: &str, b: &str) -> (before: bool)
    ensures
        before == text_before(a@, b@),
{
    let a_chars = chars_of(a);
    let b_chars = chars_of(b);
    let mut i: usize = 0;
    assert(a_chars@.skip(0) =~= a@);
    assert(b_chars@.skip(0) =~= b@);
    while i < a_chars.len() && i < b_chars.len() && a_chars[i] == b_chars[i]
        invariant
            i <= a_chars@.len(),
            i <= b_chars@.len(),
            text_before(a@, b@) == text_before(a_chars@.skip(i as int), b_chars@.skip(i as int)),
        decreases a_chars@.len() - i,
    {
        assert(a_chars@.skip(i as int).drop_first() =~= a_chars@.skip(i + 1));
        assert(b_chars@.skip(i as int).drop_first() =~= b_chars@.skip(i + 1));
        i += 1;
    }
    if i >= b_chars.len() {
        false
    } else if i >= a_chars.len() {
        true
    } else {
        a_chars[i] < b_chars[i]
    }
}

/// No text stands before itself.
pub proof fn text_before_is_irreflexive(a: Seq<char>)
    ensures
        !text_before(a, a),
    decreases a.len(),
{
    if a.len() > 0 {
        text_before_is_irreflexive(a.drop_first());
    }
}

/// The order of texts is transitive.
pub proof fn text_before_is_transitive(a: Seq<char>, b: Seq<char>, c: Seq<char>)
    requires
        text_before(a, b),
        text_before(b, c),
    ensures
        text_before(a, c),
    decreases a.len(),
{
    if a.len() > 0 && a[0] == b[0] && b[0] == c[0] {
        text_before_is_transitive(a.drop_first(), b.drop_first(), c.drop_first());
    }
}

/// Of two different texts one stands before the other.
pub proof fn text_before_is_total(a: Seq<char>, b: Seq<char>)
    requires
        a != b,
    ensures
        text_before(a, b) || text_before(b, a),
    decreases a.len(),
{
    if a.len() == 0 {
        if b.len() == 0 {
            assert(a =~= b);
        }
    } else if b.len() > 0 && a[0] == b[0] {
        if a.drop_first() == b.drop_first() {
            assert(a =~= seq![a[0]] + a.drop_first());
            assert(b =~= seq![b[0]] + b.drop_first());
        }
        text_before_is_total(a.drop_first(), b.drop_first());
    }
}

/// The texts one after the other with `separator` between them.
pub open spec fn join(parts: Seq<Seq<char>>, separator: Seq<char>) -> Seq<char>
    decreases parts.len(),
{
    if parts.len() == 0 {
        Seq::empty()
    } else if parts.len() == 1 {
        parts[0]
    } else {
        join(parts.drop_last(), separator) + separator + parts.last()
    }
}

/// The texts one after the other with `separator` between them.
pub fn joined(parts: &Vec<String>, separator: &str) -> (text: String)
    ensures
        text@ == join(crate::model::views(parts@), separator@),
{
    let ghost all = crate::model::views(parts@);
    let mut text = String::new();
    for i in 0..parts.len()
        invariant
            all == crate::model::views(parts@),
            text@ == join(all.take(i as int), separator@),
    {
        let ghost before = text@;
        if i > 0 {
            text.append(separator);
        }
        text.append(parts[i].as_str());
        proof {
            let head = all.take(i + 1);
            assert(head.drop_last() =~= all.take(i as int));
            assert(head.last() == parts@[i as int]@);
            if i == 0 {
                assert(text@ =~= head[0]);
            }
        }
    }
    assert(all.take(parts@.len() as int) =~= all);
    text
}

/// Whether every character of a text is white space.
pub open spec fn all_white_space(text: Seq<char>) -> bool {
    forall|i: int| 0 <= i < text.len() ==> white_space(#[trigger] text[i])
}

proof fn trim_start_cuts(text: Seq<char>) -> (n: int)
    ensures
        0 <= n <= text.len(),
        trim_start(text) == text.skip(n),
        all_white_space(text.take(n)),
    decreases text.len(),
{
    if text.len() > 0 && white_space(text[0]) {
        let n = trim_start_cuts(text.drop_first()) + 1;
        assert(text.drop_first().skip(n - 1) =~= text.skip(n));
        assert forall|i: int| 0 <= i < n implies white_space(#[trigger] text.take(n)[i]) by {
            if i > 0 {
                assert(text.take(n)[i] == text.drop_first().take(n - 1)[i - 1]);
            }
        }
        n
    } else {
        assert(text.skip(0) =~= text);
        0
    }
}

proof fn trim_end_cuts(text: Seq<char>) -> (n: int)
    ensures
        0 <= n <= text.len(),
        trim_end(text) == text.take(n),
        all_white_space(text.skip(n)),
    decreases text.len(),
{
    if text.len() > 0 && white_space(text.last()) {
        let rest = text.drop_last();
        let n = trim_end_cuts(rest);
        assert(rest.take(n) =~= text.take(n));
        assert forall|i: int| 0 <= i < text.skip(n).len() implies white_space(
            #[trigger] text.skip(n)[i],
        ) by {
            if i < rest.skip(n).len() {
                assert(text.skip(n)[i] == rest.skip(n)[i]);
            }
        }
        n
    } else {
        assert(text.take(text.len() as int) =~= text);
        text.len() as int
    }
}

/// Trimming takes away white space at the ends and nothing else.
pub proof fn trimming_takes_outer_white_space_alone(text: Seq<char>)
    ensures
        exists|before: Seq<char>, after: Seq<char>|
            #![trigger all_white_space(before), all_white_space(after)]
            text == before + trim(text) + after && all_white_space(before) && all_white_space(after),
        trim(text).len() > 0 ==> !white_space(trim(text)[0]) && !white_space(trim(text).last()),
{
    let n = trim_start_cuts(text);
    let inner = text.skip(n);
    let m = trim_end_cuts(inner);
    let before = text.take(n);
    let after = inner.skip(m);
    assert(text =~= before + trim(text) + after);
    assert(all_white_space(before) && all_white_space(after));
    trim_leaves_no_outer_white_space(text);
}

/// The number that decimal digits stand for.
pub open spec fn read_decimal(text: Seq<char>) -> int
    decreases text.len(),
{
    if text.len() == 0 {
        0
    } else {
        10 * read_decimal(text.drop_last()) + (text.last() as int - '0' as int)
    }
}

/// A number in decimal reads back: it is made of digits alone, has no needless zero in front, and
/// its digits stand for the number.
pub proof fn decimals_read_back(n: nat)
    ensures
        read_decimal(decimal(n)) == n,
        decimal(n).len() > 0,
        decimal(n).len() > 1 ==> decimal(n)[0] != '0',
        forall|i: int| 0 <= i < decimal(n).len() ==> '0' <= #[trigger] decimal(n)[i] <= '9',
    decreases n,
{
    if n < 10 {
        assert(decimal(n).drop_last() =~= Seq::empty());
        assert(read_decimal(Seq::<char>::empty()) == 0);
    } else {
        decimals_read_back(n / 10);
        let head = decimal(n / 10);
        assert(decimal(n).drop_last() =~= head);
        assert(decimal(n).last() == digit(n % 10));
        assert(decimal(n)[0] == head[0]);
        assert forall|i: int| 0 <= i < decimal(n).len() implies '0' <= #[trigger] decimal(n)[i]
            <= '9' by {
            if i < head.len() {
                assert(decimal(n)[i] == head[i]);
            }
        }
        if n / 10 < 10 {
            assert(head[0] == digit(n / 10));
        } else {
            decimals_read_back(n / 10 / 10);
            assert(head.len() > 1);
        }
    }
}

/// A number with a sign in decimal reads back.
pub proof fn signed_decimals_read_back(n: int)
    ensures
        n >= 0 ==> read_decimal(signed_decimal(n)) == n && signed_decimal(n)[0] != '-',
        n < 0 ==> signed_decimal(n)[0] == '-' && read_decimal(signed_decimal(n).skip(1)) == -n,
{
    if n >= 0 {
        decimals_read_back(n as nat);
    } else {
        decimals_read_back((-n) as nat);
        reveal_strlit("-");
        assert(signed_decimal(n).skip(1) =~= decimal((-n) as nat));
    }
}

/// A text in lower case is as long as it was; its ASCII capitals are small letters and every other
/// character is as it was.
pub proof fn lower_case_changes_capitals_alone(text: Seq<char>, i: int)
    requires
        0 <= i < text.len(),
    ensures
        lower(text).len() == text.len(),
        'A' <= text[i] <= 'Z' ==> lower(text)[i] as int == text[i] as int + 32,
        !('A' <= text[i] <= 'Z') ==> lower(text)[i] == text[i],
{
}

/// A clipped text is the beginning of the text, as long as it may be.
pub proof fn clipping_keeps_the_beginning(text: Seq<char>, limit: nat)
    ensures
        has_prefix(text, clip(text, limit)),
        clip(text, limit).len() == if text.len() <= limit { text.len() } else { limit },
{
    assert(text.take(text.len() as int) =~= text);
}

/// Of two texts the one goes first whose character is the smaller where they first differ; a
/// beginning goes before what it begins.
pub proof fn texts_go_by_their_first_difference(
    head: Seq<char>,
    a: char,
    b: char,
    one: Seq<char>,
    other: Seq<char>,
)
    requires
        (a as int) < (b as int),
    ensures
        text_before(head + seq![a] + one, head + seq![b] + other),
        !text_before(head + seq![b] + other, head + seq![a] + one),
        text_before(head, head + seq![a] + one),
        !text_before(head + seq![a] + one, head),
    decreases head.len(),
{
    let small = head + seq![a] + one;
    let large = head + seq![b] + other;
    if head.len() > 0 {
        let rest = head.drop_first();
        texts_go_by_their_first_difference(rest, a, b, one, other);
        assert(small.drop_first() =~= rest + seq![a] + one);
        assert(large.drop_first() =~= rest + seq![b] + other);
    }
}

} // verus!
