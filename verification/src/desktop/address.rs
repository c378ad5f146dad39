//! What is typed into the address field, and commands for assistants.
use crate::text::{
    chars_of, contains_char, contains_text, find_from, has_white_space, lowered, replaced,
    same_text, starts_with, text2, text4, text_of_range, trimmed,
};
use vstd::prelude::*;

verus! {

/// Where searches go unless told otherwise.
pub const DEFAULT_SEARCH_URL: &'static str = "https://duckduckgo.com/?q={query}";

/// Whether a text begins like the address of a web page.
pub open spec fn web_address(text: Seq<char>) -> bool {
    crate::text::has_prefix(text, "http://"@) || crate::text::has_prefix(text, "https://"@)
}

/// Whether a text begins like the address of a web page.
fn is_web_address(text: &str) -> (yes: bool)
    ensures
        yes == web_address(text@),
{
    starts_with(text, "http://") || starts_with(text, "https://")
}

/// A page to open: what is typed, as a host on the web unless it is an address already.
pub open spec fn chrome_url(input: Seq<char>) -> Option<Seq<char>> {
    let input = crate::text::trim(input);
    if input.len() == 0 {
        None
    } else if input == "about:blank"@ || web_address(input) {
        Some(input)
    } else {
        Some("https://"@ + input)
    }
}

/// A page to open: what is typed, as a host on the web unless it is an address already.
pub fn normalize_chrome_url(input: &str) -> (url: Option<String>)
    ensures
        crate::model::opt_view(url) == chrome_url(input@),
{
    let input = trimmed(input);
    let text = input.as_str();
    if text.is_empty() {
        return None;
    }
    if same_text(text, "about:blank") || is_web_address(text) {
        return Some(input);
    }
    Some(text2("https://", text))
}

/// The command of an assistant: one line of 512 bytes at most.
pub open spec fn cli_command(input: Seq<char>) -> Option<Seq<char>> {
    let input = crate::text::trim(input);
    if input.len() == 0 || vstd::utf8::encode_utf8(input).len() > 512 || input.contains('\r')
        || input.contains('\n') {
        None
    } else {
        Some(input)
    }
}

/// The command of an assistant: one line of 512 bytes at most.
pub fn sanitize_cli_command(input: &str) -> (command: Option<String>)
    ensures
        crate::model::opt_view(command) == cli_command(input@),
{
    let input = trimmed(input);
    let text = input.as_str();
    if text.is_empty() || text.as_bytes().len() > 512 || contains_char(text, '\r')
        || contains_char(text, '\n') {
        return None;
    }
    Some(input)
}

/// The command of an assistant: the one that is configured if it will do.
pub open spec fn default_command(configured: Option<Seq<char>>) -> Seq<char> {
    match configured {
        Some(command) => match cli_command(command) {
            Some(command) => command,
            None => "codex"@,
        },
        None => "codex"@,
    }
}

/// The command of an assistant: the one that is configured if it will do.
pub fn default_cli_command(configured: Option<&str>) -> (command: String)
    ensures
        command@ == default_command(
            match configured {
                Some(command) => Some(command@),
                None => None,
            },
        ),
{
    match configured {
        Some(command) => match sanitize_cli_command(command) {
            Some(command) => command,
            None => "codex".to_owned(),
        },
        None => "codex".to_owned(),
    }
}

/// Whether a character is an ASCII letter.
pub open spec fn ascii_letter(c: char) -> bool {
    'a' <= c <= 'z' || 'A' <= c <= 'Z'
}

/// Whether a character may stand in the name of a scheme.
pub open spec fn scheme_char(c: char) -> bool {
    ascii_letter(c) || '0' <= c <= '9' || c == '+' || c == '-' || c == '.'
}

/// Whether a text names a scheme. A name with a dot is taken for a host.
pub open spec fn scheme_name(text: Seq<char>) -> bool {
    &&& text.len() > 0
    &&& !text.contains('.')
    &&& ascii_letter(text[0])
    &&& forall|i: int| 0 <= i < text.len() ==> scheme_char(#[trigger] text[i])
}

/// Whether what stands before the first colon names a scheme other than that of web pages.
pub open spec fn unsupported_scheme(input: Seq<char>) -> bool {
    let cut = crate::text::first_at(input, ':') as int;
    let before = input.take(cut);
    cut < input.len() && crate::text::lower(before) != "localhost"@ && scheme_name(before)
}

/// Whether a text names a scheme.
fn is_scheme_name(text: &str) -> (yes: bool)
    ensures
        yes == scheme_name(text@),
{
    let chars = chars_of(text);
    if chars.len() == 0 || contains_char(text, '.') {
        return false;
    }
    let first = chars[0];
    if !('a' <= first && first <= 'z' || 'A' <= first && first <= 'Z') {
        return false;
    }
    for i in 0..chars.len()
        invariant
            chars@ == text@,
            forall|j: int| 0 <= j < i ==> scheme_char(#[trigger] chars@[j]),
    {
        let c = chars[i];
        let fine = 'a' <= c && c <= 'z' || 'A' <= c && c <= 'Z' || '0' <= c && c <= '9' || c == '+'
            || c == '-' || c == '.';
        if !fine {
            assert(!scheme_char(text@[i as int]));
            return false;
        }
    }
    true
}

/// Whether what stands before the first colon names a scheme other than that of web pages.
pub fn has_unsupported_scheme(input: &str) -> (yes: bool)
    ensures
        yes == unsupported_scheme(input@),
{
    let chars = chars_of(input);
    let cut = find_from(&chars, ':', 0);
    assert(chars@.skip(0) =~= chars@);
    if cut >= chars.len() {
        return false;
    }
    let before = text_of_range(&chars, 0, cut);
    assert(before@ =~= input@.take(cut as int));
    if same_text(lowered(before.as_str()).as_str(), "localhost") {
        return false;
    }
    is_scheme_name(before.as_str())
}

/// The address of an assistant's page: one on the web, or a host on it.
pub open spec fn codex_url(input: Seq<char>) -> Option<Seq<char>> {
    let input = crate::text::trim(input);
    if input.len() == 0 || input == "about:blank"@ || crate::text::any_white_space(input) {
        None
    } else if web_address(input) {
        Some(input)
    } else if unsupported_scheme(input) {
        None
    } else {
        Some("https://"@ + input)
    }
}

/// The address of an assistant's page: one on the web, or a host on it.
pub fn normalize_codex_url(input: &str) -> (url: Option<String>)
    ensures
        crate::model::opt_view(url) == codex_url(input@),
{
    let input = trimmed(input);
    let text = input.as_str();
    if text.is_empty() || same_text(text, "about:blank") || has_white_space(text) {
        return None;
    }
    if is_web_address(text) {
        return Some(input);
    }
    if has_unsupported_scheme(text) {
        return None;
    }
    Some(text2("https://", text))
}

/// Whether a text reads like a host, perhaps with a port or a path.
pub open spec fn host_like(input: Seq<char>) -> bool {
    let low = crate::text::lower(input);
    &&& !crate::text::any_white_space(input)
    &&& input.contains('.') || input.contains(':') || low == "localhost"@
        || crate::text::has_prefix(low, "localhost/"@)
}

/// Whether a text reads like a host, perhaps with a port or a path.
pub fn looks_like_host(input: &str) -> (yes: bool)
    ensures
        yes == host_like(input@),
{
    if has_white_space(input) {
        return false;
    }
    let low = lowered(input);
    contains_char(input, '.') || contains_char(input, ':') || same_text(low.as_str(), "localhost")
        || starts_with(low.as_str(), "localhost/")
}

/// Whether a text reads like a host on this machine.
pub open spec fn local_host_like(input: Seq<char>) -> bool {
    let low = crate::text::lower(input);
    ||| low == "localhost"@
    ||| crate::text::has_prefix(low, "localhost/"@)
    ||| crate::text::has_prefix(low, "localhost:"@)
    ||| crate::text::has_prefix(low, "127."@)
    ||| crate::text::has_prefix(low, "[::1]"@)
    ||| crate::text::has_prefix(low, "[0:0:0:0:0:0:0:1]"@)
}

/// Whether a text reads like a host on this machine.
pub fn looks_like_local_host(input: &str) -> (yes: bool)
    ensures
        yes == local_host_like(input@),
{
    let low = lowered(input);
    let low = low.as_str();
    same_text(low, "localhost") || starts_with(low, "localhost/") || starts_with(low, "localhost:")
        || starts_with(low, "127.") || starts_with(low, "[::1]") || starts_with(
        low,
        "[0:0:0:0:0:0:0:1]",
    )
}

/// A hexadecimal digit.
pub open spec fn hex_digit(d: int) -> char
    recommends
        0 <= d < 16,
{
    if d < 10 {
        (48 + d) as char
    } else {
        (55 + d) as char
    }
}

/// Whether a byte stands for itself in a query.
pub open spec fn plain_byte(byte: u8) -> bool {
    ||| 0x41 <= byte <= 0x5a
    ||| 0x61 <= byte <= 0x7a
    ||| 0x30 <= byte <= 0x39
    ||| byte == 0x2d
    ||| byte == 0x5f
    ||| byte == 0x2e
    ||| byte == 0x7e
}

/// A byte as it stands in a query.
pub open spec fn query_byte(byte: u8) -> Seq<char> {
    if plain_byte(byte) {
        seq![byte as char]
    } else if byte == 0x20 {
        seq!['+']
    } else {
        seq!['%', hex_digit(byte as int / 16), hex_digit(byte as int % 16)]
    }
}

/// Bytes as they stand in a query.
pub open spec fn query_bytes(bytes: Seq<u8>) -> Seq<char>
    decreases bytes.len(),
{
    if bytes.len() == 0 {
        Seq::empty()
    } else {
        query_bytes(bytes.drop_last()) + query_byte(bytes.last())
    }
}

/// A text as it stands in a query: by its UTF-8 bytes.
pub open spec fn encoded_query(query: Seq<char>) -> Seq<char> {
    query_bytes(vstd::utf8::encode_utf8(query))
}

/// A hexadecimal digit.
fn hex_char(d: u8) -> (c: char)
    requires
        d < 16,
    ensures
        c == hex_digit(d as int),
{
    if d < 10 {
        (48 + d) as char
    } else {
        (55 + d) as char
    }
}

/// A text as it stands in a query: by its UTF-8 bytes.
pub fn encode_search_query(query: &str) -> (encoded: String)
    ensures
        encoded@ == encoded_query(query@),
{
    let bytes = query.as_bytes();
    let mut encoded = String::new();
    assert(bytes@.take(0) =~= Seq::empty());
    for i in 0..bytes.len()
        invariant
            bytes@ == vstd::utf8::encode_utf8(query@),
            encoded@ == query_bytes(bytes@.take(i as int)),
    {
        let byte = bytes[i];
        proof {
            assert(bytes@.take(i + 1).drop_last() =~= bytes@.take(i as int));
            assert(bytes@.take(i + 1).last() == byte);
        }
        let ghost before = encoded@;
        let plain = 0x41 <= byte && byte <= 0x5a || 0x61 <= byte && byte <= 0x7a || 0x30 <= byte
            && byte <= 0x39 || byte == 0x2d || byte == 0x5f || byte == 0x2e || byte == 0x7e;
        if plain {
            encoded.push(byte as char);
            assert(encoded@ =~= before + query_byte(byte));
        } else if byte == 0x20 {
            encoded.push('+');
            assert(encoded@ =~= before + query_byte(byte));
        } else {
            encoded.push('%');
            encoded.push(hex_char(byte / 16));
            encoded.push(hex_char(byte % 16));
            assert(encoded@ =~= before + query_byte(byte));
        }
    }
    assert(bytes@.take(bytes@.len() as int) =~= bytes@);
    encoded
}

/// The address of a search: the query stands where the template asks for it, or at its end.
pub open spec fn search_address(query: Seq<char>, template: Seq<char>) -> Seq<char> {
    let encoded = encoded_query(query);
    if crate::text::holds_text(template, "{query}"@) {
        crate::text::replace(template, "{query}"@, encoded)
    } else if template.contains('?') {
        template + "&"@ + "q="@ + encoded
    } else {
        template + "?"@ + "q="@ + encoded
    }
}

/// The address of a search.
pub fn search_url(query: &str, template: &str) -> (url: String)
    ensures
        url@ == search_address(query@, template@),
{
    let encoded = encode_search_query(query);
    if contains_text(template, "{query}") {
        proof {
            reveal_strlit("{query}");
        }
        return replaced(template, "{query}", encoded.as_str());
    }
    let separator = if contains_char(template, '?') {
        "&"
    } else {
        "?"
    };
    text4(template, separator, "q=", encoded.as_str())
}

/// A page to open: an address, a host, or a search for what is typed.
pub open spec fn chrome_address(input: Seq<char>, template: Seq<char>) -> Option<Seq<char>> {
    let input = crate::text::trim(input);
    if input.len() == 0 {
        None
    } else if input == "about:blank"@ || web_address(input) {
        Some(input)
    } else if crate::text::any_white_space(input) {
        Some(search_address(input, template))
    } else if unsupported_scheme(input) {
        None
    } else if host_like(input) {
        Some(
            if local_host_like(input) {
                "http://"@
            } else {
                "https://"@
            } + input,
        )
    } else {
        Some(search_address(input, template))
    }
}

/// A page to open: an address, a host, or a search for what is typed.
pub fn normalize_chrome_address_with_template(input: &str, search_template: &str) -> (url: Option<
    String,
>)
    ensures
        crate::model::opt_view(url) == chrome_address(input@, search_template@),
{
    let input = trimmed(input);
    let text = input.as_str();
    if text.is_empty() {
        return None;
    }
    if same_text(text, "about:blank") || is_web_address(text) {
        return Some(input);
    }
    if has_white_space(text) {
        return Some(search_url(text, search_template));
    }
    if has_unsupported_scheme(text) {
        return None;
    }
    if looks_like_host(text) {
        let scheme = if looks_like_local_host(text) {
            "http://"
        } else {
            "https://"
        };
        return Some(text2(scheme, text));
    }
    Some(search_url(text, search_template))
}

/// A page that is opened is blank, on the web, or a search.
pub proof fn opened_addresses_are_safe(input: Seq<char>, template: Seq<char>)
    ensures
        chrome_address(input, template) matches Some(url) ==> url == "about:blank"@ || web_address(
            url,
        ) || url == search_address(crate::text::trim(input), template),
{
    let trimmed = crate::text::trim(input);
    assert(("http://"@ + trimmed).take("http://"@.len() as int) =~= "http://"@);
    assert(("https://"@ + trimmed).take("https://"@.len() as int) =~= "https://"@);
}

proof fn unspaced_is_trimmed(text: Seq<char>)
    requires
        !crate::text::any_white_space(text),
    ensures
        crate::text::trim(text) == text,
{
}

/// The page of an assistant is on the web; and asking for its address again gives the same.
pub proof fn codex_pages_are_on_the_web(input: Seq<char>)
    ensures
        codex_url(input) matches Some(url) ==> web_address(url) && codex_url(url) == Some(url),
{
    let trimmed = crate::text::trim(input);
    if let Some(url) = codex_url(input) {
        assert(("https://"@ + trimmed).take("https://"@.len() as int) =~= "https://"@);
        reveal_strlit("https://");
        reveal_strlit("http://");
        reveal_strlit("about:blank");
        assert(!crate::text::any_white_space(url)) by {
            assert forall|i: int| 0 <= i < url.len() implies !crate::text::white_space(
                #[trigger] url[i],
            ) by {
                if !web_address(trimmed) {
                    if i >= 8 {
                        assert(url[i] == trimmed[i - 8]);
                    }
                }
            }
        }
        unspaced_is_trimmed(url);
        assert(url[0] == 'h' || url.take(7)[0] == url[0]);
    }
}

proof fn query_byte_is_plain(byte: u8)
    ensures
        forall|i: int|
            0 <= i < query_byte(byte).len() ==> plain_query_char(#[trigger] query_byte(byte)[i]),
{
}

/// Whether a character may stand in an encoded query.
pub open spec fn plain_query_char(c: char) -> bool {
    ascii_letter(c) || '0' <= c <= '9' || c == '-' || c == '_' || c == '.' || c == '~' || c == '+'
        || c == '%'
}

/// An encoded query holds nothing but letters, digits and a few marks, so it cannot end the part
/// of an address that it stands in.
pub proof fn encoded_queries_are_plain(query: Seq<char>)
    ensures
        forall|i: int|
            0 <= i < encoded_query(query).len() ==> plain_query_char(
                #[trigger] encoded_query(query)[i],
            ),
{
    query_bytes_are_plain(vstd::utf8::encode_utf8(query));
}

proof fn query_bytes_are_plain(bytes: Seq<u8>)
    ensures
        forall|i: int|
            0 <= i < query_bytes(bytes).len() ==> plain_query_char(#[trigger] query_bytes(bytes)[i]),
    decreases bytes.len(),
{
    if bytes.len() > 0 {
        query_bytes_are_plain(bytes.drop_last());
        query_byte_is_plain(bytes.last());
        let head = query_bytes(bytes.drop_last());
        let tail = query_byte(bytes.last());
        assert forall|i: int| 0 <= i < query_bytes(bytes).len() implies plain_query_char(
            #[trigger] query_bytes(bytes)[i],
        ) by {
            if i < head.len() {
                assert(query_bytes(bytes)[i] == head[i]);
            } else {
                assert(query_bytes(bytes)[i] == tail[i - head.len()]);
            }
        }
    }
}

} // verus!
