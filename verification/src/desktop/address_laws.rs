//! What becomes of what is typed into the address field.
use vstd::prelude::*;

verus! {

/// The number that a hexadecimal digit stands for.
pub open spec fn unhex(c: char) -> int {
    if '0' <= c <= '9' {
        c as int - '0' as int
    } else if 'A' <= c <= 'F' {
        c as int - 'A' as int + 10
    } else {
        c as int - 'a' as int + 10
    }
}

/// The bytes that a query stands for, as a server reads it: a plus is a space, a per cent sign is
/// followed by the two digits of a byte, and every other character is itself.
pub open spec fn read_query(text: Seq<char>) -> Seq<u8>
    decreases text.len(),
{
    if text.len() == 0 {
        Seq::empty()
    } else if text[0] == '+' {
        seq![0x20u8] + read_query(text.skip(1))
    } else if text[0] == '%' && text.len() >= 3 {
        seq![(16 * unhex(text[1]) + unhex(text[2])) as u8] + read_query(text.skip(3))
    } else {
        seq![text[0] as u8] + read_query(text.skip(1))
    }
}

/// One encoded byte, and what follows it, are read as that byte and what follows.
proof fn one_byte_reads_back(byte: u8, rest: Seq<char>)
    ensures
        read_query(super::address::query_byte(byte) + rest) == seq![byte] + read_query(rest),
{
    let code = super::address::query_byte(byte);
    let whole = code + rest;
    assert(whole.skip(code.len() as int) =~= rest);
    if code.len() == 3 {
        let high = byte as int / 16;
        let low = byte as int % 16;
        assert(whole[1] == code[1] && whole[2] == code[2]);
        assert(unhex(super::address::hex_digit(high)) == high);
        assert(unhex(super::address::hex_digit(low)) == low);
        assert((16 * high + low) as u8 == byte);
    } else {
        assert(whole[0] == code[0]);
    }
}

proof fn bytes_read_back(bytes: Seq<u8>, rest: Seq<char>)
    ensures
        read_query(super::address::query_bytes(bytes) + rest) == bytes + read_query(rest),
    decreases bytes.len(),
{
    if bytes.len() == 0 {
        assert(super::address::query_bytes(bytes) + rest =~= rest);
        assert(bytes + read_query(rest) =~= read_query(rest));
    } else {
        let head = super::address::query_bytes(bytes.drop_last());
        let code = super::address::query_byte(bytes.last());
        assert(super::address::query_bytes(bytes) + rest =~= head + (code + rest));
        bytes_read_back(bytes.drop_last(), code + rest);
        one_byte_reads_back(bytes.last(), rest);
        assert(bytes + read_query(rest) =~= bytes.drop_last() + (seq![bytes.last()] + read_query(
            rest,
        )));
    }
}

/// An encoded query reads back as the bytes of what was typed: nothing is lost.
pub proof fn encoded_queries_read_back(query: Seq<char>)
    ensures
        read_query(super::address::encoded_query(query)) == vstd::utf8::encode_utf8(query),
{
    let bytes = vstd::utf8::encode_utf8(query);
    bytes_read_back(bytes, Seq::empty());
    assert(super::address::query_bytes(bytes) + Seq::<char>::empty()
        =~= super::address::query_bytes(bytes));
    assert(bytes + read_query(Seq::empty()) =~= bytes);
}

/// Two queries never become one.
pub proof fn queries_stay_apart(one: Seq<char>, other: Seq<char>)
    ensures
        super::address::encoded_query(one) == super::address::encoded_query(other) <==> one == other,
{
    encoded_queries_read_back(one);
    encoded_queries_read_back(other);
    vstd::utf8::encode_utf8_decode_utf8(one);
    vstd::utf8::encode_utf8_decode_utf8(other);
}

/// Whether `address` is `before`, a text that a server reads as `query`, and `after`.
pub open spec fn asks_for(
    address: Seq<char>,
    before: Seq<char>,
    query: Seq<char>,
    after: Seq<char>,
) -> bool {
    exists|code: Seq<char>|
        address == #[trigger] (before + code + after) && read_query(code)
            == vstd::utf8::encode_utf8(query) && forall|i: int|
            0 <= i < code.len() ==> super::address::plain_query_char(#[trigger] code[i])
}

proof fn without_needle_nothing_is_replaced(text: Seq<char>, needle: Seq<char>, with: Seq<char>)
    requires
        !crate::text::holds_text(text, needle),
    ensures
        crate::text::replace(text, needle, with) == text,
    decreases text.len(),
{
    if needle.len() > 0 && text.len() > 0 {
        assert(!crate::text::stands_at(text, needle, 0));
        let rest = text.drop_first();
        assert forall|at: int| !crate::text::stands_at(rest, needle, at) by {
            if crate::text::stands_at(rest, needle, at) {
                assert(text.subrange(at + 1, at + 1 + needle.len()) =~= rest.subrange(
                    at,
                    at + needle.len(),
                ));
                assert(crate::text::stands_at(text, needle, at + 1));
            }
        }
        without_needle_nothing_is_replaced(rest, needle, with);
        assert(text =~= seq![text[0]] + rest);
    }
}

proof fn one_needle_is_replaced(
    before: Seq<char>,
    needle: Seq<char>,
    after: Seq<char>,
    with: Seq<char>,
)
    requires
        needle.len() > 0,
        forall|at: int| #[trigger]
            crate::text::stands_at(before + needle + after, needle, at) ==> at == before.len(),
    ensures
        crate::text::replace(before + needle + after, needle, with) == before + with + after,
    decreases before.len(),
{
    let text = before + needle + after;
    if before.len() == 0 {
        assert(text.subrange(0, needle.len() as int) =~= needle);
        assert(crate::text::stands_at(text, needle, 0));
        let rest = text.skip(needle.len() as int);
        assert(rest =~= after);
        assert forall|at: int| !crate::text::stands_at(rest, needle, at) by {
            if crate::text::stands_at(rest, needle, at) {
                assert(text.subrange(needle.len() + at, needle.len() + at + needle.len())
                    =~= rest.subrange(at, at + needle.len()));
                assert(crate::text::stands_at(text, needle, needle.len() + at));
            }
        }
        without_needle_nothing_is_replaced(rest, needle, with);
        assert(before + with + after =~= with + after);
    } else {
        assert(!crate::text::stands_at(text, needle, 0));
        let rest = before.drop_first() + needle + after;
        assert(text.drop_first() =~= rest);
        assert forall|at: int| #[trigger] crate::text::stands_at(rest, needle, at) implies at
            == before.drop_first().len() by {
            assert(text.subrange(at + 1, at + 1 + needle.len()) =~= rest.subrange(
                at,
                at + needle.len(),
            ));
            assert(crate::text::stands_at(text, needle, at + 1));
        }
        one_needle_is_replaced(before.drop_first(), needle, after, with);
        assert(before + with + after =~= seq![before[0]] + (before.drop_first() + with + after));
    }
}

/// A search asks for what was typed, where the template wants it: in the place of `{query}`, or
/// else as the parameter `q` at its end.
pub proof fn searches_ask_for_what_is_typed(
    query: Seq<char>,
    before: Seq<char>,
    after: Seq<char>,
    template: Seq<char>,
)
    requires
        forall|at: int| #[trigger]
            crate::text::stands_at(before + "{query}"@ + after, "{query}"@, at) ==> at
                == before.len(),
    ensures
        asks_for(
            super::address::search_address(query, before + "{query}"@ + after),
            before,
            query,
            after,
        ),
        !crate::text::holds_text(template, "{query}"@) && template.contains('?') ==> asks_for(
            super::address::search_address(query, template),
            template + "&q="@,
            query,
            Seq::empty(),
        ),
        !crate::text::holds_text(template, "{query}"@) && !template.contains('?') ==> asks_for(
            super::address::search_address(query, template),
            template + "?q="@,
            query,
            Seq::empty(),
        ),
{
    let code = super::address::encoded_query(query);
    encoded_queries_read_back(query);
    super::address::encoded_queries_are_plain(query);
    let whole = before + "{query}"@ + after;
    reveal_strlit("{query}");
    assert(whole.subrange(before.len() as int, before.len() as int + 7) =~= "{query}"@);
    assert(crate::text::stands_at(whole, "{query}"@, before.len() as int));
    one_needle_is_replaced(before, "{query}"@, after, code);
    assert(super::address::search_address(query, whole) == before + code + after);
    assert(asks_for(super::address::search_address(query, whole), before, query, after));
    reveal_strlit("&q=");
    reveal_strlit("?q=");
    reveal_strlit("&");
    reveal_strlit("?");
    reveal_strlit("q=");
    let nothing = Seq::<char>::empty();
    assert(template + "&"@ + "q="@ + code =~= (template + "&q="@) + code + nothing);
    assert(template + "?"@ + "q="@ + code =~= (template + "?q="@) + code + nothing);
}

/// What is typed is opened as it stands if it is an address of the web or the blank page, is
/// searched for if it has white space in it or is a single word, is refused if it names another
/// scheme, and is else a host: one on this machine by `http`, any other by `https`.
pub proof fn what_is_typed_is_opened(input: Seq<char>, template: Seq<char>)
    ensures
        ({
            let typed = crate::text::trim(input);
            let opened = super::address::chrome_address(input, template);
            let address = typed == "about:blank"@ || crate::text::has_prefix(typed, "http://"@)
                || crate::text::has_prefix(typed, "https://"@);
            let spaced = exists|i: int|
                0 <= i < typed.len() && crate::text::white_space(#[trigger] typed[i]);
            let low = crate::text::lower(typed);
            let local = low == "localhost"@ || crate::text::has_prefix(low, "localhost/"@);
            let here = local || crate::text::has_prefix(low, "localhost:"@)
                || crate::text::has_prefix(low, "127."@) || crate::text::has_prefix(low, "[::1]"@);
            &&& opened is None ==> typed.len() == 0 || (!address && !spaced && typed.contains(':'))
            &&& typed.len() == 0 ==> opened is None
            &&& typed.len() > 0 && address ==> opened == Some(typed)
            &&& typed.len() > 0 && !address && spaced ==> opened == Some(
                super::address::search_address(typed, template),
            )
            &&& typed.len() > 0 && !address && !spaced && !typed.contains('.') && !typed.contains(
                ':',
            ) && !local ==> opened == Some(super::address::search_address(typed, template))
            &&& !address && !spaced && typed.contains('.') && !typed.contains(':') && !here
                ==> opened == Some("https://"@ + typed)
            &&& !address && !spaced && !typed.contains(':') && (local || crate::text::has_prefix(
                low,
                "127."@,
            )) ==> opened == Some("http://"@ + typed)
        }),
{
    let typed = crate::text::trim(input);
    let low = crate::text::lower(typed);
    if !typed.contains(':') {
        crate::text::first_at_found(typed, ':', typed.len() as int);
        assert(!super::address::unsupported_scheme(typed));
        reveal_strlit("localhost");
        reveal_strlit("localhost/");
        reveal_strlit("[0:0:0:0:0:0:0:1]");
        reveal_strlit("[::1]");
        reveal_strlit("localhost:");
        colons_stay(typed, "[0:0:0:0:0:0:0:1]"@, 2);
        colons_stay(typed, "[::1]"@, 1);
        colons_stay(typed, "localhost:"@, 9);
        if crate::text::has_prefix(low, "127."@) {
            reveal_strlit("127.");
            assert(low.take(4)[3] == '.');
            assert(low[3] == '.');
            assert(typed[3] == '.');
            assert(typed.contains('.'));
        }
    }
}

proof fn colons_stay(text: Seq<char>, prefix: Seq<char>, at: int)
    requires
        !text.contains(':'),
        0 <= at < prefix.len(),
        prefix[at] == ':',
    ensures
        !crate::text::has_prefix(crate::text::lower(text), prefix),
{
    let low = crate::text::lower(text);
    if crate::text::has_prefix(low, prefix) {
        assert(low.take(prefix.len() as int)[at] == ':');
        assert(low[at] == ':');
        assert(text[at] == ':');
    }
}

/// What names a scheme other than those of the web is not opened.
pub proof fn other_schemes_are_refused(scheme: Seq<char>, rest: Seq<char>, template: Seq<char>)
    requires
        scheme.len() > 0,
        forall|i: int| 0 <= i < scheme.len() ==> super::address::ascii_letter(#[trigger] scheme[i]),
        crate::text::lower(scheme) != "localhost"@,
        !crate::text::any_white_space(scheme + ":"@ + rest),
        scheme + ":"@ + rest != "about:blank"@,
        !crate::text::has_prefix(scheme + ":"@ + rest, "http://"@),
        !crate::text::has_prefix(scheme + ":"@ + rest, "https://"@),
    ensures
        super::address::chrome_address(scheme + ":"@ + rest, template) is None,
        super::address::codex_url(scheme + ":"@ + rest) is None,
{
    let typed = scheme + ":"@ + rest;
    reveal_strlit(":");
    assert(typed[scheme.len() as int] == ':');
    unspaced(typed);
    crate::text::first_at_found(typed, ':', scheme.len() as int);
    assert(typed.take(scheme.len() as int) =~= scheme);
    assert(!scheme.contains('.'));
}

proof fn unspaced(text: Seq<char>)
    requires
        !crate::text::any_white_space(text),
    ensures
        crate::text::trim(text) == text,
{
}

/// The page of an assistant is on the web: an address of the web is taken as it is typed, a bare host
/// is taken as a secure one, and nothing blank, spaced or of another scheme is taken.
pub proof fn assistants_are_found_on_the_web(input: Seq<char>)
    ensures
        ({
            let inner = crate::text::trim(input);
            let url = super::address::codex_url(input);
            &&& inner.len() == 0 || inner == "about:blank"@ || crate::text::any_white_space(inner)
                ==> url is None
            &&& inner.len() > 0 && inner != "about:blank"@ && !crate::text::any_white_space(inner)
                ==> {
                &&& crate::text::has_prefix(inner, "http://"@) || crate::text::has_prefix(
                    inner,
                    "https://"@,
                ) ==> url == Some(inner)
                &&& !(crate::text::has_prefix(inner, "http://"@) || crate::text::has_prefix(
                    inner,
                    "https://"@,
                )) && !super::address::unsupported_scheme(inner) ==> url == Some(
                    "https://"@ + inner,
                )
                &&& !(crate::text::has_prefix(inner, "http://"@) || crate::text::has_prefix(
                    inner,
                    "https://"@,
                )) && super::address::unsupported_scheme(inner) ==> url is None
            }
        }),
{
}

/// The command of an assistant is what was typed without outer white space, just if that is something,
/// on one line, and of no more than 512 bytes.
pub proof fn commands_are_single_lines(input: Seq<char>)
    ensures
        ({
            let inner = crate::text::trim(input);
            let command = super::address::cli_command(input);
            &&& command is Some <==> inner.len() > 0 && vstd::utf8::encode_utf8(inner).len() <= 512
                && !inner.contains('\n') && !inner.contains('\r')
            &&& command is Some ==> command == Some(inner)
        }),
{
}

/// A page to open is what is typed without the blanks round it: nothing where that is empty, itself
/// where it is the blank page or an address of the web, and else a secure host.
pub proof fn typed_hosts_are_secure(input: Seq<char>)
    ensures
        ({
            let inner = crate::text::trim(input);
            let url = super::address::chrome_url(input);
            &&& url is None <==> inner.len() == 0
            &&& inner == "about:blank"@ ==> url == Some(inner)
            &&& inner.len() > 0 && (crate::text::has_prefix(inner, "http://"@)
                || crate::text::has_prefix(inner, "https://"@)) ==> url == Some(inner)
            &&& inner.len() > 0 && inner != "about:blank"@ && !crate::text::has_prefix(
                inner,
                "http://"@,
            ) && !crate::text::has_prefix(inner, "https://"@) ==> url == Some("https://"@ + inner)
        }),
{
    reveal_strlit("about:blank");
}

/// An assistant is started by the command that is configured, without the blanks round it, if that
/// is one line of 512 bytes at most, and else by `codex`.
pub proof fn configured_commands_are_heeded(command: Seq<char>)
    ensures
        ({
            let inner = crate::text::trim(command);
            let chosen = super::address::default_command(Some(command));
            let fits = inner.len() > 0 && vstd::utf8::encode_utf8(inner).len() <= 512
                && !inner.contains('\r') && !inner.contains('\n');
            &&& fits ==> chosen == inner
            &&& !fits ==> chosen == "codex"@
        }),
        super::address::default_command(None) == "codex"@,
{
}

} // verus!
