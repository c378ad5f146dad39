//! Web origins: scheme, host and port of an address.
use crate::error::{TelescopeError, TelescopeErrorView};
use crate::text::{
    contains_text, decimal_text, lowered, same_text, text2, text3, text5,
};
use vstd::prelude::*;

verus! {

/// The scheme, host and port that a page is served from.
#[derive(Debug, PartialEq, Eq)]
pub struct WebOrigin {
    pub scheme: String,
    pub host: String,
    pub port: u16,
}

/// Model of [`WebOrigin`].
#[verifier::ext_equal]
pub struct WebOriginView {
    pub scheme: Seq<char>,
    pub host: Seq<char>,
    pub port: u16,
}

impl View for WebOrigin {
    type V = WebOriginView;

    open spec fn view(&self) -> WebOriginView {
        WebOriginView {
            scheme: self.scheme@,
            host: self.host@,
            port: self.port,
        }
    }
}

impl Clone for WebOrigin {
    fn clone(&self) -> (copy: Self)
        ensures
            copy@ == self@,
    {
        WebOrigin {
            scheme: self.scheme.clone(),
            host: self.host.clone(),
            port: self.port,
        }
    }
}

/// The parts of an address that decide its origin.
#[derive(Debug, PartialEq, Eq)]
pub struct UrlParts {
    pub scheme: String,
    pub host: Option<String>,
    /// The port written in the address, or the one that its scheme implies.
    pub port: Option<u16>,
}

/// Model of [`UrlParts`].
#[verifier::ext_equal]
pub struct UrlPartsView {
    pub scheme: Seq<char>,
    pub host: Option<Seq<char>>,
    pub port: Option<u16>,
}

impl View for UrlParts {
    type V = UrlPartsView;

    open spec fn view(&self) -> UrlPartsView {
        UrlPartsView {
            scheme: self.scheme@,
            host: crate::model::opt_view(self.host),
            port: self.port,
        }
    }
}

/// Whether a host is a plain name: labels of lower-case letters, digits and single hyphens with dots
/// between them. A label that is not empty begins with a letter, and none ends in a hyphen. The name
/// is no longer than the name system allows.
pub open spec fn plain_host(host: Seq<char>) -> bool {
    &&& 0 < host.len() <= 253
    &&& forall|i: int| 0 <= i < host.len() ==> #[trigger] plain_at(host, i)
}

/// Whether the character of a host at `i` is one that a plain name may have there.
pub open spec fn plain_at(host: Seq<char>, i: int) -> bool {
    let c = host[i];
    ||| 'a' <= c <= 'z' || c == '.'
    ||| 0 < i && host[i - 1] != '.' && '0' <= c <= '9'
    ||| {
        &&& 0 < i < host.len() - 1
        &&& c == '-'
        &&& host[i - 1] != '.'
        &&& host[i + 1] != '-'
        &&& host[i + 1] != '.'
    }
}

/// The port that a web scheme implies.
pub open spec fn implied_port(scheme: Seq<char>) -> u16 {
    if scheme == "http"@ {
        80
    } else {
        443
    }
}

/// An address of a scheme, a host and maybe a port, and nothing else.
pub open spec fn bare_address(scheme: Seq<char>, host: Seq<char>, port: Option<u16>) -> Seq<char> {
    match port {
        Some(port) => scheme + "://"@ + host + ":"@ + crate::text::decimal(port as nat),
        None => scheme + "://"@ + host,
    }
}

/// Whether a scheme is one of the web.
pub open spec fn web_scheme(scheme: Seq<char>) -> bool {
    scheme == "http"@ || scheme == "https"@
}

/// Whether an origin is a web scheme, a plain name and a port.
pub open spec fn plain_origin(origin: WebOriginView) -> bool {
    web_scheme(origin.scheme) && plain_host(origin.host)
}

/// Whether a host holds no label that encodes a name in another script, and is no longer than an
/// address can be.
pub open spec fn spelled_out(host: Seq<char>) -> bool {
    host.len() <= 0x7fff_ffff && !crate::text::holds_text(host, "xn--"@)
}

/// Whether both ways of writing the scheme, host and port of an address are read as these.
pub open spec fn parts_read_back(parts: UrlPartsView) -> bool {
    let (host, port) = (parts.host->0, parts.port->0);
    &&& parsed_url(bare_address(parts.scheme, host, Some(port))) == Ok::<
        UrlPartsView,
        Seq<char>,
    >(parts)
    &&& port == implied_port(parts.scheme) ==> parsed_url(bare_address(parts.scheme, host, None))
        == Ok::<UrlPartsView, Seq<char>>(parts)
}

/// The parts of an address that has the origin.
pub open spec fn parts_of(origin: WebOriginView) -> UrlPartsView {
    UrlPartsView {
        scheme: origin.scheme,
        host: Some(origin.host),
        port: Some(origin.port),
    }
}

/// Whether the parts are those of an address of the web: it has a host in lower case and a port, and
/// reads back if its host is spelled out.
pub open spec fn web_parts(parts: UrlPartsView) -> bool {
    &&& parts.host is Some
    &&& parts.port is Some
    &&& crate::text::lower(parts.host->0) == parts.host->0
    &&& spelled_out(parts.host->0) ==> parts_read_back(parts)
}

/// What `url::Url::parse` makes of an address: its scheme, host and port, or the text of its
/// error.
pub uninterp spec fn parsed_url(address: Seq<char>) -> Result<UrlPartsView, Seq<char>>;

/// `url::Url::parse`, with the parsed address taken apart by its accessors `scheme`, `host_str`
/// and `port_or_known_default`. The outcome depends on the address alone. A web scheme, a plain name
/// and maybe a port come back as they were written, and the port that the scheme implies where none
/// was. Of an address of the web the host and the port are told, and the host is in lower case. Such
/// a host, be it a name or a number, is read as itself when it is written again behind the scheme.
/// That is left unsaid of names in other scripts, of which a long one can be written but not read.
#[verifier::external_body]
fn parse_url(address: &str) -> (parts: Result<UrlParts, String>)
    ensures
        (match parts {
            Ok(parts) => Ok(parts@),
            Err(text) => Err(text@),
        }) == parsed_url(address@),
        forall|origin: WebOriginView, port: Option<u16>|
            plain_origin(origin) && address@ == #[trigger] bare_address(
                origin.scheme,
                origin.host,
                port,
            ) && origin.port == (match port {
                Some(port) => port,
                None => implied_port(origin.scheme),
            }) ==> parts is Ok && parts->Ok_0@ == #[trigger] parts_of(origin),
        parts is Ok && web_scheme(parts->Ok_0@.scheme) ==> web_parts(parts->Ok_0@),
{
    match url::Url::parse(address) {
        Ok(url) => Ok(UrlParts {
            scheme: url.scheme().to_string(),
            host: url.host_str().map(str::to_string),
            port: url.port_or_known_default(),
        }),
        Err(error) => Err(error.to_string()),
    }
}

/// The origin that the parts of an address give.
pub open spec fn origin_of_parts(parts: UrlPartsView) -> Result<WebOriginView, TelescopeErrorView> {
    if !web_scheme(parts.scheme) {
        Err(TelescopeErrorView::InvalidOrigin("unsupported scheme `"@ + parts.scheme + "`"@))
    } else if parts.host is None {
        Err(TelescopeErrorView::InvalidOrigin("missing host"@))
    } else if parts.port is None {
        Err(TelescopeErrorView::InvalidOrigin("missing port"@))
    } else {
        Ok(
            WebOriginView {
                scheme: parts.scheme,
                host: crate::text::lower(parts.host->0),
                port: parts.port->0,
            },
        )
    }
}

/// The origin that an outcome of parsing `shown` gives.
pub open spec fn origin_of_outcome(
    shown: Seq<char>,
    outcome: Result<UrlPartsView, Seq<char>>,
) -> Result<WebOriginView, TelescopeErrorView> {
    match outcome {
        Ok(parts) => origin_of_parts(parts),
        Err(text) => Err(TelescopeErrorView::InvalidOrigin(shown + ": "@ + text)),
    }
}

/// The origin of an address.
pub open spec fn origin_of_url(url: Seq<char>) -> Result<WebOriginView, TelescopeErrorView> {
    origin_of_outcome(url, parsed_url(url))
}

/// The origin that a user wrote, with or without a scheme.
pub open spec fn origin_of_input(input: Seq<char>) -> Result<WebOriginView, TelescopeErrorView> {
    if crate::text::holds_text(input, "://"@) {
        origin_of_outcome(input, parsed_url(input))
    } else {
        origin_of_outcome(input, parsed_url("https://"@ + input))
    }
}

/// Whether both ways of writing an origin are read as that origin.
pub open spec fn reads_back(origin: WebOriginView) -> bool {
    &&& origin_of_input(origin.key()) == Ok::<WebOriginView, TelescopeErrorView>(origin)
    &&& origin_of_input(origin.display()) == Ok::<WebOriginView, TelescopeErrorView>(origin)
    &&& origin_of_url(origin.key()) == Ok::<WebOriginView, TelescopeErrorView>(origin)
    &&& origin_of_url(origin.display()) == Ok::<WebOriginView, TelescopeErrorView>(origin)
}

impl WebOriginView {
    /// Scheme, host and port, always with the port.
    pub open spec fn key(self) -> Seq<char> {
        self.scheme + "://"@ + self.host + ":"@ + crate::text::decimal(self.port as nat)
    }

    /// Scheme, host and port, without a port that the scheme implies.
    pub open spec fn display(self) -> Seq<char> {
        if (self.scheme == "http"@ && self.port == 80) || (self.scheme == "https"@ && self.port
            == 443) {
            self.scheme + "://"@ + self.host
        } else {
            self.key()
        }
    }
}

/// The origin that an outcome of parsing `shown` gives.
pub fn origin_from_outcome(shown: &str, outcome: Result<UrlParts, String>) -> (origin: Result<
    WebOrigin,
    TelescopeError,
>)
    ensures
        crate::error::core_result(origin) == origin_of_outcome(
            shown@,
            match outcome {
                Ok(parts) => Ok(parts@),
                Err(text) => Err(text@),
            },
        ),
{
    match outcome {
        Ok(parts) => WebOrigin::from_url(&parts),
        Err(text) => Err(TelescopeError::InvalidOrigin(text3(shown, ": ", text.as_str()))),
    }
}

/// The parts of an address that has a plain origin give that origin.
proof fn plain_parts_give_the_origin(origin: WebOriginView)
    requires
        plain_origin(origin),
    ensures
        origin_of_parts(parts_of(origin)) == Ok::<WebOriginView, TelescopeErrorView>(origin),
{
    let host = origin.host;
    assert forall|i: int| 0 <= i < host.len() implies crate::text::ascii_lower(host[i])
        == host[i] by {
        assert(plain_at(host, i));
    }
    assert(crate::text::lower(host) =~= host);
}

/// How an origin is written is an address of its scheme, host and maybe its port, and holds a scheme.
proof fn written_origins_are_addresses(origin: WebOriginView)
    requires
        web_scheme(origin.scheme),
    ensures
        origin.key() == bare_address(origin.scheme, origin.host, Some(origin.port)),
        origin.display() == bare_address(origin.scheme, origin.host, Some(origin.port)) || (
        origin.display() == bare_address(origin.scheme, origin.host, None) && origin.port
            == implied_port(origin.scheme)),
        crate::text::holds_text(origin.key(), "://"@),
        crate::text::holds_text(origin.display(), "://"@),
{
    reveal_strlit("http");
    reveal_strlit("https");
    let at = origin.scheme.len() as int;
    assert("http"@.len() != "https"@.len());
    let key = origin.key();
    let shown = origin.display();
    assert(key.subrange(at, at + "://"@.len()) =~= "://"@);
    assert(shown.subrange(at, at + "://"@.len()) =~= "://"@);
    assert(crate::text::stands_at(key, "://"@, at));
    assert(crate::text::stands_at(shown, "://"@, at));
}

/// An origin that an address gave reads back, if the address does.
proof fn read_origins_read_back(outcome: Result<UrlParts, String>)
    requires
        outcome is Ok && web_scheme(outcome->Ok_0@.scheme) ==> web_parts(outcome->Ok_0@),
    ensures
        outcome is Ok ==> match origin_of_parts(outcome->Ok_0@) {
            Ok(origin) => spelled_out(origin.host) ==> reads_back(origin),
            Err(_) => true,
        },
{
    if let Ok(parts) = outcome {
        if let Ok(origin) = origin_of_parts(parts@) {
            written_origins_are_addresses(origin);
        }
    }
}

/// What reading the way in which an origin with a plain name is written gives is that origin.
proof fn reading_gives_the_origin(address: Seq<char>, outcome: Result<UrlParts, String>)
    requires
        forall|origin: WebOriginView, port: Option<u16>|
            plain_origin(origin) && address == #[trigger] bare_address(
                origin.scheme,
                origin.host,
                port,
            ) && origin.port == (match port {
                Some(port) => port,
                None => implied_port(origin.scheme),
            }) ==> outcome is Ok && outcome->Ok_0@ == #[trigger] parts_of(origin),
    ensures
        forall|written: WebOriginView| #[trigger]
            plain_origin(written) && (address == written.display() || address == written.key())
                ==> outcome is Ok && origin_of_parts(outcome->Ok_0@) == Ok::<
                WebOriginView,
                TelescopeErrorView,
            >(written),
{
    assert forall|written: WebOriginView| #[trigger]
        plain_origin(written) && (address == written.display() || address
            == written.key()) implies outcome is Ok && origin_of_parts(outcome->Ok_0@) == Ok::<
        WebOriginView,
        TelescopeErrorView,
    >(written) by {
        written_origins_are_addresses(written);
        plain_parts_give_the_origin(written);
        let parts = parts_of(written);
        if address == bare_address(written.scheme, written.host, Some(written.port)) {
            assert(outcome is Ok && outcome->Ok_0@ == parts);
        } else {
            assert(address == bare_address(written.scheme, written.host, None));
            assert(outcome is Ok && outcome->Ok_0@ == parts);
        }
    }
}

/// A plain name holds no scheme, and is one of an address behind `https`.
proof fn plain_hosts_hold_no_scheme(host: Seq<char>)
    requires
        plain_host(host),
    ensures
        !crate::text::holds_text(host, "://"@),
        "https://"@ + host == bare_address("https"@, host, None),
{
    reveal_strlit("://");
    reveal_strlit("https");
    reveal_strlit("https://");
    assert("https://"@ =~= "https"@ + "://"@);
    assert("https://"@ + host =~= bare_address("https"@, host, None));
    assert forall|at: int| !crate::text::stands_at(host, "://"@, at) by {
        if crate::text::stands_at(host, "://"@, at) {
            assert(host.subrange(at, at + 3)[0] == ':');
            assert(plain_at(host, at));
        }
    }
}

impl WebOrigin {
    /// The origin that a user wrote; without a scheme, `https` is meant. The origin reads back from
    /// either way of writing it.
    pub fn parse(input: &str) -> (origin: Result<WebOrigin, TelescopeError>)
        ensures
            crate::error::core_result(origin) == origin_of_input(input@),
            origin is Ok && spelled_out(origin->Ok_0@.host) ==> reads_back(origin->Ok_0@),
            forall|written: WebOriginView| #[trigger]
                plain_origin(written) && (input@ == written.display() || input@ == written.key())
                    ==> origin is Ok && origin->Ok_0@ == written,
            plain_host(input@) ==> origin is Ok && origin->Ok_0@ == (WebOriginView {
                scheme: "https"@,
                host: input@,
                port: 443,
            }),
    {
        if contains_text(input, "://") {
            let outcome = parse_url(input);
            proof {
                reading_gives_the_origin(input@, outcome);
                read_origins_read_back(outcome);
                if plain_host(input@) {
                    plain_hosts_hold_no_scheme(input@);
                }
            }
            origin_from_outcome(input, outcome)
        } else {
            let address = text2("https://", input);
            let outcome = parse_url(address.as_str());
            proof {
                read_origins_read_back(outcome);
                assert forall|written: WebOriginView| #[trigger]
                    plain_origin(written) implies input@ != written.display() && input@
                    != written.key() by {
                    written_origins_are_addresses(written);
                }
                if plain_host(input@) {
                    let written = WebOriginView { scheme: "https"@, host: input@, port: 443 };
                    plain_hosts_hold_no_scheme(input@);
                    assert(plain_origin(written));
                    assert(implied_port("https"@) == 443) by {
                        reveal_strlit("http");
                        reveal_strlit("https");
                        assert("http"@.len() != "https"@.len());
                    }
                    assert(address@ == bare_address(written.scheme, written.host, None));
                    assert(outcome is Ok && outcome->Ok_0@ == parts_of(written));
                    plain_parts_give_the_origin(written);
                }
            }
            origin_from_outcome(input, outcome)
        }
    }

    /// The origin that the parts of an address give.
    pub fn from_url(url: &UrlParts) -> (origin: Result<WebOrigin, TelescopeError>)
        ensures
            crate::error::core_result(origin) == origin_of_parts(url@),
    {
        let scheme = url.scheme.as_str();
        if !same_text(scheme, "http") && !same_text(scheme, "https") {
            return Err(TelescopeError::InvalidOrigin(text3("unsupported scheme `", scheme, "`")));
        }
        match &url.host {
            None => Err(TelescopeError::InvalidOrigin("missing host".to_owned())),
            Some(host) => match url.port {
                None => Err(TelescopeError::InvalidOrigin("missing port".to_owned())),
                Some(port) => Ok(
                    WebOrigin { scheme: url.scheme.clone(), host: lowered(host.as_str()), port },
                ),
            },
        }
    }

    /// The origin of an address. The origin reads back from either way of writing it.
    pub fn from_url_str(url: &str) -> (origin: Result<WebOrigin, TelescopeError>)
        ensures
            crate::error::core_result(origin) == origin_of_url(url@),
            origin is Ok && spelled_out(origin->Ok_0@.host) ==> reads_back(origin->Ok_0@),
            forall|written: WebOriginView| #[trigger]
                plain_origin(written) && (url@ == written.display() || url@ == written.key())
                    ==> origin is Ok && origin->Ok_0@ == written,
    {
        let outcome = parse_url(url);
        proof {
            reading_gives_the_origin(url@, outcome);
            read_origins_read_back(outcome);
        }
        origin_from_outcome(url, outcome)
    }

    /// Whether both are the same origin.
    pub fn same(&self, other: &WebOrigin) -> (same: bool)
        ensures
            same == (self@ == other@),
    {
        same_text(self.scheme.as_str(), other.scheme.as_str()) && same_text(
            self.host.as_str(),
            other.host.as_str(),
        ) && self.port == other.port
    }

    /// Whether an address has this origin.
    pub fn matches_url(&self, url: &str) -> (matches: Result<bool, TelescopeError>)
        ensures
            crate::error::core_result(matches) == (match origin_of_url(url@) {
                Ok(origin) => Ok(origin == self@),
                Err(error) => Err(error),
            }),
            plain_origin(self@) && url@ == self@.display() ==> matches == Ok::<
                bool,
                TelescopeError,
            >(true),
    {
        match WebOrigin::from_url_str(url) {
            Ok(origin) => Ok(origin.same(self)),
            Err(error) => Err(error),
        }
    }

    /// Scheme, host and port, without a port that the scheme implies.
    pub fn display_url(&self) -> (text: String)
        ensures
            text@ == self@.display(),
    {
        if (same_text(self.scheme.as_str(), "http") && self.port == 80) || (same_text(
            self.scheme.as_str(),
            "https",
        ) && self.port == 443) {
            text3(self.scheme.as_str(), "://", self.host.as_str())
        } else {
            self.key()
        }
    }

    /// Scheme, host and port, always with the port.
    pub fn key(&self) -> (text: String)
        ensures
            text@ == self@.key(),
    {
        let port = decimal_text(self.port as u64);
        text5(self.scheme.as_str(), "://", self.host.as_str(), ":", port.as_str())
    }
}

/// Whether the list holds the origin.
pub fn holds_origin(origins: &Vec<WebOrigin>, wanted: &WebOrigin) -> (found: bool)
    ensures
        found == crate::model::views(origins@).contains(wanted@),
{
    let ghost all = crate::model::views(origins@);
    for i in 0..origins.len()
        invariant
            all == crate::model::views(origins@),
            forall|j: int| 0 <= j < i ==> #[trigger] all[j] != wanted@,
    {
        assert(all[i as int] == origins@[i as int]@);
        if origins[i].same(wanted) {
            return true;
        }
    }
    false
}

/// The origins that a list of inputs gives, or the first failure among them.
pub open spec fn origins_of_inputs(inputs: Seq<Seq<char>>) -> Result<
    Seq<WebOriginView>,
    TelescopeErrorView,
>
    decreases inputs.len(),
{
    if inputs.len() == 0 {
        Ok(Seq::empty())
    } else {
        match origins_of_inputs(inputs.drop_last()) {
            Err(error) => Err(error),
            Ok(origins) => match origin_of_input(inputs.last()) {
                Err(error) => Err(error),
                Ok(origin) => Ok(origins.push(origin)),
            },
        }
    }
}

proof fn first_failure_stays(inputs: Seq<Seq<char>>, n: int)
    requires
        0 <= n <= inputs.len(),
        origins_of_inputs(inputs.take(n)) is Err,
    ensures
        origins_of_inputs(inputs) == origins_of_inputs(inputs.take(n)),
    decreases inputs.len() - n,
{
    if n == inputs.len() {
        assert(inputs.take(n) =~= inputs);
    } else {
        let head = inputs.take(n + 1);
        assert(head.drop_last() =~= inputs.take(n));
        first_failure_stays(inputs, n + 1);
    }
}

/// The origins that a list of inputs gives, or the first failure among them.
pub fn parse_origins(inputs: &Vec<String>) -> (origins: Result<Vec<WebOrigin>, TelescopeError>)
    ensures
        (match origins {
            Ok(origins) => Ok(crate::model::views(origins@)),
            Err(error) => Err(error@),
        }) == origins_of_inputs(crate::model::views(inputs@)),
{
    broadcast use crate::model::group_views;

    let ghost all = crate::model::views(inputs@);
    let mut origins: Vec<WebOrigin> = Vec::new();
    for i in 0..inputs.len()
        invariant
            all == crate::model::views(inputs@),
            origins_of_inputs(all.take(i as int)) == Ok::<Seq<WebOriginView>, TelescopeErrorView>(
                crate::model::views(origins@),
            ),
    {
        proof {
            let head = all.take(i + 1);
            assert(head.drop_last() =~= all.take(i as int));
            assert(head.last() == inputs@[i as int]@);
        }
        match WebOrigin::parse(inputs[i].as_str()) {
            Ok(origin) => {
                let ghost before = crate::model::views(origins@);
                origins.push(origin);
                assert(crate::model::views(origins@) == before.push(origin@));
                assert(origin_of_input(all[i as int]) == Ok::<WebOriginView, TelescopeErrorView>(
                    origin@,
                ));
            },
            Err(error) => {
                proof {
                    first_failure_stays(all, i + 1);
                }
                return Err(error);
            },
        }
    }
    assert(all.take(inputs@.len() as int) =~= all);
    Ok(origins)
}

/// An address whose origin is `origin` matches it, and one with another origin does not.
pub proof fn one_origin_per_url(url: Seq<char>, origin: WebOriginView, other: WebOriginView)
    requires
        origin_of_url(url) == Ok::<WebOriginView, TelescopeErrorView>(origin),
        origin_of_url(url) == Ok::<WebOriginView, TelescopeErrorView>(other),
    ensures
        origin == other,
        origin.scheme == "http"@ || origin.scheme == "https"@,
        origin.host == crate::text::lower(origin.host),
{
    match parsed_url(url) {
        Ok(parts) => {
            crate::text::lower_is_idempotent(parts.host->0);
        },
        Err(_) => {},
    }
}

/// An address that could be taken apart has an origin just if it is one of the web with a host and a
/// port. The origin has the scheme and the port of the address, and its host in small letters.
pub proof fn origins_are_made_of_the_parts(shown: Seq<char>, parts: UrlPartsView)
    ensures
        origin_of_outcome(shown, Ok(parts)) is Ok <==> (parts.scheme == "http"@ || parts.scheme
            == "https"@) && parts.host is Some && parts.port is Some,
        origin_of_outcome(shown, Ok(parts)) matches Ok(origin) ==> {
            &&& origin.scheme == parts.scheme
            &&& origin.host == crate::text::lower(parts.host->0)
            &&& Some(origin.port) == parts.port
        },
        origin_of_outcome(shown, Ok(parts)) is Err ==> origin_of_outcome(
            shown,
            Ok(parts),
        )->Err_0 is InvalidOrigin,
{
}

/// What is given with a scheme is read as it stands, and what is given without one as an `https`
/// address.
pub proof fn inputs_without_a_scheme_are_secure(input: Seq<char>)
    ensures
        (exists|i: int|
            0 <= i && i + 3 <= input.len() && #[trigger] input.subrange(i, i + 3) == "://"@)
            ==> origin_of_input(input) == origin_of_url(input),
        !(exists|i: int|
            0 <= i && i + 3 <= input.len() && #[trigger] input.subrange(i, i + 3) == "://"@)
            ==> match origin_of_input(input) {
            Ok(origin) => origin_of_url("https://"@ + input) == Ok::<
                WebOriginView,
                TelescopeErrorView,
            >(origin),
            Err(_) => origin_of_url("https://"@ + input) is Err,
        },
{
    reveal_strlit("://");
    if crate::text::holds_text(input, "://"@) {
        let at = choose|at: int| crate::text::stands_at(input, "://"@, at);
        assert(input.subrange(at, at + 3) == "://"@);
    } else {
        assert forall|i: int| 0 <= i && i + 3 <= input.len() implies #[trigger] input.subrange(
            i,
            i + 3,
        ) != "://"@ by {
            assert(!crate::text::stands_at(input, "://"@, i));
        }
    }
}

/// An origin is shown with its port unless the scheme implies it, and its key always has it: two
/// origins with one key are the same as far as their hosts and schemes are told apart.
pub proof fn origins_are_shown_with_their_port(origin: WebOriginView)
    ensures
        origin.key() == origin.scheme + "://"@ + origin.host + ":"@ + crate::text::decimal(
            origin.port as nat,
        ),
        origin.scheme == "http"@ && origin.port == 80 || origin.scheme == "https"@ && origin.port
            == 443 ==> origin.display() == origin.scheme + "://"@ + origin.host,
        !(origin.scheme == "http"@ && origin.port == 80 || origin.scheme == "https"@ && origin.port
            == 443) ==> origin.display() == origin.key(),
{
}

} // verus!
