//! Which API server a query is about, how it is reached, and how much was asked about.
//!
//! A context is named, never guessed: a query names a kubeconfig `context` or an explicit `host`,
//! and naming neither is refused.

use vstd::prelude::*;
use vstd::string::*;

use crate::cluster::Posture;
use crate::coverage::{Reach, ReachView};
use crate::credential_store::Secret;
use crate::digits::{decimal, natural, natural_number, number};
use crate::failure::{failure, refusal, Class, Refusal, WireError};
use crate::json::{flag_of, member, natural_of, JsonView};
use crate::options::{nonempty, positive, text_option, Options};
use crate::text::{
    begins, behind, chars, cut, cut_at, cut_at_text, cut_text, fill1, filled, first_at, first_at_is,
    first_match_is, join2, join3, past, same, str_view, text_view,
};

verus! {

// --- which server ---------------------------------------------------------------------------------

/// The port `kubectl proxy` listens on unless told otherwise. There is deliberately no default host.
pub const DEFAULT_PORT: u16 = 8001;

/// Where a kubeconfig lives unless the query names another file.
pub const DEFAULT_KUBECONFIG: &'static str = "~/.kube/config";

pub const NO_ENDPOINT: &'static str =
    "the query named neither a kubeconfig `context` nor a `host`, and this provider does not \
    guess an API server";

pub const NO_ENDPOINT_HELP: &'static str =
    "Pass `context` to resolve a cluster through `~/.kube/config` — its server, its default \
    namespace and its trust anchors come from there — or pass `host` (and `port`, which \
    defaults to 8001) to name an endpoint directly, which speaks plain HTTP/1.1 and so \
    reaches an API server through `kubectl proxy` rather than over TLS.";

/// How a query named the API server it is about.
#[derive(Debug, PartialEq, Eq)]
pub enum Named {
    /// Directly, with the context it stands for where it was given one.
    Explicit { host: String, context: Option<String> },
    /// By a kubeconfig context.
    Context { name: String },
}

/// How a query named the API server it is about.
pub enum NamedView {
    Explicit { host: Seq<char>, context: Option<Seq<char>> },
    Context { name: Seq<char> },
}

impl View for Named {
    type V = NamedView;

    open spec fn view(&self) -> NamedView {
        match self {
            Named::Explicit { host, context } => NamedView::Explicit {
                host: host@,
                context: text_view(*context),
            },
            Named::Context { name } => NamedView::Context { name: name@ },
        }
    }
}

/// How a query named the API server it is about: an explicit host first, then a context, and
/// otherwise a refusal rather than a default.
pub open spec fn server_named(options: Seq<(Seq<char>, JsonView)>) -> Result<NamedView, Refusal> {
    match (
        nonempty(text_option(options, "host"@)),
        nonempty(text_option(options, "context"@)),
    ) {
        (Some(host), context) => Ok(NamedView::Explicit { host, context }),
        (None, Some(context)) => Ok(NamedView::Context { name: context }),
        (None, None) => Err(refusal(Class::Unavailable, NO_ENDPOINT@, NO_ENDPOINT_HELP@)),
    }
}

/// Works out how a query named the API server it is about.
///
/// # Errors
///
/// A refusal where it named none: an endpoint this package invented would be a cluster the operator
/// never chose.
pub fn named_server(options: &Options) -> (r: Result<Named, WireError>)
    ensures
        match r {
            Ok(named) => server_named(options@) == Ok::<NamedView, Refusal>(named@),
            Err(error) => server_named(options@) == Err::<NamedView, Refusal>(error@),
        },
{
    match (options.some_text("host"), options.some_text("context")) {
        (Some(host), context) => Ok(Named::Explicit { host, context }),
        (None, Some(context)) => Ok(Named::Context { name: context }),
        (None, None) => Err(no_endpoint()),
    }
}

/// No endpoint was named, and this package will not invent one.
pub fn no_endpoint() -> (r: WireError)
    ensures
        r@ == refusal(Class::Unavailable, NO_ENDPOINT@, NO_ENDPOINT_HELP@),
{
    failure(Class::Unavailable, NO_ENDPOINT.to_owned(), NO_ENDPOINT_HELP)
}

// --- how much was asked about ---------------------------------------------------------------------

pub const DEFAULT_NAMESPACE: &'static str = "default";

/// What the query asked about: the namespace it names, every namespace where it says so, and
/// otherwise the context's namespace.
pub open spec fn asked_about(
    options: Seq<(Seq<char>, JsonView)>,
    context_namespace: Option<Seq<char>>,
) -> ReachView {
    match text_option(options, "namespace"@) {
        Some(namespace) => ReachView::Namespace(namespace),
        None => if flag_of(member(options, "all_namespaces"@)) == Some(true) {
            ReachView::AllNamespaces
        } else {
            match context_namespace {
                Some(namespace) => ReachView::Namespace(namespace),
                None => ReachView::Namespace(DEFAULT_NAMESPACE@),
            }
        },
    }
}

/// What the query asked about, with the context's namespace as the starting point.
pub fn scope_of(options: &Options, context_namespace: Option<&str>) -> (r: Reach)
    ensures
        r@ == asked_about(options@, str_view(context_namespace)),
{
    match options.text("namespace") {
        Some(namespace) => Reach::Namespace(namespace.to_owned()),
        None => {
            let everywhere: bool = match options.flag("all_namespaces") {
                Some(flag) => flag,
                None => false,
            };
            if everywhere {
                Reach::AllNamespaces
            } else {
                match context_namespace {
                    Some(namespace) => Reach::Namespace(namespace.to_owned()),
                    None => Reach::Namespace(DEFAULT_NAMESPACE.to_owned()),
                }
            }
        },
    }
}

/// A page budget, where the query set one above zero.
pub open spec fn pages_asked(options: Seq<(Seq<char>, JsonView)>) -> Option<int> {
    match positive(natural_of(member(options, "max_pages"@))) {
        Some(pages) => if pages <= usize::MAX {
            Some(pages)
        } else {
            None
        },
        None => None,
    }
}

/// A page budget, where the query set one.
pub fn max_pages(options: &Options) -> (r: Option<usize>)
    ensures
        match r {
            Some(pages) => pages_asked(options@) == Some(pages as int),
            None => pages_asked(options@) is None,
        },
{
    match options.positive("max_pages") {
        Some(pages) => if pages <= usize::MAX as u64 {
            Some(pages as usize)
        } else {
            None
        },
        None => None,
    }
}

// --- the endpoint ---------------------------------------------------------------------------------

/// What the query was pointed at, and how much it asked about.
#[derive(Debug, PartialEq, Eq)]
pub struct Endpoint {
    pub host: String,
    pub port: u16,
    /// The name the server certificate is checked against.
    pub server_name: String,
    /// What goes in the `Host` header.
    pub authority: String,
    pub instance: String,
    pub scope: Reach,
    pub max_pages: Option<usize>,
    /// Whether it speaks TLS; a plain one reaches an API server through `kubectl proxy` and nothing
    /// else.
    pub secure: bool,
}

/// What an endpoint says.
pub struct EndpointView {
    pub host: Seq<char>,
    pub port: int,
    pub server_name: Seq<char>,
    pub authority: Seq<char>,
    pub instance: Seq<char>,
    pub scope: ReachView,
    pub max_pages: Option<int>,
    pub secure: bool,
}

impl View for Endpoint {
    type V = EndpointView;

    open spec fn view(&self) -> EndpointView {
        EndpointView {
            host: self.host@,
            port: self.port as int,
            server_name: self.server_name@,
            authority: self.authority@,
            instance: self.instance@,
            scope: self.scope@,
            max_pages: match self.max_pages {
                Some(pages) => Some(pages as int),
                None => None,
            },
            secure: self.secure,
        }
    }
}

/// The port an explicit endpoint was given, where it was given one that is a port.
pub open spec fn explicit_port(options: Seq<(Seq<char>, JsonView)>) -> int {
    match natural_of(member(options, "port"@)) {
        Some(port) => if port <= u16::MAX {
            port
        } else {
            DEFAULT_PORT as int
        },
        None => DEFAULT_PORT as int,
    }
}

/// A host and a port in one word.
pub open spec fn host_and_port(host: Seq<char>, port: int) -> Seq<char> {
    host + ":"@ + decimal(port as nat)
}

/// An endpoint the query named directly. It has no kubeconfig behind it and so no trust anchors,
/// and deliberately no TLS and no option to ask for it.
pub open spec fn explicit_endpoint(
    options: Seq<(Seq<char>, JsonView)>,
    host: Seq<char>,
    context: Option<Seq<char>>,
) -> EndpointView {
    let port = explicit_port(options);
    EndpointView {
        host,
        port,
        server_name: host,
        authority: host_and_port(host, port),
        instance: match context {
            Some(context) => "kubernetes:"@ + context,
            None => "kubernetes:"@ + host_and_port(host, port),
        },
        scope: asked_about(options, None),
        max_pages: pages_asked(options),
        secure: false,
    }
}

/// What goes in the `Host` header: the port is written only where it is not the scheme's own.
pub open spec fn authority_text(host: Seq<char>, port: int, secure: bool) -> Seq<char> {
    if port == scheme_port(secure) {
        host
    } else {
        host_and_port(host, port)
    }
}

/// The port of a scheme.
pub open spec fn scheme_port(secure: bool) -> int {
    if secure {
        443
    } else {
        80
    }
}

/// A host and a port in one word.
fn with_port(host: &str, port: u16) -> (r: String)
    ensures
        r@ == host_and_port(host@, port as int),
{
    join3(host, ":", number(port as u128).as_str())
}

/// What goes in the `Host` header.
pub fn authority_of(host: &str, port: u16, secure: bool) -> (r: String)
    ensures
        r@ == authority_text(host@, port as int, secure),
{
    let default: u16 = if secure {
        443
    } else {
        80
    };
    if port == default {
        host.to_owned()
    } else {
        with_port(host, port)
    }
}

impl Endpoint {
    /// An endpoint the query named directly.
    pub fn explicit(options: &Options, host: &str, context: Option<&str>) -> (r: Endpoint)
        ensures
            r@ == explicit_endpoint(options@, host@, str_view(context)),
    {
        let port: u16 = match options.natural("port") {
            Some(port) => if port <= u16::MAX as u64 {
                port as u16
            } else {
                DEFAULT_PORT
            },
            None => DEFAULT_PORT,
        };
        let authority: String = with_port(host, port);
        let instance: String = match context {
            Some(context) => join2("kubernetes:", context),
            None => join2("kubernetes:", authority.as_str()),
        };
        Endpoint {
            host: host.to_owned(),
            port,
            server_name: host.to_owned(),
            authority,
            instance,
            scope: scope_of(options, None),
            max_pages: max_pages(options),
            secure: false,
        }
    }
}

// --- the server of a context ----------------------------------------------------------------------

pub const NO_SCHEME: &'static str = "it names no scheme";

pub const NOT_A_SCHEME: &'static str = "`{}` is not a scheme this provider speaks";

pub const PATH_PREFIX: &'static str =
    "it names the path prefix `/{}`, and this provider does not yet prepend one to \
    its requests";

pub const NOT_CLOSED: &'static str = "its IPv6 literal is not closed";

pub const NO_HOST: &'static str = "it names no host";

pub const NOT_A_PORT: &'static str = "`{}` is not a port number";

/// Whether a scheme is TLS, where it is one this provider speaks.
pub open spec fn scheme_is_secure(scheme: Seq<char>) -> Option<bool> {
    if scheme == "https"@ {
        Some(true)
    } else if scheme == "http"@ {
        Some(false)
    } else {
        None
    }
}

/// The host and the port an authority names; an IPv6 literal stands in brackets.
pub open spec fn host_in(authority: Seq<char>) -> Result<
    (Seq<char>, Option<Seq<char>>),
    Seq<char>,
> {
    if authority.len() > 0 && authority[0] == '[' {
        match cut_at(authority.skip(1), ']') {
            None => Err(NOT_CLOSED@),
            Some((host, tail)) => Ok((host, past(tail, ":"@))),
        }
    } else {
        match cut_at(authority, ':') {
            Some((host, port)) => Ok((host, Some(port))),
            None => Ok((authority, None)),
        }
    }
}

/// The port that was written, or that of the scheme.
pub open spec fn port_in(port: Option<Seq<char>>, secure: bool) -> Result<int, Seq<char>> {
    match port {
        None => Ok(scheme_port(secure)),
        Some(port) => match natural_number(port) {
            Some(n) => if n <= u16::MAX {
                Ok(n as int)
            } else {
                Err(filled(NOT_A_PORT@, seq![port]))
            },
            None => Err(filled(NOT_A_PORT@, seq![port])),
        },
    }
}

/// Whether a server URL is TLS, its host and its port; or what is wrong with it. A path prefix is
/// refused: dropping it would send every request to a path the operator did not name.
pub open spec fn server_of(server: Seq<char>) -> Result<(bool, Seq<char>, int), Seq<char>> {
    match cut_at_text(server, "://"@) {
        None => Err(NO_SCHEME@),
        Some((scheme, rest)) => match scheme_is_secure(scheme) {
            None => Err(filled(NOT_A_SCHEME@, seq![scheme])),
            Some(secure) => {
                let (authority, path) = match cut_at(rest, '/') {
                    Some((authority, path)) => (authority, path),
                    None => (rest, Seq::empty()),
                };
                if path.len() > 0 {
                    Err(filled(PATH_PREFIX@, seq![path]))
                } else {
                    match host_in(authority) {
                        Err(fault) => Err(fault),
                        Ok((host, port)) => if host.len() == 0 {
                            Err(NO_HOST@)
                        } else {
                            match port_in(port, secure) {
                                Err(fault) => Err(fault),
                                Ok(port) => Ok((secure, host, port)),
                            }
                        },
                    }
                }
            },
        },
    }
}

/// The host and the port an authority names.
fn split_authority(authority: &str) -> (r: Result<(String, Option<String>), String>)
    ensures
        match r {
            Ok((host, port)) => host_in(authority@) == Ok::<
                (Seq<char>, Option<Seq<char>>),
                Seq<char>,
            >((host@, text_view(port))),
            Err(fault) => host_in(authority@) == Err::<(Seq<char>, Option<Seq<char>>), Seq<char>>(
                fault@,
            ),
        },
{
    let shape: Vec<char> = chars(authority);
    if shape.len() > 0 && shape[0] == '[' {
        let rest: String = crate::text::between(&shape, 1, shape.len());
        assert(rest@ =~= authority@.skip(1));
        match cut(rest.as_str(), ']') {
            None => Err(NOT_CLOSED.to_owned()),
            Some((host, tail)) => Ok((host, behind(tail.as_str(), ":"))),
        }
    } else {
        match cut(authority, ':') {
            Some((host, port)) => Ok((host, Some(port))),
            None => Ok((authority.to_owned(), None)),
        }
    }
}

/// The port that was written, or that of the scheme.
fn read_port(port: Option<String>, secure: bool) -> (r: Result<u16, String>)
    ensures
        match r {
            Ok(n) => port_in(text_view(port), secure) == Ok::<int, Seq<char>>(n as int),
            Err(fault) => port_in(text_view(port), secure) == Err::<int, Seq<char>>(fault@),
        },
{
    match port {
        None => Ok(
            if secure {
                443
            } else {
                80
            },
        ),
        Some(port) => match natural(port.as_str(), u16::MAX as u64) {
            Some(n) => Ok(n as u16),
            None => Err(fill1(NOT_A_PORT, port.as_str())),
        },
    }
}

/// Splits a kubeconfig `server` URL into whether it is TLS, its host and its port.
///
/// # Errors
///
/// What is wrong with it, in words.
pub fn parse_server(server: &str) -> (r: Result<(bool, String, u16), String>)
    ensures
        match r {
            Ok((secure, host, port)) => server_of(server@) == Ok::<
                (bool, Seq<char>, int),
                Seq<char>,
            >((secure, host@, port as int)),
            Err(fault) => server_of(server@) == Err::<(bool, Seq<char>, int), Seq<char>>(fault@),
        },
{
    let (scheme, rest): (String, String) = match cut_text(server, "://") {
        Some(parts) => parts,
        None => {
            return Err(NO_SCHEME.to_owned());
        },
    };
    let secure: bool = if same(scheme.as_str(), "https") {
        true
    } else if same(scheme.as_str(), "http") {
        false
    } else {
        return Err(fill1(NOT_A_SCHEME, scheme.as_str()));
    };
    let authority: String = match cut(rest.as_str(), '/') {
        Some((authority, path)) => {
            if chars(path.as_str()).len() > 0 {
                return Err(fill1(PATH_PREFIX, path.as_str()));
            }
            authority
        },
        None => rest,
    };
    let (host, port): (String, Option<String>) = match split_authority(authority.as_str()) {
        Ok(parts) => parts,
        Err(fault) => {
            return Err(fault);
        },
    };
    if chars(host.as_str()).len() == 0 {
        return Err(NO_HOST.to_owned());
    }
    match read_port(port, secure) {
        Ok(port) => Ok((secure, host, port)),
        Err(fault) => Err(fault),
    }
}

// --- the credential -------------------------------------------------------------------------------

/// The header a credential travels in.
pub const AUTHORIZATION: &'static str = "Authorization";

/// What the header of a request says, where there is a credential. It is built where a request is
/// and kept on nothing that is shown.
pub fn authorization(token: &Option<Secret>) -> (r: Option<String>)
    ensures
        text_view(r) == match *token {
            Some(token) => Some("Bearer "@ + token@),
            None => None,
        },
{
    match token {
        Some(token) => Some(join2("Bearer ", token.expose())),
        None => None,
    }
}

/// What is shown in place of a credential: that there is one, and never what it is.
pub fn credential_shown(token: &Option<Secret>) -> (r: Option<&'static str>)
    ensures
        str_view(r) == if token is Some {
            Some("<redacted>"@)
        } else {
            None
        },
{
    match token {
        Some(_) => Some("<redacted>"),
        None => None,
    }
}

/// What is shown of how a session is protected, where it is not protected by verified certificates.
pub fn protection_shown(posture: Posture) -> (r: Option<&'static str>)
    ensures
        str_view(r) == match posture {
            Posture::Plain => Some("none: plain HTTP/1.1"@),
            Posture::InsecureSkipVerify => Some("insecure: certificate verification disabled"@),
            Posture::Verified => None,
        },
{
    match posture {
        Posture::Plain => Some("none: plain HTTP/1.1"),
        Posture::InsecureSkipVerify => Some("insecure: certificate verification disabled"),
        Posture::Verified => None,
    }
}

// --- laws -----------------------------------------------------------------------------------------

/// Where a mark is not within the first of two texts and begins the second, it is first there.
proof fn first_behind(a: Seq<char>, mark: char, b: Seq<char>)
    requires
        forall|i: int| 0 <= i < a.len() ==> a[i] != mark,
    ensures
        first_at(a + seq![mark] + b, mark) == a.len(),
        (a + seq![mark] + b).take(a.len() as int) == a,
        (a + seq![mark] + b).skip(a.len() as int + 1) == b,
{
    let whole = a + seq![mark] + b;
    first_at_is(whole, mark, a.len() as int);
    assert(whole.take(a.len() as int) =~= a);
    assert(whole.skip(a.len() as int + 1) =~= b);
}

/// A mark that is nowhere in a text is first at its end.
proof fn first_nowhere(a: Seq<char>, mark: char)
    requires
        forall|i: int| 0 <= i < a.len() ==> a[i] != mark,
    ensures
        first_at(a, mark) == a.len(),
{
    first_at_is(a, mark, a.len() as int);
}

/// The authority of a server names the server: a URL made of a scheme and the authority of a host
/// and a port splits into that host and that port, where the host holds no colon and no slash and
/// does not begin with a bracket.
pub proof fn authority_names_its_server(host: Seq<char>, port: u16, secure: bool)
    requires
        host.len() > 0,
        host[0] != '[',
        forall|i: int| 0 <= i < host.len() ==> host[i] != ':' && host[i] != '/',
    ensures
        server_of(
            if secure {
                "https"@
            } else {
                "http"@
            } + "://"@ + authority_text(host, port as int, secure),
        ) == Ok::<(bool, Seq<char>, int), Seq<char>>((secure, host, port as int)),
{
    reveal_strlit("https");
    reveal_strlit("http");
    reveal_strlit("://");
    reveal_strlit(":");
    let scheme = if secure {
        "https"@
    } else {
        "http"@
    };
    let authority = authority_text(host, port as int, secure);
    let url = scheme + "://"@ + authority;
    let n = scheme.len() as int;
    assert forall|j: int| 0 <= j < n implies !begins(#[trigger] url.skip(j), "://"@) by {
        assert(url.skip(j)[0] == scheme[j]);
        if begins(url.skip(j), "://"@) {
            assert(url.skip(j).take(3)[0] == "://"@[0]);
        }
    }
    assert(url.skip(n).take(3) =~= "://"@);
    first_match_is(url, "://"@, n);
    assert(url.take(n) =~= scheme);
    assert(url.skip(n + 3) =~= authority);
    if secure {
        assert(scheme == "https"@);
    } else {
        assert("http"@.len() != "https"@.len());
    }
    let shown = decimal(port as nat);
    crate::digits::decimal_reads_back(port as nat);
    if port as int == scheme_port(secure) {
        first_nowhere(authority, '/');
        first_nowhere(authority, ':');
    } else {
        assert(":"@ =~= seq![':']);
        assert(authority == host + seq![':'] + shown);
        assert forall|i: int| 0 <= i < authority.len() implies authority[i] != '/' by {
            if i > host.len() {
                assert(authority[i] == shown[i - host.len() - 1]);
                assert(crate::digits::is_digit(shown[i - host.len() - 1]));
            }
        }
        first_nowhere(authority, '/');
        first_behind(host, ':', shown);
        assert(authority[0] == host[0]);
    }
}

}
