//! An endpoint resolved from a kubeconfig context.
//!
//! The files are read by whoever holds the host's capability; what is made of them is decided here.

use vstd::prelude::*;
use vstd::string::*;
use vstd::utf8::*;

use crate::credential_store::Secret;
use crate::digits::{decimal, number};
use crate::endpoint::{
    asked_about, authority_of, authority_text, max_pages, pages_asked, parse_server, scope_of,
    server_of, Endpoint, EndpointView, DEFAULT_KUBECONFIG,
};
use crate::failure::{failure, refusal, Class, Refusal, WireError};
use crate::hex::{decode_hex, decoded, is_encoding};
use crate::json::{entry, text_of, Json, JsonView};
use crate::options::{nonempty, text_option, Options};
use crate::text::{
    behind, decode, decode_lossy, fill1, fill2, fill3, filled, join, join3, joined, lossy, past,
    same, str_view, text_view, trim_end, trimmed_end, utf8_fault, views,
};

verus! {

// --- which file -----------------------------------------------------------------------------------

/// Which kubeconfig file a query names.
pub open spec fn kubeconfig_path(options: Seq<(Seq<char>, JsonView)>) -> Seq<char> {
    match nonempty(text_option(options, "kubeconfig"@)) {
        Some(path) => path,
        None => DEFAULT_KUBECONFIG@,
    }
}

/// Which kubeconfig file a query names.
pub fn path_of(options: &Options) -> (r: String)
    ensures
        r@ == kubeconfig_path(options@),
{
    match options.some_text("kubeconfig") {
        Some(path) => path,
        None => DEFAULT_KUBECONFIG.to_owned(),
    }
}

pub const NO_HOME: &'static str = "`{}` starts at a home directory, and `HOME` is not set";

pub const NO_HOME_HELP: &'static str = "Pass `kubeconfig` with an absolute path.";

/// A path with a leading `~/` resolved against the home directory.
pub open spec fn home_expanded(path: Seq<char>, home: Option<Seq<char>>) -> Result<
    Seq<char>,
    Refusal,
> {
    match past(path, "~/"@) {
        None => Ok(path),
        Some(rest) => match home {
            Some(home) => Ok(trimmed_end(home, '/') + "/"@ + rest),
            None => Err(refusal(Class::Unavailable, filled(NO_HOME@, seq![path]), NO_HOME_HELP@)),
        },
    }
}

/// Resolves a leading `~/`, which the host does not.
///
/// # Errors
///
/// A refusal where there is one and the home directory is not known.
pub fn expand_home(path: &str, home: Option<&str>) -> (r: Result<String, WireError>)
    ensures
        match r {
            Ok(expanded) => home_expanded(path@, str_view(home)) == Ok::<Seq<char>, Refusal>(
                expanded@,
            ),
            Err(error) => home_expanded(path@, str_view(home)) == Err::<Seq<char>, Refusal>(
                error@,
            ),
        },
{
    match behind(path, "~/") {
        None => Ok(path.to_owned()),
        Some(rest) => match home {
            Some(home) => Ok(join3(trim_end(home, '/').as_str(), "/", rest.as_str())),
            None => Err(failure(Class::Unavailable, fill1(NO_HOME, path), NO_HOME_HELP)),
        },
    }
}

// --- reading it -----------------------------------------------------------------------------------

/// How many bytes one read asks for. The host caps a single call there, so a larger file is read in
/// several calls rather than silently truncated.
pub const READ_CHUNK: u64 = 65536;

/// How large a file may be before this package stops reading it.
pub const MAX_KUBECONFIG: usize = 4194304;

pub const NOT_HEXADECIMAL: &'static str =
    "the host answered `filesystem.read` for `{}` with bytes that are not hexadecimal";

pub const NOT_HEXADECIMAL_HELP: &'static str =
    "This is a protocol failure between the package and its host.";

pub const TOO_LARGE: &'static str = "`{}` is larger than {} bytes, which {} is not";

pub const TOO_LARGE_HELP: &'static str =
    "The path was read; what is at it is not the file this provider expected.";

/// What a read of a file came to: more of it to ask for, or the end.
#[derive(Debug, Clone, Copy, PartialEq, Eq, Structural)]
pub enum Progress {
    More,
    Whole,
}

/// The hexadecimal text an answer carries its bytes as; the empty one where it carries none.
pub open spec fn content_text(answer: JsonView) -> Seq<char> {
    match entry(answer, "content"@) {
        Some(content) => match text_of(entry(content, "$bytes"@)) {
            Some(text) => text,
            None => Seq::empty(),
        },
        None => Seq::empty(),
    }
}

/// What a file holds once one more answer has been read, and whether that is the whole of it. A
/// chunk shorter than was asked for is the last one, and a file above the limit is refused whatever
/// its exact length.
pub open spec fn file_after(
    held: Seq<u8>,
    answer: JsonView,
    path: Seq<char>,
    what: Seq<char>,
) -> Result<(Seq<u8>, Progress), Refusal> {
    let text = content_text(answer);
    if !is_encoding(text) {
        Err(
            refusal(
                Class::Unavailable,
                filled(NOT_HEXADECIMAL@, seq![path]),
                NOT_HEXADECIMAL_HELP@,
            ),
        )
    } else {
        let chunk = decoded(text);
        let all = held + chunk;
        if all.len() > MAX_KUBECONFIG {
            Err(
                refusal(
                    Class::Unavailable,
                    filled(TOO_LARGE@, seq![path, decimal(MAX_KUBECONFIG as nat), what]),
                    TOO_LARGE_HELP@,
                ),
            )
        } else if chunk.len() < READ_CHUNK {
            Ok((all, Progress::Whole))
        } else {
            Ok((all, Progress::More))
        }
    }
}

/// The hexadecimal text an answer carries its bytes as.
fn content_of(answer: &Json) -> (r: String)
    ensures
        r@ == content_text(answer@),
{
    let text: Option<&str> = match answer.get("content") {
        Some(content) => match content.get("$bytes") {
            Some(bytes) => bytes.as_str(),
            None => None,
        },
        None => None,
    };
    match text {
        Some(text) => text.to_owned(),
        None => String::new(),
    }
}

/// A file being read through the host, in chunks.
#[derive(Debug, PartialEq, Eq)]
pub struct FileRead {
    pub bytes: Vec<u8>,
}

impl FileRead {
    /// A file of which nothing has been read.
    pub fn new() -> (r: FileRead)
        ensures
            r.bytes@.len() == 0,
    {
        FileRead { bytes: Vec::new() }
    }

    /// Where the next read begins.
    pub fn offset(&self) -> (r: usize)
        ensures
            r == self.bytes@.len(),
    {
        self.bytes.len()
    }

    /// Takes one more answer. `what` names the file's role, for a refusal that says which read it
    /// was.
    ///
    /// # Errors
    ///
    /// A refusal where the answer holds no bytes, or where the file is too large; what was read
    /// before then stays as it was, or as it is with this chunk.
    pub fn take(&mut self, answer: &Json, path: &str, what: &str) -> (r: Result<
        Progress,
        WireError,
    >)
        ensures
            match r {
                Ok(progress) => file_after(old(self).bytes@, answer@, path@, what@) == Ok::<
                    (Seq<u8>, Progress),
                    Refusal,
                >((final(self).bytes@, progress)),
                Err(error) => file_after(old(self).bytes@, answer@, path@, what@) == Err::<
                    (Seq<u8>, Progress),
                    Refusal,
                >(error@),
            },
            final(self).bytes@ == if is_encoding(content_text(answer@)) {
                old(self).bytes@ + decoded(content_text(answer@))
            } else {
                old(self).bytes@
            },
    {
        let text: String = content_of(answer);
        let mut chunk: Vec<u8> = match decode_hex(text.as_str()) {
            Some(chunk) => chunk,
            None => {
                return Err(
                    failure(
                        Class::Unavailable,
                        fill1(NOT_HEXADECIMAL, path),
                        NOT_HEXADECIMAL_HELP,
                    ),
                );
            },
        };
        let last: bool = (chunk.len() as u64) < READ_CHUNK;
        self.bytes.append(&mut chunk);
        if self.bytes.len() > MAX_KUBECONFIG {
            return Err(
                failure(
                    Class::Unavailable,
                    fill3(TOO_LARGE, path, number(MAX_KUBECONFIG as u128).as_str(), what),
                    TOO_LARGE_HELP,
                ),
            );
        }
        if last {
            return Ok(Progress::Whole);
        }
        Ok(Progress::More)
    }
}

pub const DENIED: &'static str = "capability.denied";

pub const READ_REFUSED: &'static str = "the host refused to read {} at `{}`: {}";

pub const READ_REFUSED_HELP: &'static str =
    "This package declares `filesystem.read` as an optional capability scoped to \
    `~/.kube/config` and `~/.kube/*.yaml`. Grant it for this path, or pass `host` to \
    name an API server without a kubeconfig.";

pub const READ_FAILED: &'static str = "{} at `{}` could not be read: {}";

pub const READ_FAILED_HELP: &'static str =
    "The capability allowed the read; the file itself did not answer.";

/// A file the host would not or could not read: a capability decision and a file that is not there
/// have corrections with nothing in common, so they are told apart.
pub fn file_failure(path: &str, what: &str, error: &WireError) -> (r: WireError)
    ensures
        r@ == if error@.name == DENIED@ {
            refusal(
                Class::Unavailable,
                filled(READ_REFUSED@, seq![what@, path@, error@.message]),
                READ_REFUSED_HELP@,
            )
        } else {
            refusal(
                Class::Unavailable,
                filled(READ_FAILED@, seq![what@, path@, error@.message]),
                READ_FAILED_HELP@,
            )
        },
{
    if same(error.name.as_str(), DENIED) {
        return failure(
            Class::Unavailable,
            fill3(READ_REFUSED, what, path, error.message.as_str()),
            READ_REFUSED_HELP,
        );
    }
    failure(
        Class::Unavailable,
        fill3(READ_FAILED, what, path, error.message.as_str()),
        READ_FAILED_HELP,
    )
}

pub const NOT_TEXT: &'static str = "`{}` is not text: {}";

pub const NOT_TEXT_HELP: &'static str = "A kubeconfig is YAML.";

/// The text of a kubeconfig.
///
/// # Errors
///
/// A refusal where it is not text.
pub fn config_text(path: &str, bytes: Vec<u8>) -> (r: Result<String, WireError>)
    ensures
        match r {
            Ok(text) => valid_utf8(bytes@) && text@ == decode_utf8(bytes@),
            Err(error) => !valid_utf8(bytes@) && error@ == refusal(
                Class::Unavailable,
                filled(NOT_TEXT@, seq![path@, utf8_fault(bytes@)]),
                NOT_TEXT_HELP@,
            ),
        },
{
    match decode(bytes) {
        Ok(text) => Ok(text),
        Err(message) => Err(
            failure(Class::Unavailable, fill2(NOT_TEXT, path, message.as_str()), NOT_TEXT_HELP),
        ),
    }
}

pub const UNREADABLE: &'static str = "`{}` did not read: {}";

pub const UNREADABLE_HELP: &'static str =
    "The file was read; what is in it is not a kubeconfig this provider understands.";

/// A kubeconfig that is not one.
pub fn unreadable(path: &str, error: &str) -> (r: WireError)
    ensures
        r@ == refusal(
            Class::Unavailable,
            filled(UNREADABLE@, seq![path@, error@]),
            UNREADABLE_HELP@,
        ),
{
    failure(Class::Unavailable, fill2(UNREADABLE, path, error), UNREADABLE_HELP)
}

// --- the context ----------------------------------------------------------------------------------

pub const CONTEXTS_HELP: &'static str =
    "`{}` defines these contexts: {}. Naming one that is not there is a \
    different answer from connecting to the wrong one.";

pub const NONE: &'static str = "none";

/// The contexts a file defines, in one line.
pub open spec fn contexts_shown(known: Seq<Seq<char>>) -> Seq<char> {
    if known.len() == 0 {
        NONE@
    } else {
        joined(known, ", "@)
    }
}

/// A context the kubeconfig does not define, with those it does.
pub fn unknown_context(path: &str, error: &str, known: &Vec<String>) -> (r: WireError)
    ensures
        r@ == refusal(
            Class::Unavailable,
            error@,
            filled(CONTEXTS_HELP@, seq![path@, contexts_shown(views(known@))]),
        ),
{
    let shown: String = if known.len() == 0 {
        NONE.to_owned()
    } else {
        join(known, ", ")
    };
    failure(
        Class::Unavailable,
        error.to_owned(),
        fill2(CONTEXTS_HELP, path, shown.as_str()).as_str(),
    )
}

/// What a context of a kubeconfig says about reaching its cluster.
#[derive(Debug, PartialEq, Eq)]
pub struct Connection {
    pub server: String,
    pub namespace: Option<String>,
    /// The provider instance this context is.
    pub instance: String,
}

pub const SERVER_UNUSABLE: &'static str =
    "context `{}` names the server `{}`, which this provider cannot use: \
    {}";

pub const SERVER_UNUSABLE_HELP: &'static str =
    "The `server` of a kubeconfig cluster is an `http://` or `https://` URL naming a \
    host and optionally a port.";

/// The endpoint of a context: its server, and what was asked about, a namespace named in the query
/// beating the context's.
pub open spec fn context_endpoint(
    options: Seq<(Seq<char>, JsonView)>,
    context: Seq<char>,
    connection: Connection,
) -> Result<EndpointView, Refusal> {
    match server_of(connection.server@) {
        Err(detail) => Err(
            refusal(
                Class::Unavailable,
                filled(SERVER_UNUSABLE@, seq![context, connection.server@, detail]),
                SERVER_UNUSABLE_HELP@,
            ),
        ),
        Ok((secure, host, port)) => Ok(
            EndpointView {
                host,
                port,
                server_name: host,
                authority: authority_text(host, port, secure),
                instance: connection.instance@,
                scope: asked_about(options, text_view(connection.namespace)),
                max_pages: pages_asked(options),
                secure,
            },
        ),
    }
}

impl Endpoint {
    /// An endpoint resolved from a kubeconfig context.
    ///
    /// # Errors
    ///
    /// A refusal where the context's server is not one this provider can use.
    pub fn from_context(options: &Options, context: &str, connection: &Connection) -> (r: Result<
        Endpoint,
        WireError,
    >)
        ensures
            match r {
                Ok(endpoint) => context_endpoint(options@, context@, *connection) == Ok::<
                    EndpointView,
                    Refusal,
                >(endpoint@),
                Err(error) => context_endpoint(options@, context@, *connection) == Err::<
                    EndpointView,
                    Refusal,
                >(error@),
            },
    {
        let (secure, host, port): (bool, String, u16) = match parse_server(
            connection.server.as_str(),
        ) {
            Ok(parts) => parts,
            Err(detail) => {
                return Err(
                    failure(
                        Class::Unavailable,
                        fill3(
                            SERVER_UNUSABLE,
                            context,
                            connection.server.as_str(),
                            detail.as_str(),
                        ),
                        SERVER_UNUSABLE_HELP,
                    ),
                );
            },
        };
        let namespace: Option<&str> = match &connection.namespace {
            Some(namespace) => Some(namespace.as_str()),
            None => None,
        };
        Ok(
            Endpoint {
                authority: authority_of(host.as_str(), port, secure),
                server_name: host.clone(),
                host,
                port,
                instance: connection.instance.clone(),
                scope: scope_of(options, namespace),
                max_pages: max_pages(options),
                secure,
            },
        )
    }
}

// --- who the provider is --------------------------------------------------------------------------

/// What a context authenticates with.
#[derive(Debug, Clone, Copy, PartialEq, Eq, Structural)]
pub enum Credential {
    BearerToken,
    ExecPlugin,
    ClientCertificate,
    Anonymous,
}

pub const EXEC_UNSUPPORTED: &'static str =
    "context `{}` authenticates through an `exec` credential plugin, which \
    this provider does not run";

pub const EXEC_UNSUPPORTED_HELP: &'static str =
    "§8.2 requires an explicit process-execution capability and the `Never`, \
    `IfAvailable` and `Always` interaction modes; this package declares neither. Use a \
    context with a token or a client certificate, or obtain a token another way.";

/// Whether a context's token is to be sent.
///
/// # Errors
///
/// A refusal for a credential this build cannot produce: a wrong identity is worse than a refused
/// one.
pub fn bearer_token(credential: Credential, context: &str) -> (r: Result<bool, WireError>)
    ensures
        match (credential, r) {
            (Credential::BearerToken, Ok(send)) => send,
            (Credential::ClientCertificate, Ok(send)) => !send,
            (Credential::Anonymous, Ok(send)) => !send,
            (Credential::ExecPlugin, Err(error)) => error@ == refusal(
                Class::Unsupported,
                filled(EXEC_UNSUPPORTED@, seq![context@]),
                EXEC_UNSUPPORTED_HELP@,
            ),
            _ => false,
        },
{
    match credential {
        Credential::BearerToken => Ok(true),
        Credential::ExecPlugin => Err(
            failure(Class::Unsupported, fill1(EXEC_UNSUPPORTED, context), EXEC_UNSUPPORTED_HELP),
        ),
        Credential::ClientCertificate | Credential::Anonymous => Ok(false),
    }
}

/// Where a client certificate comes from.
#[derive(Debug, PartialEq, Eq)]
pub enum ClientCertificate {
    /// There is none.
    Absent,
    /// The kubeconfig holds it.
    Inline,
    /// The kubeconfig names a certificate and a key file.
    Files { certificate: String, key: String },
}

pub const HALF_CERTIFICATE: &'static str =
    "context `{}` names one half of a client certificate and not the other";

pub const HALF_CERTIFICATE_HELP: &'static str =
    "A client certificate is a certificate *and* its key; half of one cannot open a \
    session.";

/// The client certificate a context presents: the one it holds, or the two files it names.
///
/// # Errors
///
/// A refusal where it names any other number of files.
pub fn client_identity(inline: bool, files: &Vec<String>, context: &str) -> (r: Result<
    ClientCertificate,
    WireError,
>)
    ensures
        match r {
            Ok(ClientCertificate::Inline) => inline,
            Ok(ClientCertificate::Absent) => !inline && files@.len() == 0,
            Ok(ClientCertificate::Files { certificate, key }) => !inline && views(files@) == seq![
                certificate@,
                key@,
            ],
            Err(error) => !inline && files@.len() != 0 && files@.len() != 2 && error@ == refusal(
                Class::Unavailable,
                filled(HALF_CERTIFICATE@, seq![context@]),
                HALF_CERTIFICATE_HELP@,
            ),
        },
{
    if inline {
        return Ok(ClientCertificate::Inline);
    }
    if files.len() == 0 {
        return Ok(ClientCertificate::Absent);
    }
    if files.len() == 2 {
        assert(views(files@) =~= seq![files@[0]@, files@[1]@]);
        return Ok(
            ClientCertificate::Files { certificate: files[0].clone(), key: files[1].clone() },
        );
    }
    Err(failure(Class::Unavailable, fill1(HALF_CERTIFICATE, context), HALF_CERTIFICATE_HELP))
}

/// The key of a client certificate, as it was read from its file.
pub fn client_key(bytes: &[u8]) -> (r: Secret)
    ensures
        r@ == lossy(bytes@),
{
    Secret::new(decode_lossy(bytes))
}

/// What a context trusts.
#[derive(Debug, PartialEq, Eq)]
pub enum Trust {
    /// Nothing is verified, because the kubeconfig says so.
    Insecure,
    /// The certificate authority in a file.
    CertificateAuthorityFile(String),
    /// Whatever else the kubeconfig says.
    Stated,
}

/// How a session's certificates are verified.
#[derive(Debug, PartialEq, Eq)]
pub enum Verification {
    /// Not at all.
    Disabled,
    /// Against what stands at a path.
    PinnedFile(String),
    /// Against what the kubeconfig states.
    Anchored,
}

/// What the session will verify the API server against. The one place where verification can be
/// off, and it is reached from one trust setting and no other.
pub fn tls_settings(trust: &Trust) -> (r: Verification)
    ensures
        match r {
            Verification::Disabled => *trust is Insecure,
            Verification::PinnedFile(path) => trust matches Trust::CertificateAuthorityFile(named)
                && named@ == path@,
            Verification::Anchored => *trust is Stated,
        },
{
    match trust {
        Trust::Insecure => Verification::Disabled,
        Trust::CertificateAuthorityFile(path) => Verification::PinnedFile(path.clone()),
        Trust::Stated => Verification::Anchored,
    }
}

pub const NO_TLS: &'static str = "context `{}` cannot open a TLS session: {}";

pub const NO_TLS_HELP: &'static str =
    "§8.4 puts certificate validation in this package, so a trust setting that cannot be \
    used is a refusal rather than a session with less checking than the kubeconfig asked \
    for.";

/// A TLS configuration this package will not build.
pub fn tls_configuration_failure(context: &str, error: &str) -> (r: WireError)
    ensures
        r@ == refusal(
            Class::Unavailable,
            filled(NO_TLS@, seq![context@, error@]),
            NO_TLS_HELP@,
        ),
{
    failure(Class::Unavailable, fill2(NO_TLS, context, error), NO_TLS_HELP)
}

pub const NO_HANDSHAKE: &'static str =
    "the TLS session with `{}:{}` was not established: {}";

pub const NO_HANDSHAKE_HELP: &'static str =
    "The bytes reached the endpoint and the certificate it presented was not one this \
    context trusts. A cluster with a private certificate authority names it in its \
    kubeconfig as `certificate-authority-data`.";

/// The handshake itself failed.
pub fn handshake_failure(endpoint: &Endpoint, error: &str) -> (r: WireError)
    ensures
        r@ == refusal(
            Class::Unavailable,
            filled(
                NO_HANDSHAKE@,
                seq![endpoint.host@, decimal(endpoint.port as nat), error@],
            ),
            NO_HANDSHAKE_HELP@,
        ),
{
    failure(
        Class::Unavailable,
        fill3(
            NO_HANDSHAKE,
            endpoint.host.as_str(),
            number(endpoint.port as u128).as_str(),
            error,
        ),
        NO_HANDSHAKE_HELP,
    )
}

// --- laws -----------------------------------------------------------------------------------------

/// The bytes of some answers, one behind the other.
pub open spec fn answered_bytes(answers: Seq<JsonView>) -> Seq<u8>
    decreases answers.len(),
{
    if answers.len() == 0 {
        Seq::empty()
    } else {
        answered_bytes(answers.drop_last()) + decoded(content_text(answers.last()))
    }
}

/// What a file read through some answers, one after the other, holds.
pub open spec fn file_through(answers: Seq<JsonView>, path: Seq<char>, what: Seq<char>) -> Result<
    Seq<u8>,
    Refusal,
>
    decreases answers.len(),
{
    if answers.len() == 0 {
        Ok(Seq::empty())
    } else {
        match file_through(answers.drop_last(), path, what) {
            Err(fault) => Err(fault),
            Ok(held) => match file_after(held, answers.last(), path, what) {
                Err(fault) => Err(fault),
                Ok((held, _)) => Ok(held),
            },
        }
    }
}

/// A file read through several answers holds exactly their bytes, in order: nothing is dropped and
/// nothing is truncated between two chunks.
pub proof fn a_file_is_its_chunks(answers: Seq<JsonView>, path: Seq<char>, what: Seq<char>)
    requires
        file_through(answers, path, what) is Ok,
    ensures
        file_through(answers, path, what) == Ok::<Seq<u8>, Refusal>(answered_bytes(answers)),
    decreases answers.len(),
{
    if answers.len() > 0 {
        a_file_is_its_chunks(answers.drop_last(), path, what);
    }
}

/// No file above the limit is ever taken for one: whatever its chunks are, what is read of a file
/// stays within it.
pub proof fn a_file_stays_within_the_limit(answers: Seq<JsonView>, path: Seq<char>, what: Seq<char>)
    requires
        file_through(answers, path, what) is Ok,
    ensures
        answered_bytes(answers).len() <= MAX_KUBECONFIG,
    decreases answers.len(),
{
    if answers.len() > 0 {
        a_file_is_its_chunks(answers, path, what);
        a_file_is_its_chunks(answers.drop_last(), path, what);
    }
}

}
