//! What reaching an API server promises: which one, with what, over what.
//!
//! Each law here speaks of what a function was given and of what it returned.

use vstd::prelude::*;
use vstd::string::*;

use crate::asked::{a_member_is_the_first_of_its_name, chosen_by, gives, gives_no};
use crate::audit::{connected, mutated, ran_credential_plugin, refused, refused_locally};
use crate::broker::{BrokeredStream, ReadPolicy, ReadStep, StreamError};
use crate::cluster::Posture;
use crate::coverage::Reach;
use crate::credential_store::{CredentialStore, ObservedAt, Resolved, Secret, SourceKey};
use crate::credentials::{environment, granted, request, started, Stdout};
use crate::digits::{decimal, decimal_reads_back};
use crate::endpoint::{
    authority_of, authorization, credential_shown, max_pages, named_server, parse_server,
    protection_shown, scope_of, server_of, Endpoint, Named,
};
use crate::failure::WireError;
use crate::hex::{decoded, is_encoding};
use crate::json::{entry, Json, JsonView};
use crate::kubeconfig::{
    bearer_token, client_identity, config_text, expand_home, path_of, tls_settings,
    ClientCertificate, Connection, Credential, FileRead, Progress, Trust, Verification,
};
use crate::options::Options;
use crate::text::{first_at_is, first_match_is, trimmed_end, views};

verus! {

// --- which API server -----------------------------------------------------------------------------

/// A host that was named is reached as it was named, under the context it was given; a context that
/// was named alone is resolved; and where neither was named, none is guessed.
pub proof fn the_server_named_is_the_one_reached(options: Options, read: Result<Named, WireError>)
    requires
        call_ensures(named_server, (&options,), read),
    ensures
        match read {
            Ok(Named::Explicit { host, context }) => chosen_by(options@, "host"@, Some(host))
                && chosen_by(options@, "context"@, context),
            Ok(Named::Context { name }) => chosen_by(options@, "context"@, Some(name))
                && chosen_by(options@, "host"@, None),
            Err(_) => chosen_by(options@, "host"@, None) && chosen_by(options@, "context"@, None),
        },
        read is Err ==> read->Err_0.name@ == "provider.unavailable"@,
{
    a_member_is_the_first_of_its_name(options@, "host"@);
    a_member_is_the_first_of_its_name(options@, "context"@);
    assert(read matches Ok(named) ==> (named@ is Explicit <==> named is Explicit));
}

/// The namespace that was named is the one asked about, whatever else was said; all of them are
/// asked about where that was asked for; and otherwise it is the context's own, or the default one.
pub proof fn the_namespace_named_is_the_one_asked_about(
    options: Options,
    own: Option<&str>,
    reach: Reach,
)
    requires
        call_ensures(scope_of, (&options, own), reach),
    ensures
        forall|name: Seq<char>| #[trigger]
            gives(options@, "namespace"@, JsonView::Text(name)) ==> reach is Namespace
                && reach->Namespace_0@ == name,
        gives_no(options@, "namespace"@) && gives(
            options@,
            "all_namespaces"@,
            JsonView::Bool(true),
        ) ==> reach is AllNamespaces,
        gives_no(options@, "namespace"@) && !gives(
            options@,
            "all_namespaces"@,
            JsonView::Bool(true),
        ) ==> reach is Namespace && reach->Namespace_0@ == match own {
            Some(name) => name@,
            None => "default"@,
        },
{
    a_member_is_the_first_of_its_name(options@, "namespace"@);
    a_member_is_the_first_of_its_name(options@, "all_namespaces"@);
}

/// As many pages are read as were asked for, and all of them where no number above zero was given.
pub proof fn as_many_pages_are_read_as_asked(options: Options, pages: Option<usize>)
    requires
        call_ensures(max_pages, (&options,), pages),
    ensures
        forall|n: int|
            0 < n <= usize::MAX && n <= u64::MAX && #[trigger] gives(
                options@,
                "max_pages"@,
                JsonView::Integer(n),
            ) ==> pages == Some(n as usize),
        gives_no(options@, "max_pages"@) || gives(options@, "max_pages"@, JsonView::Integer(0))
            ==> pages is None,
{
    a_member_is_the_first_of_its_name(options@, "max_pages"@);
}

/// A port is written behind its host, and is not where it is the scheme's own.
pub proof fn a_port_is_written_where_it_is_not_the_usual_one(
    host: &str,
    port: u16,
    secure: bool,
    authority: String,
)
    requires
        call_ensures(authority_of, (host, port, secure), authority),
    ensures
        secure && port == 443 || !secure && port == 80 ==> authority@ == host@,
        !(secure && port == 443 || !secure && port == 80) ==> authority@ == host@ + ":"@ + decimal(
            port as nat,
        ),
{
}

/// An endpoint named directly is plain, at the host and the port that were named, and is the
/// instance of its context or of its own address.
pub proof fn an_endpoint_named_directly_is_that_one(
    options: Options,
    host: &str,
    context: Option<&str>,
    endpoint: Endpoint,
)
    requires
        call_ensures(Endpoint::explicit, (&options, host, context), endpoint),
    ensures
        endpoint.host@ == host@,
        endpoint.server_name@ == host@,
        !endpoint.secure,
        forall|n: int|
            0 <= n <= u16::MAX && #[trigger] gives(options@, "port"@, JsonView::Integer(n))
                ==> endpoint.port == n,
        gives_no(options@, "port"@) ==> endpoint.port == 8001,
        endpoint.authority@ == host@ + ":"@ + decimal(endpoint.port as nat),
        endpoint.instance@ == "kubernetes:"@ + match context {
            Some(name) => name@,
            None => host@ + ":"@ + decimal(endpoint.port as nat),
        },
{
    a_member_is_the_first_of_its_name(options@, "port"@);
    assert(endpoint@.port == endpoint.port as int);
}

/// An endpoint of a context is the server the kubeconfig names for it, secure exactly where its
/// scheme is; it asks about the context's own namespace where none was named; and a server that
/// cannot be used is refused.
pub proof fn an_endpoint_of_a_context_is_its_server(
    options: Options,
    context: &str,
    connection: Connection,
    resolved: Result<Endpoint, WireError>,
    server: &str,
    parsed: Result<(bool, String, u16), String>,
    own: Option<&str>,
    reach: Reach,
)
    requires
        call_ensures(Endpoint::from_context, (&options, context, &connection), resolved),
        server@ == connection.server@,
        call_ensures(parse_server, (server,), parsed),
        match connection.namespace {
            Some(name) => own is Some && own->0@ == name@,
            None => own is None,
        },
        call_ensures(scope_of, (&options, own), reach),
    ensures
        resolved is Ok <==> parsed is Ok,
        resolved is Err ==> resolved->Err_0.name@ == "provider.unavailable"@,
        resolved matches Ok(endpoint) ==> {
            &&& endpoint.secure == (parsed->Ok_0).0
            &&& endpoint.host@ == (parsed->Ok_0).1@
            &&& endpoint.server_name@ == (parsed->Ok_0).1@
            &&& endpoint.port == (parsed->Ok_0).2
            &&& endpoint.instance@ == connection.instance@
            &&& endpoint.scope@ == reach@
        },
{
}

/// A server is a scheme, a host and a port: `https` is secure and `http` is not, a port that is not
/// written is the scheme's own, and one that is written is that one.
pub proof fn a_server_is_read_as_it_is_written(
    secure: bool,
    host: Seq<char>,
    port: u16,
    server: &str,
    read: Result<(bool, String, u16), String>,
    written: bool,
)
    requires
        host.len() > 0,
        host[0] != '[',
        forall|i: int| 0 <= i < host.len() ==> host[i] != ':' && host[i] != '/',
        server@ == (if secure {
            "https://"@
        } else {
            "http://"@
        }) + if written {
            host + ":"@ + decimal(port as nat)
        } else {
            host
        },
        call_ensures(parse_server, (server,), read),
    ensures
        read is Ok,
        (read->Ok_0).0 == secure,
        (read->Ok_0).1@ == host,
        written ==> (read->Ok_0).2 == port,
        !written && secure ==> (read->Ok_0).2 == 443,
        !written && !secure ==> (read->Ok_0).2 == 80,
{
    let scheme = if secure {
        "https"@
    } else {
        "http"@
    };
    let rest = if written {
        host + ":"@ + decimal(port as nat)
    } else {
        host
    };
    reveal_strlit("https://");
    reveal_strlit("http://");
    reveal_strlit("https");
    reveal_strlit("http");
    reveal_strlit("://");
    reveal_strlit(":");
    assert("https"@.len() == 5 && "http"@.len() == 4);
    assert(server@ =~= scheme + "://"@ + rest);
    let mark = "://"@;
    assert forall|j: int| 0 <= j < scheme.len() implies !crate::text::begins(
        #[trigger] server@.skip(j),
        mark,
    ) by {
        assert(server@.skip(j)[0] == scheme[j]);
        if crate::text::begins(server@.skip(j), mark) {
            assert(server@.skip(j).take(mark.len() as int)[0] == mark[0]);
        }
    }
    assert(server@.skip(scheme.len() as int).take(mark.len() as int) =~= mark);
    first_match_is(server@, mark, scheme.len() as int);
    assert(server@.take(scheme.len() as int) =~= scheme);
    assert(server@.skip(scheme.len() as int + mark.len() as int) =~= rest);
    let digits = decimal(port as nat);
    decimal_reads_back(port as nat);
    digits_only(port as nat);
    assert forall|i: int| 0 <= i < rest.len() implies rest[i] != '/' by {
        if written {
            if i > host.len() {
                assert(rest[i] == digits[i - host.len() - 1]);
            }
        }
    }
    first_at_is(rest, '/', rest.len() as int);
    assert(rest[0] == host[0]);
    if written {
        first_at_is(rest, ':', host.len() as int);
        assert(rest.take(host.len() as int) =~= host);
        assert(rest.skip(host.len() as int + 1) =~= digits);
    } else {
        first_at_is(rest, ':', rest.len() as int);
    }
    assert(server_of(server@) is Ok);
}

proof fn digits_only(n: nat)
    ensures
        forall|i: int| 0 <= i < decimal(n).len() ==> '0' <= #[trigger] decimal(n)[i] <= '9',
    decreases n,
{
    if n >= 10 {
        digits_only(n / 10);
        assert forall|i: int| 0 <= i < decimal(n).len() implies '0' <= #[trigger] decimal(n)[i]
            <= '9' by {
            if i < decimal(n).len() - 1 {
                assert(decimal(n)[i] == decimal(n / 10)[i]);
            }
        }
    }
}

/// A token is sent as a bearer, and only where there is one; what is shown of it never holds it;
/// and
/// a connection is shown as unprotected exactly where it is.
pub proof fn a_token_is_sent_and_never_shown(
    token: Option<Secret>,
    header: Option<String>,
    shown: Option<&'static str>,
    posture: Posture,
    protection: Option<&'static str>,
)
    requires
        call_ensures(authorization, (&token,), header),
        call_ensures(credential_shown, (&token,), shown),
        call_ensures(protection_shown, (posture,), protection),
    ensures
        match token {
            Some(secret) => header is Some && header->0@ == "Bearer "@ + secret@ && shown is Some
                && shown->0@ == "<redacted>"@,
            None => header is None && shown is None,
        },
        protection is None <==> posture is Verified,
{
}

// --- the kubeconfig -------------------------------------------------------------------------------

/// A kubeconfig is read where it was named, and where it usually is otherwise; a path that begins
/// at
/// home is read there, and one that does not is read as it is.
pub proof fn a_kubeconfig_is_read_where_it_was_named(
    options: Options,
    path: String,
    begun: &str,
    rest: Seq<char>,
    home: Option<&str>,
    expanded: Result<String, WireError>,
)
    requires
        call_ensures(path_of, (&options,), path),
        call_ensures(expand_home, (begun, home), expanded),
        begun@ == "~/"@ + rest || !crate::text::begins(begun@, "~/"@),
    ensures
        forall|named: Seq<char>|
            named.len() > 0 && #[trigger] gives(options@, "kubeconfig"@, JsonView::Text(named))
                ==> path@ == named,
        gives_no(options@, "kubeconfig"@) ==> path@ == "~/.kube/config"@,
        expanded is Err ==> expanded->Err_0.name@ == "provider.unavailable"@,
        !crate::text::begins(begun@, "~/"@) ==> expanded is Ok && expanded->Ok_0@ == begun@,
        begun@ == "~/"@ + rest ==> match home {
            Some(home) => expanded is Ok && expanded->Ok_0@ == trimmed_end(home@, '/') + "/"@
                + rest,
            None => expanded is Err,
        },
{
    a_member_is_the_first_of_its_name(options@, "kubeconfig"@);
    if begun@ == "~/"@ + rest {
        assert(begun@.take("~/"@.len() as int) =~= "~/"@);
        assert(begun@.skip("~/"@.len() as int) =~= rest);
    }
}

/// A file is read chunk by chunk: what an answer holds is put behind what was read, a chunk that is
/// not full is the last, and what is no encoding, or too much, is refused.
pub proof fn a_file_is_read_chunk_by_chunk(
    file: &mut FileRead,
    answer: Json,
    path: &str,
    what: &str,
    read: Result<Progress, WireError>,
    text: Seq<char>,
)
    requires
        call_ensures(FileRead::take, (file, &answer, path, what), read),
        entry(answer@, "content"@) matches Some(content) && entry(content, "$bytes"@) == Some(
            JsonView::Text(text),
        ),
    ensures
        !is_encoding(text) ==> read is Err && final(file).bytes@ == old(file).bytes@,
        read is Err ==> read->Err_0.name@ == "provider.unavailable"@,
        is_encoding(text) ==> {
            let chunk = decoded(text);
            &&& final(file).bytes@ == old(file).bytes@ + chunk
            &&& read is Err <==> old(file).bytes@.len() + chunk.len() > 4194304
            &&& read matches Ok(progress) ==> (progress is Whole <==> chunk.len() < 65536)
        },
{
}

/// A file begins with nothing read, and is read on from where it was read to.
pub proof fn a_file_is_read_on_from_where_it_was(fresh: FileRead, file: FileRead, offset: usize)
    requires
        call_ensures(FileRead::new, (), fresh),
        call_ensures(FileRead::offset, (&file,), offset),
    ensures
        fresh.bytes@.len() == 0,
        offset == file.bytes@.len(),
{
}

/// A kubeconfig is text, or it is refused; a bearer token is sent for a context that has one, a
/// certificate or nobody sends none, and a credential plugin is refused.
pub proof fn a_context_authenticates_as_it_says(
    path: &str,
    bytes: Vec<u8>,
    text: Result<String, WireError>,
    credential: Credential,
    context: &str,
    sent: Result<bool, WireError>,
    trust: Trust,
    checked: Verification,
)
    requires
        call_ensures(config_text, (path, bytes), text),
        call_ensures(bearer_token, (credential, context), sent),
        call_ensures(tls_settings, (&trust,), checked),
    ensures
        text is Ok <==> vstd::utf8::valid_utf8(bytes@),
        text is Err ==> text->Err_0.name@ == "provider.unavailable"@,
        sent is Err ==> sent->Err_0.name@ == "provider.unsupported"@,
        text matches Ok(read) ==> read@ == vstd::utf8::decode_utf8(bytes@),
        credential is BearerToken ==> sent == Ok::<bool, WireError>(true),
        credential is ClientCertificate || credential is Anonymous ==> sent == Ok::<
            bool,
            WireError,
        >(false),
        credential is ExecPlugin ==> sent is Err,
        trust is Insecure <==> checked is Disabled,
        trust is Stated <==> checked is Anchored,
        trust is CertificateAuthorityFile ==> checked is PinnedFile && checked->PinnedFile_0@
            == trust->CertificateAuthorityFile_0@,
{
}

/// A client certificate is the one the kubeconfig holds, or the certificate and the key it names,
/// in
/// that order; half of one is refused.
pub proof fn a_certificate_is_whole_or_refused(
    inline: bool,
    files: Vec<String>,
    context: &str,
    found: Result<ClientCertificate, WireError>,
)
    requires
        call_ensures(client_identity, (inline, &files, context), found),
    ensures
        inline ==> (found matches Ok(ClientCertificate::Inline)),
        !inline && files@.len() == 0 ==> (found matches Ok(ClientCertificate::Absent)),
        !inline && files@.len() == 2 ==> (found matches Ok(
            ClientCertificate::Files { certificate, key },
        ) && certificate@ == files@[0]@ && key@ == files@[1]@),
        !inline && files@.len() != 0 && files@.len() != 2 ==> found is Err,
        found is Err ==> found->Err_0.name@ == "provider.unavailable"@,
{
    assert(views(files@).len() == files@.len());
    if files@.len() == 2 {
        assert(views(files@)[0] == files@[0]@ && views(files@)[1] == files@[1]@);
    }
}

// --- credential helpers ---------------------------------------------------------------------------

/// What stands in an environment under a name is what the last variable of that name holds, and
/// nothing where there is none.
pub proof fn the_last_variable_of_a_name_stands(
    variables: Seq<(Seq<char>, Seq<char>)>,
    name: Seq<char>,
)
    ensures
        forall|i: int|
            0 <= i < variables.len() && (#[trigger] variables[i]).0 == name && (forall|j: int|
                i < j < variables.len() ==> (#[trigger] variables[j]).0 != name)
                ==> crate::json::member(environment(variables), name) == Some(
                JsonView::Text(variables[i].1),
            ),
        (forall|j: int| 0 <= j < variables.len() ==> (#[trigger] variables[j]).0 != name)
            ==> crate::json::member(environment(variables), name) is None,
    decreases variables.len(),
{
    if variables.len() > 0 {
        let rest = variables.skip(1);
        the_last_variable_of_a_name_stands(rest, name);
        let held = environment(rest);
        let all = environment(variables);
        if crate::json::member(held, variables[0].0) is None {
            assert(all.skip(1) =~= held);
            assert(all[0] == (variables[0].0, JsonView::Text(variables[0].1)));
        }
        assert forall|i: int|
            0 <= i < variables.len() && (#[trigger] variables[i]).0 == name && (forall|j: int|
                i < j < variables.len() ==> (#[trigger] variables[j]).0
                    != name) implies crate::json::member(all, name) == Some(
            JsonView::Text(variables[i].1),
        ) by {
            if i > 0 {
                assert(rest[i - 1] == variables[i]);
                assert forall|j: int| i - 1 < j < rest.len() implies (#[trigger] rest[j]).0
                    != name by {
                    assert(rest[j] == variables[j + 1]);
                }
            } else {
                assert forall|j: int| 0 <= j < rest.len() implies (#[trigger] rest[j]).0 != name by {
                    assert(rest[j] == variables[j + 1]);
                }
            }
        }
        if forall|j: int| 0 <= j < variables.len() ==> (#[trigger] variables[j]).0 != name {
            assert(variables[0].0 != name);
            assert forall|j: int| 0 <= j < rest.len() implies (#[trigger] rest[j]).0 != name by {
                assert(rest[j] == variables[j + 1]);
            }
        }
    }
}

/// A helper is run as the program and with the arguments the kubeconfig names, in their order, and
/// with nothing to read.
pub proof fn a_helper_is_run_as_named(
    command: &str,
    arguments: Vec<String>,
    variables: Vec<(String, String)>,
    asked: Json,
)
    requires
        call_ensures(request, (command, &arguments, &variables), asked),
    ensures
        asked@ is Object,
        asked@->Object_0.len() == 4,
        asked@->Object_0[0].0 == "arguments"@ && asked@->Object_0[0].1 is Array
            && asked@->Object_0[0].1->Array_0.len() == arguments@.len(),
        forall|i: int|
            0 <= i < arguments@.len() ==> #[trigger] asked@->Object_0[0].1->Array_0[i]
                == JsonView::Text(arguments@[i]@),
        asked@->Object_0[1] == (
            "environment"@,
            JsonView::Object(
                environment(
                    variables@.map_values(
                        |variable: (String, String)| (variable.0@, variable.1@),
                    ),
                ),
            ),
        ),
        asked@->Object_0[2] == ("program"@, JsonView::Text(command@)),
        asked@->Object_0[3] == ("stdin"@, JsonView::Null),
{
    assert(crate::credentials::variable_views(variables@) =~= variables@.map_values(
        |variable: (String, String)| (variable.0@, variable.1@),
    ));
}

/// A helper is run only where that was granted, is read from the stream the host named, and is
/// asked
/// at most sixty-four times and not once the operator stopped it.
pub proof fn a_helper_is_granted_and_bounded(
    held: bool,
    context: &str,
    command: &str,
    said: Result<(), WireError>,
    answer: Json,
    handle: Result<u64, WireError>,
    stdout: &mut Stdout,
    cancelled: bool,
    asked: Result<(), WireError>,
)
    requires
        call_ensures(granted, (held, context, command), said),
        call_ensures(started, (&answer, command), handle),
        call_ensures(Stdout::ask, (stdout, cancelled, command), asked),
    ensures
        said is Ok <==> held,
        said is Err ==> said->Err_0.name@ == "provider.unsupported"@,
        handle is Err ==> handle->Err_0.name@ == "provider.unsupported"@,
        asked is Err ==> asked->Err_0.name@ == "provider.unsupported"@,
        handle matches Ok(n) ==> entry(answer@, "handle"@) == Some(JsonView::Integer(n as int)),
        forall|n: int|
            0 <= n <= u64::MAX && #[trigger] entry(answer@, "handle"@) == Some(JsonView::Integer(n))
                ==> handle is Ok && handle->Ok_0 == n,
        asked is Ok <==> !cancelled && old(stdout).reads < 64,
        asked is Ok ==> final(stdout).reads == old(stdout).reads + 1,
        asked is Err ==> final(stdout).reads == old(stdout).reads,
        final(stdout).text@ == old(stdout).text@,
{
}

/// What a helper prints is put behind what it printed, and it is done where the host says so.
pub proof fn what_a_helper_prints_is_kept(
    stdout: &mut Stdout,
    answer: Json,
    done: bool,
    value: JsonView,
    line: Seq<char>,
)
    requires
        call_ensures(Stdout::take, (stdout, &answer), done),
    ensures
        done <==> entry(answer@, "complete"@) == Some(JsonView::Bool(true)),
        final(stdout).reads == old(stdout).reads,
        entry(answer@, "values"@) is None ==> final(stdout).text@ == old(stdout).text@,
        entry(answer@, "values"@) == Some(JsonView::Array(seq![value])) && entry(value, "stream"@)
            == Some(JsonView::Text("stdout"@)) && entry(value, "line"@) == Some(
            JsonView::Text(line),
        ) ==> final(stdout).text@ == old(stdout).text@ + line + seq!['\n'],
{
    let values = crate::credentials::values_of(answer@);
    if values.len() == 0 {
        assert(final(stdout).text@ =~= old(stdout).text@);
    }
    if values == seq![value] {
        reveal_with_fuel(crate::credentials::printed, 2);
        assert(values.drop_last().len() == 0);
        assert(crate::credentials::printed(values) =~= crate::credentials::printed_by(value));
        assert(old(stdout).text@ + line.push('\n') =~= old(stdout).text@ + line + seq!['\n']);
    }
}

/// A credential is made of what was resolved, and is about to expire exactly where its expiry is at
/// most half a minute away.
pub proof fn a_credential_expires_half_a_minute_early(
    token: Option<Secret>,
    certificate: Option<(Secret, Secret)>,
    expires: Option<u64>,
    made: Resolved,
    now: ObservedAt,
    expiring: bool,
    text: String,
    secret: Secret,
    exposed: &str,
)
    requires
        call_ensures(Resolved::new, (token, certificate, expires), made),
        call_ensures(Resolved::is_expiring, (&made, now), expiring),
        call_ensures(Secret::new, (text,), secret),
        call_ensures(Secret::expose, (&secret,), exposed),
    ensures
        made.token == token,
        made.client_certificate == certificate,
        made.expires_at == expires,
        expires matches Some(at) ==> (expiring <==> at <= now.unix_millis + 30_000),
        expires is None ==> !expiring,
        exposed@ == text@,
{
}

/// A credential that is held and not about to expire is given as it is, and nothing is run; any
/// other is what the helper gives now, held under its own key alone; and a helper that fails
/// changes
/// nothing.
pub proof fn a_credential_is_reused_until_it_expires<
    F: FnOnce() -> Result<Resolved, WireError>,
>(
    store: &mut CredentialStore,
    key: SourceKey,
    now: ObservedAt,
    helper: F,
    given: Result<Resolved, WireError>,
)
    requires
        call_ensures(CredentialStore::resolve::<F>, (store, &key, now, helper), given),
    ensures
        old(store).held(key@) matches Some(held) ==> {
            let fresh = match held.expires_at {
                Some(at) => at > now.unix_millis + 30_000,
                None => true,
            };
            &&& fresh ==> given is Ok && given->Ok_0@ == held
            &&& !fresh ==> call_ensures(helper, (), given)
        },
        old(store).held(key@) is None ==> call_ensures(helper, (), given),
        given matches Ok(credential) ==> final(store).held(key@) == Some(credential@),
        given is Err ==> final(store).held(key@) == old(store).held(key@),
        forall|other: (Seq<char>, Seq<char>, Seq<char>, Seq<char>)|
            other != key@ ==> #[trigger] final(store).held(other) == old(store).held(other),
{
}

// --- the brokered connection ----------------------------------------------------------------------

/// A request waits half a minute three times over before its peer counts as dead; a watch hands
/// control back after every quarter of a second and is never given up.
pub proof fn a_watch_is_never_given_up(request: ReadPolicy, watch: ReadPolicy)
    requires
        call_ensures(ReadPolicy::request, (), request),
        call_ensures(ReadPolicy::watch, (), watch),
    ensures
        request.deadline_millis == 30_000,
        request.idle_windows == Some(3u32),
        request.quiet_windows is None,
        watch.deadline_millis == 250,
        watch.idle_windows is None,
        watch.quiet_windows == Some(1u32),
{
}

/// A connection is the one the host opened, open and with nothing received; what was received is
/// given out first, its end is told once nothing is left, and only then is more asked for.
pub proof fn a_connection_gives_what_it_received(
    answer: Json,
    policy: ReadPolicy,
    opened: Result<BrokeredStream, WireError>,
    stream: BrokeredStream,
    handle: u64,
    open: bool,
    step: ReadStep,
)
    requires
        call_ensures(BrokeredStream::connect, (&answer, policy), opened),
        call_ensures(BrokeredStream::handle, (&stream,), handle),
        call_ensures(BrokeredStream::is_open, (&stream,), open),
        call_ensures(BrokeredStream::read_step, (&stream,), step),
    ensures
        opened matches Ok(made) ==> {
            &&& entry(answer@, "handle"@) == Some(JsonView::Integer(made.connection as int))
            &&& made.pending@.len() == 0
            &&& !made.ended
            &&& made.policy == policy
        },
        forall|n: int|
            0 <= n <= u64::MAX && #[trigger] entry(answer@, "handle"@) == Some(JsonView::Integer(n))
                ==> opened is Ok,
        opened is Err ==> opened->Err_0.name@ == "runtime.protocol_violation"@,
        handle == stream.connection,
        open <==> !stream.ended,
        step is Deliver <==> stream.pending@.len() > 0,
        step is End <==> stream.pending@.len() == 0 && stream.ended,
        step is Ask <==> stream.pending@.len() == 0 && !stream.ended,
{
}

/// Bytes are given out in the order they came, as many as are wanted and there, and the rest stays.
pub proof fn bytes_are_given_in_order(stream: &mut BrokeredStream, wanted: usize, given: Vec<u8>)
    requires
        call_ensures(BrokeredStream::deliver, (stream, wanted), given),
    ensures
        given@ + final(stream).pending@ == old(stream).pending@,
        wanted <= old(stream).pending@.len() ==> given@.len() == wanted,
        wanted > old(stream).pending@.len() ==> final(stream).pending@.len() == 0,
        final(stream).ended == old(stream).ended,
        final(stream).connection == old(stream).connection,
{
}

/// Bytes are written as they are, while the connection is open.
pub proof fn bytes_are_written_as_they_are(
    stream: BrokeredStream,
    bytes: &[u8],
    sent: Result<String, StreamError>,
)
    requires
        call_ensures(BrokeredStream::write_all, (&stream, bytes), sent),
    ensures
        sent is Ok <==> !stream.ended,
        sent matches Ok(text) ==> is_encoding(text@) && decoded(text@) == bytes@,
{
    crate::hex::encoding_round_trips(bytes@);
}

/// A chunk that came is put behind those before it, and a connection is at its end where the host
/// says so; what is no encoding is refused, and so is a failure the host reports at the end.
pub proof fn a_chunk_is_put_behind_the_last(
    stream: &mut BrokeredStream,
    answer: Json,
    pulled: Result<usize, StreamError>,
    value: JsonView,
    text: Seq<char>,
)
    requires
        call_ensures(BrokeredStream::pull, (stream, &answer), pulled),
        entry(answer@, "values"@) == Some(JsonView::Array(seq![value])),
        entry(value, "bytes"@) matches Some(bytes) && entry(bytes, "$bytes"@) == Some(
            JsonView::Text(text),
        ),
    ensures
        is_encoding(text) ==> final(stream).pending@ == old(stream).pending@ + decoded(text),
        is_encoding(text) && entry(answer@, "error"@) is None ==> pulled is Ok && pulled->Ok_0
            == decoded(text).len(),
        is_encoding(text) && entry(answer@, "complete"@) == Some(JsonView::Bool(true))
            ==> final(stream).ended,
        is_encoding(text) && entry(answer@, "complete"@) != Some(JsonView::Bool(true))
            ==> final(stream).ended == old(stream).ended,
        !is_encoding(text) ==> pulled is Err && final(stream).pending@ == old(stream).pending@,
        final(stream).connection == old(stream).connection,
        final(stream).policy == old(stream).policy,
{
    let values = seq![value];
    assert(crate::broker::delivered(answer@) == values);
    reveal_with_fuel(crate::broker::whole_chunks, 2);
    reveal_with_fuel(crate::broker::chunk_bytes, 2);
    assert(values.skip(1).len() == 0);
    assert(values.drop_last().len() == 0);
    assert(values.take(1) =~= values);
    assert(values.take(0).len() == 0);
    assert(crate::broker::chunk_text(value) == text);
    if is_encoding(text) {
        assert(crate::broker::chunk_bytes(values) =~= decoded(text));
    } else {
        assert(old(stream).pending@ + crate::broker::chunk_bytes(values.take(0))
            =~= old(stream).pending@);
    }
}

/// A window in which something came counts for nothing; one in which nothing came is where the
/// operator is heard, where a watch hands control back, and where a peer is given up after its
/// last.
pub proof fn a_silent_window_is_counted(
    stream: BrokeredStream,
    arrived: usize,
    cancelled: bool,
    idle: u32,
    counted: Result<u32, StreamError>,
)
    requires
        idle < u32::MAX,
        call_ensures(BrokeredStream::window, (&stream, arrived, cancelled, idle), counted),
    ensures
        arrived > 0 || stream.pending@.len() > 0 || stream.ended ==> counted == Ok::<
            u32,
            StreamError,
        >(idle),
        arrived == 0 && stream.pending@.len() == 0 && !stream.ended ==> {
            &&& cancelled ==> counted is Err && !counted->Err_0.quiet
            &&& !cancelled && stream.policy.quiet_windows == Some(1u32) ==> counted is Err
                && counted->Err_0.quiet
            &&& !cancelled && stream.policy.quiet_windows is None ==> match stream.policy.idle_windows {
                Some(limit) => if idle + 1 >= limit {
                    counted is Err && !counted->Err_0.quiet
                } else {
                    counted == Ok::<u32, StreamError>((idle + 1) as u32)
                },
                None => counted == Ok::<u32, StreamError>((idle + 1) as u32),
            }
        },
{
}

// --- what the package records about itself --------------------------------------------------------

/// A connection, a helper that was run, and a refusal of this package's own are recorded under the
/// instance they belong to, each as what it was.
pub proof fn an_act_is_recorded_as_it_was(
    instance: &str,
    host: &str,
    port: u16,
    connect: Json,
    context: &str,
    command: &str,
    ran: Json,
    capability: &str,
    what: &str,
    blocked: Json,
)
    requires
        call_ensures(connected, (instance, host, port), connect),
        call_ensures(ran_credential_plugin, (instance, context, command), ran),
        call_ensures(refused_locally, (instance, capability, what), blocked),
    ensures
        connect@ == JsonView::Object(
            seq![
                ("action"@, JsonView::Text("connect"@)),
                ("endpoint"@, JsonView::Text(host@ + ":"@ + decimal(port as nat))),
                ("provider_instance"@, JsonView::Text(instance@)),
            ],
        ),
        ran@ == JsonView::Object(
            seq![
                ("action"@, JsonView::Text("credential-plugin"@)),
                ("command"@, JsonView::Text(command@)),
                ("context"@, JsonView::Text(context@)),
                ("provider_instance"@, JsonView::Text(instance@)),
            ],
        ),
        blocked@ == JsonView::Object(
            seq![
                ("action"@, JsonView::Text("blocked"@)),
                ("capability"@, JsonView::Text(capability@)),
                ("operation"@, JsonView::Text(what@)),
                ("provider_instance"@, JsonView::Text(instance@)),
            ],
        ),
{
}

/// A denial names what was denied and where; a change names its object, whether it was a
/// prediction,
/// what came back and every field it touched, in order.
pub proof fn a_change_is_recorded_as_it_was(
    instance: &str,
    what: &str,
    scope: &str,
    verb: &str,
    denied: Json,
    name: &str,
    dry_run: bool,
    acceptance: &str,
    fields: Vec<String>,
    changed: Json,
)
    requires
        call_ensures(refused, (instance, what, scope, verb), denied),
        call_ensures(mutated, (instance, what, scope, name, dry_run, acceptance, &fields), changed),
    ensures
        denied@ == JsonView::Object(
            seq![
                ("action"@, JsonView::Text("denied"@)),
                ("provider_instance"@, JsonView::Text(instance@)),
                ("resource"@, JsonView::Text(what@)),
                ("scope"@, JsonView::Text(scope@)),
                ("verb"@, JsonView::Text(verb@)),
            ],
        ),
        changed@ == JsonView::Object(
            seq![
                ("acceptance"@, JsonView::Text(acceptance@)),
                ("action"@, JsonView::Text("mutate"@)),
                ("dry_run"@, JsonView::Bool(dry_run)),
                (
                    "fields"@,
                    JsonView::Array(
                        Seq::new(fields@.len(), |i: int| JsonView::Text(fields@[i]@)),
                    ),
                ),
                ("name"@, JsonView::Text(name@)),
                ("provider_instance"@, JsonView::Text(instance@)),
                ("resource"@, JsonView::Text(what@)),
                ("scope"@, JsonView::Text(scope@)),
            ],
        ),
{
    assert(crate::audit::texts_json(views(fields@))->Array_0 =~= Seq::new(
        fields@.len(),
        |i: int| JsonView::Text(fields@[i]@),
    ));
}

/// A credential that is refreshed is what the helper gives now, held under its own key alone; a
/// helper that fails changes nothing; and a store begins with nothing held.
pub proof fn a_refreshed_credential_is_a_new_one<F: FnOnce() -> Result<Resolved, WireError>>(
    store: &mut CredentialStore,
    key: SourceKey,
    helper: F,
    given: Result<Resolved, WireError>,
    fresh: CredentialStore,
    other: (Seq<char>, Seq<char>, Seq<char>, Seq<char>),
    millis: u64,
    now: ObservedAt,
    out: Stdout,
)
    requires
        call_ensures(CredentialStore::refresh::<F>, (store, &key, helper), given),
        call_ensures(CredentialStore::new, (), fresh),
        call_ensures(ObservedAt::from_unix_millis, (millis,), now),
        call_ensures(Stdout::new, (), out),
    ensures
        call_ensures(helper, (), given),
        given matches Ok(credential) ==> final(store).held(key@) == Some(credential@),
        given is Err ==> final(store).held(key@) == old(store).held(key@),
        other != key@ ==> final(store).held(other) == old(store).held(other),
        fresh.held(other) is None,
        now.unix_millis == millis,
        out.text@.len() == 0,
        out.reads == 0,
{
}

/// A file the host would not have read is told as that, and one that did not answer as that; both
/// name the file.
pub proof fn a_file_is_refused_as_it_failed(
    path: &str,
    what: &str,
    error: WireError,
    told: WireError,
)
    requires
        call_ensures(crate::kubeconfig::file_failure, (path, what, &error), told),
    ensures
        told.name@ == "provider.unavailable"@,
        error.name@ == "capability.denied"@ ==> told.message@ == crate::text::filled(
            "the host refused to read {} at `{}`: {}"@,
            seq![what@, path@, error.message@],
        ),
        error.name@ != "capability.denied"@ ==> told.message@ == crate::text::filled(
            "{} at `{}` could not be read: {}"@,
            seq![what@, path@, error.message@],
        ),
{
}

}
