use ono_kubernetes_plugin::cluster::Posture;
use ono_kubernetes_plugin::coverage::{scope_for, Reach};
use ono_kubernetes_plugin::credential_store::Secret;
use ono_kubernetes_plugin::discovery::Scope;
use ono_kubernetes_plugin::document::read_document;
use ono_kubernetes_plugin::endpoint::{
    authority_of, authorization, credential_shown, max_pages, named_server, no_endpoint,
    parse_server, protection_shown, scope_of, Endpoint, Named,
};
use ono_kubernetes_plugin::failure::WireError;
use ono_kubernetes_plugin::hex::encode_hex;
use ono_kubernetes_plugin::json::Json;
use ono_kubernetes_plugin::kubeconfig::{
    bearer_token, client_identity, client_key, config_text, expand_home, file_failure,
    handshake_failure, path_of, tls_configuration_failure, tls_settings, unknown_context,
    unreadable, ClientCertificate, Connection, Credential, FileRead, Progress, Trust, Verification,
};
use ono_kubernetes_plugin::options::Options;

fn options(text: &str) -> Options {
    match read_document(text).expect("a document") {
        Json::Object(entries) => Options { entries },
        _ => panic!("options are an object"),
    }
}

fn chunk(bytes: &[u8]) -> Json {
    Json::Object(vec![(
        "content".to_owned(),
        Json::Object(vec![("$bytes".to_owned(), Json::Text(encode_hex(bytes)))]),
    )])
}

#[test]
fn a_server_is_named_and_never_guessed() {
    assert_eq!(named_server(&options("{}")), Err(no_endpoint()));
    assert_eq!(
        named_server(&options(r#"{"host": "127.0.0.1", "context": "prod"}"#)),
        Ok(Named::Explicit { host: "127.0.0.1".to_owned(), context: Some("prod".to_owned()) })
    );
    assert_eq!(
        named_server(&options(r#"{"context": "prod"}"#)),
        Ok(Named::Context { name: "prod".to_owned() })
    );
}

#[test]
fn a_named_namespace_beats_every_other() {
    assert_eq!(
        scope_of(&options(r#"{"namespace": "a", "all_namespaces": true}"#), Some("b")),
        Reach::Namespace("a".to_owned())
    );
    assert_eq!(scope_of(&options(r#"{"all_namespaces": true}"#), Some("b")), Reach::AllNamespaces);
    assert_eq!(scope_of(&options("{}"), Some("b")), Reach::Namespace("b".to_owned()));
    assert_eq!(scope_of(&options("{}"), None), Reach::Namespace("default".to_owned()));
    assert_eq!(max_pages(&options(r#"{"max_pages": 0}"#)), None);
    assert_eq!(max_pages(&options(r#"{"max_pages": 3}"#)), Some(3));
}

#[test]
fn a_cluster_scoped_collection_has_no_namespace() {
    let asked = Reach::Namespace("a".to_owned());
    assert_eq!(scope_for(Scope::Cluster, &asked), Reach::Cluster);
    assert_eq!(scope_for(Scope::Namespaced, &asked), asked);
}

#[test]
fn an_explicit_host_speaks_plain_http() {
    let endpoint = Endpoint::explicit(&options("{}"), "127.0.0.1", None);
    assert_eq!(endpoint.port, 8001);
    assert_eq!(endpoint.authority, "127.0.0.1:8001");
    assert_eq!(endpoint.instance, "kubernetes:127.0.0.1:8001");
    assert!(!endpoint.secure);
    let named = Endpoint::explicit(&options(r#"{"port": 80}"#), "h", Some("prod"));
    assert_eq!(named.instance, "kubernetes:prod");
    assert_eq!(named.port, 80);
}

#[test]
fn a_server_url_is_read() {
    assert_eq!(parse_server("https://api:6443"), Ok((true, "api".to_owned(), 6443)));
    assert_eq!(parse_server("https://api"), Ok((true, "api".to_owned(), 443)));
    assert_eq!(parse_server("http://api/"), Ok((false, "api".to_owned(), 80)));
    assert_eq!(parse_server("https://[::1]:6443"), Ok((true, "::1".to_owned(), 6443)));
}

#[test]
fn a_server_url_that_is_none_says_why() {
    assert_eq!(parse_server("api:6443"), Err("it names no scheme".to_owned()));
    assert_eq!(
        parse_server("ftp://api"),
        Err("`ftp` is not a scheme this provider speaks".to_owned())
    );
    assert_eq!(
        parse_server("https://api/k8s/x"),
        Err("it names the path prefix `/k8s/x`, and this provider does not yet prepend one to its \
             requests"
            .to_owned())
    );
    assert_eq!(parse_server("https://[::1"), Err("its IPv6 literal is not closed".to_owned()));
    assert_eq!(parse_server("https://:6443"), Err("it names no host".to_owned()));
    assert_eq!(parse_server("https://api:x"), Err("`x` is not a port number".to_owned()));
}

#[test]
fn an_authority_names_its_server() {
    assert_eq!(authority_of("api", 443, true), "api");
    assert_eq!(authority_of("api", 443, false), "api:443");
    let url = format!("https://{}", authority_of("api", 6443, true));
    assert_eq!(parse_server(&url), Ok((true, "api".to_owned(), 6443)));
}

#[test]
fn a_credential_is_sent_and_never_shown() {
    let token = Some(Secret::new("SECRET-REDACTED".to_owned()));
    assert_eq!(authorization(&token).as_deref(), Some("Bearer SECRET-REDACTED"));
    assert_eq!(credential_shown(&token), Some("<redacted>"));
    assert_eq!(authorization(&None), None);
    assert_eq!(credential_shown(&None), None);
    assert_eq!(protection_shown(Posture::Plain), Some("none: plain HTTP/1.1"));
    assert_eq!(
        protection_shown(Posture::InsecureSkipVerify),
        Some("insecure: certificate verification disabled")
    );
    assert_eq!(protection_shown(Posture::Verified), None);
}

#[test]
fn a_kubeconfig_path_starts_at_home() {
    assert_eq!(path_of(&options("{}")), "~/.kube/config");
    assert_eq!(path_of(&options(r#"{"kubeconfig": ""}"#)), "~/.kube/config");
    assert_eq!(expand_home("~/.kube/config", Some("/home/me/")).as_deref(), Ok("/home/me/.kube/config"));
    assert_eq!(expand_home("/etc/k", None).as_deref(), Ok("/etc/k"));
    assert_eq!(
        expand_home("~/k", None).unwrap_err().message,
        "`~/k` starts at a home directory, and `HOME` is not set"
    );
}

#[test]
fn a_file_is_its_chunks() {
    let mut file = FileRead::new();
    let full = vec![7u8; 65_536];
    assert_eq!(file.take(&chunk(&full), "/k", "the kubeconfig"), Ok(Progress::More));
    assert_eq!(file.offset(), 65_536);
    assert_eq!(file.take(&chunk(b"end"), "/k", "the kubeconfig"), Ok(Progress::Whole));
    assert_eq!(file.bytes.len(), 65_539);
    assert_eq!(&file.bytes[65_536..], b"end");
}

#[test]
fn a_file_that_is_too_large_or_no_bytes_is_refused() {
    let mut file = FileRead { bytes: vec![0u8; 4_194_304] };
    let large = file.take(&chunk(&vec![7u8; 65_536]), "/k", "the kubeconfig").unwrap_err();
    assert_eq!(large.message, "`/k` is larger than 4194304 bytes, which the kubeconfig is not");
    let mut brim = FileRead { bytes: vec![0u8; 4_194_304] };
    let over = brim.take(&chunk(b"x"), "/k", "the kubeconfig").unwrap_err();
    assert_eq!(over.message, large.message);
    assert_eq!(over.code.as_deref(), Some("Ono-Sendai-E0401"));
    let mut full = FileRead { bytes: vec![0u8; 4_194_303] };
    assert_eq!(full.take(&chunk(b"x"), "/k", "the kubeconfig"), Ok(Progress::Whole));
    let mut other = FileRead::new();
    let odd = Json::Object(vec![(
        "content".to_owned(),
        Json::Object(vec![("$bytes".to_owned(), Json::Text("abc".to_owned()))]),
    )]);
    assert_eq!(
        other.take(&odd, "/k", "the kubeconfig").unwrap_err().message,
        "the host answered `filesystem.read` for `/k` with bytes that are not hexadecimal"
    );
}

#[test]
fn a_refused_file_and_a_missing_one_are_told_apart() {
    let error = |name: &str| WireError {
        code: None,
        name: name.to_owned(),
        message: "no".to_owned(),
        help: None,
    };
    assert_eq!(
        file_failure("/k", "the kubeconfig", &error("capability.denied")).message,
        "the host refused to read the kubeconfig at `/k`: no"
    );
    assert_eq!(
        file_failure("/k", "the kubeconfig", &error("other")).message,
        "the kubeconfig at `/k` could not be read: no"
    );
}

#[test]
fn a_kubeconfig_is_text() {
    assert_eq!(config_text("/k", "é".as_bytes().to_vec()).as_deref(), Ok("é"));
    let fault = config_text("/k", vec![0xff]).unwrap_err();
    assert!(fault.message.starts_with("`/k` is not text: invalid utf-8"), "{}", fault.message);
    assert_eq!(client_key(&[0x61, 0xff]).expose(), "a\u{fffd}");
    assert_eq!(unreadable("/k", "bad").message, "`/k` did not read: bad");
    assert!(unknown_context("/k", "no such", &Vec::new()).help.unwrap().contains("none"));
}

#[test]
fn a_context_becomes_an_endpoint() {
    let connection = Connection {
        server: "https://api:6443".to_owned(),
        namespace: Some("team".to_owned()),
        instance: "kubernetes:prod".to_owned(),
    };
    let endpoint = Endpoint::from_context(&options("{}"), "prod", &connection).expect("an endpoint");
    assert_eq!(endpoint.authority, "api:6443");
    assert_eq!(endpoint.scope, Reach::Namespace("team".to_owned()));
    assert!(endpoint.secure);
    assert_eq!(
        handshake_failure(&endpoint, "bad").message,
        "the TLS session with `api:6443` was not established: bad"
    );
    let broken = Connection { server: "api".to_owned(), namespace: None, instance: "i".to_owned() };
    assert_eq!(
        Endpoint::from_context(&options("{}"), "prod", &broken).unwrap_err().message,
        "context `prod` names the server `api`, which this provider cannot use: it names no scheme"
    );
}

#[test]
fn what_a_context_presents_is_decided() {
    assert_eq!(bearer_token(Credential::BearerToken, "c"), Ok(true));
    assert_eq!(bearer_token(Credential::Anonymous, "c"), Ok(false));
    assert_eq!(bearer_token(Credential::ClientCertificate, "c"), Ok(false));
    assert!(bearer_token(Credential::ExecPlugin, "c").is_err());
    let two = vec!["/c".to_owned(), "/k".to_owned()];
    assert_eq!(
        client_identity(false, &two, "c"),
        Ok(ClientCertificate::Files { certificate: "/c".to_owned(), key: "/k".to_owned() })
    );
    assert_eq!(client_identity(true, &two, "c"), Ok(ClientCertificate::Inline));
    assert_eq!(client_identity(false, &Vec::new(), "c"), Ok(ClientCertificate::Absent));
    assert_eq!(
        client_identity(false, &vec!["/c".to_owned()], "c").unwrap_err().message,
        "context `c` names one half of a client certificate and not the other"
    );
}

#[test]
fn verification_is_off_for_one_setting_and_no_other() {
    assert_eq!(tls_settings(&Trust::Insecure), Verification::Disabled);
    assert_eq!(
        tls_settings(&Trust::CertificateAuthorityFile("/ca".to_owned())),
        Verification::PinnedFile("/ca".to_owned())
    );
    assert_eq!(tls_settings(&Trust::Stated), Verification::Anchored);
    assert_eq!(
        tls_configuration_failure("c", "bad").message,
        "context `c` cannot open a TLS session: bad"
    );
}
