use std::sync::atomic::{AtomicUsize, Ordering};

use ono_kubernetes_plugin::credential_store::{
    CredentialStore, ObservedAt, Resolved, Secret, SourceKey,
};
use ono_kubernetes_plugin::failure::WireError;

fn key(source: &str) -> SourceKey {
    SourceKey {
        instance: "kubernetes:prod".to_owned(),
        endpoint: "https://api.example:6443".to_owned(),
        transport: "tls-verified",
        source: source.to_owned(),
    }
}

fn credential(token: &str, expires_at: Option<u64>) -> Resolved {
    Resolved::new(Some(Secret::new(token.to_owned())), None, expires_at)
}

fn at(millis: u64) -> ObservedAt {
    ObservedAt::from_unix_millis(millis)
}

fn resolves(result: Result<Resolved, WireError>) -> Resolved {
    match result {
        Ok(resolved) => resolved,
        Err(error) => panic!("resolves: {}", error.message),
    }
}

#[test]
fn should_run_a_helper_once_for_a_credential_that_stays_valid() {
    let mut store = CredentialStore::new();
    let runs = AtomicUsize::new(0);
    let run = |token: &'static str| {
        let runs = &runs;
        move || {
            runs.fetch_add(1, Ordering::SeqCst);
            Ok(credential(token, Some(1_000_000)))
        }
    };

    let first = resolves(store.resolve(&key("s"), at(0), run("t1")));
    let second = resolves(store.resolve(&key("s"), at(1), run("t2")));

    assert_eq!(runs.load(Ordering::SeqCst), 1, "the helper ran once");
    assert_eq!(first.token.as_ref().map(Secret::expose), Some("t1"));
    assert_eq!(
        second.token.as_ref().map(Secret::expose),
        Some("t1"),
        "the second resolution reused the first run's credential"
    );
}

#[test]
fn should_run_a_helper_again_when_the_credential_has_expired() {
    let mut store = CredentialStore::new();
    let runs = AtomicUsize::new(0);
    let acquire = || {
        runs.fetch_add(1, Ordering::SeqCst);
        Ok(credential("t1", Some(100_000)))
    };
    resolves(store.resolve(&key("s"), at(0), acquire));
    let refresh = || {
        runs.fetch_add(1, Ordering::SeqCst);
        Ok(credential("t2", Some(1_000_000)))
    };
    let second = resolves(store.resolve(&key("s"), at(200_000), refresh));

    assert_eq!(
        runs.load(Ordering::SeqCst),
        2,
        "the expired credential was refreshed"
    );
    assert_eq!(
        second.token.as_ref().map(Secret::expose),
        Some("t2"),
        "the replacement credential is the one returned"
    );
}

#[test]
fn should_refresh_before_the_stated_expiry_by_the_early_margin() {
    let mut store = CredentialStore::new();
    let runs = AtomicUsize::new(0);
    let acquire = || {
        runs.fetch_add(1, Ordering::SeqCst);
        Ok(credential("t1", Some(100_000)))
    };
    resolves(store.resolve(&key("s"), at(0), acquire));
    let refresh = || {
        runs.fetch_add(1, Ordering::SeqCst);
        Ok(credential("t2", Some(1_000_000)))
    };
    resolves(store.resolve(&key("s"), at(100_000 - 10_000), refresh));
    assert_eq!(
        runs.load(Ordering::SeqCst),
        2,
        "a credential inside the early-refresh margin is refreshed before it is sent"
    );
}

#[test]
fn should_keep_a_credential_with_no_stated_expiry() {
    let mut store = CredentialStore::new();
    let runs = AtomicUsize::new(0);
    let run = || {
        runs.fetch_add(1, Ordering::SeqCst);
        Ok(credential("t1", None))
    };
    resolves(store.resolve(&key("s"), at(0), run));
    resolves(store.resolve(&key("s"), at(u64::MAX / 2), run));
    assert_eq!(
        runs.load(Ordering::SeqCst),
        1,
        "a credential with no expiry this provider can see is not treated as expired"
    );
}

#[test]
fn should_key_two_sources_apart() {
    let mut store = CredentialStore::new();
    let runs = AtomicUsize::new(0);
    let run = |token: &'static str| {
        let runs = &runs;
        move || {
            runs.fetch_add(1, Ordering::SeqCst);
            Ok(credential(token, None))
        }
    };
    resolves(store.resolve(&key("a"), at(0), run("ta")));
    resolves(store.resolve(&key("b"), at(0), run("tb")));
    assert_eq!(
        runs.load(Ordering::SeqCst),
        2,
        "two different sources are two different credentials"
    );
}

#[test]
fn should_not_cache_a_failed_resolution() {
    let mut store = CredentialStore::new();
    let failing = || {
        Err(WireError {
            code: Some("x".to_owned()),
            name: "x".to_owned(),
            message: "no".to_owned(),
            help: None,
        })
    };
    assert!(store.resolve(&key("s"), at(0), failing).is_err());
    let runs = AtomicUsize::new(0);
    let run = || {
        runs.fetch_add(1, Ordering::SeqCst);
        Ok(credential("t1", None))
    };
    resolves(store.resolve(&key("s"), at(0), run));
    assert_eq!(
        runs.load(Ordering::SeqCst),
        1,
        "a failed resolution cached nothing, so the next one runs"
    );
}

#[test]
fn should_run_on_a_forced_refresh_even_when_the_cache_is_valid() {
    let mut store = CredentialStore::new();
    resolves(store.resolve(&key("s"), at(0), || Ok(credential("t1", Some(1_000_000)))));
    let refreshed = match store.refresh(&key("s"), || Ok(credential("t2", Some(1_000_000)))) {
        Ok(refreshed) => refreshed,
        Err(error) => panic!("refreshes: {}", error.message),
    };
    assert_eq!(refreshed.token.as_ref().map(Secret::expose), Some("t2"));
    let later = resolves(store.resolve(&key("s"), at(1), || Ok(credential("t3", None))));
    assert_eq!(
        later.token.as_ref().map(Secret::expose),
        Some("t2"),
        "the forced refresh replaced the cached credential"
    );
}

#[test]
fn the_margin_is_inclusive_and_never_overflows() {
    let held = credential("t", Some(100_000));
    assert!(!held.is_expiring(at(69_999)));
    assert!(held.is_expiring(at(70_000)));
    assert!(held.is_expiring(at(u64::MAX)));
    assert!(!credential("t", None).is_expiring(at(u64::MAX)));
}

#[test]
fn a_failed_refresh_leaves_what_was_held() {
    let mut store = CredentialStore::default();
    resolves(store.resolve(&key("s"), at(0), || Ok(credential("t1", None))));
    let failing = || {
        Err(WireError { code: None, name: "n".to_owned(), message: "no".to_owned(), help: None })
    };
    assert!(store.refresh(&key("s"), failing).is_err());
    let later = resolves(store.resolve(&key("s"), at(1), || Ok(credential("t2", None))));
    assert_eq!(later.token.as_ref().map(Secret::expose), Some("t1"));
}

#[test]
fn a_transport_keys_apart_what_a_source_does_not() {
    let mut store = CredentialStore::new();
    resolves(store.resolve(&key("s"), at(0), || Ok(credential("t1", None))));
    let mut plain = key("s");
    plain.transport = "plaintext";
    let other = resolves(store.resolve(&plain, at(0), || Ok(credential("t2", None))));
    assert_eq!(other.token.as_ref().map(Secret::expose), Some("t2"));
}
