//! What a credential source resolved to, and when it expires.
//!
//! An entry is keyed on the session identity and the source identity, never on the material: what a
//! helper returned is the value. A credential is reused while it is not about to expire, and
//! resolved again otherwise; a resolution that fails leaves what was held as it was.

use vstd::prelude::*;

use crate::failure::WireError;
use crate::text::same;

verus! {

/// How long before a credential's stated expiry it is refreshed rather than used, in milliseconds.
///
/// A credential that is valid now but expires while the request is in flight produces exactly the
/// refusal that refreshing exists to avoid.
pub const EARLY_REFRESH_MARGIN_MILLIS: u64 = 30_000;

/// Credential material. It is handed out only to a caller that asks for it by name.
#[derive(PartialEq, Eq)]
pub struct Secret {
    material: String,
}

impl View for Secret {
    type V = Seq<char>;

    closed spec fn view(&self) -> Seq<char> {
        self.material@
    }
}

impl Secret {
    /// Holds some material.
    pub fn new(material: String) -> (r: Secret)
        ensures
            r@ == material@,
    {
        Secret { material }
    }

    /// The material itself.
    pub fn expose(&self) -> (r: &str)
        ensures
            r@ == self@,
    {
        self.material.as_str()
    }
}

impl Clone for Secret {
    fn clone(&self) -> (r: Secret)
        ensures
            r@ == self@,
    {
        Secret { material: self.material.clone() }
    }
}

/// An instant on the observer's clock, in Unix milliseconds.
#[derive(Debug, Clone, Copy, PartialEq, Eq, Structural)]
pub struct ObservedAt {
    pub unix_millis: u64,
}

impl ObservedAt {
    /// The instant of a number of Unix milliseconds.
    pub fn from_unix_millis(unix_millis: u64) -> (r: ObservedAt)
        ensures
            r.unix_millis == unix_millis,
    {
        ObservedAt { unix_millis }
    }
}

/// The identity of a credential source. Never the material.
#[derive(PartialEq, Eq)]
pub struct SourceKey {
    /// The provider instance.
    pub instance: String,
    /// The API server this resolved to.
    pub endpoint: String,
    /// The transport posture: `plaintext`, `tls-verified` or `tls-unverified`.
    pub transport: &'static str,
    /// A fingerprint of the source: the kubeconfig path list, the context, and the helper's
    /// command, arguments and environment.
    pub source: String,
}

impl View for SourceKey {
    type V = (Seq<char>, Seq<char>, Seq<char>, Seq<char>);

    open spec fn view(&self) -> (Seq<char>, Seq<char>, Seq<char>, Seq<char>) {
        (self.instance@, self.endpoint@, self.transport@, self.source@)
    }
}

impl Clone for SourceKey {
    fn clone(&self) -> (r: SourceKey)
        ensures
            r@ == self@,
    {
        SourceKey {
            instance: self.instance.clone(),
            endpoint: self.endpoint.clone(),
            transport: self.transport,
            source: self.source.clone(),
        }
    }
}

/// Whether two keys name one source.
fn same_source(a: &SourceKey, b: &SourceKey) -> (r: bool)
    ensures
        r == (a@ == b@),
{
    same(a.instance.as_str(), b.instance.as_str()) && same(
        a.endpoint.as_str(),
        b.endpoint.as_str(),
    ) && same(a.transport, b.transport) && same(a.source.as_str(), b.source.as_str())
}

/// What a credential source resolved to: the material, and when it dies.
#[derive(PartialEq, Eq)]
pub struct Resolved {
    /// The bearer token, where the helper returned one.
    pub token: Option<Secret>,
    /// The client certificate and its key, where the helper returned that form instead.
    pub client_certificate: Option<(Secret, Secret)>,
    /// When this credential expires, in Unix milliseconds, where that could be read. `None` is "no
    /// expiry this provider can see", not "never".
    pub expires_at: Option<u64>,
}

/// What a credential is.
pub struct ResolvedView {
    pub token: Option<Seq<char>>,
    pub client_certificate: Option<(Seq<char>, Seq<char>)>,
    pub expires_at: Option<u64>,
}

impl View for Resolved {
    type V = ResolvedView;

    open spec fn view(&self) -> ResolvedView {
        ResolvedView {
            token: match self.token {
                Some(token) => Some(token@),
                None => None,
            },
            client_certificate: match self.client_certificate {
                Some((certificate, key)) => Some((certificate@, key@)),
                None => None,
            },
            expires_at: self.expires_at,
        }
    }
}

impl Clone for Resolved {
    fn clone(&self) -> (r: Resolved)
        ensures
            r@ == self@,
    {
        Resolved {
            token: match &self.token {
                Some(token) => Some(token.clone()),
                None => None,
            },
            client_certificate: match &self.client_certificate {
                Some((certificate, key)) => Some((certificate.clone(), key.clone())),
                None => None,
            },
            expires_at: self.expires_at,
        }
    }
}

impl ResolvedView {
    /// Whether a credential is expired, or close enough to expiry to refresh now. One with no
    /// expiry that can be seen is neither.
    pub open spec fn expiring(self, now: int) -> bool {
        match self.expires_at {
            Some(expires) => expires <= now + EARLY_REFRESH_MARGIN_MILLIS,
            None => false,
        }
    }
}

impl Resolved {
    /// A resolved credential with the material and the expiry the helper stated.
    pub fn new(
        token: Option<Secret>,
        client_certificate: Option<(Secret, Secret)>,
        expires_at: Option<u64>,
    ) -> (r: Resolved)
        ensures
            r == (Resolved { token, client_certificate, expires_at }),
    {
        Resolved { token, client_certificate, expires_at }
    }

    /// Whether this credential is expired, or close enough to expiry to refresh now.
    pub fn is_expiring(&self, now: ObservedAt) -> (r: bool)
        ensures
            r == self@.expiring(now.unix_millis as int),
    {
        match self.expires_at {
            Some(expires) => if now.unix_millis > u64::MAX - EARLY_REFRESH_MARGIN_MILLIS {
                true
            } else {
                expires <= now.unix_millis + EARLY_REFRESH_MARGIN_MILLIS
            },
            None => false,
        }
    }
}

/// Every credential that has been resolved, one entry per source.
pub struct CredentialStore {
    entries: Vec<(SourceKey, Resolved)>,
}

/// The first entry of a key.
pub closed spec fn entry_of(
    entries: Seq<(SourceKey, Resolved)>,
    key: (Seq<char>, Seq<char>, Seq<char>, Seq<char>),
) -> Option<ResolvedView>
    decreases entries.len(),
{
    if entries.len() == 0 {
        None
    } else if entries[0].0@ == key {
        Some(entries[0].1@)
    } else {
        entry_of(entries.skip(1), key)
    }
}

/// Whether what is held for a source may be used as it is.
pub open spec fn usable(held: Option<ResolvedView>, now: int) -> bool {
    match held {
        Some(held) => !held.expiring(now),
        None => false,
    }
}

/// An entry of a key, set where there is one and otherwise added, is the entry of the key; every
/// other key has the entry it had.
proof fn entry_after_update(
    entries: Seq<(SourceKey, Resolved)>,
    at: int,
    key: SourceKey,
    value: Resolved,
    other: (Seq<char>, Seq<char>, Seq<char>, Seq<char>),
)
    requires
        0 <= at < entries.len(),
        entries[at].0@ == key@,
        forall|j: int| 0 <= j < at ==> (#[trigger] entries[j]).0@ != key@,
    ensures
        entry_of(entries.update(at, (key, value)), other) == if other == key@ {
            Some(value@)
        } else {
            entry_of(entries, other)
        },
    decreases entries.len(),
{
    let now = entries.update(at, (key, value));
    if at == 0 {
        assert(now.skip(1) =~= entries.skip(1));
    } else {
        assert(entries[0].0@ != key@);
        assert(now[0] == entries[0]);
        assert(now.skip(1) =~= entries.skip(1).update(at - 1, (key, value)));
        assert forall|j: int| 0 <= j < at - 1 implies (#[trigger] entries.skip(1)[j]).0@ != key@ by {
            assert(entries.skip(1)[j] == entries[j + 1]);
        }
        entry_after_update(entries.skip(1), at - 1, key, value, other);
    }
}

proof fn entry_after_push(
    entries: Seq<(SourceKey, Resolved)>,
    key: SourceKey,
    value: Resolved,
    other: (Seq<char>, Seq<char>, Seq<char>, Seq<char>),
)
    requires
        forall|j: int| 0 <= j < entries.len() ==> (#[trigger] entries[j]).0@ != key@,
    ensures
        entry_of(entries.push((key, value)), other) == if other == key@ {
            Some(value@)
        } else {
            entry_of(entries, other)
        },
    decreases entries.len(),
{
    let now = entries.push((key, value));
    if entries.len() == 0 {
        assert(now.skip(1) =~= Seq::<(SourceKey, Resolved)>::empty());
        reveal_with_fuel(entry_of, 2);
    } else {
        assert(now[0] == entries[0]);
        assert(entries[0].0@ != key@);
        assert(now.skip(1) =~= entries.skip(1).push((key, value)));
        assert forall|j: int| 0 <= j < entries.skip(1).len() implies (
        #[trigger] entries.skip(1)[j]).0@ != key@ by {
            assert(entries.skip(1)[j] == entries[j + 1]);
        }
        entry_after_push(entries.skip(1), key, value, other);
    }
}

impl CredentialStore {
    /// What is held for a source, where something is.
    pub closed spec fn held(
        self,
        key: (Seq<char>, Seq<char>, Seq<char>, Seq<char>),
    ) -> Option<ResolvedView> {
        entry_of(self.entries@, key)
    }

    /// Whether this store is another one with the credential of one source replaced.
    pub open spec fn replaces(
        self,
        before: CredentialStore,
        key: (Seq<char>, Seq<char>, Seq<char>, Seq<char>),
        credential: ResolvedView,
    ) -> bool {
        &&& self.held(key) == Some(credential)
        &&& forall|other: (Seq<char>, Seq<char>, Seq<char>, Seq<char>)|
            other != key ==> #[trigger] self.held(other) == before.held(other)
    }

    /// Whether this store holds for every source what another one does.
    pub open spec fn holds_as(self, before: CredentialStore) -> bool {
        forall|other: (Seq<char>, Seq<char>, Seq<char>, Seq<char>)| #[trigger]
            self.held(other) == before.held(other)
    }

    /// A store holding nothing, which is what a package that has run no helper holds.
    pub fn new() -> (r: CredentialStore)
        ensures
            forall|key: (Seq<char>, Seq<char>, Seq<char>, Seq<char>)| #[trigger]
                r.held(key) is None,
    {
        CredentialStore { entries: Vec::new() }
    }

    /// Where the entry of a key stands, where there is one.
    fn place(&self, key: &SourceKey) -> (r: Option<usize>)
        ensures
            match r {
                Some(at) => at < self.entries@.len() && self.entries@[at as int].0@ == key@ && (
                forall|j: int| 0 <= j < at ==> (#[trigger] self.entries@[j]).0@ != key@)
                    && self.held(key@) == Some(self.entries@[at as int].1@),
                None => (forall|j: int|
                    0 <= j < self.entries@.len() ==> (#[trigger] self.entries@[j]).0@ != key@)
                    && self.held(key@) is None,
            },
    {
        let ghost all = self.entries@;
        let mut i: usize = 0;
        assert(all.skip(0) =~= all);
        while i < self.entries.len()
            invariant
                i <= self.entries.len(),
                all == self.entries@,
                forall|j: int| 0 <= j < i ==> (#[trigger] all[j]).0@ != key@,
                entry_of(all.skip(i as int), key@) == entry_of(all, key@),
            decreases self.entries.len() - i,
        {
            assert(all.skip(i as int)[0] == all[i as int]);
            if same_source(&self.entries[i].0, key) {
                return Some(i);
            }
            assert(all.skip(i as int).skip(1) =~= all.skip(i + 1));
            i = i + 1;
        }
        None
    }

    /// Puts a credential in the place of what is held for a source.
    fn put(&mut self, key: &SourceKey, credential: Resolved)
        ensures
            final(self).replaces(*old(self), key@, credential@),
    {
        let ghost before = self.entries@;
        match self.place(key) {
            Some(at) => {
                let own: SourceKey = key.clone();
                proof {
                    assert forall|other: (Seq<char>, Seq<char>, Seq<char>, Seq<char>)| #[trigger]
                        entry_of(before.update(at as int, (own, credential)), other) == if other
                        == key@ {
                        Some(credential@)
                    } else {
                        entry_of(before, other)
                    } by {
                        entry_after_update(before, at as int, own, credential, other);
                    }
                }
                self.entries.set(at, (own, credential));
                assert(self.entries@ == before.update(at as int, (own, credential)));
                assert(self.held(key@) == Some(credential@));
            },
            None => {
                let own: SourceKey = key.clone();
                proof {
                    assert forall|other: (Seq<char>, Seq<char>, Seq<char>, Seq<char>)| #[trigger]
                        entry_of(before.push((own, credential)), other) == if other == key@ {
                        Some(credential@)
                    } else {
                        entry_of(before, other)
                    } by {
                        entry_after_push(before, own, credential, other);
                    }
                }
                self.entries.push((own, credential));
                assert(self.held(key@) == Some(credential@));
            },
        }
    }

    /// The credential for `key`, running `resolve` to acquire or refresh one when it must.
    ///
    /// A credential that is held and not within the early-refresh margin of its expiry is returned
    /// as it is, and `resolve` is not run: it need not even be one that can be. Otherwise `resolve`
    /// runs once, and what it returned is what is held from then on; a run that fails leaves the
    /// entry as it was.
    ///
    /// # Errors
    ///
    /// Whatever `resolve` returned, unchanged.
    pub fn resolve<F: FnOnce() -> Result<Resolved, WireError>>(
        &mut self,
        key: &SourceKey,
        now: ObservedAt,
        resolve: F,
    ) -> (r: Result<Resolved, WireError>)
        requires
            !usable(old(self).held(key@), now.unix_millis as int) ==> call_requires(resolve, ()),
        ensures
            usable(old(self).held(key@), now.unix_millis as int) ==> {
                &&& r matches Ok(credential) && Some(credential@) == old(self).held(key@)
                &&& final(self).holds_as(*old(self))
            },
            !usable(old(self).held(key@), now.unix_millis as int) ==> {
                &&& call_ensures(resolve, (), r)
                &&& match r {
                    Ok(credential) => final(self).replaces(*old(self), key@, credential@),
                    Err(_) => final(self).holds_as(*old(self)),
                }
            },
    {
        if let Some(at) = self.place(key) {
            if !self.entries[at].1.is_expiring(now) {
                return Ok(self.entries[at].1.clone());
            }
        }
        match resolve() {
            Ok(fresh) => {
                self.put(key, fresh.clone());
                Ok(fresh)
            },
            Err(error) => Err(error),
        }
    }

    /// Forces a fresh acquisition for `key`, whatever is held.
    ///
    /// The API server refused the credential this provider believed was good, so it is resolved
    /// again rather than reused, and the result replaces what was held.
    ///
    /// # Errors
    ///
    /// Whatever `resolve` returned, unchanged.
    pub fn refresh<F: FnOnce() -> Result<Resolved, WireError>>(
        &mut self,
        key: &SourceKey,
        resolve: F,
    ) -> (r: Result<Resolved, WireError>)
        requires
            call_requires(resolve, ()),
        ensures
            call_ensures(resolve, (), r),
            match r {
                Ok(credential) => final(self).replaces(*old(self), key@, credential@),
                Err(_) => final(self).holds_as(*old(self)),
            },
    {
        match resolve() {
            Ok(fresh) => {
                self.put(key, fresh.clone());
                Ok(fresh)
            },
            Err(error) => Err(error),
        }
    }
}

impl Default for CredentialStore {
    fn default() -> (r: CredentialStore)
        ensures
            forall|key: (Seq<char>, Seq<char>, Seq<char>, Seq<char>)| #[trigger]
                r.held(key) is None,
    {
        CredentialStore::new()
    }
}

// --- laws -----------------------------------------------------------------------------------------

/// What may no longer be used may not be used later either.
pub proof fn expiry_is_final(held: Option<ResolvedView>, now: int, later: int)
    requires
        now <= later,
        usable(held, later),
    ensures
        usable(held, now),
{
}

/// A credential is never used at or within the margin before the expiry it states, and always used
/// before that.
pub proof fn the_margin_is_kept(credential: ResolvedView, expires: u64, now: int)
    requires
        credential.expires_at == Some(expires),
    ensures
        usable(Some(credential), now) <==> now + EARLY_REFRESH_MARGIN_MILLIS < expires,
{
}

/// A credential that states no expiry is used whenever it is asked for.
pub proof fn no_expiry_is_never_reached(credential: ResolvedView, now: int)
    requires
        credential.expires_at is None,
    ensures
        usable(Some(credential), now),
{
}

/// Two sources are two credentials: replacing that of one leaves that of the other.
pub proof fn sources_are_kept_apart(
    before: CredentialStore,
    after: CredentialStore,
    a: SourceKey,
    b: SourceKey,
    credential: ResolvedView,
)
    requires
        a@ != b@,
        after.replaces(before, a@, credential),
    ensures
        after.held(a@) == Some(credential),
        after.held(b@) == before.held(b@),
{
}

}
