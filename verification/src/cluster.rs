//! Which cluster this is, whether it can be reached, who this session is to it, and what could not
//! be determined.
//!
//! Nothing that is not learnt is an error: a cluster that refuses every question still gets a
//! record, which says field by field what it could not determine. A cluster that does not answer is
//! an answer. Unknown is null and never a default.

use vstd::prelude::*;
use vstd::string::*;
use vstd::utf8::*;

use crate::audit::{text_json, text_member};
use crate::calendar::instant_text;
use crate::coverage::Outcome;
use crate::digits::{decimal, number};
use crate::discovery::{group_version, group_version_of, resource_of, Discovery, Resource, Verb};
use crate::document::{in_order, is_document, parsed_bytes, read_document_bytes, render, rendered};
use crate::emission::RECORD_REFUSED_HELP;
use crate::failure::{failure, refusal, Class, WireError};
use crate::json::{group_json, member_views, text_of, Json, JsonView};
use crate::kubeconfig::DENIED;
use crate::order::before;
use crate::pointer::at;
use crate::records::{answered, build, instant, Provenance, Record, Source};
use crate::schemas::Field;
use crate::text::{behind, copied, decode, fill1, fill2, filled, past, same, text_view, views};
use crate::value::{
    entry_views, insert, optional, put, string, text_value, texts, texts_value, FieldValue,
    ValueView,
};

verus! {

/// The group that serves the review of one's own identity.
pub const AUTHENTICATION_GROUP: &'static str = "authentication.k8s.io";

/// The group that serves the review of one's own access.
pub const AUTHORIZATION_GROUP: &'static str = "authorization.k8s.io";

/// The kind of the review of one's own identity.
pub const IDENTITY_KIND: &'static str = "SelfSubjectReview";

/// The namespace whose identifier is evidence of which cluster this is.
pub const KUBE_SYSTEM: &'static str = "kube-system";

/// The kind of a namespace.
pub const NAMESPACE_KIND: &'static str = "Namespace";

// --- what is known --------------------------------------------------------------------------------

/// Something that was obtained, or why it was not.
#[derive(Debug, PartialEq, Eq)]
pub enum Known<T> {
    Obtained(T),
    Unavailable(Outcome),
}

impl<T: View> View for Known<T> {
    type V = Known<T::V>;

    open spec fn view(&self) -> Known<T::V> {
        match self {
            Known::Obtained(value) => Known::Obtained(value@),
            Known::Unavailable(outcome) => Known::Unavailable(*outcome),
        }
    }
}

/// What was obtained, where anything was.
pub open spec fn obtained<T>(known: Known<T>) -> Option<T> {
    match known {
        Known::Obtained(value) => Some(value),
        Known::Unavailable(_) => None,
    }
}

/// What is known where a reading came to something or failed.
pub open spec fn learnt<T>(read: Option<T>) -> Known<T> {
    match read {
        Some(value) => Known::Obtained(value),
        None => Known::Unavailable(Outcome::RequestFailed),
    }
}

// --- what the host says ---------------------------------------------------------------------------

/// The host's answer about one capability.
#[derive(Debug, Clone, Copy, PartialEq, Eq, Structural)]
pub enum Check {
    Granted,
    Denied,
    /// It would need a prompt.
    Ask,
    Unknown,
}

/// Whether a grant is held.
#[derive(Debug, Clone, Copy, PartialEq, Eq, Structural)]
pub enum Grant {
    Held,
    Withheld,
    Undetermined,
}

/// What the host says about one grant, without prompting for it: what would need a prompt is not
/// held now, and a host that cannot say has not denied anything.
pub open spec fn grant_of(answer: Option<Check>) -> Grant {
    match answer {
        Some(Check::Granted) => Grant::Held,
        Some(Check::Denied) | Some(Check::Ask) => Grant::Withheld,
        Some(Check::Unknown) | None => Grant::Undetermined,
    }
}

/// What the host says about one grant; no answer where the host refused the question.
pub fn local_grant(answer: Option<Check>) -> (r: Grant)
    ensures
        r == grant_of(answer),
{
    match answer {
        Some(Check::Granted) => Grant::Held,
        Some(Check::Denied) | Some(Check::Ask) => Grant::Withheld,
        Some(Check::Unknown) | None => Grant::Undetermined,
    }
}

// --- how the session is protected -----------------------------------------------------------------

/// What protects a session.
#[derive(Debug, Clone, Copy, PartialEq, Eq, Structural)]
pub enum Posture {
    /// Nothing at all.
    Plain,
    InsecureSkipVerify,
    Verified,
}

/// What protects a session: nothing without TLS, and a TLS session that verifies no certificate is
/// said to be one.
pub fn posture(verifies_certificates: Option<bool>) -> (r: Posture)
    ensures
        r == match verifies_certificates {
            None => Posture::Plain,
            Some(verifies) => if verifies {
                Posture::Verified
            } else {
                Posture::InsecureSkipVerify
            },
        },
{
    match verifies_certificates {
        None => Posture::Plain,
        Some(verifies) => if verifies {
            Posture::Verified
        } else {
            Posture::InsecureSkipVerify
        },
    }
}

/// The scheme of the API server's origin.
pub fn scheme(tls: bool) -> (r: &'static str)
    ensures
        r@ == if tls {
            "https"@
        } else {
            "http"@
        },
{
    if tls {
        "https"
    } else {
        "http"
    }
}

/// The signals a cluster is recognised by.
#[derive(Debug, PartialEq, Eq)]
pub struct Fingerprint {
    /// Where it is asked, which is configuration.
    pub origin: Known<String>,
    pub server_public_key: Known<String>,
    pub kube_system_uid: Known<String>,
}

/// The fingerprint of a cluster: the origin is always there, and nobody asks for the server's key.
pub fn fingerprint(origin: &str, kube_system_uid: Known<String>) -> (r: Fingerprint)
    ensures
        r.origin@ == Known::Obtained(origin@),
        r.server_public_key@ == Known::<Seq<char>>::Unavailable(Outcome::NotQueried),
        r.kube_system_uid@ == kube_system_uid@,
{
    Fingerprint {
        origin: Known::Obtained(origin.to_owned()),
        server_public_key: Known::Unavailable(Outcome::NotQueried),
        kube_system_uid,
    }
}

// --- asking ---------------------------------------------------------------------------------------

/// What came back from one request.
#[derive(Debug, PartialEq, Eq)]
pub enum Reply {
    Nothing,
    Response {
        status: u16,
        body: Vec<u8>,
    },
}

/// How one request ended, before a caller decides what that means.
#[derive(Debug, PartialEq, Eq)]
pub enum Answer {
    /// A success, and what it carried.
    Body(Vec<u8>),
    /// The server refused, with this status.
    Refused(u16),
    /// Nothing came back.
    Unreachable,
}

/// How one request ended, before a caller decides what that means.
pub enum AnswerView {
    Body(Seq<u8>),
    Refused(int),
    Unreachable,
}

impl View for Answer {
    type V = AnswerView;

    open spec fn view(&self) -> AnswerView {
        match self {
            Answer::Body(body) => AnswerView::Body(body@),
            Answer::Refused(status) => AnswerView::Refused(*status as int),
            Answer::Unreachable => AnswerView::Unreachable,
        }
    }
}

/// What a probe came to.
#[derive(Debug, Clone, Copy, PartialEq, Eq, Structural)]
pub enum ProbeStatus {
    Answered(u16),
    DidNotAnswer(Outcome),
}

/// One request this session made, and what came of it.
#[derive(Debug, PartialEq, Eq)]
pub struct Probe {
    pub source: String,
    pub status: ProbeStatus,
    /// How long the answer took, in milliseconds.
    pub latency: Option<u128>,
}

/// One request, and what came of it.
pub struct ProbeView {
    pub source: Seq<char>,
    pub status: ProbeStatus,
    pub latency: Option<u128>,
}

impl View for Probe {
    type V = ProbeView;

    open spec fn view(&self) -> ProbeView {
        ProbeView { source: self.source@, status: self.status, latency: self.latency }
    }
}

/// Every request of a diagnostic, in the order they were made.
#[derive(Debug, PartialEq, Eq)]
pub struct Health {
    pub probes: Vec<Probe>,
}

impl View for Health {
    type V = Seq<ProbeView>;

    open spec fn view(&self) -> Seq<ProbeView> {
        self.probes@.map_values(|probe: Probe| probe@)
    }
}

/// One request as the probe it is, whatever came of it.
pub open spec fn probed(method: Seq<char>, path: Seq<char>, reply: Reply, latency: u128) -> ProbeView {
    ProbeView {
        source: filled(PROBE@, seq![method, path]),
        status: probe_of(reply),
        latency: Some(latency),
    }
}

/// How one request ended.
pub open spec fn answer_of(reply: Reply) -> AnswerView {
    match reply {
        Reply::Nothing => AnswerView::Unreachable,
        Reply::Response { status, body } => if 200 <= status < 300 {
            AnswerView::Body(body@)
        } else {
            AnswerView::Refused(status as int)
        },
    }
}

/// What the probe of one request says.
pub open spec fn probe_of(reply: Reply) -> ProbeStatus {
    match reply {
        Reply::Nothing => ProbeStatus::DidNotAnswer(Outcome::Disconnected),
        Reply::Response { status, .. } => ProbeStatus::Answered(status),
    }
}

pub const PROBE: &'static str = "{} {}";

impl Health {
    /// No request made yet.
    pub fn new() -> (r: Health)
        ensures
            r@ == Seq::<ProbeView>::empty(),
    {
        let none: Health = Health { probes: Vec::new() };
        assert(none@ =~= Seq::<ProbeView>::empty());
        none
    }

    /// Records one request as a probe, whatever came of it, and hands back how it ended.
    pub fn asked(&mut self, method: &str, path: &str, reply: Reply, latency: u128) -> (r: Answer)
        ensures
            r@ == answer_of(reply),
            final(self)@ == old(self)@.push(probed(method@, path@, reply, latency)),
    {
        let source: String = fill2(PROBE, method, path);
        let (status, answer): (ProbeStatus, Answer) = match reply {
            Reply::Nothing => (
                ProbeStatus::DidNotAnswer(Outcome::Disconnected),
                Answer::Unreachable,
            ),
            Reply::Response { status, body } => if 200 <= status && status < 300 {
                (ProbeStatus::Answered(status), Answer::Body(body))
            } else {
                (ProbeStatus::Answered(status), Answer::Refused(status))
            },
        };
        self.probes.push(Probe { source, status, latency: Some(latency) });
        assert(self@ =~= old(self)@.push(probed(method@, path@, reply, latency)));
        answer
    }
}

/// The text of an answer that carried one.
pub open spec fn text_of_answer(answer: AnswerView) -> Option<Seq<char>> {
    match answer {
        AnswerView::Body(body) => if valid_utf8(body) {
            Some(decode_utf8(body))
        } else {
            None
        },
        _ => None,
    }
}

/// The text of an answer that carried one.
pub fn text(answer: Answer) -> (r: Option<String>)
    ensures
        text_view(r) == text_of_answer(answer@),
{
    match answer {
        Answer::Body(body) => match decode(body) {
            Ok(text) => Some(text),
            Err(_) => None,
        },
        _ => None,
    }
}

/// What a refused request means for the thing it was asking about.
pub open spec fn refused_as(status: int) -> Outcome {
    if status == 401 || status == 403 {
        Outcome::ReadDenied
    } else if status == 404 {
        Outcome::TypeNotServed
    } else {
        Outcome::RequestFailed
    }
}

/// What a refused request means for the thing it was asking about.
pub fn refused(status: u16) -> (r: Outcome)
    ensures
        r == refused_as(status as int),
{
    if status == 401 || status == 403 {
        Outcome::ReadDenied
    } else if status == 404 {
        Outcome::TypeNotServed
    } else {
        Outcome::RequestFailed
    }
}

/// What is known after a question: what the answer reads as, or what the refusal means.
pub open spec fn told<T>(answer: AnswerView, read: Option<T>) -> Known<T> {
    match answer {
        AnswerView::Body(_) => learnt(read),
        AnswerView::Refused(status) => Known::Unavailable(refused_as(status)),
        AnswerView::Unreachable => Known::Unavailable(Outcome::Disconnected),
    }
}

/// The server's version, where it told it and it read as one.
pub fn server_version(answer: &Answer, read: Option<String>) -> (r: Known<String>)
    ensures
        r@ == told(answer@, text_view(read)),
{
    match answer {
        Answer::Body(_) => match read {
            Some(version) => Known::Obtained(version),
            None => Known::Unavailable(Outcome::RequestFailed),
        },
        Answer::Refused(status) => Known::Unavailable(refused(*status)),
        Answer::Unreachable => Known::Unavailable(Outcome::Disconnected),
    }
}

// --- which cluster --------------------------------------------------------------------------------

/// The collection the `kube-system` namespace is read from, or why its identifier stays unknown.
pub open spec fn namespace_collection(core: Discovery, version: Seq<char>) -> Result<
    Resource,
    Outcome,
> {
    match resource_of(core.resources@, version, NAMESPACE_KIND@) {
        None => Err(Outcome::TypeNotServed),
        Some(resource) => if resource.offers(Verb::Get) {
            Ok(resource)
        } else {
            Err(Outcome::TypeNotServed)
        },
    }
}

/// The collection the `kube-system` namespace is read from, among those of the core group.
///
/// # Errors
///
/// Why its identifier stays unknown.
pub fn namespace_resource<'a>(core: &'a Discovery, version: &str) -> (r: Result<
    &'a Resource,
    Outcome,
>)
    ensures
        match r {
            Ok(resource) => namespace_collection(*core, version@) == Ok::<Resource, Outcome>(
                *resource,
            ),
            Err(outcome) => namespace_collection(*core, version@) == Err::<Resource, Outcome>(
                outcome,
            ),
        },
{
    match core.by_kind(version, NAMESPACE_KIND) {
        None => Err(Outcome::TypeNotServed),
        Some(resource) => if resource.supports(Verb::Get) {
            Ok(resource)
        } else {
            Err(Outcome::TypeNotServed)
        },
    }
}

/// The identifier a namespace document states.
pub open spec fn uid_in(body: Seq<u8>) -> Option<Seq<char>> {
    match parsed_bytes(body) {
        Ok(document) => text_of(at(document, "/metadata/uid"@)),
        Err(_) => None,
    }
}

/// What is known of the `kube-system` namespace: that it is not there is a fact about the cluster,
/// where a document that is not there is a fact about its API surface.
pub open spec fn kube_system_told(answer: AnswerView) -> Known<Seq<char>> {
    match answer {
        AnswerView::Body(body) => learnt(uid_in(body)),
        AnswerView::Refused(status) => if status == 404 {
            Known::Unavailable(Outcome::NamespaceAbsent)
        } else {
            Known::Unavailable(refused_as(status))
        },
        AnswerView::Unreachable => Known::Unavailable(Outcome::Disconnected),
    }
}

/// The identifier of the `kube-system` namespace, from the answer to the read of it.
pub fn kube_system_uid(answer: &Answer) -> (r: Known<String>)
    ensures
        r@ == kube_system_told(answer@),
{
    match answer {
        Answer::Body(body) => {
            let document: Json = match read_document_bytes(body.as_slice()) {
                Ok(document) => document,
                Err(_) => {
                    return Known::Unavailable(Outcome::RequestFailed);
                },
            };
            let uid: Option<&str> = match document.field("/metadata/uid") {
                Some(json) => json.as_str(),
                None => None,
            };
            match uid {
                Some(uid) => Known::Obtained(uid.to_owned()),
                None => Known::Unavailable(Outcome::RequestFailed),
            }
        },
        Answer::Refused(status) => if *status == 404 {
            Known::Unavailable(Outcome::NamespaceAbsent)
        } else {
            Known::Unavailable(refused(*status))
        },
        Answer::Unreachable => Known::Unavailable(Outcome::Disconnected),
    }
}

// --- who this session is --------------------------------------------------------------------------

/// Who the API server says a request comes from.
#[derive(Debug, PartialEq, Eq)]
pub struct Subject {
    pub username: String,
    pub uid: Option<String>,
    pub groups: Vec<String>,
}

/// Who the API server says a request comes from.
pub struct SubjectView {
    pub username: Seq<char>,
    pub uid: Option<Seq<char>>,
    pub groups: Seq<Seq<char>>,
}

impl View for Subject {
    type V = SubjectView;

    open spec fn view(&self) -> SubjectView {
        SubjectView {
            username: self.username@,
            uid: text_view(self.uid),
            groups: views(self.groups@),
        }
    }
}

impl Clone for Subject {
    fn clone(&self) -> (r: Subject)
        ensures
            r@ == self@,
    {
        let uid: Option<String> = match &self.uid {
            Some(uid) => Some(uid.clone()),
            None => None,
        };
        Subject { username: self.username.clone(), uid, groups: copied(&self.groups) }
    }
}

/// Who a session authenticates as, and who it acts as.
#[derive(Debug, PartialEq, Eq)]
pub struct Identity {
    pub credential: Known<Subject>,
    pub effective: Known<Subject>,
    /// The user being impersonated, where that is configured.
    pub impersonated: Option<String>,
}

/// The identity of a session that impersonates nobody: one review answers both questions, and they
/// stay two fields.
pub fn identity(effective: Known<Subject>) -> (r: Identity)
    ensures
        r.credential@ == effective@,
        r.effective@ == effective@,
        r.impersonated is None,
{
    let credential: Known<Subject> = match &effective {
        Known::Obtained(subject) => Known::Obtained(subject.clone()),
        Known::Unavailable(outcome) => Known::Unavailable(*outcome),
    };
    Identity { credential, effective, impersonated: None }
}

/// The group-version that serves the review of one's own identity, where one does.
pub open spec fn identity_served(versions: Discovery) -> Option<Seq<char>> {
    match versions.preferred(AUTHENTICATION_GROUP@) {
        Some(version) => Some(group_version(AUTHENTICATION_GROUP@, version)),
        None => None,
    }
}

/// The group-version that serves the review of one's own identity, where one does.
pub fn identity_version(versions: &Discovery) -> (r: Option<String>)
    ensures
        text_view(r) == identity_served(*versions),
{
    match versions.preferred_version(AUTHENTICATION_GROUP) {
        Some(version) => Some(group_version_of(AUTHENTICATION_GROUP, version)),
        None => None,
    }
}

/// The collection the review is created in, or why it stays unknown who this session is.
pub open spec fn identity_collection(catalogue: Option<Discovery>, version: Seq<char>) -> Result<
    Resource,
    Outcome,
> {
    match catalogue {
        None => Err(Outcome::RequestFailed),
        Some(catalogue) => match resource_of(catalogue.resources@, version, IDENTITY_KIND@) {
            None => Err(Outcome::TypeNotServed),
            Some(resource) => if resource.offers(Verb::Create) {
                Ok(resource)
            } else {
                Err(Outcome::TypeNotServed)
            },
        },
    }
}

/// The collection the review is created in, from the group's resource list; no list where it did
/// not answer or did not read.
///
/// # Errors
///
/// Why it stays unknown who this session is.
pub fn identity_resource<'a>(catalogue: &'a Option<Discovery>, version: &str) -> (r: Result<
    &'a Resource,
    Outcome,
>)
    ensures
        match r {
            Ok(resource) => identity_collection(*catalogue, version@) == Ok::<Resource, Outcome>(
                *resource,
            ),
            Err(outcome) => identity_collection(*catalogue, version@) == Err::<Resource, Outcome>(
                outcome,
            ),
        },
{
    match catalogue {
        None => Err(Outcome::RequestFailed),
        Some(catalogue) => match catalogue.by_kind(version, IDENTITY_KIND) {
            None => Err(Outcome::TypeNotServed),
            Some(resource) => if resource.supports(Verb::Create) {
                Ok(resource)
            } else {
                Err(Outcome::TypeNotServed)
            },
        },
    }
}

/// The review that is created: it names its version and its kind and nothing more.
pub open spec fn review_document(version: Seq<char>) -> JsonView {
    JsonView::Object(
        seq![("apiVersion"@, text_json(version)), ("kind"@, text_json(IDENTITY_KIND@))],
    )
}

/// The body of the request that creates the review.
pub fn review_body(version: &str) -> (r: String)
    ensures
        r@ == rendered(review_document(version@)),
{
    broadcast use group_json;

    let members: Vec<(String, Json)> = vec![
        text_member("apiVersion", version),
        text_member("kind", IDENTITY_KIND),
    ];
    proof {
        assert(member_views(members@) =~= seq![
            ("apiVersion"@, text_json(version@)),
            ("kind"@, text_json(IDENTITY_KIND@)),
        ]);
        reveal_strlit("apiVersion");
        reveal_strlit("kind");
        assert("apiVersion"@[0] == 'a' && "kind"@[0] == 'k');
        assert(before("apiVersion"@, "kind"@));
        let held = seq![("apiVersion"@, text_json(version@)), ("kind"@, text_json(IDENTITY_KIND@))];
        assert(in_order(held));
        assert forall|i: int| 0 <= i < held.len() implies is_document((#[trigger] held[i]).1) by {
            assert(held[i].1 is Text);
        }
        assert(is_document(JsonView::Object(held))) by {
            reveal_with_fuel(is_document, 2);
        }
    }
    render(&Json::Object(members))
}

/// A subject, where there is one.
pub open spec fn subject_view(subject: Option<Subject>) -> Option<SubjectView> {
    match subject {
        Some(subject) => Some(subject@),
        None => None,
    }
}

/// Who the API server says this session's requests come from, where the review read as a subject.
pub fn effective_identity(answer: &Answer, read: Option<Subject>) -> (r: Known<Subject>)
    ensures
        r@ == told(answer@, subject_view(read)),
{
    match answer {
        Answer::Body(_) => match read {
            Some(subject) => Known::Obtained(subject),
            None => Known::Unavailable(Outcome::RequestFailed),
        },
        Answer::Refused(status) => Known::Unavailable(refused(*status)),
        Answer::Unreachable => Known::Unavailable(Outcome::Disconnected),
    }
}

// --- what it can do -------------------------------------------------------------------------------

/// A capability whose presence depends on the session.
#[derive(Debug, Clone, Copy, PartialEq, Eq, Structural)]
pub enum Capability {
    Relationships,
    Watch,
    Mutations,
    RemoteLogs,
    SubjectAccessReview,
}

/// What a session found for a capability.
#[derive(Debug, PartialEq, Eq)]
pub enum Availability {
    /// What the host's grant says.
    Granted(Grant),
    /// What the resources the cluster serves offer, in words.
    Offered(String),
    NotServedByCluster,
    DeniedForCurrentUser,
    NotDetermined(Outcome),
}

/// What a session found for a capability.
pub enum AvailabilityView {
    Granted(Grant),
    Offered(Seq<char>),
    NotServedByCluster,
    DeniedForCurrentUser,
    NotDetermined(Outcome),
}

impl View for Availability {
    type V = AvailabilityView;

    open spec fn view(&self) -> AvailabilityView {
        match self {
            Availability::Granted(grant) => AvailabilityView::Granted(*grant),
            Availability::Offered(words) => AvailabilityView::Offered(words@),
            Availability::NotServedByCluster => AvailabilityView::NotServedByCluster,
            Availability::DeniedForCurrentUser => AvailabilityView::DeniedForCurrentUser,
            Availability::NotDetermined(outcome) => AvailabilityView::NotDetermined(*outcome),
        }
    }
}

/// The group-version whose resource list says whether access can be reviewed, where the cluster
/// serves the group.
pub open spec fn access_served(versions: Discovery) -> Option<Seq<char>> {
    match versions.preferred(AUTHORIZATION_GROUP@) {
        Some(version) => Some(group_version(AUTHORIZATION_GROUP@, version)),
        None => None,
    }
}

/// The group-version whose resource list says whether access can be reviewed.
pub fn access_version(versions: &Discovery) -> (r: Option<String>)
    ensures
        text_view(r) == access_served(*versions),
{
    match versions.preferred_version(AUTHORIZATION_GROUP) {
        Some(version) => Some(group_version_of(AUTHORIZATION_GROUP, version)),
        None => None,
    }
}

/// Whether access can be reviewed: no answer where the group is not served, and otherwise the
/// answer for its resource list with what that list offers, where it read. A denial and a group
/// that is not served are different answers.
pub open spec fn review_available(
    answer: Option<AnswerView>,
    offered: Option<Seq<char>>,
) -> AvailabilityView {
    match answer {
        None => AvailabilityView::NotServedByCluster,
        Some(AnswerView::Body(body)) => match offered {
            Some(words) => if valid_utf8(body) {
                AvailabilityView::Offered(words)
            } else {
                AvailabilityView::NotDetermined(Outcome::RequestFailed)
            },
            None => AvailabilityView::NotDetermined(Outcome::RequestFailed),
        },
        Some(AnswerView::Refused(status)) => if status == 401 || status == 403 {
            AvailabilityView::DeniedForCurrentUser
        } else if status == 404 {
            AvailabilityView::NotServedByCluster
        } else {
            AvailabilityView::NotDetermined(Outcome::RequestFailed)
        },
        Some(AnswerView::Unreachable) => AvailabilityView::NotDetermined(Outcome::Disconnected),
    }
}

/// An answer, where a question was asked.
pub open spec fn answer_view(answer: Option<Answer>) -> Option<AnswerView> {
    match answer {
        Some(answer) => Some(answer@),
        None => None,
    }
}

/// Whether access can be reviewed.
pub fn access_review(answer: Option<Answer>, offered: Option<String>) -> (r: Availability)
    ensures
        r@ == review_available(answer_view(answer), text_view(offered)),
{
    match answer {
        None => Availability::NotServedByCluster,
        Some(Answer::Body(body)) => match (offered, decode(body)) {
            (Some(words), Ok(_)) => Availability::Offered(words),
            _ => Availability::NotDetermined(Outcome::RequestFailed),
        },
        Some(Answer::Refused(status)) => if status == 401 || status == 403 {
            Availability::DeniedForCurrentUser
        } else if status == 404 {
            Availability::NotServedByCluster
        } else {
            Availability::NotDetermined(Outcome::RequestFailed)
        },
        Some(Answer::Unreachable) => Availability::NotDetermined(Outcome::Disconnected),
    }
}

/// What the resource lists of a cluster offer for each capability.
#[derive(Debug, PartialEq, Eq)]
pub struct Offered {
    /// Whether anything can be watched.
    pub watch: String,
    /// Whether anything can be patched or deleted.
    pub mutations: String,
    /// Whether the log of a Pod can be read.
    pub remote_logs: String,
    pub access_review: Availability,
}

/// What is stated of each capability, in the order it is stated.
#[derive(Debug, PartialEq, Eq)]
pub struct Capabilities {
    /// Why everything not stated is undetermined, where there is one reason for all of it.
    pub otherwise: Option<Outcome>,
    pub stated: Vec<(Capability, Availability)>,
}

/// What is stated of each capability.
pub open spec fn stated_views(stated: Seq<(Capability, Availability)>) -> Seq<
    (Capability, AvailabilityView),
> {
    stated.map_values(|pair: (Capability, Availability)| (pair.0, pair.1@))
}

/// What a session found for each capability: the edges from the host's grant, and the rest from
/// what the cluster serves. Where its documents did not read, nothing was determined, which is
/// another answer than not being served.
pub open spec fn capabilities_found(offered: Option<Offered>, relations: Grant) -> Seq<
    (Capability, AvailabilityView),
> {
    let unread = AvailabilityView::NotDetermined(Outcome::RequestFailed);
    let edges = (Capability::Relationships, AvailabilityView::Granted(relations));
    match offered {
        None => seq![
            edges,
            (Capability::Watch, unread),
            (Capability::Mutations, unread),
            (Capability::RemoteLogs, unread),
            (Capability::SubjectAccessReview, unread),
        ],
        Some(offered) => seq![
            edges,
            (Capability::Watch, AvailabilityView::Offered(offered.watch@)),
            (Capability::Mutations, AvailabilityView::Offered(offered.mutations@)),
            (Capability::RemoteLogs, AvailabilityView::Offered(offered.remote_logs@)),
            (Capability::SubjectAccessReview, offered.access_review@),
        ],
    }
}

/// What a session found for each capability.
pub fn capabilities(offered: Option<Offered>, relations: Grant) -> (r: Capabilities)
    ensures
        r.otherwise is None,
        stated_views(r.stated@) == capabilities_found(offered, relations),
{
    let (watch, mutations, remote_logs, review): (
        Availability,
        Availability,
        Availability,
        Availability,
    ) = match offered {
        None => (
            Availability::NotDetermined(Outcome::RequestFailed),
            Availability::NotDetermined(Outcome::RequestFailed),
            Availability::NotDetermined(Outcome::RequestFailed),
            Availability::NotDetermined(Outcome::RequestFailed),
        ),
        Some(offered) => (
            Availability::Offered(offered.watch),
            Availability::Offered(offered.mutations),
            Availability::Offered(offered.remote_logs),
            offered.access_review,
        ),
    };
    let stated: Vec<(Capability, Availability)> = vec![
        (Capability::Relationships, Availability::Granted(relations)),
        (Capability::Watch, watch),
        (Capability::Mutations, mutations),
        (Capability::RemoteLogs, remote_logs),
        (Capability::SubjectAccessReview, review),
    ];
    assert(stated_views(stated@) =~= capabilities_found(offered, relations));
    Capabilities { otherwise: None, stated }
}

// --- a cluster that does not answer ---------------------------------------------------------------

/// Everything one diagnostic learned about a cluster.
#[derive(Debug, PartialEq, Eq)]
pub struct Observed {
    pub version: Known<String>,
    pub health: Health,
    pub fingerprint: Fingerprint,
    pub identity: Identity,
    pub capabilities: Capabilities,
}

pub const CONNECT: &'static str = "connect {}:{}";

pub const HANDSHAKE: &'static str = "TLS handshake";

pub const FAILED_PROBE: &'static str = "{}: {}";

impl Observed {
    /// Whether this is what is known of a cluster nobody could ask: everything it would have
    /// answered is disconnected rather than absent, and the origin and the host's grant are known
    /// all the same.
    pub open spec fn is_unreachable(
        self,
        origin: Seq<char>,
        source: Seq<char>,
        detail: Seq<char>,
        relations: Grant,
    ) -> bool {
        let gone = Outcome::Disconnected;
        &&& self.version@ == Known::<Seq<char>>::Unavailable(gone)
        &&& self.health.probes@.len() == 1
        &&& self.health.probes@[0].source@ == filled(FAILED_PROBE@, seq![source, detail])
        &&& self.health.probes@[0].status == ProbeStatus::DidNotAnswer(gone)
        &&& self.health.probes@[0].latency is None
        &&& self.fingerprint.origin@ == Known::Obtained(origin)
        &&& self.fingerprint.server_public_key@ == Known::<Seq<char>>::Unavailable(
            Outcome::NotQueried,
        )
        &&& self.fingerprint.kube_system_uid@ == Known::<Seq<char>>::Unavailable(gone)
        &&& self.identity.credential@ == Known::<SubjectView>::Unavailable(gone)
        &&& self.identity.effective@ == Known::<SubjectView>::Unavailable(gone)
        &&& self.identity.impersonated is None
        &&& self.capabilities.otherwise == Some(gone)
        &&& stated_views(self.capabilities.stated@) == seq![
            (Capability::Relationships, AvailabilityView::Granted(relations)),
        ]
    }

    /// What is known of a cluster that could not be reached at all.
    pub fn unreachable(origin: &str, source: &str, detail: &str, relations: Grant) -> (r: Observed)
        ensures
            r.is_unreachable(origin@, source@, detail@, relations),
    {
        let probe: Probe = Probe {
            source: fill2(FAILED_PROBE, source, detail),
            status: ProbeStatus::DidNotAnswer(Outcome::Disconnected),
            latency: None,
        };
        let stated: Vec<(Capability, Availability)> = vec![
            (Capability::Relationships, Availability::Granted(relations)),
        ];
        assert(stated_views(stated@) =~= seq![
            (Capability::Relationships, AvailabilityView::Granted(relations)),
        ]);
        Observed {
            version: Known::Unavailable(Outcome::Disconnected),
            health: Health { probes: vec![probe] },
            fingerprint: fingerprint(origin, Known::Unavailable(Outcome::Disconnected)),
            identity: identity(Known::Unavailable(Outcome::Disconnected)),
            capabilities: Capabilities { otherwise: Some(Outcome::Disconnected), stated },
        }
    }

    /// What is known of a cluster the connection to which failed.
    ///
    /// # Errors
    ///
    /// The failure itself where it is a capability the operator did not grant, which says nothing
    /// about a cluster.
    pub fn not_connected(
        error: WireError,
        host: &str,
        port: u16,
        origin: &str,
        relations: Grant,
    ) -> (r: Result<Observed, WireError>)
        ensures
            match r {
                Ok(observed) => error@.name != DENIED@ && observed.is_unreachable(
                    origin@,
                    filled(CONNECT@, seq![host@, decimal(port as nat)]),
                    error@.message,
                    relations,
                ),
                Err(same) => error@.name == DENIED@ && same@ == error@,
            },
    {
        if same(error.name.as_str(), DENIED) {
            return Err(error);
        }
        let source: String = fill2(CONNECT, host, number(port as u128).as_str());
        Ok(Observed::unreachable(origin, source.as_str(), error.message.as_str(), relations))
    }
}

// --- the record -----------------------------------------------------------------------------------

/// One probe, as a record shows it.
#[derive(Debug, PartialEq, Eq)]
pub struct ProbeRow {
    pub source: String,
    /// What it came to, in words.
    pub status: String,
    /// How long the answer took, in milliseconds.
    pub latency: Option<u128>,
}

/// What a discovery pass says about itself.
#[derive(Debug, PartialEq, Eq)]
pub struct Snapshot {
    pub provider_instance: String,
    pub observed_at: u64,
    pub api_server: String,
    pub complete: bool,
    /// What it covered, in words.
    pub coverage: String,
    pub mechanism: String,
    pub endpoints: Vec<String>,
}

/// Everything the diagnostic record says.
#[derive(Debug, PartialEq, Eq)]
pub struct Diagnostic {
    pub instance: String,
    pub fingerprint: Fingerprint,
    /// The digest of the signals, where any was obtained.
    pub digest: Option<String>,
    /// The words of the signals that were obtained.
    pub signals: Vec<String>,
    pub reachable: bool,
    pub version: Known<String>,
    /// The word of the posture.
    pub tls: String,
    pub probes: Vec<ProbeRow>,
    pub identity: Identity,
    /// Each capability, and what is found of it in words.
    pub capabilities: Vec<(String, String)>,
    pub discovery: Option<Snapshot>,
    /// Each thing that could not be determined, in words.
    pub unknowns: Vec<String>,
}

pub const INSTANCE_PREFIX: &'static str = "kubernetes:";

pub const COMPLETE: &'static str = "complete";

/// The name of a provider instance: what stands behind the provider's own word.
pub open spec fn instance_name(instance: Seq<char>) -> Seq<char> {
    match past(instance, INSTANCE_PREFIX@) {
        Some(name) => name,
        None => instance,
    }
}

/// One signal as a field: its value, or null where it was not obtained, and never the reason.
pub open spec fn signal_value(signal: Known<Seq<char>>) -> ValueView {
    text_value(obtained(signal))
}

/// One signal as a field.
pub fn signal(known: &Known<String>) -> (r: FieldValue)
    ensures
        r@ == signal_value(known@),
{
    match known {
        Known::Obtained(value) => string(value.as_str()),
        Known::Unavailable(_) => FieldValue::Null,
    }
}

/// How long a probe took, as a number the value model holds.
pub open spec fn latency_value(millis: u128) -> ValueView {
    ValueView::Int(
        if millis <= i128::MAX {
            millis as int
        } else {
            i128::MAX as int
        },
    )
}

/// Each probe by its source, with what it came to.
pub open spec fn probe_entries(probes: Seq<ProbeRow>) -> Seq<(Seq<char>, ValueView)>
    decreases probes.len(),
{
    if probes.len() == 0 {
        Seq::empty()
    } else {
        put(
            probe_entries(probes.drop_last()),
            probes.last().source@,
            ValueView::Text(probes.last().status@),
        )
    }
}

/// Each probe that was timed by its source, with how long it took.
pub open spec fn latency_entries(probes: Seq<ProbeRow>) -> Seq<(Seq<char>, ValueView)>
    decreases probes.len(),
{
    if probes.len() == 0 {
        Seq::empty()
    } else {
        match probes.last().latency {
            Some(millis) => put(
                latency_entries(probes.drop_last()),
                probes.last().source@,
                latency_value(millis),
            ),
            None => latency_entries(probes.drop_last()),
        }
    }
}

/// Each capability by its name.
pub open spec fn capability_entries(capabilities: Seq<(String, String)>) -> Seq<
    (Seq<char>, ValueView),
>
    decreases capabilities.len(),
{
    if capabilities.len() == 0 {
        Seq::empty()
    } else {
        put(
            capability_entries(capabilities.drop_last()),
            capabilities.last().0@,
            ValueView::Text(capabilities.last().1@),
        )
    }
}

/// What a discovery pass says about itself, as a value.
pub open spec fn snapshot_value(snapshot: Snapshot) -> ValueView {
    ValueView::Entries(
        seq![
            ("provider_instance"@, ValueView::Text(snapshot.provider_instance@)),
            ("observed_at"@, ValueView::Instant(instant_text(snapshot.observed_at as nat))),
            ("api_server"@, ValueView::Text(snapshot.api_server@)),
            (
                "coverage"@,
                ValueView::Text(
                    if snapshot.complete {
                        COMPLETE@
                    } else {
                        snapshot.coverage@
                    },
                ),
            ),
            ("mechanism"@, ValueView::Text(snapshot.mechanism@)),
            ("endpoints"@, texts_value(views(snapshot.endpoints@))),
        ],
    )
}

fn probes_shown(probes: &Vec<ProbeRow>) -> (r: FieldValue)
    ensures
        r@ == ValueView::Entries(probe_entries(probes@)),
{
    let mut out: Vec<(String, FieldValue)> = Vec::new();
    let mut i: usize = 0;
    assert(entry_views(out@) =~= probe_entries(probes@.take(0)));
    while i < probes.len()
        invariant
            i <= probes.len(),
            entry_views(out@) == probe_entries(probes@.take(i as int)),
        decreases probes.len() - i,
    {
        assert(probes@.take(i + 1).drop_last() =~= probes@.take(i as int));
        insert(&mut out, probes[i].source.clone(), string(probes[i].status.as_str()));
        i = i + 1;
    }
    assert(probes@.take(i as int) =~= probes@);
    FieldValue::Entries(out)
}

fn latencies_shown(probes: &Vec<ProbeRow>) -> (r: FieldValue)
    ensures
        r@ == ValueView::Entries(latency_entries(probes@)),
{
    let mut out: Vec<(String, FieldValue)> = Vec::new();
    let mut i: usize = 0;
    assert(entry_views(out@) =~= latency_entries(probes@.take(0)));
    while i < probes.len()
        invariant
            i <= probes.len(),
            entry_views(out@) == latency_entries(probes@.take(i as int)),
        decreases probes.len() - i,
    {
        assert(probes@.take(i + 1).drop_last() =~= probes@.take(i as int));
        if let Some(millis) = probes[i].latency {
            let held: i128 = if millis <= i128::MAX as u128 {
                millis as i128
            } else {
                i128::MAX
            };
            insert(&mut out, probes[i].source.clone(), FieldValue::Int(held));
        }
        i = i + 1;
    }
    assert(probes@.take(i as int) =~= probes@);
    FieldValue::Entries(out)
}

fn capabilities_shown(capabilities: &Vec<(String, String)>) -> (r: FieldValue)
    ensures
        r@ == ValueView::Entries(capability_entries(capabilities@)),
{
    let mut out: Vec<(String, FieldValue)> = Vec::new();
    let mut i: usize = 0;
    assert(entry_views(out@) =~= capability_entries(capabilities@.take(0)));
    while i < capabilities.len()
        invariant
            i <= capabilities.len(),
            entry_views(out@) == capability_entries(capabilities@.take(i as int)),
        decreases capabilities.len() - i,
    {
        assert(capabilities@.take(i + 1).drop_last() =~= capabilities@.take(i as int));
        insert(&mut out, capabilities[i].0.clone(), string(capabilities[i].1.as_str()));
        i = i + 1;
    }
    assert(capabilities@.take(i as int) =~= capabilities@);
    FieldValue::Entries(out)
}

fn snapshot_shown(snapshot: &Snapshot) -> (r: FieldValue)
    ensures
        r@ == snapshot_value(*snapshot),
{
    let coverage: &str = if snapshot.complete {
        COMPLETE
    } else {
        snapshot.coverage.as_str()
    };
    let entries: Vec<(String, FieldValue)> = vec![
        ("provider_instance".to_owned(), string(snapshot.provider_instance.as_str())),
        ("observed_at".to_owned(), instant(snapshot.observed_at)),
        ("api_server".to_owned(), string(snapshot.api_server.as_str())),
        ("coverage".to_owned(), string(coverage)),
        ("mechanism".to_owned(), string(snapshot.mechanism.as_str())),
        ("endpoints".to_owned(), texts(&snapshot.endpoints)),
    ];
    assert(entry_views(entries@) =~= snapshot_value(*snapshot)->Entries_0);
    FieldValue::Entries(entries)
}

impl Source for Diagnostic {
    open spec fn answers(&self, name: Seq<char>) -> bool {
        true
    }

    open spec fn value_of(&self, name: Seq<char>) -> ValueView {
        if name == "uid"@ {
            ValueView::Text(self.instance@)
        } else if name == "name"@ {
            ValueView::Text(instance_name(self.instance@))
        } else if name == "server"@ {
            signal_value(self.fingerprint.origin@)
        } else if name == "server_key_fingerprint"@ {
            signal_value(self.fingerprint.server_public_key@)
        } else if name == "kube_system_uid"@ {
            signal_value(self.fingerprint.kube_system_uid@)
        } else if name == "fingerprint"@ {
            text_value(text_view(self.digest))
        } else if name == "fingerprint_signals"@ {
            texts_value(views(self.signals@))
        } else if name == "reachable"@ {
            ValueView::Bool(self.reachable)
        } else if name == "server_version"@ {
            signal_value(self.version@)
        } else if name == "tls"@ {
            ValueView::Text(self.tls@)
        } else if name == "probes"@ {
            ValueView::Entries(probe_entries(self.probes@))
        } else if name == "latency_ms"@ {
            ValueView::Entries(latency_entries(self.probes@))
        } else if name == "credential_identity"@ {
            match self.identity.credential {
                Known::Obtained(subject) => ValueView::Text(subject.username@),
                Known::Unavailable(_) => ValueView::Null,
            }
        } else if name == "effective_identity"@ {
            match self.identity.effective {
                Known::Obtained(subject) => ValueView::Text(subject.username@),
                Known::Unavailable(_) => ValueView::Null,
            }
        } else if name == "effective_uid"@ {
            match self.identity.effective {
                Known::Obtained(subject) => text_value(text_view(subject.uid)),
                Known::Unavailable(_) => ValueView::Null,
            }
        } else if name == "effective_groups"@ {
            match self.identity.effective {
                Known::Obtained(subject) => texts_value(views(subject.groups@)),
                Known::Unavailable(_) => ValueView::Null,
            }
        } else if name == "impersonating"@ {
            ValueView::Bool(self.identity.impersonated is Some)
        } else if name == "impersonated_user"@ {
            text_value(text_view(self.identity.impersonated))
        } else if name == "capabilities"@ {
            ValueView::Entries(capability_entries(self.capabilities@))
        } else if name == "discovery"@ {
            match self.discovery {
                Some(snapshot) => snapshot_value(snapshot),
                None => ValueView::Null,
            }
        } else if name == "unknowns"@ {
            texts_value(views(self.unknowns@))
        } else {
            ValueView::Null
        }
    }

    fn value(&self, name: &str) -> (r: FieldValue) {
        if same(name, "uid") {
            string(self.instance.as_str())
        } else if same(name, "name") {
            match behind(self.instance.as_str(), INSTANCE_PREFIX) {
                Some(name) => string(name.as_str()),
                None => string(self.instance.as_str()),
            }
        } else if same(name, "server") {
            signal(&self.fingerprint.origin)
        } else if same(name, "server_key_fingerprint") {
            signal(&self.fingerprint.server_public_key)
        } else if same(name, "kube_system_uid") {
            signal(&self.fingerprint.kube_system_uid)
        } else if same(name, "fingerprint") {
            optional(&self.digest)
        } else if same(name, "fingerprint_signals") {
            texts(&self.signals)
        } else if same(name, "reachable") {
            FieldValue::Bool(self.reachable)
        } else if same(name, "server_version") {
            signal(&self.version)
        } else if same(name, "tls") {
            string(self.tls.as_str())
        } else if same(name, "probes") {
            probes_shown(&self.probes)
        } else if same(name, "latency_ms") {
            latencies_shown(&self.probes)
        } else if same(name, "credential_identity") {
            match &self.identity.credential {
                Known::Obtained(subject) => string(subject.username.as_str()),
                Known::Unavailable(_) => FieldValue::Null,
            }
        } else if same(name, "effective_identity") {
            match &self.identity.effective {
                Known::Obtained(subject) => string(subject.username.as_str()),
                Known::Unavailable(_) => FieldValue::Null,
            }
        } else if same(name, "effective_uid") {
            match &self.identity.effective {
                Known::Obtained(subject) => optional(&subject.uid),
                Known::Unavailable(_) => FieldValue::Null,
            }
        } else if same(name, "effective_groups") {
            match &self.identity.effective {
                Known::Obtained(subject) => texts(&subject.groups),
                Known::Unavailable(_) => FieldValue::Null,
            }
        } else if same(name, "impersonating") {
            FieldValue::Bool(self.identity.impersonated.is_some())
        } else if same(name, "impersonated_user") {
            optional(&self.identity.impersonated)
        } else if same(name, "capabilities") {
            capabilities_shown(&self.capabilities)
        } else if same(name, "discovery") {
            match &self.discovery {
                Some(snapshot) => snapshot_shown(snapshot),
                None => FieldValue::Null,
            }
        } else if same(name, "unknowns") {
            texts(&self.unknowns)
        } else {
            FieldValue::Null
        }
    }
}

/// The diagnostic as a record of its schema.
pub fn cluster_record(fields: &Vec<Field>, schema: &str, diagnostic: &Diagnostic) -> (r: Record)
    ensures
        r.provenance.is_local(schema@),
        entry_views(r.fields@) == answered(fields@, *diagnostic),
{
    Record { provenance: Provenance::local(schema), fields: build(fields, diagnostic) }
}

pub const DIAGNOSTIC_REFUSED: &'static str = "the host refused the diagnostic: {}";

/// A diagnostic the host would not take.
pub fn diagnostic_refused(error: &str) -> (r: WireError)
    ensures
        r@ == refusal(
            Class::Unavailable,
            filled(DIAGNOSTIC_REFUSED@, seq![error@]),
            RECORD_REFUSED_HELP@,
        ),
{
    failure(Class::Unavailable, fill1(DIAGNOSTIC_REFUSED, error), RECORD_REFUSED_HELP)
}

// --- laws -----------------------------------------------------------------------------------------

/// Unknown is null: a signal that was not obtained shows as nothing, whatever the reason, and one
/// that was obtained shows as itself.
pub proof fn unknown_is_null(signal: Known<Seq<char>>)
    ensures
        signal is Unavailable ==> signal_value(signal) == ValueView::Null,
        signal is Obtained ==> signal_value(signal) == ValueView::Text(signal->Obtained_0),
{
}

/// A namespace that is not there, a read that was denied and a server that did not answer are three
/// answers, and none of them is taken for another.
pub proof fn refusals_are_told_apart(answer: AnswerView)
    ensures
        kube_system_told(answer) == Known::<Seq<char>>::Unavailable(Outcome::NamespaceAbsent)
            <==> answer == AnswerView::Refused(404),
        kube_system_told(answer) == Known::<Seq<char>>::Unavailable(Outcome::ReadDenied)
            <==> answer == AnswerView::Refused(401) || answer == AnswerView::Refused(403),
        kube_system_told(answer) == Known::<Seq<char>>::Unavailable(Outcome::Disconnected)
            <==> answer is Unreachable,
{
}

/// What nobody could ask about is never said not to be served.
pub proof fn unreachable_is_not_unserved(
    observed: Observed,
    origin: Seq<char>,
    source: Seq<char>,
    detail: Seq<char>,
    relations: Grant,
)
    requires
        observed.is_unreachable(origin, source, detail, relations),
    ensures
        forall|i: int|
            0 <= i < observed.capabilities.stated@.len() ==> !((
            #[trigger] observed.capabilities.stated@[i]).1 is NotServedByCluster),
{
    assert(stated_views(observed.capabilities.stated@).len() == 1);
    assert forall|i: int| 0 <= i < observed.capabilities.stated@.len() implies !((
    #[trigger] observed.capabilities.stated@[i]).1 is NotServedByCluster) by {
        assert(stated_views(observed.capabilities.stated@)[i].1
            == observed.capabilities.stated@[i].1@);
    }
}

}
