//! What the cluster diagnostic promises: what is observed is told, and what is not is told as that.
//!
//! Each law here speaks of what a function was given and of what it returned.

use vstd::prelude::*;
use vstd::string::*;

use crate::cluster::{
    access_review, access_version, capabilities, capability_entries, effective_identity, fingerprint, identity,
    identity_resource, identity_version, instance_name, kube_system_uid, latency_entries,
    local_grant, namespace_resource, posture, probe_entries, refused, review_body, scheme,
    server_version,
    stated_views, text, Answer, Availability, Capabilities, Check, Fingerprint, Grant,
    Health, Identity, Known, Observed, Offered, Posture, ProbeRow, ProbeStatus, Reply, Subject,
};
use crate::coverage::Outcome;
use crate::discovery::{Discovery, Resource, Verb};
use crate::failure::WireError;
use crate::interrogation::{Interrogation, Offers, Question, Reading};
use crate::json::JsonView;
use crate::pointer::at;
use crate::reporting::is_of;
use crate::text::views;
use crate::value::{put_is_found, under, ValueView};

verus! {

// --- one signal -----------------------------------------------------------------------------------

/// A grant is held where the host says it is granted, withheld where it is denied or would be asked
/// for, and undetermined anywhere else. A connection is plain without protection, and verified
/// exactly where its certificates are.
pub proof fn a_grant_is_what_the_host_says(
    answer: Option<Check>,
    grant: Grant,
    verifies: Option<bool>,
    protection: Posture,
    tls: bool,
    word: &'static str,
)
    requires
        call_ensures(local_grant, (answer,), grant),
        call_ensures(posture, (verifies,), protection),
        call_ensures(scheme, (tls,), word),
    ensures
        grant is Held <==> answer == Some(Check::Granted),
        grant is Withheld <==> answer == Some(Check::Denied) || answer == Some(Check::Ask),
        protection is Plain <==> verifies is None,
        protection is Verified <==> verifies == Some(true),
        protection is InsecureSkipVerify <==> verifies == Some(false),
        tls ==> word@ == "https"@,
        !tls ==> word@ == "http"@,
{
}

/// Every request is one more probe, behind those before it, with its method and its path, the
/// status
/// it was answered with and the time it took; only a success carries a body.
pub proof fn every_request_is_a_probe(
    health: &mut Health,
    method: &str,
    path: &str,
    reply: Reply,
    latency: u128,
    answer: Answer,
)
    requires
        call_ensures(Health::asked, (health, method, path, reply, latency), answer),
    ensures
        final(health).probes@.len() == old(health).probes@.len() + 1,
        final(health).probes@.last().latency == Some(latency),
        match reply {
            Reply::Nothing => {
                &&& answer is Unreachable
                &&& final(health).probes@.last().status == ProbeStatus::DidNotAnswer(
                    Outcome::Disconnected,
                )
            },
            Reply::Response { status, body } => {
                &&& final(health).probes@.last().status == ProbeStatus::Answered(status)
                &&& 200 <= status < 300 ==> answer is Body && answer->Body_0@ == body@
                &&& !(200 <= status < 300) ==> answer is Refused && answer->Refused_0 == status
            },
        },
        forall|i: int|
            0 <= i < old(health).probes@.len() ==> (#[trigger] final(health).probes@[i])@
                == old(health).probes@[i]@,
{
    let before = old(health)@;
    let now = final(health)@;
    assert(before.len() == old(health).probes@.len());
    assert(now.len() == final(health).probes@.len());
    assert(now.last() == final(health).probes@.last()@);
    assert forall|i: int| 0 <= i < old(health).probes@.len() implies (
    #[trigger] final(health).probes@[i])@ == old(health).probes@[i]@ by {
        assert(now[i] == before[i]);
    }
}

/// What a status that is no success means: a denial, a kind that is not served, or a failure.
pub proof fn a_status_is_told_as_what_it_means(status: u16, outcome: Outcome)
    requires
        call_ensures(refused, (status,), outcome),
    ensures
        outcome is ReadDenied <==> status == 401 || status == 403,
        outcome is TypeNotServed <==> status == 404,
        outcome is RequestFailed <==> status != 401 && status != 403 && status != 404,
{
}

/// The text of an answer is that of its body, where it is one.
pub proof fn an_answer_is_its_text(answer: Answer, read: Option<String>)
    requires
        call_ensures(text, (answer,), read),
    ensures
        match answer {
            Answer::Body(body) => {
                &&& read is Some <==> vstd::utf8::valid_utf8(body@)
                &&& read is Some ==> read->0@ == vstd::utf8::decode_utf8(body@)
            },
            _ => read is None,
        },
{
}

/// The version and the identity of a session are what was read in a success, and are unknown for
/// their own reason anywhere else.
pub proof fn a_signal_is_what_was_read(
    answer: Answer,
    read: Option<String>,
    version: Known<String>,
    seen: Option<Subject>,
    subject: Known<Subject>,
)
    requires
        call_ensures(server_version, (&answer, read), version),
        call_ensures(effective_identity, (&answer, seen), subject),
    ensures
        answer is Body && read is Some ==> version is Obtained && version->Obtained_0@ == read->0@,
        answer is Body && seen is Some ==> {
            &&& subject is Obtained
            &&& subject->Obtained_0.username@ == seen->0.username@
            &&& views(subject->Obtained_0.groups@) == views(seen->0.groups@)
            &&& match seen->0.uid {
                Some(uid) => subject->Obtained_0.uid is Some && subject->Obtained_0.uid->0@ == uid@,
                None => subject->Obtained_0.uid is None,
            }
        },
        answer is Body && read is None ==> version is Unavailable && version->Unavailable_0
            is RequestFailed,
        answer is Unreachable ==> version is Unavailable && version->Unavailable_0 is Disconnected,
        answer is Unreachable ==> subject is Unavailable && subject->Unavailable_0 is Disconnected,
        answer is Refused ==> version is Unavailable && subject is Unavailable,
        answer is Refused && (answer->Refused_0 == 401 || answer->Refused_0 == 403)
            ==> version->Unavailable_0 is ReadDenied && subject->Unavailable_0 is ReadDenied,
{
    assert(version@ is Obtained <==> version is Obtained);
    assert(subject@ is Obtained <==> subject is Obtained);
}

/// The namespace every cluster has is evidence of which cluster this is: its own `uid`, where it
/// was
/// read and states one.
pub proof fn a_cluster_is_known_by_its_namespace(answer: Answer, uid: Known<String>)
    requires
        call_ensures(kube_system_uid, (&answer,), uid),
    ensures
        match answer {
            Answer::Body(body) => match crate::document::parsed_bytes(body@) {
                Ok(document) => match at(document, "/metadata/uid"@) {
                    Some(JsonView::Text(text)) => uid is Obtained && uid->Obtained_0@ == text,
                    _ => uid is Unavailable && uid->Unavailable_0 is RequestFailed,
                },
                Err(_) => uid is Unavailable && uid->Unavailable_0 is RequestFailed,
            },
            Answer::Refused(status) => {
                &&& uid is Unavailable
                &&& status == 404 ==> uid->Unavailable_0 is NamespaceAbsent
                &&& status == 401 || status == 403 ==> uid->Unavailable_0 is ReadDenied
            },
            Answer::Unreachable => uid is Unavailable && uid->Unavailable_0 is Disconnected,
        },
{
    assert(uid@ is Obtained <==> uid is Obtained);
}

/// A cluster is told by where it is asked and by its namespace, and its key was not asked for; a
/// session is who it effectively is, and impersonates nobody.
pub proof fn an_identity_is_told_as_found(
    origin: &str,
    uid: Known<String>,
    print: Fingerprint,
    effective: Known<Subject>,
    told: Identity,
)
    requires
        call_ensures(fingerprint, (origin, uid), print),
        call_ensures(identity, (effective,), told),
    ensures
        print.origin is Obtained && print.origin->Obtained_0@ == origin@,
        print.server_public_key is Unavailable && print.server_public_key->Unavailable_0
            is NotQueried,
        print.kube_system_uid@ == uid@,
        told.credential@ == effective@,
        told.effective@ == effective@,
        told.impersonated is None,
{
    assert(print.origin@ is Obtained <==> print.origin is Obtained);
    assert(print.server_public_key@ is Obtained <==> print.server_public_key is Obtained);
}

/// A namespace is read in the collection of namespaces of that version, where one may be read; an
/// identity is asked for where a review of it may be created.
pub proof fn a_collection_is_asked_where_it_offers_that(
    core: Discovery,
    version: &str,
    namespaces: Result<&Resource, Outcome>,
    catalogue: Option<Discovery>,
    reviews: Result<&Resource, Outcome>,
)
    requires
        call_ensures(namespace_resource, (&core, version), namespaces),
        call_ensures(identity_resource, (&catalogue, version), reviews),
    ensures
        namespaces matches Ok(resource) ==> is_of(*resource, version@, "Namespace"@)
            && resource.verbs@.contains(Verb::Get),
        reviews matches Ok(resource) ==> is_of(*resource, version@, "SelfSubjectReview"@)
            && resource.verbs@.contains(Verb::Create),
        catalogue is None ==> reviews is Err && reviews->Err_0 is RequestFailed,
{
    found_is_of(core.resources@, version@, "Namespace"@);
    if let Some(documents) = catalogue {
        found_is_of(documents.resources@, version@, "SelfSubjectReview"@);
    }
}

proof fn found_is_of(resources: Seq<Resource>, group_version: Seq<char>, kind: Seq<char>)
    ensures
        crate::discovery::resource_of(resources, group_version, kind) matches Some(resource)
            ==> is_of(resource, group_version, kind),
    decreases resources.len(),
{
    if resources.len() > 0 {
        found_is_of(resources.skip(1), group_version, kind);
    }
}

/// Whether access can be reviewed is what the cluster offers where its catalogue reads, a denial
/// where that was denied, and undetermined where nobody answered.
pub proof fn a_review_is_available_as_answered(
    answer: Option<Answer>,
    offered: Option<String>,
    found: Availability,
)
    requires
        call_ensures(access_review, (answer, offered), found),
    ensures
        answer is None ==> found is NotServedByCluster,
        answer matches Some(Answer::Body(body)) ==> (offered is Some && vstd::utf8::valid_utf8(
            body@,
        ) <==> found is Offered),
        answer is Some && answer->0 is Body && found is Offered ==> found->Offered_0@
            == offered->0@,
        answer matches Some(Answer::Refused(status)) ==> {
            &&& found is DeniedForCurrentUser <==> status == 401 || status == 403
            &&& found is NotServedByCluster <==> status == 404
        },
        answer matches Some(Answer::Unreachable) ==> found is NotDetermined
            && found->NotDetermined_0 is Disconnected,
{
}

/// Each capability is told as what the cluster offers of it, and as undetermined where that was not
/// read; relationships are told by the host's own grant.
pub proof fn each_capability_is_told_as_found(
    offered: Option<Offered>,
    relations: Grant,
    found: Capabilities,
)
    requires
        call_ensures(capabilities, (offered, relations), found),
    ensures
        found.stated@.len() == 5,
        found.stated@[0].0 is Relationships && found.stated@[0].1 == Availability::Granted(
            relations,
        ),
        found.stated@[1].0 is Watch,
        found.stated@[2].0 is Mutations,
        found.stated@[3].0 is RemoteLogs,
        found.stated@[4].0 is SubjectAccessReview,
        match offered {
            Some(offered) => {
                &&& found.stated@[1].1 is Offered && found.stated@[1].1->Offered_0@
                    == offered.watch@
                &&& found.stated@[2].1 is Offered && found.stated@[2].1->Offered_0@
                    == offered.mutations@
                &&& found.stated@[3].1 is Offered && found.stated@[3].1->Offered_0@
                    == offered.remote_logs@
                &&& found.stated@[4].1@ == offered.access_review@
            },
            None => forall|i: int|
                1 <= i < 5 ==> (#[trigger] found.stated@[i]).1 is NotDetermined
                    && found.stated@[i].1->NotDetermined_0 is RequestFailed,
        },
{
    let shown = stated_views(found.stated@);
    assert(shown.len() == found.stated@.len());
    assert forall|i: int| 0 <= i < shown.len() implies (#[trigger] found.stated@[i]).0 == shown[i].0
        && found.stated@[i].1@ == shown[i].1 by {
        assert(shown[i] == (found.stated@[i].0, found.stated@[i].1@));
    }
}

/// A cluster that could not be reached is told as that: nothing about it is known but where it was
/// asked, and the one probe says what happened.
pub proof fn an_unreachable_cluster_is_unknown(
    origin: &str,
    source: &str,
    detail: &str,
    relations: Grant,
    observed: Observed,
)
    requires
        call_ensures(Observed::unreachable, (origin, source, detail, relations), observed),
    ensures
        observed.version is Unavailable,
        observed.health.probes@.len() == 1,
        observed.health.probes@[0].status == ProbeStatus::DidNotAnswer(Outcome::Disconnected),
        observed.health.probes@[0].latency is None,
        observed.fingerprint.origin is Obtained && observed.fingerprint.origin->Obtained_0@
            == origin@,
        observed.fingerprint.kube_system_uid is Unavailable,
        observed.identity.credential is Unavailable,
        observed.identity.effective is Unavailable,
        observed.identity.impersonated is None,
{
    assert(observed.version@ is Obtained <==> observed.version is Obtained);
    assert(observed.fingerprint.origin@ is Obtained <==> observed.fingerprint.origin is Obtained);
    assert(observed.fingerprint.kube_system_uid@ is Obtained
        <==> observed.fingerprint.kube_system_uid is Obtained);
    assert(observed.identity.credential@ is Obtained <==> observed.identity.credential is Obtained);
    assert(observed.identity.effective@ is Obtained <==> observed.identity.effective is Obtained);
}

/// A connection the host denied is the host's own refusal; any other failure to connect is a
/// cluster
/// that could not be reached.
pub proof fn a_denied_connection_is_no_diagnosis(
    error: WireError,
    host: &str,
    port: u16,
    origin: &str,
    relations: Grant,
    told: Result<Observed, WireError>,
)
    requires
        call_ensures(Observed::not_connected, (error, host, port, origin, relations), told),
    ensures
        told is Err <==> error.name@ == "capability.denied"@,
        told matches Err(same) ==> same@ == error@,
        told matches Ok(observed) ==> observed.health.probes@.len() == 1
            && observed.health.probes@[0].status == ProbeStatus::DidNotAnswer(
            Outcome::Disconnected,
        ),
{
}

/// The name of an instance is what stands behind the provider's own word, and the whole of it where
/// that word is not there.
pub proof fn an_instance_is_named_without_its_provider(instance: Seq<char>, name: Seq<char>)
    ensures
        instance_name("kubernetes:"@ + name) == name,
        !crate::text::begins(instance, "kubernetes:"@) ==> instance_name(instance) == instance,
{
    reveal_strlit("kubernetes:");
    let whole = "kubernetes:"@ + name;
    assert(whole.take("kubernetes:"@.len() as int) =~= "kubernetes:"@);
    assert(whole.skip("kubernetes:"@.len() as int) =~= name);
}

// --- what the record maps -------------------------------------------------------------------------

/// Every probe is shown under its own source with what it came to, the last of one source in the
/// place of the others; and nothing is shown under a source that was not asked.
pub proof fn each_probe_is_shown_under_its_source(probes: Seq<ProbeRow>, key: Seq<char>)
    ensures
        forall|i: int|
            0 <= i < probes.len() && (#[trigger] probes[i]).source@ == key && (forall|j: int|
                i < j < probes.len() ==> (#[trigger] probes[j]).source@ != key) ==> under(
                probe_entries(probes),
                key,
            ) == Some(ValueView::Text(probes[i].status@)),
        (forall|j: int| 0 <= j < probes.len() ==> (#[trigger] probes[j]).source@ != key) ==> under(
            probe_entries(probes),
            key,
        ) is None,
    decreases probes.len(),
{
    if probes.len() > 0 {
        let front = probes.drop_last();
        each_probe_is_shown_under_its_source(front, key);
        let last = probes.last();
        put_is_found(probe_entries(front), last.source@, ValueView::Text(last.status@), key);
        assert forall|i: int|
            0 <= i < probes.len() && (#[trigger] probes[i]).source@ == key && (forall|j: int|
                i < j < probes.len() ==> (#[trigger] probes[j]).source@ != key) implies under(
            probe_entries(probes),
            key,
        ) == Some(ValueView::Text(probes[i].status@)) by {
            if i < front.len() {
                assert(probes[probes.len() - 1].source@ != key);
                assert(front[i] == probes[i]);
                assert forall|j: int| i < j < front.len() implies (#[trigger] front[j]).source@
                    != key by {
                    assert(front[j] == probes[j]);
                }
            }
        }
        if forall|j: int| 0 <= j < probes.len() ==> (#[trigger] probes[j]).source@ != key {
            assert(probes[probes.len() - 1].source@ != key);
            assert forall|j: int| 0 <= j < front.len() implies (#[trigger] front[j]).source@
                != key by {
                assert(front[j] == probes[j]);
            }
        }
    }
}

/// Every capability is shown under its own name with what was found of it, the last of one name in
/// the place of the others; and nothing is shown under a name that was not found.
pub proof fn each_capability_is_shown_under_its_name(found: Seq<(String, String)>, key: Seq<char>)
    ensures
        forall|i: int|
            0 <= i < found.len() && (#[trigger] found[i]).0@ == key && (forall|j: int|
                i < j < found.len() ==> (#[trigger] found[j]).0@ != key) ==> under(
                capability_entries(found),
                key,
            ) == Some(ValueView::Text(found[i].1@)),
        (forall|j: int| 0 <= j < found.len() ==> (#[trigger] found[j]).0@ != key) ==> under(
            capability_entries(found),
            key,
        ) is None,
    decreases found.len(),
{
    if found.len() > 0 {
        let front = found.drop_last();
        each_capability_is_shown_under_its_name(front, key);
        let last = found.last();
        put_is_found(capability_entries(front), last.0@, ValueView::Text(last.1@), key);
        assert forall|i: int|
            0 <= i < found.len() && (#[trigger] found[i]).0@ == key && (forall|j: int|
                i < j < found.len() ==> (#[trigger] found[j]).0@ != key) implies under(
            capability_entries(found),
            key,
        ) == Some(ValueView::Text(found[i].1@)) by {
            if i < front.len() {
                assert(found[found.len() - 1].0@ != key);
                assert(front[i] == found[i]);
                assert forall|j: int| i < j < front.len() implies (#[trigger] front[j]).0@ != key by {
                    assert(front[j] == found[j]);
                }
            }
        }
        if forall|j: int| 0 <= j < found.len() ==> (#[trigger] found[j]).0@ != key {
            assert(found[found.len() - 1].0@ != key);
            assert forall|j: int| 0 <= j < front.len() implies (#[trigger] front[j]).0@ != key by {
                assert(front[j] == found[j]);
            }
        }
    }
}

/// Every probe that was timed shows how long it took under its own source, the last of one source
/// in
/// the place of the others; and nothing is shown under a source that was not timed.
pub proof fn each_latency_is_shown_under_its_source(probes: Seq<ProbeRow>, key: Seq<char>)
    ensures
        forall|i: int|
            0 <= i < probes.len() && (#[trigger] probes[i]).source@ == key && (
            probes[i].latency matches Some(millis) && millis <= i128::MAX) && (forall|j: int|
                i < j < probes.len() ==> (#[trigger] probes[j]).source@ != key
                    || probes[j].latency is None) ==> under(latency_entries(probes), key) == Some(
                ValueView::Int(probes[i].latency->0 as int),
            ),
        (forall|j: int|
            0 <= j < probes.len() ==> (#[trigger] probes[j]).source@ != key || probes[j].latency
                is None) ==> under(latency_entries(probes), key) is None,
    decreases probes.len(),
{
    if probes.len() > 0 {
        let front = probes.drop_last();
        each_latency_is_shown_under_its_source(front, key);
        let last = probes.last();
        if let Some(millis) = last.latency {
            put_is_found(
                latency_entries(front),
                last.source@,
                crate::cluster::latency_value(millis),
                key,
            );
        }
        assert forall|i: int|
            0 <= i < probes.len() && (#[trigger] probes[i]).source@ == key && (
            probes[i].latency matches Some(millis) && millis <= i128::MAX) && (forall|j: int|
                i < j < probes.len() ==> (#[trigger] probes[j]).source@ != key
                    || probes[j].latency is None) implies under(latency_entries(probes), key)
            == Some(ValueView::Int(probes[i].latency->0 as int)) by {
            if i < front.len() {
                assert(probes[probes.len() - 1].source@ != key || last.latency is None);
                assert(front[i] == probes[i]);
                assert forall|j: int| i < j < front.len() implies (#[trigger] front[j]).source@
                    != key || front[j].latency is None by {
                    assert(front[j] == probes[j]);
                }
            }
        }
        if forall|j: int|
            0 <= j < probes.len() ==> (#[trigger] probes[j]).source@ != key || probes[j].latency
                is None {
            assert(probes[probes.len() - 1].source@ != key || last.latency is None);
            assert forall|j: int| 0 <= j < front.len() implies (#[trigger] front[j]).source@ != key
                || front[j].latency is None by {
                assert(front[j] == probes[j]);
            }
        }
    }
}

// --- the questions --------------------------------------------------------------------------------

/// Each stage asks its own question.
pub proof fn each_stage_asks_its_question(state: Interrogation, asked: Question)
    requires
        call_ensures(Interrogation::question, (&state,), asked),
    ensures
        state.stage is Version ==> asked is Get && asked->Get_path@ == "/version"@,
        state.stage is CoreVersions ==> asked is Get && asked->Get_path@ == "/api"@,
        state.stage is Groups ==> asked is Get && asked->Get_path@ == "/apis"@,
        state.stage is Namespace ==> asked is KubeSystem && asked->KubeSystem_gvr@
            == state.stage->Namespace_gvr@,
        state.stage is Review ==> asked is Create && asked->Create_gvr@
            == state.stage->Review_gvr@,
        state.stage is CoreResources || state.stage is IdentityList || state.stage is AccessList
            ==> asked is Get,
        state.stage is Done <==> asked is Nothing,
{
}

/// A reply to the version is the version where it was read, and what follows asks for the versions
/// of the core group whatever came; a review tells who the session is; and an answer once learnt is
/// not unlearnt by the next.
pub proof fn a_reply_answers_its_question(
    state: &mut Interrogation,
    method: &str,
    path: &str,
    reply: Reply,
    latency: u128,
    read: Reading,
)
    requires
        call_ensures(Interrogation::answered, (state, method, path, reply, latency, read), ()),
    ensures
        final(state).health.probes@.len() == old(state).health.probes@.len() + 1,
        old(state).stage is Version ==> {
            &&& final(state).stage is CoreVersions
            &&& (reply matches Reply::Response { status, body } && 200 <= status < 300) && read
                is Version ==> final(state).version is Obtained && final(state).version->Obtained_0@
                == read->Version_0@
            &&& reply is Nothing ==> final(state).version is Unavailable
        },
        !(old(state).stage is Version) ==> final(state).version@ == old(state).version@,
        old(state).stage is Review && (reply matches Reply::Response { status, body } && 200
            <= status < 300) && read is Subject ==> final(state).effective is Obtained
            && final(state).effective->Obtained_0.username@ == read->Subject_0.username@,
        old(state).stage is AccessList ==> final(state).stage is Done,
        old(state).stage is Done ==> final(state).stage is Done,
{
    assert(old(state)@.health.len() == old(state).health.probes@.len());
    assert(final(state)@.health.len() == final(state).health.probes@.len());
    assert(final(state).version@ is Obtained <==> final(state).version is Obtained);
    assert(final(state).effective@ is Obtained <==> final(state).effective is Obtained);
    assert(final(state)@.version == final(state).version@);
    assert(final(state)@.stage == final(state).stage@);
}

/// An interrogation begins with nothing asked and nothing known, and what it observed is what it
/// learnt.
pub proof fn what_was_learnt_is_what_is_told(
    fresh: Interrogation,
    state: Interrogation,
    origin: &str,
    offers: Offers,
    relations: Grant,
    observed: Observed,
)
    requires
        call_ensures(Interrogation::new, (), fresh),
        call_ensures(Interrogation::observed, (state, origin, offers, relations), observed),
    ensures
        fresh.stage is Version,
        fresh.health.probes@.len() == 0,
        fresh.version is Unavailable,
        fresh.effective is Unavailable,
        observed.version@ == state.version@,
        observed.health == state.health,
        observed.fingerprint.origin is Obtained && observed.fingerprint.origin->Obtained_0@
            == origin@,
        observed.fingerprint.kube_system_uid@ == state.kube_system_uid@,
        observed.identity.effective@ == state.effective@,
        observed.identity.impersonated is None,
{
    assert(fresh@.health.len() == fresh.health.probes@.len());
    assert(fresh.version@ is Obtained <==> fresh.version is Obtained);
    assert(fresh.effective@ is Obtained <==> fresh.effective is Obtained);
    assert(fresh@.stage == fresh.stage@);
    assert(observed.fingerprint.origin@ is Obtained <==> observed.fingerprint.origin is Obtained);
}

/// Whether a reply carried a text.
pub open spec fn carried_text(reply: Reply) -> bool {
    reply matches Reply::Response { status, body } && 200 <= status < 300
        && vstd::utf8::valid_utf8(body@)
}

/// Each answer leads to its next question: the versions of the core group to the groups, the groups
/// to what the core group serves in the version it prefers, that to the namespace every cluster
/// has,
/// the namespace to who the session is, and that to whether access can be reviewed. Where nobody
/// can
/// be asked, that is told as why.
pub proof fn each_answer_leads_to_the_next_question(
    state: &mut Interrogation,
    method: &str,
    path: &str,
    reply: Reply,
    latency: u128,
    read: Reading,
)
    requires
        call_ensures(Interrogation::answered, (state, method, path, reply, latency, read), ()),
    ensures
        old(state).stage is CoreVersions && carried_text(reply) ==> final(state).stage is Groups,
        old(state).stage is Groups && carried_text(reply) && (read matches Reading::Documents(
            versions,
        ) && versions.preferred(""@) is Some) ==> final(state).stage is CoreResources
            && final(state).stage->CoreResources_version@ == read->Documents_0.preferred(""@)->0
            && final(state).versions == Some(read->Documents_0),
        old(state).stage is CoreResources && carried_text(reply) && read is Documents
            ==> final(state).core is Some && (final(state).core->0).0 == read->Documents_0
            && (final(state).core->0).1@ == old(state).stage->CoreResources_version@,
        old(state).stage is CoreResources && !carried_text(reply) && old(state).core is None
            ==> final(state).core is None && final(state).kube_system_uid is Unavailable
            && final(state).kube_system_uid->Unavailable_0 is Disconnected,
        old(state).stage is Namespace && reply is Nothing ==> final(state).kube_system_uid
            is Unavailable && final(state).kube_system_uid->Unavailable_0 is Disconnected,
        old(state).stage is Namespace && old(state).core is Some && (
        old(state).versions matches Some(versions) && versions.preferred(
            "authentication.k8s.io"@,
        ) is Some) ==> final(state).stage is IdentityList,
        old(state).stage is Review && old(state).core is Some && (
        old(state).versions matches Some(versions) && versions.preferred(
            "authorization.k8s.io"@,
        ) is Some) ==> final(state).stage is AccessList,
        old(state).stage is Review && old(state).core is Some && (
        old(state).versions matches Some(versions) && versions.preferred(
            "authorization.k8s.io"@,
        ) is None) ==> final(state).stage is Done && final(state).access is NotServedByCluster,
        !(old(state).stage is Groups) ==> final(state).versions == old(state).versions,
{
    assert(final(state)@.stage == final(state).stage@);
    assert(old(state)@.stage == old(state).stage@);
    assert(final(state)@.versions == final(state).versions);
    assert(final(state)@.core == crate::interrogation::core_view(final(state).core));
    assert(final(state)@.kube_system_uid == final(state).kube_system_uid@);
    assert(final(state).kube_system_uid@ is Obtained <==> final(state).kube_system_uid is Obtained);
    assert(final(state)@.access == final(state).access@);
}

/// Identities and access are reviewed in the version their own group prefers, and not at all where
/// it has none; a review of an identity asks for nothing but that.
pub proof fn a_review_is_asked_in_its_own_group(
    served: Discovery,
    authentication: Option<&str>,
    identities: Option<String>,
    authorization: Option<&str>,
    access: Option<String>,
    version: &str,
    body: String,
)
    requires
        call_ensures(
            Discovery::preferred_version,
            (&served, "authentication.k8s.io"),
            authentication,
        ),
        call_ensures(identity_version, (&served,), identities),
        call_ensures(Discovery::preferred_version, (&served, "authorization.k8s.io"), authorization),
        call_ensures(access_version, (&served,), access),
        call_ensures(review_body, (version,), body),
    ensures
        identities is Some <==> authentication is Some,
        identities matches Some(text) ==> text@ == "authentication.k8s.io"@ + "/"@
            + authentication->0@,
        access is Some <==> authorization is Some,
        access matches Some(text) ==> text@ == "authorization.k8s.io"@ + "/"@ + authorization->0@,
        body@ == crate::document::rendered(
            JsonView::Object(
                seq![
                    ("apiVersion"@, JsonView::Text(version@)),
                    ("kind"@, JsonView::Text("SelfSubjectReview"@)),
                ],
            ),
        ),
{
    reveal_strlit("authentication.k8s.io");
    reveal_strlit("authorization.k8s.io");
    assert("authentication.k8s.io"@.len() > 0 && "authorization.k8s.io"@.len() > 0);
}

/// What the core group was found to offer is told as that once its collections were read, and is
/// undetermined before; relationships are told by the host's own grant.
pub proof fn what_is_offered_is_told_once_it_was_read(
    state: Interrogation,
    origin: &str,
    offers: Offers,
    relations: Grant,
    observed: Observed,
)
    requires
        call_ensures(Interrogation::observed, (state, origin, offers, relations), observed),
    ensures
        observed.capabilities.stated@.len() == 5,
        observed.capabilities.stated@[0].1 == Availability::Granted(relations),
        state.core is Some ==> {
            &&& observed.capabilities.stated@[1].1 is Offered
            &&& observed.capabilities.stated@[1].1->Offered_0@ == offers.watch@
            &&& observed.capabilities.stated@[2].1 is Offered
            &&& observed.capabilities.stated@[2].1->Offered_0@ == offers.mutations@
            &&& observed.capabilities.stated@[3].1 is Offered
            &&& observed.capabilities.stated@[3].1->Offered_0@ == offers.remote_logs@
            &&& observed.capabilities.stated@[4].1@ == state.access@
        },
        state.core is None ==> forall|i: int|
            1 <= i < 5 ==> (#[trigger] observed.capabilities.stated@[i]).1 is NotDetermined,
        observed.identity.credential@ == state.effective@,
        observed.fingerprint.server_public_key is Unavailable,
{
    let shown = stated_views(observed.capabilities.stated@);
    assert(shown.len() == observed.capabilities.stated@.len());
    assert forall|i: int| 0 <= i < shown.len() implies (
    #[trigger] observed.capabilities.stated@[i]).0 == shown[i].0
        && observed.capabilities.stated@[i].1@ == shown[i].1 by {
        assert(shown[i] == (
            observed.capabilities.stated@[i].0,
            observed.capabilities.stated@[i].1@,
        ));
    }
    assert(observed.fingerprint.server_public_key@ is Obtained
        <==> observed.fingerprint.server_public_key is Obtained);
}

}
