//! What a refusal says: under which name it is published, and what it is about.
//!
//! Each law here speaks of what a function was given and of the refusal it returned.

use vstd::prelude::*;
use vstd::string::*;

use crate::broker;
use crate::changes;
use crate::cluster;
use crate::credentials;
use crate::digits::decimal;
use crate::discovery::{Resource, Verb};
use crate::emission;
use crate::endpoint;
use crate::endpoint::Endpoint;
use crate::events;
use crate::evidence;
use crate::failure::WireError;
use crate::kubeconfig;
use crate::logs;
use crate::mutations;
use crate::planning;
use crate::planning::verb_text;
use crate::plans;
use crate::query;
use crate::text::filled;

verus! {

/// Whether a refusal is published under a name and says this, with something to do about it.
pub open spec fn refuses(error: WireError, name: Seq<char>, message: Seq<char>) -> bool {
    &&& error.name@ == name
    &&& error.message@ == message
    &&& error.help is Some
}

/// An overlap inside this package is its own defect, and told as one.
pub proof fn refusals_of_broker(
    told: WireError,
)
    requires
        call_ensures(broker::overlapping_borrow, (), told),
    ensures
        refuses(
            told,
            "runtime.trap"@,
            "the invocation context was asked for while a read of the brokered connection \
    still held it"@,
        ),
{
}

/// What keeps a watch from being opened is told as a cluster that did not answer, and why.
pub proof fn refusals_of_changes(
    detail: &str,
    gvr: &str,
    error: &str,
    told_unacquirable: WireError,
    told_watch_failure: WireError,
)
    requires
        call_ensures(changes::unacquirable, (detail,), told_unacquirable),
        call_ensures(changes::watch_failure, (gvr, error), told_watch_failure),
    ensures
        refuses(
            told_unacquirable,
            "provider.unavailable"@,
            filled(
                "the collection could not be acquired: {}"@,
                seq![detail@],
            ),
        ),
        refuses(
            told_watch_failure,
            "provider.unavailable"@,
            filled(
                "a watch on `{}` could not be opened: {}"@,
                seq![gvr@, error@],
            ),
        ),
{
}

/// A diagnostic the host would not take is told as that.
pub proof fn refusals_of_cluster(
    error: &str,
    told: WireError,
)
    requires
        call_ensures(cluster::diagnostic_refused, (error,), told),
    ensures
        refuses(
            told,
            "provider.unavailable"@,
            filled(
                "the host refused the diagnostic: {}"@,
                seq![error@],
            ),
        ),
{
}

/// What keeps a credential helper from giving a credential is told as something this package cannot
/// do, with the helper and the context it belongs to.
pub proof fn refusals_of_credentials(
    context: &str,
    detail: &str,
    command: &str,
    told_not_run: WireError,
    told_no_credential: WireError,
    told_expired: WireError,
)
    requires
        call_ensures(credentials::not_run, (context, detail), told_not_run),
        call_ensures(credentials::no_credential, (command, context, detail), told_no_credential),
        call_ensures(credentials::expired, (command, context, detail), told_expired),
    ensures
        refuses(
            told_not_run,
            "provider.unsupported"@,
            filled(
                "the credential plugin of context `{}` was not run: {}"@,
                seq![context@, detail@],
            ),
        ),
        refuses(
            told_no_credential,
            "provider.unsupported"@,
            filled(
                "the credential plugin `{}` of context `{}` did not answer with a \
    credential: {}"@,
                seq![command@, context@, detail@],
            ),
        ),
        refuses(
            told_expired,
            "provider.unsupported"@,
            filled(
                "the credential plugin `{}` of context `{}` returned an expired \
    credential: {}"@,
                seq![command@, context@, detail@],
            ),
        ),
{
}

/// An object that could not be guarded is told as that, and why.
pub proof fn refusals_of_emission(
    error: &str,
    told: WireError,
)
    requires
        call_ensures(emission::not_guarded, (error,), told),
    ensures
        refuses(
            told,
            "provider.unavailable"@,
            filled(
                "an object could not be taken across the redaction boundary: {}"@,
                seq![error@],
            ),
        ),
{
}

/// A server nobody named is told as one that did not answer.
pub proof fn refusals_of_endpoint(
    told: WireError,
)
    requires
        call_ensures(endpoint::no_endpoint, (), told),
    ensures
        refuses(
            told,
            "provider.unavailable"@,
            "the query named neither a kubeconfig `context` nor a `host`, and this provider does not \
    guess an API server"@,
        ),
{
}

/// Events nobody serves are told as not supported, and what is no Event as an answer that cannot be
/// used.
pub proof fn refusals_of_events(
    detail: &str,
    told_unserved: WireError,
    told_not_an_event: WireError,
)
    requires
        call_ensures(events::unserved, (), told_unserved),
        call_ensures(events::not_an_event, (detail,), told_not_an_event),
    ensures
        refuses(
            told_unserved,
            "provider.unsupported"@,
            "this cluster serves neither `events.k8s.io` Events nor core Events that may be \
    listed"@,
        ),
        refuses(
            told_not_an_event,
            "provider.unavailable"@,
            filled(
                "the Events collection answered with something else: {}"@,
                seq![detail@],
            ),
        ),
{
}

/// Evidence that cannot be exported is told as that, and why.
pub proof fn refusals_of_evidence(
    detail: &str,
    told_no_evidence: WireError,
    told_no_address: WireError,
)
    requires
        call_ensures(evidence::no_evidence, (detail,), told_no_evidence),
        call_ensures(evidence::no_address, (detail,), told_no_address),
    ensures
        refuses(
            told_no_evidence,
            "provider.unsupported"@,
            detail@,
        ),
        refuses(
            told_no_address,
            "provider.unavailable"@,
            filled(
                "the Node this is evidence about has no address: {}"@,
                seq![detail@],
            ),
        ),
{
}

/// What keeps a kubeconfig from being used is told as a cluster that did not answer, with the file
/// or the context it is about.
pub proof fn refusals_of_kubeconfig(
    path: &str,
    error: &str,
    known: Vec<String>,
    context: &str,
    endpoint: Endpoint,
    told_unreadable: WireError,
    told_unknown_context: WireError,
    told_tls_configuration_failure: WireError,
    told_handshake_failure: WireError,
)
    requires
        call_ensures(kubeconfig::unreadable, (path, error), told_unreadable),
        call_ensures(kubeconfig::unknown_context, (path, error, &known), told_unknown_context),
        call_ensures(kubeconfig::tls_configuration_failure, (context, error), told_tls_configuration_failure),
        call_ensures(kubeconfig::handshake_failure, (&endpoint, error), told_handshake_failure),
    ensures
        refuses(
            told_unreadable,
            "provider.unavailable"@,
            filled(
                "`{}` did not read: {}"@,
                seq![path@, error@],
            ),
        ),
        refuses(
            told_unknown_context,
            "provider.unavailable"@,
            error@,
        ),
        refuses(
            told_tls_configuration_failure,
            "provider.unavailable"@,
            filled(
                "context `{}` cannot open a TLS session: {}"@,
                seq![context@, error@],
            ),
        ),
        refuses(
            told_handshake_failure,
            "provider.unavailable"@,
            filled(
                "the TLS session with `{}:{}` was not established: {}"@,
                seq![endpoint.host@, decimal(endpoint.port as nat), error@],
            ),
        ),
{
}

/// A log that cannot be asked for is told as that, and why.
pub proof fn refusals_of_logs(
    detail: &str,
    told: WireError,
)
    requires
        call_ensures(logs::unaskable, (detail,), told),
    ensures
        refuses(
            told,
            "provider.unsupported"@,
            detail@,
        ),
{
}

/// A change refused before it was sent is told as a refusal of this package, and a record the host
/// would not take as that.
pub proof fn refusals_of_mutations(
    detail: &str,
    error: &str,
    told_unbuildable: WireError,
    told_mutation_refused: WireError,
)
    requires
        call_ensures(mutations::unbuildable, (detail,), told_unbuildable),
        call_ensures(mutations::mutation_refused, (error,), told_mutation_refused),
    ensures
        refuses(
            told_unbuildable,
            "contribution.refused"@,
            filled(
                "this change was refused before anything was sent: {}"@,
                seq![detail@],
            ),
        ),
        refuses(
            told_mutation_refused,
            "provider.unavailable"@,
            filled(
                "the host refused the mutation record: {}"@,
                seq![error@],
            ),
        ),
{
}

/// A verb that is not offered is told as not supported, with the collection; a change refused
/// before it was sent is told as a refusal of this package.
pub proof fn refusals_of_planning(
    resource: Resource,
    verb: Verb,
    detail: &str,
    told_unsupported_verb: WireError,
    told_refused: WireError,
)
    requires
        call_ensures(planning::unsupported_verb, (&resource, verb), told_unsupported_verb),
        call_ensures(planning::refused, (detail,), told_refused),
    ensures
        refuses(
            told_unsupported_verb,
            "provider.unsupported"@,
            filled(
                "the cluster serves `{}` and does not offer `{}` on it"@,
                seq![resource.gvr@, verb_text(verb)],
            ),
        ),
        refuses(
            told_refused,
            "contribution.refused"@,
            filled(
                "this change was refused before anything was sent: {}"@,
                seq![detail@],
            ),
        ),
{
}

/// A plan the host would not take is told as that.
pub proof fn refusals_of_plans(
    error: &str,
    told: WireError,
)
    requires
        call_ensures(plans::plan_refused, (error,), told),
    ensures
        refuses(
            told,
            "provider.unavailable"@,
            filled(
                "the host refused the plan: {}"@,
                seq![error@],
            ),
        ),
{
}

/// What could not be read is told as a cluster that did not answer, with what was read and why.
pub proof fn refusals_of_query(
    path: &str,
    error: &str,
    group_version: &str,
    purpose: &str,
    example: &str,
    told_transport_failure: WireError,
    told_discovery_unread: WireError,
    told_resources_unread: WireError,
    told_unnamed: WireError,
)
    requires
        call_ensures(query::transport_failure, (path, error), told_transport_failure),
        call_ensures(query::discovery_unread, (error,), told_discovery_unread),
        call_ensures(query::resources_unread, (group_version, error), told_resources_unread),
        call_ensures(query::unnamed, (purpose, example), told_unnamed),
    ensures
        refuses(
            told_transport_failure,
            "provider.unavailable"@,
            filled(
                "`{}` could not be read: {}"@,
                seq![path@, error@],
            ),
        ),
        refuses(
            told_discovery_unread,
            "provider.unavailable"@,
            filled(
                "the API server's discovery documents did not read: {}"@,
                seq![error@],
            ),
        ),
        refuses(
            told_resources_unread,
            "provider.unavailable"@,
            filled(
                "the resource list of `{}` did not read: {}"@,
                seq![group_version@, error@],
            ),
        ),
        refuses(
            told_unnamed,
            "provider.unsupported"@,
            filled(
                "the query named no object {}"@,
                seq![purpose@],
            ),
        ),
{
}

}
