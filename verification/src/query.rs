//! Answering one query: from the target word to what is read.
//!
//! Discovery decides which collection is read. A curated target names a group and a kind and
//! nothing more; the dynamic one takes the kind from the query and is otherwise the same path. A
//! query that names an object asks a different question of the cluster: the direct read needs `get`
//! where the listing needs `list`, and only its `404` is evidence of absence.

use vstd::prelude::*;
use vstd::string::*;
use vstd::utf8::*;

use crate::contributions::Reads;
use crate::coverage::Outcome;
use crate::digits::{decimal, number};
use crate::discovery::{group_version, group_version_of, resource_of, Discovery, Resource, Verb};
use crate::dynamic::{
    catalogue, catalogue_lines, group_shown, resolution, resolve_for, shown_group, Resolution,
    Selection, Selector, Unresolved,
};
use crate::emission::{Ended, Invocation};
use crate::failure::{failure, refusal, Class, Refusal, WireError};
use crate::order::{ascending, sort_once};
use crate::planning::{
    preferred_group_versions, preferred_versions, Reading, DEFECT_HELP, NOT_ONE_OBJECT,
};
use crate::projection::{typing_text, Typing};
use crate::text::{
    among, chars, cut, cut_at, decode, fill1, fill2, fill3, fill5, filled, join, join2, joined,
    same, text_view, utf8_fault, views,
};

verus! {

/// How many objects one page asks the API server for.
pub const PAGE_SIZE: u32 = 500;

// --- paths ----------------------------------------------------------------------------------------

/// Where a group-version's resource list lives: `/api` for the core group, `/apis` for the rest.
pub open spec fn list_path(group_version: Seq<char>) -> Seq<char> {
    if cut_at(group_version, '/') is Some {
        "/apis/"@ + group_version
    } else {
        "/api/"@ + group_version
    }
}

/// Where a group-version's resource list lives.
pub fn resource_list_path(group_version: &str) -> (r: String)
    ensures
        r@ == list_path(group_version@),
{
    if cut(group_version, '/').is_some() {
        join2("/apis/", group_version)
    } else {
        join2("/api/", group_version)
    }
}

pub const CORE_OPENAPI: &'static str = "/openapi/v3/api/{}";

pub const GROUP_OPENAPI: &'static str = "/openapi/v3/apis/{}/{}";

/// Where the server publishes what it knows of a group-version's fields.
pub open spec fn openapi_path(group: Seq<char>, version: Seq<char>) -> Seq<char> {
    if group.len() == 0 {
        filled(CORE_OPENAPI@, seq![version])
    } else {
        filled(GROUP_OPENAPI@, seq![group, version])
    }
}

/// Where the server publishes what it knows of a resource's fields.
pub fn typing_path(resource: &Resource) -> (r: String)
    ensures
        r@ == openapi_path(resource.group@, resource.version@),
{
    if chars(resource.group.as_str()).len() == 0 {
        fill1(CORE_OPENAPI, resource.version.as_str())
    } else {
        fill2(GROUP_OPENAPI, resource.group.as_str(), resource.version.as_str())
    }
}

// --- documents ------------------------------------------------------------------------------------

pub const DOCUMENT_REFUSED: &'static str = "the API server answered `{}` with {} {}";

pub const DOCUMENT_REFUSED_HELP: &'static str =
    "Discovery is the first thing this provider asks for; a cluster that refuses it \
    cannot be read at all.";

pub const DOCUMENT_NOT_TEXT: &'static str = "the API server's answer to `{}` is not text: {}";

pub const DOCUMENT_NOT_TEXT_HELP: &'static str = "A discovery document is JSON.";

/// The text of a discovery document.
///
/// # Errors
///
/// A refusal for any status but success, and for a body that is not text.
pub fn document(path: &str, status: u16, reason: &str, body: Vec<u8>) -> (r: Result<
    String,
    WireError,
>)
    ensures
        match r {
            Ok(text) => status == 200 && valid_utf8(body@) && text@ == decode_utf8(body@),
            Err(error) => if status != 200 {
                error@ == refusal(
                    Class::Unavailable,
                    filled(DOCUMENT_REFUSED@, seq![path@, decimal(status as nat), reason@]),
                    DOCUMENT_REFUSED_HELP@,
                )
            } else {
                !valid_utf8(body@) && error@ == refusal(
                    Class::Unavailable,
                    filled(DOCUMENT_NOT_TEXT@, seq![path@, utf8_fault(body@)]),
                    DOCUMENT_NOT_TEXT_HELP@,
                )
            },
        },
{
    if status != 200 {
        return Err(
            failure(
                Class::Unavailable,
                fill3(DOCUMENT_REFUSED, path, number(status as u128).as_str(), reason),
                DOCUMENT_REFUSED_HELP,
            ),
        );
    }
    match decode(body) {
        Ok(text) => Ok(text),
        Err(message) => Err(
            failure(
                Class::Unavailable,
                fill2(DOCUMENT_NOT_TEXT, path, message.as_str()),
                DOCUMENT_NOT_TEXT_HELP,
            ),
        ),
    }
}

/// The text of a document the query can do without: any answer but success says that the server
/// does not publish it.
pub fn optional_document(status: u16, body: Vec<u8>) -> (r: Option<String>)
    ensures
        text_view(r) == published(status as int, body@),
{
    if status != 200 {
        return None;
    }
    match decode(body) {
        Ok(text) => Some(text),
        Err(_) => None,
    }
}

/// The text a document is, where the server published one.
pub open spec fn published(status: int, body: Seq<u8>) -> Option<Seq<char>> {
    if status == 200 && valid_utf8(body) {
        Some(decode_utf8(body))
    } else {
        None
    }
}

/// What the cluster publishes about a resource's fields, from the answer for its schema document. A
/// server that publishes none leaves the typing absent.
pub fn typing_of(resource: &Resource, status: u16, body: Vec<u8>) -> (r: Typing)
    ensures
        text_view(r.component) == typing_text(
            published(status as int, body@),
            resource.group@,
            resource.version@,
            resource.kind@,
        ),
{
    let document: Option<String> = optional_document(status, body);
    let text: Option<&str> = match &document {
        Some(text) => Some(text.as_str()),
        None => None,
    };
    Typing::of(
        text,
        resource.group.as_str(),
        resource.version.as_str(),
        resource.kind.as_str(),
    )
}

pub const UNREACHED: &'static str = "`{}` could not be read: {}";

pub const UNREACHED_HELP: &'static str =
    "The bytes travel through the host's broker; a refusal there is a capability decision, \
    and a protocol error here usually means the endpoint speaks TLS while this build \
    speaks plain HTTP/1.1.";

/// The connection or the protocol failed underneath a request.
pub fn transport_failure(path: &str, error: &str) -> (r: WireError)
    ensures
        r@ == refusal(
            Class::Unavailable,
            filled(UNREACHED@, seq![path@, error@]),
            UNREACHED_HELP@,
        ),
{
    failure(Class::Unavailable, fill2(UNREACHED, path, error), UNREACHED_HELP)
}

pub const NOT_A_SERVER_HELP: &'static str =
    "The endpoint answered, but not as a Kubernetes API server.";

pub const DISCOVERY_UNREAD: &'static str =
    "the API server's discovery documents did not read: {}";

pub const RESOURCES_UNREAD: &'static str = "the resource list of `{}` did not read: {}";

/// The discovery documents did not read.
pub fn discovery_unread(error: &str) -> (r: WireError)
    ensures
        r@ == refusal(
            Class::Unavailable,
            filled(DISCOVERY_UNREAD@, seq![error@]),
            NOT_A_SERVER_HELP@,
        ),
{
    failure(Class::Unavailable, fill1(DISCOVERY_UNREAD, error), NOT_A_SERVER_HELP)
}

/// A resource list did not read.
pub fn resources_unread(group_version: &str, error: &str) -> (r: WireError)
    ensures
        r@ == refusal(
            Class::Unavailable,
            filled(RESOURCES_UNREAD@, seq![group_version@, error@]),
            NOT_A_SERVER_HELP@,
        ),
{
    failure(Class::Unavailable, fill2(RESOURCES_UNREAD, group_version, error), NOT_A_SERVER_HELP)
}

// --- which collection -----------------------------------------------------------------------------

/// How the collection a target reads is found.
#[derive(Debug, Clone, Copy, PartialEq, Eq)]
pub enum Route {
    /// By the kind the table names.
    Curated { group: &'static str, kind: &'static str },
    /// By what the query names.
    Discovered,
}

pub const NOT_A_COLLECTION: &'static str =
    "the provider instance is not a collection of objects, so it cannot be listed";

pub const NOT_A_COLLECTION_HELP: &'static str =
    "This target reports on the session rather than on anything in the cluster.";

pub const NOT_FETCHED: &'static str =
    "a relationship is derived from one object rather than fetched from a collection";

pub const NOT_FETCHED_HELP: &'static str =
    "Ask for the object's relationships with `get k8s-relation --kind ... --name ...`.";

/// How the collection a target reads is found; the instance and a relationship have none.
///
/// # Errors
///
/// A refusal for a target that is no collection of objects.
pub fn route(reads: Reads) -> (r: Result<Route, WireError>)
    requires
        reads is Kind || reads is Discovered || reads is Instance || reads is Relations,
    ensures
        match (reads, r) {
            (Reads::Kind { group, kind }, Ok(route)) => route == (Route::Curated { group, kind }),
            (Reads::Discovered, Ok(route)) => route == Route::Discovered,
            (Reads::Instance, Err(error)) => error@ == refusal(
                Class::Unsupported,
                NOT_A_COLLECTION@,
                NOT_A_COLLECTION_HELP@,
            ),
            (Reads::Relations, Err(error)) => error@ == refusal(
                Class::Unsupported,
                NOT_FETCHED@,
                NOT_FETCHED_HELP@,
            ),
            _ => false,
        },
{
    match reads {
        Reads::Kind { group, kind } => Ok(Route::Curated { group, kind }),
        Reads::Discovered => Ok(Route::Discovered),
        Reads::Instance => Err(
            failure(Class::Unsupported, NOT_A_COLLECTION.to_owned(), NOT_A_COLLECTION_HELP),
        ),
        _ => Err(failure(Class::Unsupported, NOT_FETCHED.to_owned(), NOT_FETCHED_HELP)),
    }
}

pub const NO_VERSION_OF_KIND: &'static str =
    "this cluster serves no version of the API group `{}`, so it serves no {}";

pub const UNSERVED_HELP: &'static str =
    "An unserved API is not an empty result: nothing was asked, so nothing is known.";

pub const NO_SUCH_KIND: &'static str = "`{}` serves no kind `{}` on this cluster";

pub const NO_SUCH_KIND_HELP: &'static str =
    "Discovery is authoritative: this build makes no assumption about which APIs a \
    cluster serves.";

/// The group-version to look for a curated kind in.
pub open spec fn curated_in(served: Discovery, group: Seq<char>, kind: Seq<char>) -> Result<
    Seq<char>,
    Refusal,
> {
    match served.preferred(group) {
        Some(version) => Ok(group_version(group, version)),
        None => Err(
            refusal(
                Class::Unsupported,
                filled(NO_VERSION_OF_KIND@, seq![group_shown(group), kind]),
                UNSERVED_HELP@,
            ),
        ),
    }
}

/// The group-version to look for a curated kind in: the one the server prefers.
///
/// # Errors
///
/// A refusal where the cluster serves no version of the group.
pub fn curated_version(served: &Discovery, group: &str, kind: &str) -> (r: Result<
    String,
    WireError,
>)
    ensures
        match r {
            Ok(version) => curated_in(*served, group@, kind@) == Ok::<Seq<char>, Refusal>(
                version@,
            ),
            Err(error) => curated_in(*served, group@, kind@) == Err::<Seq<char>, Refusal>(error@),
        },
{
    match served.preferred_version(group) {
        Some(version) => Ok(group_version_of(group, version)),
        None => Err(
            failure(
                Class::Unsupported,
                fill2(NO_VERSION_OF_KIND, shown_group(group).as_str(), kind),
                UNSERVED_HELP,
            ),
        ),
    }
}

/// The resource serving a kind this package named at build time.
///
/// # Errors
///
/// A refusal where the group-version serves no such kind.
pub fn curated<'a>(catalogue: &'a Discovery, group_version: &str, kind: &str) -> (r: Result<
    &'a Resource,
    WireError,
>)
    ensures
        match r {
            Ok(resource) => resource_of(catalogue.resources@, group_version@, kind@) == Some(
                *resource,
            ),
            Err(error) => resource_of(catalogue.resources@, group_version@, kind@) is None
                && error@ == refusal(
                Class::Unsupported,
                filled(NO_SUCH_KIND@, seq![group_version@, kind@]),
                NO_SUCH_KIND_HELP@,
            ),
        },
{
    match catalogue.by_kind(group_version, kind) {
        Some(resource) => Ok(resource),
        None => Err(
            failure(
                Class::Unsupported,
                fill2(NO_SUCH_KIND, group_version, kind),
                NO_SUCH_KIND_HELP,
            ),
        ),
    }
}

pub const VERSION_ALONE: &'static str =
    "`version {}` names no group, so there is no version to look for";

pub const VERSION_ALONE_HELP: &'static str =
    "Two API groups may both serve a `v1`. Name `group` beside `version`, or leave \
    both out and take the version the server prefers (specification section 13.4).";

pub const VERSION_UNSERVED: &'static str = "this cluster serves no `{}` of the API group `{}`";

pub const VERSION_UNSERVED_HELP: &'static str =
    "It serves: {}. A version the server does not offer is not an empty \
    collection.";

pub const NO_VERSION_AT_ALL: &'static str = "no version of that group at all";

pub const GROUP_UNSERVED: &'static str = "this cluster serves no version of the API group `{}`";

/// The versions a server does offer of a group, in one line.
pub open spec fn versions_shown(versions: Seq<Seq<char>>) -> Seq<char> {
    if versions.len() == 0 {
        NO_VERSION_AT_ALL@
    } else {
        joined(versions, ", "@)
    }
}

/// Which group-versions a search covers: the preferred one of every group, or the one of the group
/// the query narrowed to. One per group, because two served versions of one resource are one
/// resource and not two candidates.
pub open spec fn searched(served: Discovery, selection: Selection) -> Result<
    Seq<Seq<char>>,
    Refusal,
> {
    match (selection.group, selection.version) {
        (None, Some(version)) => Err(
            refusal(
                Class::Unsupported,
                filled(VERSION_ALONE@, seq![version]),
                VERSION_ALONE_HELP@,
            ),
        ),
        (None, None) => Ok(ascending(preferred_versions(served.groups@, served).to_set())),
        (Some(group), Some(version)) => if served.versions(group).contains(version) {
            Ok(seq![group_version(group, version)])
        } else {
            Err(
                refusal(
                    Class::Unsupported,
                    filled(VERSION_UNSERVED@, seq![version, group_shown(group)]),
                    filled(VERSION_UNSERVED_HELP@, seq![versions_shown(served.versions(group))]),
                ),
            )
        },
        (Some(group), None) => match served.preferred(group) {
            Some(version) => Ok(seq![group_version(group, version)]),
            None => Err(
                refusal(
                    Class::Unsupported,
                    filled(GROUP_UNSERVED@, seq![group_shown(group)]),
                    UNSERVED_HELP@,
                ),
            ),
        },
    }
}

/// One group-version, as a list.
fn only(group: &str, version: &str) -> (r: Vec<String>)
    ensures
        views(r@) == seq![group_version(group@, version@)],
{
    let out: Vec<String> = vec![group_version_of(group, version)];
    assert(views(out@) =~= seq![group_version(group@, version@)]);
    out
}

/// Which group-versions the search covers.
///
/// # Errors
///
/// A refusal where the query names a version and no group, or a group or version that is not
/// served.
pub fn search_space(served: &Discovery, selector: &Selector) -> (r: Result<Vec<String>, WireError>)
    ensures
        match r {
            Ok(space) => searched(*served, selector@) == Ok::<Seq<Seq<char>>, Refusal>(
                views(space@),
            ),
            Err(error) => searched(*served, selector@) == Err::<Seq<Seq<char>>, Refusal>(error@),
        },
{
    let group: &str = match selector.group() {
        Some(group) => group,
        None => {
            if let Some(version) = selector.version() {
                return Err(
                    failure(Class::Unsupported, fill1(VERSION_ALONE, version), VERSION_ALONE_HELP),
                );
            }
            return Ok(sort_once(&preferred_group_versions(served)));
        },
    };
    match selector.version() {
        Some(version) => {
            let available: Vec<String> = served.versions_of(group);
            if !among(&available, version) {
                let shown: String = if available.len() == 0 {
                    NO_VERSION_AT_ALL.to_owned()
                } else {
                    join(&available, ", ")
                };
                assert(views(available@).len() == available@.len());
                return Err(
                    failure(
                        Class::Unsupported,
                        fill2(VERSION_UNSERVED, version, shown_group(group).as_str()),
                        fill1(VERSION_UNSERVED_HELP, shown.as_str()).as_str(),
                    ),
                );
            }
            Ok(only(group, version))
        },
        None => match served.preferred_version(group) {
            Some(version) => Ok(only(group, version)),
            None => Err(
                failure(
                    Class::Unsupported,
                    fill1(GROUP_UNSERVED, shown_group(group).as_str()),
                    UNSERVED_HELP,
                ),
            ),
        },
    }
}

pub const UNASKED: &'static str =
    "the query named no `kind` and no `resource`, so it did not say which of the \
    cluster's resources to read";

pub const UNASKED_HELP: &'static str =
    "Pass `kind` (or `resource`, which takes a plural or a short name), and `group` \
    where two groups serve the same kind. This cluster serves:\n{}";

pub const NOT_SERVED: &'static str = "this cluster serves nothing matching {}";

pub const NOT_SERVED_HELP: &'static str =
    "Discovery is authoritative, and an unserved resource is not an empty collection: \
    nothing was asked of the cluster, so nothing is known. A kind is spelled as the \
    server spells it, capital and all.";

pub const NOT_LISTABLE: &'static str =
    "the cluster serves `{}` but does not offer `list` on it";

pub const NOT_LISTABLE_HELP: &'static str =
    "A resource that cannot be listed is not an empty collection.";

pub const NOT_GETTABLE: &'static str =
    "the cluster serves `{}` but does not offer `get` on one of them";

pub const NOT_GETTABLE_HELP: &'static str =
    "A resource whose objects cannot be read one at a time is not an object that is not \
    there.";

pub const AMBIGUOUS_NAME: &'static str =
    "{} matches {} resources this cluster serves, and this provider does not choose \
    between them";

pub const AMBIGUOUS_NAME_HELP: &'static str =
    "Name the group as well. The candidates are:\n{}";

/// What is said to a query that named no one listable resource. The candidates travel with the
/// refusal of an ambiguous one.
pub open spec fn unresolved_refusal(
    unresolved: Resolution,
    selection: Selection,
    discovery: Discovery,
) -> Refusal {
    match unresolved {
        Resolution::Unasked => refusal(
            Class::Ambiguous,
            UNASKED@,
            filled(UNASKED_HELP@, seq![joined(catalogue_lines(discovery.resources@), "\n"@)]),
        ),
        Resolution::NotServed => refusal(
            Class::Unsupported,
            filled(NOT_SERVED@, seq![selection.spelled()]),
            NOT_SERVED_HELP@,
        ),
        Resolution::NotListable { gvr } => refusal(
            Class::Unsupported,
            filled(NOT_LISTABLE@, seq![gvr]),
            NOT_LISTABLE_HELP@,
        ),
        Resolution::NotGettable { gvr } => refusal(
            Class::Unsupported,
            filled(NOT_GETTABLE@, seq![gvr]),
            NOT_GETTABLE_HELP@,
        ),
        Resolution::Ambiguous { candidates } => refusal(
            Class::Ambiguous,
            filled(AMBIGUOUS_NAME@, seq![selection.spelled(), decimal(candidates.len())]),
            filled(AMBIGUOUS_NAME_HELP@, seq![joined(candidates, "\n"@)]),
        ),
        Resolution::Found { .. } => arbitrary(),
    }
}

/// A selector that did not name exactly one served, listable resource.
pub fn unresolved_failure(
    unresolved: &Unresolved,
    selector: &Selector,
    discovery: &Discovery,
) -> (r: WireError)
    ensures
        r@ == unresolved_refusal(unresolved@, selector@, *discovery),
{
    match unresolved {
        Unresolved::Unasked => failure(
            Class::Ambiguous,
            UNASKED.to_owned(),
            fill1(UNASKED_HELP, join(&catalogue(discovery), "\n").as_str()).as_str(),
        ),
        Unresolved::NotServed => failure(
            Class::Unsupported,
            fill1(NOT_SERVED, selector.spelling().as_str()),
            NOT_SERVED_HELP,
        ),
        Unresolved::NotListable { gvr } => failure(
            Class::Unsupported,
            fill1(NOT_LISTABLE, gvr.as_str()),
            NOT_LISTABLE_HELP,
        ),
        Unresolved::NotGettable { gvr } => failure(
            Class::Unsupported,
            fill1(NOT_GETTABLE, gvr.as_str()),
            NOT_GETTABLE_HELP,
        ),
        Unresolved::Ambiguous { candidates } => {
            assert(views(candidates@).len() == candidates@.len());
            failure(
                Class::Ambiguous,
                fill2(
                    AMBIGUOUS_NAME,
                    selector.spelling().as_str(),
                    number(candidates.len() as u128).as_str(),
                ),
                fill1(AMBIGUOUS_NAME_HELP, join(candidates, "\n").as_str()).as_str(),
            )
        },
    }
}

pub const UNNAMED: &'static str = "the query named no object {}";

pub const UNNAMED_HELP: &'static str = "Name one: `{}`.";

/// A query about one object that named none: what it was for, and how one is named.
pub fn unnamed(purpose: &str, example: &str) -> (r: WireError)
    ensures
        r@ == refusal(
            Class::Unsupported,
            filled(UNNAMED@, seq![purpose@]),
            filled(UNNAMED_HELP@, seq![example@]),
        ),
{
    failure(Class::Unsupported, fill1(UNNAMED, purpose), fill1(UNNAMED_HELP, example).as_str())
}

/// What a query needs of a resource: one that names an object is a direct read, which needs `get`
/// where the listing needs `list`.
pub fn needed(lookup: &Option<String>) -> (r: Verb)
    ensures
        r == if lookup is Some {
            Verb::Get
        } else {
            Verb::List
        },
{
    match lookup {
        Some(_) => Verb::Get,
        None => Verb::List,
    }
}

/// The listable resource the *query* named, resolved against what the cluster serves.
///
/// # Errors
///
/// A refusal that says why it is not exactly one listable resource.
pub fn discovered<'a>(selector: &Selector, discovery: &'a Discovery) -> (r: Result<
    &'a Resource,
    WireError,
>)
    ensures
        ({
            let came_to = resolution(selector@, discovery.resources@, Verb::List);
            match r {
                Ok(resource) => came_to == (Resolution::Found { resource: *resource }),
                Err(error) => !(came_to is Found) && error@ == unresolved_refusal(
                    came_to,
                    selector@,
                    *discovery,
                ),
            }
        }),
{
    resolve_in(selector, discovery, Verb::List)
}

/// The resource an invocation named, resolved for what it is going to be used for: a listing needs
/// `list`, a direct read needs `get`, and any other verb is asked for once the resource is known.
///
/// # Errors
///
/// A refusal that says why it is not exactly one resource that offers that.
pub fn resolve_in<'a>(selector: &Selector, discovery: &'a Discovery, verb: Verb) -> (r: Result<
    &'a Resource,
    WireError,
>)
    ensures
        ({
            let came_to = resolution(selector@, discovery.resources@, verb);
            match r {
                Ok(resource) => came_to == (Resolution::Found { resource: *resource }),
                Err(error) => !(came_to is Found) && error@ == unresolved_refusal(
                    came_to,
                    selector@,
                    *discovery,
                ),
            }
        }),
{
    match resolve_for(selector, discovery, verb) {
        Ok(resource) => Ok(resource),
        Err(unresolved) => Err(unresolved_failure(&unresolved, selector, discovery)),
    }
}

// --- reading it -----------------------------------------------------------------------------------

/// Whether a collection may be listed.
///
/// # Errors
///
/// A refusal where the server does not offer it.
pub fn listable(resource: &Resource) -> (r: Result<(), WireError>)
    ensures
        match r {
            Ok(_) => resource.offers(Verb::List),
            Err(error) => !resource.offers(Verb::List) && error@ == refusal(
                Class::Unsupported,
                filled(NOT_LISTABLE@, seq![resource.gvr@]),
                NOT_LISTABLE_HELP@,
            ),
        },
{
    if resource.supports(Verb::List) {
        Ok(())
    } else {
        Err(
            failure(
                Class::Unsupported,
                fill1(NOT_LISTABLE, resource.gvr.as_str()),
                NOT_LISTABLE_HELP,
            ),
        )
    }
}

pub const NO_GET: &'static str = "the cluster serves `{}` but does not offer `get` on it";

pub const NO_GET_HELP: &'static str =
    "A resource that cannot be read by name is not an object that is not there.";

/// Whether an object of a resource may be read by name.
///
/// # Errors
///
/// A refusal where the server does not offer it.
pub fn gettable(resource: &Resource) -> (r: Result<(), WireError>)
    ensures
        match r {
            Ok(_) => resource.offers(Verb::Get),
            Err(error) => !resource.offers(Verb::Get) && error@ == refusal(
                Class::Unsupported,
                filled(NO_GET@, seq![resource.gvr@]),
                NO_GET_HELP@,
            ),
        },
{
    if resource.supports(Verb::Get) {
        Ok(())
    } else {
        Err(failure(Class::Unsupported, fill1(NO_GET, resource.gvr.as_str()), NO_GET_HELP))
    }
}

pub const NO_ANSWER: &'static str = "`{}` in {} did not answer for `{}`: {} — {}";

pub const NO_ANSWER_HELP: &'static str =
    "This is what happened instead of a read, and it is not the object being absent: \
    a refusal, an unreachable server and a failed request are three different \
    states, and only one of them means there is nothing there (§21.4).";

/// What a direct read that brought no object means: that the object is absent, for the one outcome
/// that is evidence of it, and otherwise a refusal.
///
/// # Errors
///
/// A refusal for every outcome but absence.
pub fn not_fetched(
    resource: &Resource,
    scope: &str,
    name: &str,
    outcome: Outcome,
    word: &str,
    error: &str,
) -> (r: Result<(), WireError>)
    ensures
        match r {
            Ok(_) => outcome == Outcome::Absent,
            Err(refused) => outcome != Outcome::Absent && refused@ == refusal(
                Class::Unavailable,
                filled(NO_ANSWER@, seq![resource.gvr@, scope@, name@, word@, error@]),
                NO_ANSWER_HELP@,
            ),
        },
{
    match outcome {
        Outcome::Absent => Ok(()),
        _ => Err(
            failure(
                Class::Unavailable,
                fill5(NO_ANSWER, resource.gvr.as_str(), scope, name, word, error),
                NO_ANSWER_HELP,
            ),
        ),
    }
}

// --- how the answer ends --------------------------------------------------------------------------

/// Whether a direct read came to an object. That the object is not there is an answer rather than a
/// refusal.
///
/// # Errors
///
/// A defect where the answer was no object.
pub fn one_object(reading: Reading) -> (r: Result<bool, WireError>)
    ensures
        match r {
            Ok(present) => !(reading is Listed) && present == (reading is Fetched),
            Err(error) => reading is Listed && error@ == refusal(
                Class::Unavailable,
                NOT_ONE_OBJECT@,
                DEFECT_HELP@,
            ),
        },
{
    match reading {
        Reading::Fetched => Ok(true),
        Reading::Absent => Ok(false),
        Reading::Listed => Err(
            failure(Class::Unavailable, NOT_ONE_OBJECT.to_owned(), DEFECT_HELP),
        ),
    }
}

/// What a listing said about itself.
#[derive(Debug, PartialEq, Eq)]
pub struct Listed {
    /// Whether it covered what was asked about.
    pub covered: bool,
    /// Whether its pages are one observation.
    pub intact: bool,
    /// What it covered, in words.
    pub coverage: String,
}

pub const LOST_CONTINUITY: &'static str =
    "the listing lost continuity and the records already delivered are one \
    observation with a gap in it: {}";

pub const NOT_EVERYTHING: &'static str =
    "the query did not see everything it asked about: {}";

pub const SHORT_HELP: &'static str =
    "The records that did arrive are true. What is missing is named above — a denial, an \
    unserved API and an exhausted page budget are different things, and none of them means \
    the cluster is empty.";

/// How an answer ends once its records are delivered: a read of one object is complete, and so is
/// the listing that covered everything in one observation; any other listing fails with what was
/// missing.
pub open spec fn answer_ends(listed: Option<Listed>) -> Ended {
    match listed {
        None => Ended::Completed,
        Some(listed) => if listed.covered && listed.intact {
            Ended::Completed
        } else if !listed.intact {
            Ended::Failed(
                refusal(
                    Class::Unavailable,
                    filled(LOST_CONTINUITY@, seq![listed.coverage@]),
                    SHORT_HELP@,
                ),
            )
        } else {
            Ended::Failed(
                refusal(
                    Class::Unavailable,
                    filled(NOT_EVERYTHING@, seq![listed.coverage@]),
                    SHORT_HELP@,
                ),
            )
        },
    }
}

/// How an answer ends once its records are delivered.
pub fn ending(listed: &Option<Listed>) -> (r: Invocation)
    ensures
        r@ == answer_ends(*listed),
{
    match listed {
        None => Invocation::Completed,
        Some(listed) => if listed.covered && listed.intact {
            Invocation::Completed
        } else if !listed.intact {
            Invocation::Failed(
                failure(
                    Class::Unavailable,
                    fill1(LOST_CONTINUITY, listed.coverage.as_str()),
                    SHORT_HELP,
                ),
            )
        } else {
            Invocation::Failed(
                failure(
                    Class::Unavailable,
                    fill1(NOT_EVERYTHING, listed.coverage.as_str()),
                    SHORT_HELP,
                ),
            )
        },
    }
}

// --- laws -----------------------------------------------------------------------------------------

/// A listing that is known to be short never completes, whoever takes its records.
pub proof fn a_short_listing_never_completes(
    listed: Listed,
    turns: Seq<(bool, crate::emission::DeliveryView)>,
    schema: Seq<char>,
)
    requires
        !listed.covered || !listed.intact,
    ensures
        !(crate::emission::emission_ends(turns, schema, answer_ends(Some(listed))) is Completed),
{
    crate::emission::a_partial_answer_never_completes(turns, schema, answer_ends(Some(listed)));
}

/// A resource list of the core group is looked for under `/api`, and one of any named group under
/// `/apis`, whatever the group and the version; only a version of the core group, which stands there
/// alone, is not to be taken for a group in front of one.
pub proof fn lists_are_looked_for_by_group(group: Seq<char>, version: Seq<char>)
    requires
        group.len() == 0 ==> forall|i: int| 0 <= i < version.len() ==> version[i] != '/',
    ensures
        list_path(group_version(group, version)) == if group.len() == 0 {
            "/api/"@ + version
        } else {
            "/apis/"@ + group + "/"@ + version
        },
{
    reveal_strlit("/");
    if group.len() == 0 {
        crate::text::first_at_is(version, '/', version.len() as int);
    } else {
        let whole = group + "/"@ + version;
        crate::text::first_at_bounds(whole, '/');
        assert(whole[group.len() as int] == '/');
        assert("/apis/"@ + whole =~= "/apis/"@ + group + "/"@ + version);
    }
}

}
