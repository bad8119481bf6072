//! What a report about one object, and the reading that leads to it, promise to a reader.
//!
//! Each law here speaks of what a function was given and of what it returned.

use vstd::prelude::*;
use vstd::string::*;

use crate::actions::{Action, FieldChange};
use crate::asked::{a_member_is_the_first_of_its_name, chosen_by, gives, gives_no};
use crate::coverage::{gap, scope_for, Gap, Outcome, Reach};
use crate::discovery::{
    group_named, group_version_of, resource_of, Discovery, Group, Resource, Scope, Verb,
};
use crate::emission::Emission;
use crate::events::{next_representation, regarded, regarded_places, serving, Reported, Search};
use crate::evidence::exported;
use crate::failure::WireError;
use crate::json::{Json, JsonView};
use crate::logs::{body, clock, pod_namespace, readable, Asked, LogRequest, Retrieved};
use crate::options::Options;
use crate::planning::{
    aimed_at, autoscaler_page, autoscaler_resource, autoscaler_version, countable, countable_places,
    group_document, offered, preferred_group_versions, preferred_versions, remaining,
    review_answered, review_not_sent, review_read, review_resource, review_version, verb_word,
    Inventory, Preflight, Reading, Remaining, Searched,
};
use crate::pointer::at;
use crate::records::{Exported, IdentityEvidence, Unobserved};
use crate::text::views;
use crate::value::Clock;

verus! {

// --- what a cluster serves ------------------------------------------------------------------------

/// A group and a version are written behind each other, and the core group is not written.
pub proof fn a_version_stands_behind_its_group(group: &str, version: &str, shown: String)
    requires
        call_ensures(group_version_of, (group, version), shown),
    ensures
        group@.len() == 0 ==> shown@ == version@,
        group@.len() > 0 ==> shown@ == group@ + "/"@ + version@,
{
}

proof fn the_first_group(groups: Seq<Group>, name: Seq<char>) -> (i: int)
    ensures
        0 <= i <= groups.len(),
        forall|j: int| 0 <= j < i ==> (#[trigger] groups[j]).name@ != name,
        i < groups.len() ==> groups[i].name@ == name && group_named(groups, name) == Some(groups[i]),
        i == groups.len() ==> group_named(groups, name) is None,
    decreases groups.len(),
{
    if groups.len() == 0 || groups[0].name@ == name {
        0
    } else {
        let rest = groups.skip(1);
        let i = the_first_group(rest, name);
        assert forall|j: int| 0 <= j < i + 1 implies (#[trigger] groups[j]).name@ != name by {
            if j > 0 {
                assert(rest[j - 1] == groups[j]);
            }
        }
        i + 1
    }
}

proof fn the_first_resource(
    resources: Seq<Resource>,
    group_version: Seq<char>,
    kind: Seq<char>,
) -> (i: int)
    ensures
        0 <= i <= resources.len(),
        forall|j: int|
            0 <= j < i ==> !is_of(#[trigger] resources[j], group_version, kind),
        i < resources.len() ==> is_of(resources[i], group_version, kind) && resource_of(
            resources,
            group_version,
            kind,
        ) == Some(resources[i]),
        i == resources.len() ==> resource_of(resources, group_version, kind) is None,
    decreases resources.len(),
{
    if resources.len() == 0 || is_of(resources[0], group_version, kind) {
        0
    } else {
        let rest = resources.skip(1);
        let i = the_first_resource(rest, group_version, kind);
        assert forall|j: int| 0 <= j < i + 1 implies !is_of(
            #[trigger] resources[j],
            group_version,
            kind,
        ) by {
            if j > 0 {
                assert(rest[j - 1] == resources[j]);
            }
        }
        i + 1
    }
}

/// Whether a resource is of a kind, in a group and version written behind each other.
pub open spec fn is_of(resource: Resource, group_version: Seq<char>, kind: Seq<char>) -> bool {
    &&& resource.kind@ == kind
    &&& group_version == if resource.group@.len() == 0 {
        resource.version@
    } else {
        resource.group@ + "/"@ + resource.version@
    }
}

/// The version a cluster prefers of a group is the one the first group of that name states, and its
/// versions are those it states; a group nobody serves has neither.
pub proof fn a_group_states_its_versions(
    served: Discovery,
    group: &str,
    preferred: Option<&str>,
    versions: Vec<String>,
)
    requires
        call_ensures(Discovery::preferred_version, (&served, group), preferred),
        call_ensures(Discovery::versions_of, (&served, group), versions),
    ensures
        (forall|j: int| 0 <= j < served.groups@.len() ==> (#[trigger] served.groups@[j]).name@
            != group@) ==> preferred is None && versions@.len() == 0,
        forall|i: int|
            0 <= i < served.groups@.len() && (#[trigger] served.groups@[i]).name@ == group@ && (
            forall|j: int| 0 <= j < i ==> (#[trigger] served.groups@[j]).name@ != group@) ==> {
                &&& match served.groups@[i].preferred {
                    Some(version) => preferred is Some && preferred->0@ == version@,
                    None => preferred is None,
                }
                &&& views(versions@) == views(served.groups@[i].versions@)
            },
{
    let first = the_first_group(served.groups@, group@);
    if forall|j: int|
        0 <= j < served.groups@.len() ==> (#[trigger] served.groups@[j]).name@ != group@ {
        assert(views(versions@).len() == versions@.len());
        assert(first == served.groups@.len());
    }
}

/// A kind is found where the first resource of that kind and version stands, and nowhere where
/// there
/// is none.
pub proof fn a_kind_is_found_where_it_is_served(
    served: Discovery,
    group_version: &str,
    kind: &str,
    found: Option<&Resource>,
)
    requires
        call_ensures(Discovery::by_kind, (&served, group_version, kind), found),
    ensures
        match found {
            Some(resource) => is_of(*resource, group_version@, kind@)
                && served.resources@.contains(*resource),
            None => forall|j: int|
                0 <= j < served.resources@.len() ==> !is_of(
                    #[trigger] served.resources@[j],
                    group_version@,
                    kind@,
                ),
        },
{
    let i = the_first_resource(served.resources@, group_version@, kind@);
}

/// A resource offers a verb exactly where it states it.
pub proof fn a_verb_is_offered_where_it_is_stated(
    resource: Resource,
    verb: Verb,
    supported: bool,
    said: Result<(), WireError>,
)
    requires
        call_ensures(Resource::supports, (&resource, verb), supported),
        call_ensures(offered, (&resource, verb), said),
    ensures
        supported <==> resource.verbs@.contains(verb),
        said is Err ==> said->Err_0.name@ == "provider.unsupported"@,
        said is Ok <==> resource.verbs@.contains(verb),
{
}

/// What belongs to no namespace is asked about in none, whatever was asked; everything else is
/// asked
/// about where it was asked for.
pub proof fn a_scope_is_kept(scope: Scope, asked: Reach, reach: Reach)
    requires
        call_ensures(scope_for, (scope, &asked), reach),
    ensures
        scope == Scope::Cluster ==> reach is Cluster,
        scope == Scope::Namespaced && asked is Cluster ==> reach is Cluster,
        scope == Scope::Namespaced && asked is AllNamespaces ==> reach is AllNamespaces,
        scope == Scope::Namespaced && asked is Namespace ==> reach is Namespace
            && reach->Namespace_0@ == asked->Namespace_0@,
{
}

// --- logs -----------------------------------------------------------------------------------------

/// A log is read from the container, the run and the lines that were asked for: every bound is the
/// one that was given, and none is made up.
pub proof fn a_log_is_read_as_asked(options: Options, asked: Asked)
    requires
        call_ensures(Asked::from_options, (&options,), asked),
    ensures
        chosen_by(options@, "container"@, asked.container),
        asked.previous <==> gives(options@, "previous"@, JsonView::Bool(true)),
        asked.timestamps <==> gives(options@, "timestamps"@, JsonView::Bool(true)),
        forall|n: int|
            0 < n <= u32::MAX && #[trigger] gives(options@, "tail_lines"@, JsonView::Integer(n))
                ==> asked.tail_lines == Some(n as u32),
        gives_no(options@, "tail_lines"@) ==> asked.tail_lines is None,
        forall|n: int|
            0 < n <= u64::MAX && #[trigger] gives(options@, "since_seconds"@, JsonView::Integer(n))
                ==> asked.since_seconds == Some(n as u64),
        gives_no(options@, "since_seconds"@) ==> asked.since_seconds is None,
        forall|n: int|
            0 < n <= u64::MAX && #[trigger] gives(options@, "limit_bytes"@, JsonView::Integer(n))
                ==> asked.limit_bytes == Some(n as u64),
        gives_no(options@, "limit_bytes"@) ==> asked.limit_bytes is None,
{
    a_member_is_the_first_of_its_name(options@, "container"@);
    a_member_is_the_first_of_its_name(options@, "previous"@);
    a_member_is_the_first_of_its_name(options@, "timestamps"@);
    a_member_is_the_first_of_its_name(options@, "tail_lines"@);
    a_member_is_the_first_of_its_name(options@, "since_seconds"@);
    a_member_is_the_first_of_its_name(options@, "limit_bytes"@);
}

/// The request for a log names the Pod, its namespace and its instance, and carries every bound
/// that
/// was asked for.
pub proof fn a_log_request_carries_what_was_asked(
    asked: Asked,
    instance: &str,
    namespace: &str,
    pod: &str,
    request: LogRequest,
)
    requires
        call_ensures(Asked::request, (&asked, instance, namespace, pod), request),
    ensures
        request.instance@ == instance@,
        request.namespace@ == namespace@,
        request.pod@ == pod@,
        request.previous == asked.previous,
        request.timestamps == asked.timestamps,
        request.tail_lines == asked.tail_lines,
        request.since_seconds == asked.since_seconds,
        request.limit_bytes == asked.limit_bytes,
        match asked.container {
            Some(name) => request.container is Some && request.container->0@ == name@,
            None => request.container is None,
        },
{
}

/// A log is read in the namespace that was named and refused without one, read where the cluster
/// serves a log of one Pod and refused anywhere else, and is its body where the server answered
/// 200.
pub proof fn a_log_is_read_or_refused(
    namespace: Option<String>,
    place: Result<String, WireError>,
    resource: Resource,
    may: Result<(), WireError>,
    pod: &str,
    status: u16,
    reason: &str,
    bytes: Vec<u8>,
    read: Result<Vec<u8>, WireError>,
)
    requires
        call_ensures(pod_namespace, (namespace,), place),
        call_ensures(readable, (&resource,), may),
        call_ensures(body, (pod, status, reason, bytes), read),
    ensures
        match namespace {
            Some(name) => place is Ok && place->Ok_0@ == name@,
            None => place is Err,
        },
        may is Ok <==> (resource.verbs@.contains(Verb::Get) && views(
            resource.subresources@,
        ).contains("log"@)),
        status == 200 ==> read is Ok && read->Ok_0@ == bytes@,
        status != 200 ==> read is Err,
        place is Err ==> place->Err_0.name@ == "provider.unsupported"@,
        may is Err ==> may->Err_0.name@ == "provider.unsupported"@,
        read is Err ==> read->Err_0.name@ == "provider.unavailable"@,
{
}

/// The clock that stamps a log is that of the node the Pod runs on, and nobody's where it names
/// none.
pub proof fn a_log_is_stamped_by_its_node(pod: Json, stamping: Clock)
    requires
        call_ensures(clock, (&pod,), stamping),
    ensures
        match at(pod@, "/spec/nodeName"@) {
            Some(JsonView::Text(node)) => stamping is Node && stamping->Node_0@ == node,
            _ => stamping is Unattributed,
        },
{
}

/// Every line that came is handed over and the answer is whole; a log without a line is refused
/// rather than answered with nothing; and a Pod that is not there has none.
pub proof fn a_log_hands_over_its_lines(read: Option<Retrieved>, emission: Emission)
    requires
        call_ensures(crate::logs::emission, (&read,), emission),
    ensures
        match read {
            None => emission.left == 0 && emission.ending is Completed,
            Some(retrieved) => {
                &&& emission.left == retrieved.lines
                &&& retrieved.lines > 0 ==> emission.ending is Completed
                &&& retrieved.lines == 0 ==> emission.ending is Failed
            },
        },
{
}

// --- conditions, evidence and Events --------------------------------------------------------------

/// Every condition and every row of evidence is handed over, and the answer is whole.
pub proof fn every_row_is_handed_over(
    counted: Option<usize>,
    conditions: Emission,
    rows: Emission,
)
    requires
        call_ensures(crate::conditions::emission, (counted,), conditions),
        call_ensures(crate::evidence::emission, (counted,), rows),
    ensures
        conditions.ending is Completed,
        rows.ending is Completed,
        counted matches Some(n) ==> conditions.left == n && rows.left == n,
        counted is None ==> conditions.left == 0 && rows.left == 0,
{
}

/// What was read comes out as read, in order, and what was not read behind it, in order.
pub proof fn evidence_comes_before_its_gaps(
    items: Vec<IdentityEvidence>,
    unobserved: Vec<Unobserved>,
    rows: Vec<Exported>,
)
    requires
        call_ensures(exported, (items, unobserved), rows),
    ensures
        rows@.len() == items@.len() + unobserved@.len(),
        forall|i: int|
            0 <= i < items@.len() ==> #[trigger] rows@[i] == Exported::Observed(items@[i]),
        forall|i: int|
            0 <= i < unobserved@.len() ==> #[trigger] rows@[items@.len() + i]
                == Exported::Unobserved(unobserved@[i]),
{
}

proof fn regarded_are(read: Seq<Seq<char>>, matched: Seq<Seq<char>>)
    ensures
        forall|k: int|
            0 <= k < regarded_places(read, matched).len() ==> {
                &&& 0 <= #[trigger] regarded_places(read, matched)[k] < read.len()
                &&& matched.contains(read[regarded_places(read, matched)[k]])
            },
        forall|k: int, l: int|
            0 <= k < l < regarded_places(read, matched).len() ==> #[trigger] regarded_places(
                read,
                matched,
            )[k] < #[trigger] regarded_places(read, matched)[l],
        forall|i: int|
            0 <= i < read.len() && matched.contains(#[trigger] read[i]) ==> regarded_places(
                read,
                matched,
            ).contains(i),
    decreases read.len(),
{
    if read.len() > 0 {
        let front = read.drop_last();
        regarded_are(front, matched);
        let before = regarded_places(front, matched);
        let all = regarded_places(read, matched);
        assert forall|k: int| 0 <= k < all.len() implies {
            &&& 0 <= #[trigger] all[k] < read.len()
            &&& matched.contains(read[all[k]])
        } by {
            if k < before.len() {
                assert(all[k] == before[k]);
                assert(front[before[k]] == read[before[k]]);
            }
        }
        assert forall|k: int, l: int| 0 <= k < l < all.len() implies #[trigger] all[k]
            < #[trigger] all[l] by {
            assert(all[k] == before[k]);
            if l < before.len() {
                assert(all[l] == before[l]);
            }
        }
        assert forall|i: int|
            0 <= i < read.len() && matched.contains(#[trigger] read[i]) implies all.contains(i) by {
            if i < front.len() {
                assert(front[i] == read[i]);
                let k = before.index_of(i);
                assert(all[k] == i);
            } else {
                assert(all[all.len() - 1] == i);
            }
        }
    }
}

/// The Events regarding an object are those that matched it: each of them once, in the order the
/// server sent them, and no other.
pub proof fn the_events_that_match_are_told(
    read: Vec<String>,
    matched: Vec<String>,
    places: Vec<usize>,
)
    requires
        call_ensures(regarded, (&read, &matched), places),
    ensures
        forall|k: int|
            0 <= k < places@.len() ==> {
                &&& #[trigger] places@[k] < read@.len()
                &&& views(matched@).contains(read@[places@[k] as int]@)
            },
        forall|k: int, l: int|
            0 <= k < l < places@.len() ==> #[trigger] places@[k] < #[trigger] places@[l],
        forall|i: usize|
            i < read@.len() && views(matched@).contains((#[trigger] read@[i as int])@)
                ==> places@.contains(i),
{
    let wanted = regarded_places(views(read@), views(matched@));
    let shown = places@.map_values(|place: usize| place as int);
    regarded_are(views(read@), views(matched@));
    assert forall|k: int| 0 <= k < places@.len() implies {
        &&& #[trigger] places@[k] < read@.len()
        &&& views(matched@).contains(read@[places@[k] as int]@)
    } by {
        assert(shown[k] == places@[k] as int);
        assert(views(read@)[wanted[k]] == read@[wanted[k]]@);
    }
    assert forall|k: int, l: int| 0 <= k < l < places@.len() implies #[trigger] places@[k]
        < #[trigger] places@[l] by {
        assert(shown[k] < shown[l]);
    }
    assert forall|i: usize|
        i < read@.len() && views(matched@).contains(
            (#[trigger] read@[i as int])@,
        ) implies places@.contains(i) by {
        assert(views(read@)[i as int] == read@[i as int]@);
        assert(wanted.contains(i as int));
        let k = wanted.index_of(i as int);
        assert(shown[k] == places@[k] as int);
        assert(places@[k] == i);
    }
}

/// An object that is not there has no Events and the answer is whole; a search that matched none is
/// refused rather than answered with nothing; and one that could not read everything hands over
/// what
/// matched and fails.
pub proof fn a_search_for_events_ends_as_it_went(
    reported: Option<Reported>,
    handed: (Vec<usize>, Emission),
)
    requires
        call_ensures(crate::events::emission, (&reported,), handed),
    ensures
        handed.1.left == handed.0@.len(),
        reported is None ==> handed.1.left == 0 && handed.1.ending is Completed,
        reported matches Some(found) ==> match found.found {
            Search::NotObserved(_) => handed.1.left == 0 && handed.1.ending is Failed,
            Search::Observed(matched) => {
                &&& found.complete <==> handed.1.ending is Completed
                &&& !found.complete <==> handed.1.ending is Failed
                &&& handed.0@.map_values(|place: usize| place as int) == regarded_places(
                    views(found.read@),
                    views(matched@),
                )
            },
        },
{
    let shown = handed.0@.map_values(|place: usize| place as int);
    assert(shown.len() == handed.0@.len());
}

/// Events are looked for in their own group first, and in the core group where that is not served
/// or
/// was not enough.
pub proof fn events_are_looked_for_in_their_own_group_first(
    served: Discovery,
    place: usize,
    found: Option<(usize, String)>,
    own: Option<&str>,
    core: Option<&str>,
)
    requires
        call_ensures(next_representation, (&served, place), found),
        call_ensures(Discovery::preferred_version, (&served, "events.k8s.io"), own),
        call_ensures(Discovery::preferred_version, (&served, ""), core),
    ensures
        place == 0 ==> (own matches Some(version) ==> found is Some && (found->0).0 == 0 && (found->0).1@
            == "events.k8s.io"@ + "/"@ + version@),
        place == 0 && own is None || place == 1 ==> match core {
            Some(version) => found is Some && (found->0).0 == 1 && (found->0).1@ == version@,
            None => found is None,
        },
        place > 1 ==> found is None,
{
    reveal_strlit("events.k8s.io");
    reveal_strlit("");
    reveal_with_fuel(crate::events::representation_from, 3);
    assert("events.k8s.io"@.len() == 13 && ""@.len() == 0);
}

/// A representation of Events serves where it has Events that may be listed.
pub proof fn events_are_served_where_they_may_be_listed(
    catalogue: Discovery,
    group_version: &str,
    found: Option<&Resource>,
)
    requires
        call_ensures(serving, (&catalogue, group_version), found),
    ensures
        found matches Some(resource) ==> is_of(*resource, group_version@, "Event"@)
            && resource.verbs@.contains(Verb::List) && catalogue.resources@.contains(*resource),
        (forall|j: int|
            0 <= j < catalogue.resources@.len() ==> !is_of(
                #[trigger] catalogue.resources@[j],
                group_version@,
                "Event"@,
            )) ==> found is None,
        forall|i: int|
            0 <= i < catalogue.resources@.len() && is_of(
                #[trigger] catalogue.resources@[i],
                group_version@,
                "Event"@,
            ) && (forall|j: int|
                0 <= j < i ==> !is_of(#[trigger] catalogue.resources@[j], group_version@, "Event"@))
                && catalogue.resources@[i].verbs@.contains(Verb::List) ==> found is Some,
{
    let i = the_first_resource(catalogue.resources@, group_version@, "Event"@);
}

// --- planning -------------------------------------------------------------------------------------

/// Each verb is said in its own word.
pub proof fn a_verb_is_said_in_its_word(verb: Verb, word: &'static str)
    requires
        call_ensures(verb_word, (verb,), word),
    ensures
        word@ == match verb {
            Verb::Get => "get"@,
            Verb::List => "list"@,
            Verb::Watch => "watch"@,
            Verb::Create => "create"@,
            Verb::Update => "update"@,
            Verb::Patch => "patch"@,
            Verb::Delete => "delete"@,
        },
{
}

/// A change is aimed at an object that was read, and at nothing else.
pub proof fn a_change_needs_its_object(
    reading: Reading,
    resource: Resource,
    scope: &str,
    name: &str,
    said: Result<(), WireError>,
)
    requires
        call_ensures(aimed_at, (reading, &resource, scope, name), said),
    ensures
        said is Ok <==> reading is Fetched,
        reading is Absent ==> said->Err_0.name@ == "provider.unsupported"@,
        reading is Listed ==> said->Err_0.name@ == "provider.unavailable"@,
{
}

/// Whether a change writes the replica count.
pub open spec fn writes_the_count(changes: Seq<FieldChange>) -> bool {
    exists|i: int| 0 <= i < changes.len() && (#[trigger] changes[i]).path@ == "/spec/replicas"@
}

/// What competes for a replica count is looked for where a change writes one, what a namespace
/// holds
/// is counted where one is deleted, and permission is asked for last and always.
pub proof fn what_is_weighed_is_what_is_changed(
    action: Action,
    destructive: bool,
    kind: &str,
    steps: Vec<Remaining>,
)
    requires
        call_ensures(remaining, (&action, destructive, kind), steps),
    ensures
        steps@.len() > 0,
        steps@[steps@.len() - 1] is Permission,
        action matches Action::Curated { curation, changes } ==> (steps@.contains(
            Remaining::Autoscalers,
        ) <==> writes_the_count(changes@)),
        action matches Action::Apply { changes } ==> (steps@.contains(Remaining::Autoscalers)
            <==> writes_the_count(changes@)),
        steps@.contains(Remaining::Contents) <==> destructive && kind@ == "Namespace"@,
{
    let shown = action@.changes();
    match action {
        Action::Curated { curation, changes } => {
            count_is_shown(changes@);
        },
        Action::Apply { changes } => {
            count_is_shown(changes@);
        },
        _ => {},
    }
    let writes = crate::planning::writes_replicas(shown);
    let deletes = crate::planning::deletes_namespace(destructive, kind@);
    if writes {
        assert(steps@[0] is Autoscalers);
    }
    if deletes {
        assert(steps@[if writes {
            1
        } else {
            0
        }] is Contents);
    }
}

proof fn count_is_shown(changes: Seq<FieldChange>)
    ensures
        crate::planning::writes_replicas(crate::actions::change_views(changes))
            <==> writes_the_count(changes),
{
    let shown = crate::actions::change_views(changes);
    if writes_the_count(changes) {
        let i = choose|i: int|
            0 <= i < changes.len() && (#[trigger] changes[i]).path@ == "/spec/replicas"@;
        assert(shown[i].path == "/spec/replicas"@);
    }
    if crate::planning::writes_replicas(shown) {
        let i = choose|i: int|
            0 <= i < shown.len() && (#[trigger] shown[i]).path == crate::actions::REPLICAS@;
        assert(changes[i].path@ == "/spec/replicas"@);
    }
}

proof fn countable_are(resources: Seq<Resource>)
    ensures
        forall|k: int|
            0 <= k < countable_places(resources).len() ==> {
                &&& 0 <= #[trigger] countable_places(resources)[k] < resources.len()
                &&& counts(resources[countable_places(resources)[k]])
            },
        forall|i: int|
            0 <= i < resources.len() && counts(#[trigger] resources[i]) ==> countable_places(
                resources,
            ).contains(i),
    decreases resources.len(),
{
    if resources.len() > 0 {
        let front = resources.drop_last();
        countable_are(front);
        let before = countable_places(front);
        let all = countable_places(resources);
        assert forall|k: int| 0 <= k < all.len() implies {
            &&& 0 <= #[trigger] all[k] < resources.len()
            &&& counts(resources[all[k]])
        } by {
            if k < before.len() {
                assert(all[k] == before[k]);
                assert(front[before[k]] == resources[before[k]]);
            }
        }
        assert forall|i: int|
            0 <= i < resources.len() && counts(#[trigger] resources[i]) implies all.contains(i) by {
            if i < front.len() {
                assert(front[i] == resources[i]);
                let k = before.index_of(i);
                assert(all[k] == i);
            } else {
                assert(all[all.len() - 1] == i);
            }
        }
    }
}

/// Whether a namespace's objects of a resource can be counted.
pub open spec fn counts(resource: Resource) -> bool {
    resource.verbs@.contains(Verb::List) && resource.scope == Scope::Namespaced
}

/// What a namespace holds is counted in every collection that lives in one and may be listed, and
/// in
/// no other.
pub proof fn every_collection_that_may_be_counted_is(discovered: Discovery, places: Vec<usize>)
    requires
        call_ensures(countable, (&discovered,), places),
    ensures
        forall|k: int|
            0 <= k < places@.len() ==> {
                &&& #[trigger] places@[k] < discovered.resources@.len()
                &&& counts(discovered.resources@[places@[k] as int])
            },
        forall|i: usize|
            i < discovered.resources@.len() && counts(#[trigger] discovered.resources@[i as int])
                ==> places@.contains(i),
{
    let wanted = countable_places(discovered.resources@);
    let shown = places@.map_values(|place: usize| place as int);
    countable_are(discovered.resources@);
    assert forall|k: int| 0 <= k < places@.len() implies {
        &&& #[trigger] places@[k] < discovered.resources@.len()
        &&& counts(discovered.resources@[places@[k] as int])
    } by {
        assert(shown[k] == places@[k] as int);
    }
    assert forall|i: usize|
        i < discovered.resources@.len() && counts(
            #[trigger] discovered.resources@[i as int],
        ) implies places@.contains(i) by {
        assert(wanted.contains(i as int));
        let k = wanted.index_of(i as int);
        assert(shown[k] == places@[k] as int);
        assert(places@[k] == i);
    }
}

/// A page of autoscalers that was read covers what it read and says whether there is more; one that
/// was not read is a gap of that version.
pub proof fn a_page_covers_what_it_read(
    listed: Result<bool, Outcome>,
    version: &str,
    searched: Searched,
)
    requires
        call_ensures(autoscaler_page, (listed, version), searched),
    ensures
        listed matches Ok(more) ==> searched.gaps@.len() == 0 && searched.more_available == more
            && searched.observed,
        listed matches Err(outcome) ==> searched.gaps@.len() == 1 && searched.gaps@[0].place@
            == version@ && searched.gaps@[0].outcome == outcome && !searched.more_available
            && !searched.observed,
{
    if let Err(outcome) = listed {
        let shown = crate::coverage::gap_views(searched.gaps@);
        assert(shown.len() == searched.gaps@.len());
        assert(shown[0] == (version@, outcome));
        assert(shown[0] == searched.gaps@[0]@);
    }
}

/// A gap is of the place and for the reason it is said to be.
pub proof fn a_gap_is_as_said(place: &str, outcome: Outcome, told: Gap)
    requires
        call_ensures(gap, (place, outcome), told),
    ensures
        told.place@ == place@,
        told.outcome == outcome,
{
}

/// A page adds one count, of what was seen, at least that many where there is more; nothing counted
/// before is changed.
pub proof fn a_page_is_counted(
    inventory: &mut Inventory,
    resource: Resource,
    seen: usize,
    more: bool,
)
    requires
        call_ensures(Inventory::page, (inventory, &resource, seen, more), ()),
    ensures
        final(inventory).counted@.len() == old(inventory).counted@.len() + 1,
        final(inventory).counted@.last().count == seen,
        final(inventory).counted@.last().at_least == more,
        final(inventory).counted@.last().gvr@ == (if resource.group@.len() == 0 {
            resource.version@
        } else {
            resource.group@ + "/"@ + resource.version@
        }) + "/"@ + resource.plural@,
        final(inventory).more_available == (old(inventory).more_available || more),
        final(inventory).observed == old(inventory).observed,
        final(inventory).gaps@.len() == old(inventory).gaps@.len(),
{
    let now = crate::planning::contained_views(final(inventory).counted@);
    assert(now.len() == final(inventory).counted@.len());
    assert(now.last() == final(inventory).counted@.last()@);
    assert(crate::coverage::gap_views(final(inventory).gaps@).len() == final(inventory).gaps@.len());
    assert(crate::coverage::gap_views(old(inventory).gaps@).len() == old(inventory).gaps@.len());
}

/// A collection that would not list is one more gap, of that collection and for that reason.
pub proof fn a_refused_collection_is_a_gap(inventory: &mut Inventory, gvr: &str, outcome: Outcome)
    requires
        call_ensures(Inventory::collection_refused, (inventory, gvr, outcome), ()),
    ensures
        final(inventory).gaps@.len() == old(inventory).gaps@.len() + 1,
        final(inventory).gaps@.last().place@ == gvr@,
        final(inventory).gaps@.last().outcome == outcome,
        final(inventory).counted@.len() == old(inventory).counted@.len(),
        final(inventory).observed == old(inventory).observed,
{
    let now = crate::coverage::gap_views(final(inventory).gaps@);
    assert(now.len() == final(inventory).gaps@.len());
    assert(now.last() == final(inventory).gaps@.last()@);
    assert(crate::planning::contained_views(final(inventory).counted@).len()
        == final(inventory).counted@.len());
    assert(crate::planning::contained_views(old(inventory).counted@).len()
        == old(inventory).counted@.len());
}

/// A group that did not read is one more gap, of that group and for that reason.
pub proof fn an_unread_group_is_a_gap(
    inventory: &mut Inventory,
    group_version: &str,
    outcome: Outcome,
)
    requires
        call_ensures(Inventory::group_unread, (inventory, group_version, outcome), ()),
    ensures
        final(inventory).gaps@.len() == old(inventory).gaps@.len() + 1,
        final(inventory).gaps@.last().place@ == group_version@,
        final(inventory).gaps@.last().outcome == outcome,
        final(inventory).observed == old(inventory).observed,
{
    let now = crate::coverage::gap_views(final(inventory).gaps@);
    assert(now.len() == final(inventory).gaps@.len());
    assert(now.last() == final(inventory).gaps@.last()@);
}

/// A list is its text where the server answered 200 with one; otherwise it is unread, and why.
pub proof fn a_list_is_read_or_why_not(status: u16, body: Vec<u8>, read: Result<String, Outcome>)
    requires
        call_ensures(group_document, (status, body), read),
    ensures
        read is Ok <==> status == 200 && vstd::utf8::valid_utf8(body@),
        read matches Ok(text) ==> text@ == vstd::utf8::decode_utf8(body@),
        status == 401 || status == 403 ==> read == Err::<String, Outcome>(Outcome::ReadDenied),
        status == 404 ==> read == Err::<String, Outcome>(Outcome::TypeNotServed),
        read is Err && status != 401 && status != 403 && status != 404 ==> read == Err::<
            String,
            Outcome,
        >(Outcome::RequestFailed),
{
}

/// A permission check is answered where the server answered with a review that reads, and never
/// anywhere else.
pub proof fn a_review_is_answered_by_the_server(
    status: u16,
    reason: &str,
    body: &[u8],
    answered: Preflight,
)
    requires
        call_ensures(review_answered, (status, reason, body), answered),
    ensures
        answered is Review <==> 200 <= status < 300 && crate::document::parsed_bytes(body@) is Ok,
        answered matches Preflight::Review(review) ==> crate::document::parsed_bytes(body@) == Ok::<
            JsonView,
            Seq<char>,
        >(review@),
{
}

/// Whether the version of a group a cluster prefers is looked for where it is preferred.
pub open spec fn preferred_in(found: Seq<char>, group: Seq<char>, preferred: Option<&str>) -> bool {
    preferred is Some && found == group + "/"@ + preferred->0@
}

/// Autoscalers and permission are each looked for in the version their own group prefers, and where
/// it has none there is nothing to look in.
pub proof fn what_is_weighed_is_looked_for_in_its_group(
    served: Discovery,
    scaling: Option<&str>,
    autoscalers: Result<String, Gap>,
    reviewing: Option<&str>,
    reviews: Result<String, Preflight>,
)
    requires
        call_ensures(Discovery::preferred_version, (&served, "autoscaling"), scaling),
        call_ensures(autoscaler_version, (&served,), autoscalers),
        call_ensures(Discovery::preferred_version, (&served, "authorization.k8s.io"), reviewing),
        call_ensures(review_version, (&served,), reviews),
    ensures
        autoscalers is Ok <==> scaling is Some,
        autoscalers matches Ok(version) ==> preferred_in(version@, "autoscaling"@, scaling),
        autoscalers matches Err(missing) ==> missing.place@ == "autoscaling"@ && missing.outcome
            is TypeNotServed,
        reviews is Ok <==> reviewing is Some,
        reviews matches Ok(version) ==> preferred_in(version@, "authorization.k8s.io"@, reviewing),
        reviews matches Err(preflight) ==> preflight is NotAnswered,
{
    reveal_strlit("autoscaling");
    reveal_strlit("authorization.k8s.io");
    assert("autoscaling"@.len() > 0 && "authorization.k8s.io"@.len() > 0);
}

/// Autoscalers are listed where they may be, and permission is asked for where a review may be
/// created; where the catalogue did not read, neither is.
pub proof fn what_is_weighed_is_asked_where_it_may_be(
    catalogue: Option<&Discovery>,
    version: &str,
    autoscalers: Result<&Resource, Gap>,
    reviews: Result<&Resource, Preflight>,
)
    requires
        call_ensures(autoscaler_resource, (catalogue, version), autoscalers),
        call_ensures(review_resource, (catalogue, version), reviews),
    ensures
        autoscalers matches Ok(resource) ==> is_of(*resource, version@, "HorizontalPodAutoscaler"@)
            && resource.verbs@.contains(Verb::List),
        reviews matches Ok(resource) ==> is_of(*resource, version@, "SelfSubjectAccessReview"@)
            && resource.verbs@.contains(Verb::Create),
        catalogue is None ==> autoscalers is Err && reviews is Err,
        autoscalers matches Err(missing) ==> missing.place@ == "autoscaling"@,
        catalogue is None ==> autoscalers->Err_0.outcome is RequestFailed,
        reviews matches Err(preflight) ==> preflight is NotAnswered,
{
    if let Some(held) = catalogue {
        let i = the_first_resource(held.resources@, version@, "HorizontalPodAutoscaler"@);
        let j = the_first_resource(held.resources@, version@, "SelfSubjectAccessReview"@);
    }
}

/// A permission check that was not sent is not answered, and one that was is the review that reads.
pub proof fn a_review_is_the_one_that_reads(
    error: &str,
    unsent: Preflight,
    read: Result<Json, String>,
    answered: Preflight,
)
    requires
        call_ensures(review_not_sent, (error,), unsent),
        call_ensures(review_read, (read,), answered),
    ensures
        unsent is NotAnswered,
        read matches Ok(review) ==> answered is Review && answered->Review_0@ == review@,
        read is Err ==> answered is NotAnswered,
{
}

proof fn preferred_are(groups: Seq<Group>, served: Discovery)
    ensures
        preferred_versions(groups, served) == groups.filter_map(
            |group: Group|
                match served.preferred(group.name@) {
                    Some(version) => Some(
                        if group.name@.len() == 0 {
                            version
                        } else {
                            group.name@ + "/"@ + version
                        },
                    ),
                    None => None,
                },
        ),
    decreases groups.len(),
{
    let f = |group: Group|
        match served.preferred(group.name@) {
            Some(version) => Some(
                if group.name@.len() == 0 {
                    version
                } else {
                    group.name@ + "/"@ + version
                },
            ),
            None => None,
        };
    if groups.len() > 0 {
        preferred_are(groups.drop_last(), served);
    }
    assert(preferred_versions(groups, served) =~= groups.filter_map(f));
}

/// The versions a cluster prefers are those of every group that prefers one, in the order of the
/// groups.
pub proof fn every_group_that_prefers_a_version_is_asked(served: Discovery, versions: Vec<String>)
    requires
        call_ensures(preferred_group_versions, (&served,), versions),
    ensures
        views(versions@) == served.groups@.filter_map(
            |group: Group|
                match served.preferred(group.name@) {
                    Some(version) => Some(
                        if group.name@.len() == 0 {
                            version
                        } else {
                            group.name@ + "/"@ + version
                        },
                    ),
                    None => None,
                },
        ),
{
    preferred_are(served.groups@, served);
}

/// An inventory begins with nothing counted, nothing missing and nothing observed, and has observed
/// something once a group was asked for.
pub proof fn an_inventory_begins_with_nothing(fresh: Inventory, inventory: &mut Inventory)
    requires
        call_ensures(Inventory::new, (), fresh),
        call_ensures(Inventory::group_done, (inventory,), ()),
    ensures
        fresh.counted@.len() == 0,
        fresh.gaps@.len() == 0,
        !fresh.more_available,
        !fresh.observed,
        final(inventory).observed,
        final(inventory).more_available == old(inventory).more_available,
        final(inventory).counted@.len() == old(inventory).counted@.len(),
        final(inventory).gaps@.len() == old(inventory).gaps@.len(),
{
    assert(crate::planning::contained_views(final(inventory).counted@).len()
        == final(inventory).counted@.len());
    assert(crate::planning::contained_views(old(inventory).counted@).len()
        == old(inventory).counted@.len());
    assert(crate::coverage::gap_views(final(inventory).gaps@).len() == final(inventory).gaps@.len());
    assert(crate::coverage::gap_views(old(inventory).gaps@).len() == old(inventory).gaps@.len());
}

/// Evidence is read by its own target alone; and a search that saw no Event is told as a refusal of
/// this package, never as an absence.
pub proof fn only_its_own_target_reads_evidence(
    reads: crate::contributions::Reads,
    said: Result<(), WireError>,
    kind: &str,
    name: &str,
    outcome: &str,
    told: WireError,
)
    requires
        call_ensures(crate::evidence::reads_evidence, (reads,), said),
        call_ensures(crate::events::not_observed, (kind, name, outcome), told),
    ensures
        said is Ok <==> reads is Evidence,
        said is Err ==> said->Err_0.name@ == "provider.unsupported"@,
        told.name@ == "contribution.refused"@,
        told.message@ == crate::text::filled(
            "no Event regarding `{}/{}` was observed: {}"@,
            seq![kind@, name@, outcome@],
        ),
{
}

}
