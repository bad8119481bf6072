//! What finding and reading the objects of a query promises, and what the package declares of it.
//!
//! Each law here speaks of what a function was given and of what it returned.

use vstd::prelude::*;
use vstd::string::*;

use crate::contributions::{
    command, handler, target, target_row, Answer, Command, CommandContribution, Handler, Reads,
    SchemaContribution, Target, TargetContribution, TargetRow, Writes, TARGETS,
};
use crate::coverage::Outcome;
use crate::discovery::{Discovery, Resource, Scope, Verb};
use crate::dynamic::{
    picked, resolve, resolve_for, scope_word, shown_group, Selector, Unresolved,
};
use crate::emission::Invocation;
use crate::failure::WireError;
use crate::json::{entry, Json, JsonView};
use crate::order::sort_once;
use crate::parameters::{Parameter, ParameterContribution};
use crate::planning::{preferred_group_versions, Reading};
use crate::projection::{
    component_for, content, json_value, plain_value, typed_value, Content, Precision, ProjectedField,
    Projection, Typing,
};
use crate::query::{
    curated, curated_version, discovered, document, ending, gettable, listable, needed, not_fetched,
    one_object, optional_document, resolve_in, resource_list_path, route, search_space, Listed,
    Route,
};
use crate::reporting::is_of;
use crate::schemas::{schema_fields, FieldSet};
use crate::text::{lowered, views};
use crate::value::{FieldValue, ValueView};

verus! {

// --- which resource -------------------------------------------------------------------------------

/// Whether a resource goes by a name, in whatever case: its plural, or one of its short names.
pub open spec fn called(resource: Resource, name: Seq<char>) -> bool {
    ||| lowered(resource.plural@) == lowered(name)
    ||| exists|i: int|
        0 <= i < resource.short_names@.len() && lowered((#[trigger] resource.short_names@[i])@)
            == lowered(name)
}

/// Whether a resource is what a selector names: of its kind, called as it says, in its group and of
/// its version, as far as it names any of them.
pub open spec fn is_meant(selector: Selector, resource: Resource) -> bool {
    &&& selector.kind matches Some(kind) ==> resource.kind@ == kind@
    &&& selector.resource matches Some(name) ==> called(resource, name@)
    &&& selector.group matches Some(group) ==> resource.group@ == group@
    &&& selector.version matches Some(version) ==> resource.version@ == version@
}

/// A query that names a kind or a resource finds the one resource that is meant: it is served, it
/// offers what it is read for, and no other served resource is meant.
pub proof fn what_is_found_is_what_is_meant(
    selector: Selector,
    served: Discovery,
    verb: Verb,
    resolved: Result<&Resource, Unresolved>,
    read: Result<&Resource, WireError>,
)
    requires
        call_ensures(resolve_for, (&selector, &served, verb), resolved),
        call_ensures(resolve_in, (&selector, &served, verb), read),
    ensures
        resolved is Ok <==> read is Ok,
        resolved matches Err(unresolved) ==> read->Err_0.name@ == if unresolved is Unasked
            || unresolved is Ambiguous {
            "resolve.ambiguous"@
        } else {
            "provider.unsupported"@
        },
        resolved matches Ok(resource) ==> {
            &&& selector.kind is Some || selector.resource is Some
            &&& served.resources@.contains(*resource)
            &&& is_meant(selector, *resource)
            &&& verb == Verb::List || verb == Verb::Get ==> resource.verbs@.contains(verb)
            &&& forall|i: int|
                0 <= i < served.resources@.len() && is_meant(
                    selector,
                    #[trigger] served.resources@[i],
                ) ==> served.resources@[i] == *resource
            &&& read->Ok_0 == resource
        },
{
    if resolved is Ok {
        crate::dynamic::what_is_found_is_the_only_match(selector@, served.resources@, verb);
        meaning_is_picking(selector, *resolved->Ok_0);
        assert forall|i: int|
            0 <= i < served.resources@.len() && is_meant(
                selector,
                #[trigger] served.resources@[i],
            ) implies served.resources@[i] == *resolved->Ok_0 by {
            meaning_is_picking(selector, served.resources@[i]);
        }
    }
}

proof fn meaning_is_picking(selector: Selector, resource: Resource)
    ensures
        is_meant(selector, resource) <==> selector@.picks(resource),
{
}

/// A query that names nothing, one that means nothing served, one that means several, and one that
/// means what does not offer it are four refusals, each for its own reason.
pub proof fn what_is_not_found_is_told_apart(
    selector: Selector,
    served: Discovery,
    verb: Verb,
    resolved: Result<&Resource, Unresolved>,
)
    requires
        call_ensures(resolve_for, (&selector, &served, verb), resolved),
    ensures
        selector.kind is None && selector.resource is None ==> (resolved matches Err(
            Unresolved::Unasked,
        )),
        resolved matches Err(Unresolved::NotServed) ==> forall|i: int|
            0 <= i < served.resources@.len() ==> !is_meant(selector, #[trigger] served.resources@[i]),
        (selector.kind is Some || selector.resource is Some) && (forall|i: int|
            0 <= i < served.resources@.len() ==> !is_meant(selector, #[trigger] served.resources@[i]))
            ==> (resolved matches Err(Unresolved::NotServed)),
        resolved matches Err(Unresolved::NotListable { gvr }) ==> verb == Verb::List,
        resolved matches Err(Unresolved::NotGettable { gvr }) ==> verb == Verb::Get,
        (selector.kind is Some || selector.resource is Some) && (exists|i: int, j: int|
            0 <= i < j < served.resources@.len() && is_meant(
                selector,
                #[trigger] served.resources@[i],
            ) && is_meant(selector, #[trigger] served.resources@[j])) ==> (resolved matches Err(
            Unresolved::Ambiguous { candidates },
        )),
{
    let pass = |resource: Resource| selector@.picks(resource);
    let matched = picked(selector@, served.resources@);
    if resolved matches Err(Unresolved::NotServed) {
        assert forall|i: int| 0 <= i < served.resources@.len() implies !is_meant(
            selector,
            #[trigger] served.resources@[i],
        ) by {
            meaning_is_picking(selector, served.resources@[i]);
            if selector@.picks(served.resources@[i]) {
                served.resources@.lemma_filter_contains(pass, i);
            }
        }
    }
    if forall|i: int|
        0 <= i < served.resources@.len() ==> !is_meant(selector, #[trigger] served.resources@[i]) {
        if matched.len() > 0 {
            served.resources@.lemma_filter_pred(pass, 0);
            assert(matched.contains(matched[0]));
            served.resources@.lemma_filter_contains_rev(pass, matched[0]);
            let i = choose|i: int|
                0 <= i < served.resources@.len() && served.resources@[i] == matched[0];
            meaning_is_picking(selector, served.resources@[i]);
        }
    }
    if selector@.asks() && exists|i: int, j: int|
        0 <= i < j < served.resources@.len() && is_meant(selector, #[trigger] served.resources@[i])
            && is_meant(selector, #[trigger] served.resources@[j]) {
        let (i, j) = choose|i: int, j: int|
            0 <= i < j < served.resources@.len() && is_meant(
                selector,
                #[trigger] served.resources@[i],
            ) && is_meant(selector, #[trigger] served.resources@[j]);
        meaning_is_picking(selector, served.resources@[i]);
        meaning_is_picking(selector, served.resources@[j]);
        crate::dynamic::ambiguity_is_never_settled(selector@, served.resources@, verb, i, j);
    }
}

/// A resource looked for without a word on what for is looked for to be listed.
pub proof fn a_listing_is_what_is_usually_meant(
    selector: Selector,
    served: Discovery,
    plain: Result<&Resource, Unresolved>,
    listing: Result<&Resource, Unresolved>,
    read: Result<&Resource, WireError>,
)
    requires
        call_ensures(resolve, (&selector, &served), plain),
        call_ensures(resolve_for, (&selector, &served, Verb::List), listing),
        call_ensures(discovered, (&selector, &served), read),
    ensures
        plain is Ok <==> listing is Ok,
        plain is Ok <==> read is Ok,
        plain matches Ok(resource) ==> *resource == *listing->Ok_0 && *resource == *read->Ok_0,
{
}

/// A selector asks for something where it names a kind or a resource, and tells its group and its
/// version as they were given; a group is shown by its name, and the core group as that.
pub proof fn a_selector_tells_what_it_names(
    selector: Selector,
    asks: bool,
    group: Option<&str>,
    version: Option<&str>,
    name: &str,
    shown: String,
    scope: Scope,
    word: &'static str,
)
    requires
        call_ensures(Selector::names_something, (&selector,), asks),
        call_ensures(Selector::group, (&selector,), group),
        call_ensures(Selector::version, (&selector,), version),
        call_ensures(shown_group, (name,), shown),
        call_ensures(scope_word, (scope,), word),
    ensures
        asks <==> selector.kind is Some || selector.resource is Some,
        match selector.group {
            Some(text) => group is Some && group->0@ == text@,
            None => group is None,
        },
        match selector.version {
            Some(text) => version is Some && version->0@ == text@,
            None => version is None,
        },
        name@.len() == 0 ==> shown@ == "core"@,
        name@.len() > 0 ==> shown@ == name@,
        scope == Scope::Namespaced ==> word@ == "namespaced"@,
        scope == Scope::Cluster ==> word@ == "cluster"@,
{
}

/// A kind this package knows is read in the version its group prefers, where that serves it.
pub proof fn a_known_kind_is_read_where_it_is_served(
    served: Discovery,
    group: &str,
    kind: &str,
    preferred: Option<&str>,
    version: Result<String, WireError>,
    group_version: &str,
    resource: Result<&Resource, WireError>,
)
    requires
        call_ensures(Discovery::preferred_version, (&served, group), preferred),
        call_ensures(curated_version, (&served, group, kind), version),
        call_ensures(curated, (&served, group_version, kind), resource),
    ensures
        version is Ok <==> preferred is Some,
        version is Err ==> version->Err_0.name@ == "provider.unsupported"@,
        resource is Err ==> resource->Err_0.name@ == "provider.unsupported"@,
        version matches Ok(text) ==> text@ == if group@.len() == 0 {
            preferred->0@
        } else {
            group@ + "/"@ + preferred->0@
        },
        resource matches Ok(found) ==> is_of(*found, group_version@, kind@),
{
    first_found_is_of(served.resources@, group_version@, kind@);
}

proof fn first_found_is_of(resources: Seq<Resource>, group_version: Seq<char>, kind: Seq<char>)
    ensures
        crate::discovery::resource_of(resources, group_version, kind) matches Some(resource)
            ==> is_of(resource, group_version, kind),
    decreases resources.len(),
{
    if resources.len() > 0 {
        first_found_is_of(resources.skip(1), group_version, kind);
    }
}

/// A query that names a group and a version is looked for there alone, one that names a group in
/// the
/// version it prefers, and one that names a version without a group nowhere.
pub proof fn a_query_is_looked_for_where_it_says(
    served: Discovery,
    selector: Selector,
    space: Result<Vec<String>, WireError>,
    preferred: Vec<String>,
    once: Vec<String>,
)
    requires
        call_ensures(preferred_group_versions, (&served,), preferred),
        call_ensures(sort_once, (&preferred,), once),
        call_ensures(search_space, (&served, &selector), space),
    ensures
        selector.group is None && selector.version is Some ==> space is Err,
        space is Err ==> space->Err_0.name@ == "provider.unsupported"@,
        selector.group is Some && selector.version is Some ==> {
            let (group, version) = (selector.group->0@, selector.version->0@);
            &&& space is Ok <==> served.versions(group).contains(version)
            &&& space is Ok ==> space->Ok_0@.len() == 1 && space->Ok_0@[0]@ == if group.len() == 0 {
                version
            } else {
                group + "/"@ + version
            }
        },
        selector.group is Some && selector.version is None ==> {
            let group = selector.group->0@;
            &&& space is Ok <==> served.preferred(group) is Some
            &&& space is Ok ==> space->Ok_0@.len() == 1 && space->Ok_0@[0]@ == if group.len() == 0 {
                served.preferred(group)->0
            } else {
                group + "/"@ + served.preferred(group)->0
            }
        },
        selector.group is None && selector.version is None ==> space is Ok && views(space->Ok_0@)
            == views(once@),
{
    if let Ok(texts) = space {
        assert(views(texts@).len() == texts@.len());
        if selector.group is Some {
            assert(views(texts@)[0] == texts@[0]@);
        }
    }
}

// --- what is read ---------------------------------------------------------------------------------

/// A kind is read by its name in the table and anything else by what the query names; what is not a
/// collection is not read as one.
pub proof fn a_query_is_routed_by_what_it_reads(reads: Reads, routed: Result<Route, WireError>)
    requires
        reads is Kind || reads is Discovered || reads is Instance || reads is Relations,
        call_ensures(route, (reads,), routed),
    ensures
        reads is Kind ==> routed is Ok && routed->Ok_0 is Curated && routed->Ok_0->Curated_group
            == reads->Kind_group && routed->Ok_0->Curated_kind == reads->Kind_kind,
        reads is Discovered ==> routed is Ok && routed->Ok_0 is Discovered,
        reads is Instance || reads is Relations ==> routed is Err,
        routed is Err ==> routed->Err_0.name@ == "provider.unsupported"@,
{
}

/// An object that is named is read directly and everything else is listed, each only where the
/// cluster offers that.
pub proof fn a_named_object_is_read_directly(
    lookup: Option<String>,
    verb: Verb,
    resource: Resource,
    may_list: Result<(), WireError>,
    may_get: Result<(), WireError>,
)
    requires
        call_ensures(needed, (&lookup,), verb),
        call_ensures(listable, (&resource,), may_list),
        call_ensures(gettable, (&resource,), may_get),
    ensures
        lookup is Some ==> verb == Verb::Get,
        lookup is None ==> verb == Verb::List,
        may_list is Ok <==> resource.verbs@.contains(Verb::List),
        may_get is Ok <==> resource.verbs@.contains(Verb::Get),
        may_list is Err ==> may_list->Err_0.name@ == "provider.unsupported"@,
        may_get is Err ==> may_get->Err_0.name@ == "provider.unsupported"@,
{
}

/// Only an absence is an object that is not there; every other outcome of a direct read is a
/// failure, and a listing is no direct read.
pub proof fn only_an_absence_is_no_object(
    resource: Resource,
    scope: &str,
    name: &str,
    outcome: Outcome,
    word: &str,
    error: &str,
    said: Result<(), WireError>,
    reading: Reading,
    present: Result<bool, WireError>,
)
    requires
        call_ensures(not_fetched, (&resource, scope, name, outcome, word, error), said),
        call_ensures(one_object, (reading,), present),
    ensures
        said is Ok <==> outcome == Outcome::Absent,
        reading is Fetched ==> present == Ok::<bool, WireError>(true),
        reading is Absent ==> present == Ok::<bool, WireError>(false),
        reading is Listed ==> present is Err,
        said is Err ==> said->Err_0.name@ == "provider.unavailable"@,
        present is Err ==> present->Err_0.name@ == "provider.unavailable"@,
{
}

/// An answer is whole exactly where the listing covered what was asked in one observation, or where
/// nothing was listed; otherwise it fails, whatever was handed over.
pub proof fn an_answer_is_whole_where_the_listing_was(listed: Option<Listed>, ended: Invocation)
    requires
        call_ensures(ending, (&listed,), ended),
    ensures
        ended is Completed <==> (listed matches Some(read) ==> read.covered && read.intact),
        ended is Failed <==> (listed matches Some(read) && !(read.covered && read.intact)),
{
}

/// A document is its text where the server answered 200 with one, and is refused anywhere else; one
/// that may be missing is then missing.
pub proof fn a_document_is_its_text_or_refused(
    path: &str,
    status: u16,
    reason: &str,
    body: Vec<u8>,
    read: Result<String, WireError>,
    optional: Option<String>,
)
    requires
        call_ensures(document, (path, status, reason, body), read),
        call_ensures(optional_document, (status, body), optional),
    ensures
        read is Ok <==> status == 200 && vstd::utf8::valid_utf8(body@),
        read is Err ==> read->Err_0.name@ == "provider.unavailable"@,
        read matches Ok(text) ==> text@ == vstd::utf8::decode_utf8(body@),
        optional is Some <==> status == 200 && vstd::utf8::valid_utf8(body@),
        optional matches Some(text) ==> text@ == vstd::utf8::decode_utf8(body@),
{
}

/// The resource list of a group is looked for under `/apis`, and that of the core group under
/// `/api`.
pub proof fn a_resource_list_is_looked_for_by_its_group(group_version: &str, path: String)
    requires
        call_ensures(resource_list_path, (group_version,), path),
    ensures
        (forall|i: int| 0 <= i < group_version@.len() ==> group_version@[i] != '/') ==> path@
            == "/api/"@ + group_version@,
        (exists|i: int| 0 <= i < group_version@.len() && group_version@[i] == '/') ==> path@
            == "/apis/"@ + group_version@,
{
    crate::text::first_at_bounds(group_version@, '/');
}

// --- what is projected ----------------------------------------------------------------------------

/// A value of a document is shown as what it is: nothing is turned into text, and nothing is left
/// out of a list or of a map.
pub proof fn a_value_is_shown_as_what_it_is(json: Json, shown: FieldValue)
    requires
        call_ensures(json_value, (&json,), shown),
    ensures
        json@ is Null ==> shown@ is Null,
        json@ matches JsonView::Bool(flag) ==> shown@ == ValueView::Bool(flag),
        json@ matches JsonView::Integer(n) ==> if i64::MIN <= n <= i64::MAX {
            shown@ == ValueView::Int(n)
        } else {
            shown@ == ValueView::Nearest(n)
        },
        json@ matches JsonView::Fraction(n) ==> shown@ == ValueView::Float(n),
        json@ matches JsonView::Text(text) ==> shown@ == ValueView::Text(text),
        json@ matches JsonView::Array(items) ==> {
            &&& shown@ is List
            &&& shown@->List_0.len() == items.len()
            &&& forall|i: int|
                0 <= i < items.len() ==> #[trigger] shown@->List_0[i] == plain_value(items[i])
        },
        json@ matches JsonView::Object(members) ==> {
            &&& shown@ is Entries
            &&& shown@->Entries_0.len() == members.len()
            &&& forall|i: int|
                0 <= i < members.len() ==> #[trigger] shown@->Entries_0[i] == (
                    members[i].0,
                    plain_value(members[i].1),
                )
        },
{
}

/// Whether a schema says that an instant stands at a pointer.
pub open spec fn instant_stands_at(
    fields: Seq<ProjectedField>,
    pointer: Seq<char>,
    i: int,
) -> bool {
    &&& 0 <= i < fields.len()
    &&& fields[i].pointer@ == pointer
    &&& forall|j: int| 0 <= j < i ==> (#[trigger] fields[j]).pointer@ != pointer
    &&& fields[i].format matches Some(format) && format@ == "date-time"@
}

/// Typing a document changes nothing but which texts are instants: those at a pointer whose schema
/// says so.
pub proof fn typing_changes_only_instants(
    fields: Seq<ProjectedField>,
    pointer: Seq<char>,
    json: JsonView,
)
    ensures
        json is Null ==> typed_value(fields, pointer, json) is Null,
        json matches JsonView::Bool(flag) ==> typed_value(fields, pointer, json)
            == ValueView::Bool(flag),
        json is Integer || json is Fraction ==> typed_value(fields, pointer, json) == plain_value(
            json,
        ),
        json matches JsonView::Text(text) ==> {
            &&& (exists|i: int| instant_stands_at(fields, pointer, i)) ==> typed_value(
                fields,
                pointer,
                json,
            ) == ValueView::InstantOrText(text)
            &&& (forall|i: int|
                0 <= i < fields.len() ==> (#[trigger] fields[i]).pointer@ != pointer)
                ==> typed_value(fields, pointer, json) == ValueView::Text(text)
        },
        json matches JsonView::Array(items) ==> {
            &&& typed_value(fields, pointer, json) is List
            &&& typed_value(fields, pointer, json)->List_0.len() == items.len()
            &&& forall|i: int|
                0 <= i < items.len() ==> #[trigger] typed_value(fields, pointer, json)->List_0[i]
                    == typed_value(
                    fields,
                    pointer + "/"@ + crate::digits::decimal(i as nat),
                    items[i],
                )
        },
        json matches JsonView::Object(members) ==> {
            &&& typed_value(fields, pointer, json) is Entries
            &&& typed_value(fields, pointer, json)->Entries_0.len() == members.len()
            &&& forall|i: int|
                0 <= i < members.len() ==> #[trigger] typed_value(
                    fields,
                    pointer,
                    json,
                )->Entries_0[i] == (
                    members[i].0,
                    typed_value(
                        fields,
                        pointer + "/"@ + crate::pointer::escaped(members[i].0),
                        members[i].1,
                    ),
                )
        },
{
    if exists|i: int| instant_stands_at(fields, pointer, i) {
        let i = choose|i: int| instant_stands_at(fields, pointer, i);
        first_projected(fields, pointer, i);
    }
    if forall|i: int| 0 <= i < fields.len() ==> (#[trigger] fields[i]).pointer@ != pointer {
        first_projected(fields, pointer, fields.len() as int);
    }
}

proof fn first_projected(fields: Seq<ProjectedField>, pointer: Seq<char>, i: int)
    requires
        0 <= i <= fields.len(),
        forall|j: int| 0 <= j < i ==> (#[trigger] fields[j]).pointer@ != pointer,
        i < fields.len() ==> fields[i].pointer@ == pointer,
    ensures
        i < fields.len() ==> crate::projection::projected(fields, pointer) == Some(fields[i]),
        i == fields.len() ==> crate::projection::projected(fields, pointer) is None,
    decreases i,
{
    if i > 0 {
        assert(fields[0].pointer@ != pointer);
        assert forall|j: int| 0 <= j < i - 1 implies (#[trigger] fields.skip(1)[j]).pointer@
            != pointer by {
            assert(fields.skip(1)[j] == fields[j + 1]);
        }
        first_projected(fields.skip(1), pointer, i - 1);
    }
}

/// Whether a field counts for how well the content is known.
pub open spec fn is_content(field: ProjectedField) -> bool {
    field.intent is Desired || field.intent is Observed || field.intent is Unclassified
}

/// How well a precision knows a field.
pub open spec fn knows(precision: Precision) -> int {
    match precision {
        Precision::Unknown => 0,
        Precision::Loose => 1,
        Precision::Described => 2,
    }
}

proof fn least_is_least(fields: Seq<ProjectedField>)
    ensures
        match crate::projection::least(fields) {
            Some(precision) => {
                &&& forall|i: int|
                    0 <= i < fields.len() && is_content(#[trigger] fields[i]) ==> knows(precision)
                        <= knows(fields[i].precision)
                &&& exists|i: int|
                    0 <= i < fields.len() && is_content(#[trigger] fields[i])
                        && fields[i].precision == precision
            },
            None => forall|i: int| 0 <= i < fields.len() ==> !is_content(#[trigger] fields[i]),
        },
    decreases fields.len(),
{
    if fields.len() > 0 {
        let front = fields.drop_last();
        let last = fields[fields.len() - 1];
        least_is_least(front);
        assert forall|i: int| 0 <= i < front.len() implies #[trigger] front[i] == fields[i] by {}
        if let Some(precision) = crate::projection::least(fields) {
            assert forall|i: int|
                0 <= i < fields.len() && is_content(#[trigger] fields[i]) implies knows(precision)
                <= knows(fields[i].precision) by {
                if i < front.len() {
                    assert(front[i] == fields[i]);
                }
            }
            if is_content(last) && last.precision == precision {
                assert(fields[fields.len() - 1].precision == precision);
            } else {
                let i = choose|i: int|
                    0 <= i < front.len() && is_content(#[trigger] front[i]) && front[i].precision
                        == precision;
                assert(fields[i] == front[i]);
            }
        } else {
            assert forall|i: int| 0 <= i < fields.len() implies !is_content(#[trigger] fields[i]) by {
                if i < front.len() {
                    assert(front[i] == fields[i]);
                }
            }
        }
    }
}

proof fn untyped_are(fields: Seq<ProjectedField>)
    ensures
        crate::projection::untyped_pointers(fields) == fields.filter_map(
            |field: ProjectedField|
                if is_content(field) && field.precision is Unknown {
                    Some(field.pointer@)
                } else {
                    None
                },
        ),
    decreases fields.len(),
{
    let f = |field: ProjectedField|
        if is_content(field) && field.precision is Unknown {
            Some(field.pointer@)
        } else {
            None
        };
    if fields.len() > 0 {
        untyped_are(fields.drop_last());
    }
    assert(crate::projection::untyped_pointers(fields) =~= fields.filter_map(f));
}

proof fn others_are(fields: Seq<ProjectedField>, members: Seq<(Seq<char>, JsonView)>)
    ensures
        crate::projection::other_entries(fields, members) == members.filter_map(
            |member: (Seq<char>, JsonView)|
                if stands_elsewhere(member.0) {
                    None
                } else {
                    Some((member.0, typed_value(fields, "/"@ + member.0, member.1)))
                },
        ),
    decreases members.len(),
{
    let f = |member: (Seq<char>, JsonView)|
        if stands_elsewhere(member.0) {
            None
        } else {
            Some((member.0, typed_value(fields, "/"@ + member.0, member.1)))
        };
    if members.len() > 0 {
        others_are(fields, members.drop_last());
    }
    assert(crate::projection::other_entries(fields, members) =~= members.filter_map(f));
}

/// Whether a member of a document stands in a field of its own.
pub open spec fn stands_elsewhere(name: Seq<char>) -> bool {
    name == "apiVersion"@ || name == "kind"@ || name == "metadata"@ || name == "spec"@ || name
        == "status"@
}

/// What was asked of an object is its `spec`, what was observed of it is its `status`, and
/// everything
/// else of its content stands beside them, each typed at its own pointer; it is known as well as
/// the
/// least known of it, and what no schema describes is named.
pub proof fn content_is_kept_apart(projection: Projection, native: Json, shown: Content)
    requires
        call_ensures(content, (&projection, &native), shown),
    ensures
        match entry(native@, "spec"@) {
            Some(spec) => shown.desired@ == typed_value(projection.fields@, "/"@ + "spec"@, spec),
            None => shown.desired@ is Null,
        },
        match entry(native@, "status"@) {
            Some(status) => shown.observed@ == typed_value(
                projection.fields@,
                "/"@ + "status"@,
                status,
            ),
            None => shown.observed@ is Null,
        },
        native@ matches JsonView::Object(members) ==> {
            let others = members.filter_map(
                |member: (Seq<char>, JsonView)|
                    if stands_elsewhere(member.0) {
                        None
                    } else {
                        Some((member.0, typed_value(projection.fields@, "/"@ + member.0, member.1)))
                    },
            );
            &&& others.len() == 0 ==> shown.other@ is Null
            &&& others.len() > 0 ==> shown.other@ == ValueView::Entries(others)
        },
        views(shown.untyped@) == projection.fields@.filter_map(
            |field: ProjectedField|
                if is_content(field) && field.precision is Unknown {
                    Some(field.pointer@)
                } else {
                    None
                },
        ),
        forall|i: int|
            0 <= i < projection.fields@.len() && is_content(#[trigger] projection.fields@[i])
                ==> knows(shown.precision) <= knows(projection.fields@[i].precision),
        (exists|i: int|
            0 <= i < projection.fields@.len() && is_content(#[trigger] projection.fields@[i])
                && projection.fields@[i].precision == shown.precision) || shown.precision
            is Unknown,
{
    least_is_least(projection.fields@);
    untyped_are(projection.fields@);
    if let JsonView::Object(members) = native@ {
        others_are(projection.fields@, members);
    }
}

/// The component that types a kind is one that a published document says is that kind.
pub proof fn a_kind_is_typed_by_its_own_component(
    published: Json,
    group: &str,
    version: &str,
    kind: &str,
    component: Option<&Json>,
)
    requires
        call_ensures(component_for, (&published, group, version, kind), component),
    ensures
        component matches Some(found) ==> says_it_is(found@, group@, version@, kind@),
        entry(published@, "components"@) is None ==> component is None,
{
    if let Some(components) = entry(published@, "components"@) {
        if let Some(JsonView::Object(schemas)) = entry(components, "schemas"@) {
            declaring_says_so(schemas, group@, version@, kind@);
        }
    }
}

/// The text under a name, or none of it.
pub open spec fn text_or_nothing(json: JsonView, name: Seq<char>) -> Seq<char> {
    match entry(json, name) {
        Some(JsonView::Text(text)) => text,
        _ => Seq::empty(),
    }
}

/// Whether a declaration names a kind, in its group and of its version.
pub open spec fn names(
    declared: JsonView,
    group: Seq<char>,
    version: Seq<char>,
    kind: Seq<char>,
) -> bool {
    &&& text_or_nothing(declared, "group"@) == group
    &&& text_or_nothing(declared, "version"@) == version
    &&& text_or_nothing(declared, "kind"@) == kind
}

/// Whether a component says it is a kind: by one declaration, or by one of several.
pub open spec fn says_it_is(
    component: JsonView,
    group: Seq<char>,
    version: Seq<char>,
    kind: Seq<char>,
) -> bool {
    match entry(component, "x-kubernetes-group-version-kind"@) {
        Some(JsonView::Array(declared)) => exists|i: int|
            0 <= i < declared.len() && names(#[trigger] declared[i], group, version, kind),
        Some(JsonView::Object(members)) => names(JsonView::Object(members), group, version, kind),
        _ => false,
    }
}

proof fn declaring_says_so(
    members: Seq<(Seq<char>, JsonView)>,
    group: Seq<char>,
    version: Seq<char>,
    kind: Seq<char>,
)
    ensures
        crate::projection::declaring(members, group, version, kind) matches Some(found)
            ==> says_it_is(found, group, version, kind),
    decreases members.len(),
{
    if members.len() > 0 {
        if crate::projection::declares_kind(members[0].1, group, version, kind) {
            if let Some(JsonView::Array(declared)) = entry(
                members[0].1,
                "x-kubernetes-group-version-kind"@,
            ) {
                let i = choose|i: int|
                    0 <= i < declared.len() && crate::projection::names_kind(
                        #[trigger] declared[i],
                        group,
                        version,
                        kind,
                    );
                assert(names(declared[i], group, version, kind));
            }
        } else {
            declaring_says_so(members.skip(1), group, version, kind);
        }
    }
}

/// A kind is typed by the rendered component of a published document, and by nothing where none was
/// published, it does not read, or no component is of the kind.
pub proof fn a_kind_is_typed_where_it_is_published(
    text: Option<&str>,
    group: &str,
    version: &str,
    kind: &str,
    typing: Typing,
    none: Typing,
    precision: Precision,
    word: &'static str,
)
    requires
        call_ensures(Typing::of, (text, group, version, kind), typing),
        call_ensures(Typing::absent, (), none),
        call_ensures(Precision::as_str, (precision,), word),
    ensures
        text is None ==> typing.component is None,
        text matches Some(held) ==> (crate::document::parsed(held@) is None ==> typing.component
            is None),
        typing.component matches Some(shown) ==> exists|component: JsonView|
            says_it_is(component, group@, version@, kind@) && shown@
                == #[trigger] crate::document::rendered(component),
        none.component is None,
        word@ == match precision {
            Precision::Unknown => "unknown"@,
            Precision::Loose => "loose"@,
            Precision::Described => "structural"@,
        },
{
    if let Some(shown) = typing.component {
        let json = crate::document::parsed(text->0@)->0;
        let component = crate::projection::component(json, group@, version@, kind@)->0;
        let schemas = entry(entry(json, "components"@)->0, "schemas"@)->0->Object_0;
        declaring_says_so(schemas, group@, version@, kind@);
        assert(says_it_is(component, group@, version@, kind@));
    }
}

/// The document that types a resource is looked for under its own group and version.
pub proof fn a_typing_is_looked_for_by_its_group(resource: Resource, path: String)
    requires
        call_ensures(crate::query::typing_path, (&resource,), path),
    ensures
        resource.group@.len() == 0 ==> path@ == crate::text::filled(
            "/openapi/v3/api/{}"@,
            seq![resource.version@],
        ),
        resource.group@.len() > 0 ==> path@ == crate::text::filled(
            "/openapi/v3/apis/{}/{}"@,
            seq![resource.group@, resource.version@],
        ),
{
}

/// A selector is spelled by what it names, and a cluster's catalogue has a line for every group
/// that
/// serves something that may be listed.
pub proof fn a_selector_is_spelled_by_what_it_names(
    selector: Selector,
    spelled: String,
    served: Discovery,
    lines: Vec<String>,
)
    requires
        call_ensures(Selector::spelling, (&selector,), spelled),
        call_ensures(crate::dynamic::catalogue, (&served,), lines),
    ensures
        selector.kind is Some && selector.resource is None ==> spelled@ == crate::text::filled(
            "kind `{}`"@,
            seq![selector.kind->0@],
        ),
        selector.kind is None && selector.resource is Some ==> spelled@ == crate::text::filled(
            "resource `{}`"@,
            seq![selector.resource->0@],
        ),
        selector.kind is Some && selector.resource is Some ==> spelled@ == crate::text::filled(
            "kind `{}` and resource `{}`"@,
            seq![selector.kind->0@, selector.resource->0@],
        ),
        selector.kind is None && selector.resource is None ==> spelled@ == "nothing"@,
        views(lines@).len() == lines@.len(),
{
}

/// A cluster's catalogue has one line for every group that serves something that may be listed, in
/// order, and each line has every such kind of its group, in order.
pub proof fn a_catalogue_has_what_may_be_listed(
    served: Discovery,
    lines: Vec<String>,
    groups: Vec<String>,
    in_order: Vec<String>,
    place: int,
    kinds: Vec<String>,
    listed: Vec<String>,
)
    requires
        call_ensures(crate::dynamic::catalogue, (&served,), lines),
        call_ensures(sort_once, (&groups,), in_order),
        call_ensures(sort_once, (&kinds,), listed),
        forall|group: Seq<char>| #[trigger]
            views(groups@).contains(group) <==> exists|i: int|
                0 <= i < served.resources@.len() && (
                #[trigger] served.resources@[i]).verbs@.contains(Verb::List)
                    && served.resources@[i].group@ == group,
        0 <= place < in_order@.len(),
        forall|kind: Seq<char>| #[trigger]
            views(kinds@).contains(kind) <==> exists|i: int|
                0 <= i < served.resources@.len() && (
                #[trigger] served.resources@[i]).verbs@.contains(Verb::List)
                    && served.resources@[i].group@ == in_order@[place]@
                    && served.resources@[i].kind@ == kind,
    ensures
        lines@.len() == in_order@.len(),
        lines@[place]@ == crate::text::filled(
            "{}: {}"@,
            seq![
                if in_order@[place]@.len() == 0 {
                    "core"@
                } else {
                    in_order@[place]@
                },
                crate::text::joined(views(listed@), ", "@),
            ],
        ),
{
    let resources = served.resources@;
    let group = in_order@[place]@;
    assert(views(groups@).to_set() =~= crate::dynamic::listable_groups(resources));
    assert(views(kinds@).to_set() =~= crate::dynamic::listable_kinds(resources, group));
    let shown = crate::dynamic::catalogue_lines(resources);
    assert(views(lines@) == shown);
    assert(views(lines@).len() == lines@.len());
    assert(views(in_order@).len() == in_order@.len());
    assert(views(in_order@)[place] == group);
    assert(shown[place] == crate::dynamic::catalogue_line(resources, group));
    assert(views(lines@)[place] == lines@[place]@);
}

// --- what is declared -----------------------------------------------------------------------------

/// A reading is of a group and of a kind where it is of one, and of none where it is not; the
/// records
/// of a target are told apart by the names of its own identity.
pub proof fn a_reading_names_its_kind(
    reads: Reads,
    group: Option<&'static str>,
    kind: Option<&'static str>,
    held: Target,
    identity: Vec<&'static str>,
)
    requires
        call_ensures(Reads::group, (reads,), group),
        call_ensures(Reads::kind, (reads,), kind),
        call_ensures(Target::identity_fields, (&held,), identity),
    ensures
        reads is Kind ==> group == Some(reads->Kind_group) && kind == Some(reads->Kind_kind),
        !(reads is Kind) ==> group is None && kind is None,
        identity@ == match held.reads {
            Reads::Relations => seq!["uid", "relation", "target", "evidence_path"],
            Reads::Changes => seq!["resource", "segment", "change", "uid", "resource_version"],
            Reads::Evidence => seq!["uid", "key", "source"],
            Reads::Logs => seq!["uid", "container", "instance", "line"],
            Reads::Timeline => seq!["uid", "source", "clock", "stamp", "detail"],
            Reads::Why => seq!["uid", "claim", "support"],
            Reads::Conditions => seq!["uid", "condition_type"],
            Reads::Plan => seq!["uid", "resource_version", "action", "changes"],
            _ => seq!["uid"],
        },
{
    assert(identity@ =~= match held.reads {
        Reads::Relations => seq!["uid", "relation", "target", "evidence_path"],
        Reads::Changes => seq!["resource", "segment", "change", "uid", "resource_version"],
        Reads::Evidence => seq!["uid", "key", "source"],
        Reads::Logs => seq!["uid", "container", "instance", "line"],
        Reads::Timeline => seq!["uid", "source", "clock", "stamp", "detail"],
        Reads::Why => seq!["uid", "claim", "support"],
        Reads::Conditions => seq!["uid", "condition_type"],
        Reads::Plan => seq!["uid", "resource_version", "action", "changes"],
        _ => seq!["uid"],
    });
}

/// Each thing that is read is answered by the handler of its own, and every kind by the query.
pub proof fn each_reading_has_its_handler(reads: Reads, answers: Handler)
    requires
        call_ensures(handler, (reads,), answers),
    ensures
        reads is Instance <==> answers is Cluster,
        reads is Relations <==> answers is Relations,
        reads is Changes <==> answers is Changes,
        reads is Plan <==> answers is Planning,
        reads is Events <==> answers is Events,
        reads is Evidence <==> answers is Evidence,
        reads is Logs <==> answers is Logs,
        reads is Timeline <==> answers is Timeline,
        reads is Why <==> answers is Why,
        reads is Conditions <==> answers is Conditions,
        reads is Kind || reads is Discovered <==> answers is Query,
{
}

/// A target is contributed as it is: its name, its schema and every option it takes, in order; only
/// a
/// watch and a log may go on without end.
pub proof fn a_target_is_contributed_as_it_is(
    held: Target,
    contributed: TargetContribution,
    schema: SchemaContribution,
    options: Vec<Parameter>,
    answer: Answer,
)
    requires
        call_ensures(Target::target_contribution, (&held,), contributed),
        call_ensures(Target::schema_contribution, (&held,), schema),
        call_ensures(Target::options, (&held,), options),
        call_ensures(Target::answer, (&held,), answer),
    ensures
        contributed.name@ == held.name@,
        contributed.schema@ == held.schema@,
        contributed.summary@ == held.summary@,
        contributed.options@.len() == options@.len(),
        forall|i: int|
            0 <= i < options@.len() ==> (#[trigger] contributed.options@[i]).name@
                == options@[i].name@ && contributed.options@[i].declared_type@
                == options@[i].declared_type@ && contributed.options@[i].repeatable
                == options@[i].repeatable,
        contributed.answer == answer,
        answer is Unbounded <==> held.reads is Changes || held.reads is Logs,
        schema.id@ == held.schema@,
        schema.fields@.len() == held.fields@.len(),
        forall|i: int|
            0 <= i < held.fields@.len() ==> (#[trigger] schema.fields@[i]).name@
                == held.fields@[i].name@ && schema.fields@[i].field_type@
                == held.fields@[i].field_type@ && schema.fields@[i].required
                == held.fields@[i].required && schema.fields@[i].nullable
                != held.fields@[i].required,
{
    assert forall|i: int| 0 <= i < options@.len() implies (
    #[trigger] contributed.options@[i]).name@ == options@[i].name@
        && contributed.options@[i].declared_type@ == options@[i].declared_type@
        && contributed.options@[i].repeatable == options@[i].repeatable by {
        assert(options@[i].contributed_as(contributed.options@[i]));
    }
}

/// An argument is contributed as it is declared: its name, its type, what it says, whether it may
/// be
/// given more than once, and the default it has.
pub proof fn an_argument_is_contributed_as_it_is(
    name: &'static str,
    kind: &'static str,
    says: &'static str,
    default: &'static str,
    once: Parameter,
    often: Parameter,
    usual: Parameter,
    held: Parameter,
    contributed: ParameterContribution,
)
    requires
        call_ensures(Parameter::new, (name, kind, says), once),
        call_ensures(Parameter::repeatable, (name, kind, says), often),
        call_ensures(Parameter::defaulting, (name, kind, says, default), usual),
        call_ensures(Parameter::contribution, (&held,), contributed),
    ensures
        once.name == name && once.declared_type == kind && once.doc == says && once.default is None
            && !once.repeatable,
        often.name == name && often.declared_type == kind && often.doc == says && often.default
            is None && often.repeatable,
        usual.name == name && usual.declared_type == kind && usual.doc == says && usual.default
            == Some(default) && !usual.repeatable,
        contributed.name@ == held.name@,
        contributed.declared_type@ == held.declared_type@,
        contributed.doc@ == held.doc@,
        contributed.repeatable == held.repeatable,
        !contributed.optional_value,
        match held.default {
            Some(text) => contributed.default is Some && contributed.default->0@ == JsonView::Text(
                text@,
            ),
            None => contributed.default is None,
        },
{
}

/// A command is contributed as it is: under its own id, with its verb, its target and its risk, and
/// with what it answers with.
pub proof fn a_command_is_contributed_as_it_is(
    held: Command,
    contributed: CommandContribution,
    id: String,
)
    requires
        call_ensures(Command::contribution, (&held,), contributed),
        call_ensures(Command::id, (&held,), id),
    ensures
        id@ == "io.github.godspeed-you.kubernetes"@ + ".command."@ + held.name@,
        contributed.id@ == id@,
        contributed.verb@ == held.verb@,
        contributed.target@ == held.target@,
        contributed.summary@ == held.summary@,
        contributed.output@ == "stream<"@ + held.schema@ + ">"@,
        contributed.risk matches Some(risk) && risk@ == held.risk@,
        contributed.input is None,
{
}

/// The word `set` changes fields and is a mutation; the word `remove` deletes the object and is
/// destructive; both are about any resource, answer with an attempt, and there is no third.
pub proof fn each_command_writes_what_it_says(name: &str, found: Option<Command>)
    requires
        call_ensures(command, (name,), found),
    ensures
        name@ == "set-k8s-resource"@ ==> found is Some && found->0.writes == Writes::Fields
            && found->0.verb@ == "set"@ && found->0.risk@ == "mutate"@,
        name@ == "remove-k8s-resource"@ ==> found is Some && found->0.writes == Writes::Object
            && found->0.verb@ == "remove"@ && found->0.risk@ == "destructive"@,
        found matches Some(held) ==> held.target@ == "k8s-resource"@ && held.schema@
            == "io.github.godspeed-you.kubernetes.mutation/1"@,
        name@ != "set-k8s-resource"@ && name@ != "remove-k8s-resource"@ ==> found is None,
{
    reveal_strlit("set-k8s-resource");
    reveal_strlit("remove-k8s-resource");
    assert("set-k8s-resource"@.len() == 16 && "remove-k8s-resource"@.len() == 19);
    reveal_with_fuel(crate::contributions::command_row, 3);
}

proof fn target_names_differ()
    ensures
        forall|i: int, j: int|
            0 <= i < j < TARGETS@.len() ==> (#[trigger] TARGETS@[i]).0@ != (#[trigger] TARGETS@[j]).0@,
{
    reveal_strlit("k8s-namespace");
    reveal_strlit("k8s-node");
    reveal_strlit("k8s-pod");
    reveal_strlit("k8s-deployment");
    reveal_strlit("k8s-replicaset");
    reveal_strlit("k8s-statefulset");
    reveal_strlit("k8s-daemonset");
    reveal_strlit("k8s-service");
    reveal_strlit("k8s-endpointslice");
    reveal_strlit("k8s-ingress");
    reveal_strlit("k8s-job");
    reveal_strlit("k8s-cronjob");
    reveal_strlit("k8s-configmap");
    reveal_strlit("k8s-secret");
    reveal_strlit("k8s-serviceaccount");
    reveal_strlit("k8s-persistentvolumeclaim");
    reveal_strlit("k8s-persistentvolume");
    reveal_strlit("k8s-storageclass");
    reveal_strlit("k8s-networkpolicy");
    reveal_strlit("k8s-resource");
    reveal_strlit("k8s-relation");
    reveal_strlit("k8s-change");
    reveal_strlit("k8s-event");
    reveal_strlit("k8s-evidence");
    reveal_strlit("k8s-log");
    reveal_strlit("k8s-timeline");
    reveal_strlit("k8s-why");
    reveal_strlit("k8s-condition");
    reveal_strlit("k8s-cluster");
    reveal_strlit("k8s-plan");
    assert("k8s-namespace"@.len() == 13 && "k8s-namespace"@[7] == 'e');
    assert("k8s-node"@.len() == 8 && "k8s-node"@[4] == 'n');
    assert("k8s-pod"@.len() == 7 && "k8s-pod"@[4] == 'p');
    assert("k8s-deployment"@.len() == 14 && "k8s-deployment"@[4] == 'd');
    assert("k8s-replicaset"@.len() == 14 && "k8s-replicaset"@[4] == 'r');
    assert("k8s-statefulset"@.len() == 15);
    assert("k8s-daemonset"@.len() == 13 && "k8s-daemonset"@[7] == 'm');
    assert("k8s-service"@.len() == 11 && "k8s-service"@[5] == 'e');
    assert("k8s-endpointslice"@.len() == 17 && "k8s-endpointslice"@[4] == 'e');
    assert("k8s-ingress"@.len() == 11 && "k8s-ingress"@[5] == 'n');
    assert("k8s-job"@.len() == 7 && "k8s-job"@[4] == 'j');
    assert("k8s-cronjob"@.len() == 11 && "k8s-cronjob"@[5] == 'r');
    assert("k8s-configmap"@.len() == 13 && "k8s-configmap"@[7] == 'f');
    assert("k8s-secret"@.len() == 10 && "k8s-secret"@[4] == 's');
    assert("k8s-serviceaccount"@.len() == 18);
    assert("k8s-persistentvolumeclaim"@.len() == 25);
    assert("k8s-persistentvolume"@.len() == 20);
    assert("k8s-storageclass"@.len() == 16);
    assert("k8s-networkpolicy"@.len() == 17 && "k8s-networkpolicy"@[4] == 'n');
    assert("k8s-resource"@.len() == 12 && "k8s-resource"@[6] == 's');
    assert("k8s-relation"@.len() == 12 && "k8s-relation"@[6] == 'l');
    assert("k8s-change"@.len() == 10 && "k8s-change"@[4] == 'c');
    assert("k8s-event"@.len() == 9);
    assert("k8s-evidence"@.len() == 12 && "k8s-evidence"@[6] == 'i');
    assert("k8s-log"@.len() == 7 && "k8s-log"@[4] == 'l');
    assert("k8s-timeline"@.len() == 12 && "k8s-timeline"@[6] == 'm');
    assert("k8s-why"@.len() == 7 && "k8s-why"@[4] == 'w');
    assert("k8s-condition"@.len() == 13 && "k8s-condition"@[7] == 'd');
    assert("k8s-cluster"@.len() == 11 && "k8s-cluster"@[5] == 'l');
    assert("k8s-plan"@.len() == 8 && "k8s-plan"@[4] == 'p');
}

proof fn first_target_is_found(rows: Seq<TargetRow>, k: int)
    requires
        0 <= k < rows.len(),
        forall|j: int| 0 <= j < k ==> (#[trigger] rows[j]).0@ != rows[k].0@,
    ensures
        target_row(rows, rows[k].0@) == Some(rows[k]),
    decreases k,
{
    if k > 0 {
        assert(rows[0].0@ != rows[k].0@);
        assert forall|j: int| 0 <= j < k - 1 implies (#[trigger] rows.skip(1)[j]).0@
            != rows.skip(1)[k - 1].0@ by {
            assert(rows.skip(1)[j] == rows[j + 1]);
        }
        first_target_is_found(rows.skip(1), k - 1);
    }
}

proof fn target_is_its_row(name: &str, found: Option<Target>, k: int)
    requires
        call_ensures(target, (name,), found),
        0 <= k < TARGETS@.len(),
        name@ == TARGETS@[k].0@,
    ensures
        found is Some,
        found->0.is_row(TARGETS@[k]),
{
    target_names_differ();
    first_target_is_found(TARGETS@, k);
}

/// Whether a target reads the objects of one kind, under one schema.
pub open spec fn reads_kind(
    found: Option<Target>,
    group: Seq<char>,
    kind: Seq<char>,
    schema: Seq<char>,
    set: FieldSet,
) -> bool {
    &&& found is Some
    &&& found->0.reads is Kind
    &&& found->0.reads->Kind_group@ == group
    &&& found->0.reads->Kind_kind@ == kind
    &&& found->0.schema@ == schema
    &&& found->0.fields@ == schema_fields(set)
}

/// Whether a target reads something of its own, under one schema.
pub open spec fn reads_own(
    found: Option<Target>,
    reads: Reads,
    schema: Seq<char>,
    set: FieldSet,
) -> bool {
    &&& found is Some
    &&& found->0.reads == reads
    &&& found->0.schema@ == schema
    &&& found->0.fields@ == schema_fields(set)
}

/// Each target reads the kind it is named after, in its own group, and shows it under its own
/// schema.
pub proof fn each_target_reads_its_kind(name: &str, found: Option<Target>)
    requires
        call_ensures(target, (name,), found),
    ensures
        name@ == "k8s-namespace"@ ==> reads_kind(
            found,
            ""@,
            "Namespace"@,
            "io.github.godspeed-you.kubernetes.namespace/1"@,
            FieldSet::Namespace,
        ),
        name@ == "k8s-node"@ ==> reads_kind(
            found,
            ""@,
            "Node"@,
            "io.github.godspeed-you.kubernetes.node/1"@,
            FieldSet::Node,
        ),
        name@ == "k8s-pod"@ ==> reads_kind(
            found,
            ""@,
            "Pod"@,
            "io.github.godspeed-you.kubernetes.pod/1"@,
            FieldSet::Pod,
        ),
        name@ == "k8s-deployment"@ ==> reads_kind(
            found,
            "apps"@,
            "Deployment"@,
            "io.github.godspeed-you.kubernetes.deployment/1"@,
            FieldSet::Deployment,
        ),
        name@ == "k8s-replicaset"@ ==> reads_kind(
            found,
            "apps"@,
            "ReplicaSet"@,
            "io.github.godspeed-you.kubernetes.replicaset/1"@,
            FieldSet::ReplicaSet,
        ),
        name@ == "k8s-statefulset"@ ==> reads_kind(
            found,
            "apps"@,
            "StatefulSet"@,
            "io.github.godspeed-you.kubernetes.statefulset/1"@,
            FieldSet::StatefulSet,
        ),
        name@ == "k8s-daemonset"@ ==> reads_kind(
            found,
            "apps"@,
            "DaemonSet"@,
            "io.github.godspeed-you.kubernetes.daemonset/1"@,
            FieldSet::DaemonSet,
        ),
        name@ == "k8s-service"@ ==> reads_kind(
            found,
            ""@,
            "Service"@,
            "io.github.godspeed-you.kubernetes.service/1"@,
            FieldSet::Service,
        ),
        name@ == "k8s-endpointslice"@ ==> reads_kind(
            found,
            "discovery.k8s.io"@,
            "EndpointSlice"@,
            "io.github.godspeed-you.kubernetes.endpointslice/1"@,
            FieldSet::EndpointSlice,
        ),
        name@ == "k8s-ingress"@ ==> reads_kind(
            found,
            "networking.k8s.io"@,
            "Ingress"@,
            "io.github.godspeed-you.kubernetes.ingress/1"@,
            FieldSet::Ingress,
        ),
        name@ == "k8s-job"@ ==> reads_kind(
            found,
            "batch"@,
            "Job"@,
            "io.github.godspeed-you.kubernetes.job/1"@,
            FieldSet::Job,
        ),
        name@ == "k8s-cronjob"@ ==> reads_kind(
            found,
            "batch"@,
            "CronJob"@,
            "io.github.godspeed-you.kubernetes.cronjob/1"@,
            FieldSet::CronJob,
        ),
        name@ == "k8s-configmap"@ ==> reads_kind(
            found,
            ""@,
            "ConfigMap"@,
            "io.github.godspeed-you.kubernetes.configmap/1"@,
            FieldSet::ConfigMap,
        ),
        name@ == "k8s-secret"@ ==> reads_kind(
            found,
            ""@,
            "Secret"@,
            "io.github.godspeed-you.kubernetes.secret/1"@,
            FieldSet::Secret,
        ),
        name@ == "k8s-serviceaccount"@ ==> reads_kind(
            found,
            ""@,
            "ServiceAccount"@,
            "io.github.godspeed-you.kubernetes.serviceaccount/1"@,
            FieldSet::ServiceAccount,
        ),
        name@ == "k8s-persistentvolumeclaim"@ ==> reads_kind(
            found,
            ""@,
            "PersistentVolumeClaim"@,
            "io.github.godspeed-you.kubernetes.persistentvolumeclaim/1"@,
            FieldSet::PersistentVolumeClaim,
        ),
        name@ == "k8s-persistentvolume"@ ==> reads_kind(
            found,
            ""@,
            "PersistentVolume"@,
            "io.github.godspeed-you.kubernetes.persistentvolume/1"@,
            FieldSet::PersistentVolume,
        ),
        name@ == "k8s-storageclass"@ ==> reads_kind(
            found,
            "storage.k8s.io"@,
            "StorageClass"@,
            "io.github.godspeed-you.kubernetes.storageclass/1"@,
            FieldSet::StorageClass,
        ),
        name@ == "k8s-networkpolicy"@ ==> reads_kind(
            found,
            "networking.k8s.io"@,
            "NetworkPolicy"@,
            "io.github.godspeed-you.kubernetes.networkpolicy/1"@,
            FieldSet::NetworkPolicy,
        ),
{
    if name@ == "k8s-namespace"@ {
        target_is_its_row(name, found, 0);
    }
    if name@ == "k8s-node"@ {
        target_is_its_row(name, found, 1);
    }
    if name@ == "k8s-pod"@ {
        target_is_its_row(name, found, 2);
    }
    if name@ == "k8s-deployment"@ {
        target_is_its_row(name, found, 3);
    }
    if name@ == "k8s-replicaset"@ {
        target_is_its_row(name, found, 4);
    }
    if name@ == "k8s-statefulset"@ {
        target_is_its_row(name, found, 5);
    }
    if name@ == "k8s-daemonset"@ {
        target_is_its_row(name, found, 6);
    }
    if name@ == "k8s-service"@ {
        target_is_its_row(name, found, 7);
    }
    if name@ == "k8s-endpointslice"@ {
        target_is_its_row(name, found, 8);
    }
    if name@ == "k8s-ingress"@ {
        target_is_its_row(name, found, 9);
    }
    if name@ == "k8s-job"@ {
        target_is_its_row(name, found, 10);
    }
    if name@ == "k8s-cronjob"@ {
        target_is_its_row(name, found, 11);
    }
    if name@ == "k8s-configmap"@ {
        target_is_its_row(name, found, 12);
    }
    if name@ == "k8s-secret"@ {
        target_is_its_row(name, found, 13);
    }
    if name@ == "k8s-serviceaccount"@ {
        target_is_its_row(name, found, 14);
    }
    if name@ == "k8s-persistentvolumeclaim"@ {
        target_is_its_row(name, found, 15);
    }
    if name@ == "k8s-persistentvolume"@ {
        target_is_its_row(name, found, 16);
    }
    if name@ == "k8s-storageclass"@ {
        target_is_its_row(name, found, 17);
    }
    if name@ == "k8s-networkpolicy"@ {
        target_is_its_row(name, found, 18);
    }
}

/// Each target that is about something else than a kind reads that, and shows it under its own
/// schema.
pub proof fn each_other_target_reads_its_own(name: &str, found: Option<Target>)
    requires
        call_ensures(target, (name,), found),
    ensures
        name@ == "k8s-resource"@ ==> reads_own(
            found,
            Reads::Discovered,
            "io.github.godspeed-you.kubernetes.resource/1"@,
            FieldSet::Resource,
        ),
        name@ == "k8s-relation"@ ==> reads_own(
            found,
            Reads::Relations,
            "io.github.godspeed-you.kubernetes.relation/1"@,
            FieldSet::Relation,
        ),
        name@ == "k8s-change"@ ==> reads_own(
            found,
            Reads::Changes,
            "io.github.godspeed-you.kubernetes.change/1"@,
            FieldSet::Change,
        ),
        name@ == "k8s-event"@ ==> reads_own(
            found,
            Reads::Events,
            "io.github.godspeed-you.kubernetes.event/1"@,
            FieldSet::Event,
        ),
        name@ == "k8s-evidence"@ ==> reads_own(
            found,
            Reads::Evidence,
            "io.github.godspeed-you.kubernetes.evidence/1"@,
            FieldSet::Evidence,
        ),
        name@ == "k8s-log"@ ==> reads_own(
            found,
            Reads::Logs,
            "io.github.godspeed-you.kubernetes.log/1"@,
            FieldSet::Log,
        ),
        name@ == "k8s-timeline"@ ==> reads_own(
            found,
            Reads::Timeline,
            "io.github.godspeed-you.kubernetes.timeline/1"@,
            FieldSet::Timeline,
        ),
        name@ == "k8s-why"@ ==> reads_own(
            found,
            Reads::Why,
            "io.github.godspeed-you.kubernetes.why/1"@,
            FieldSet::Why,
        ),
        name@ == "k8s-condition"@ ==> reads_own(
            found,
            Reads::Conditions,
            "io.github.godspeed-you.kubernetes.condition/1"@,
            FieldSet::Condition,
        ),
        name@ == "k8s-cluster"@ ==> reads_own(
            found,
            Reads::Instance,
            "io.github.godspeed-you.kubernetes.cluster/1"@,
            FieldSet::Cluster,
        ),
        name@ == "k8s-plan"@ ==> reads_own(
            found,
            Reads::Plan,
            "io.github.godspeed-you.kubernetes.plan/1"@,
            FieldSet::Plan,
        ),
{
    if name@ == "k8s-resource"@ {
        target_is_its_row(name, found, 19);
    }
    if name@ == "k8s-relation"@ {
        target_is_its_row(name, found, 20);
    }
    if name@ == "k8s-change"@ {
        target_is_its_row(name, found, 21);
    }
    if name@ == "k8s-event"@ {
        target_is_its_row(name, found, 22);
    }
    if name@ == "k8s-evidence"@ {
        target_is_its_row(name, found, 23);
    }
    if name@ == "k8s-log"@ {
        target_is_its_row(name, found, 24);
    }
    if name@ == "k8s-timeline"@ {
        target_is_its_row(name, found, 25);
    }
    if name@ == "k8s-why"@ {
        target_is_its_row(name, found, 26);
    }
    if name@ == "k8s-condition"@ {
        target_is_its_row(name, found, 27);
    }
    if name@ == "k8s-cluster"@ {
        target_is_its_row(name, found, 28);
    }
    if name@ == "k8s-plan"@ {
        target_is_its_row(name, found, 29);
    }
}

/// Every target there is is the one found under its name, and there are thirty; there are two
/// commands, and one schema of their own.
pub proof fn every_target_is_found_under_its_name(
    all: Vec<Target>,
    place: int,
    name: &str,
    found: Option<Target>,
    words: Vec<Command>,
    schemas: Vec<crate::contributions::SchemaDef>,
)
    requires
        call_ensures(crate::contributions::targets, (), all),
        0 <= place < all@.len(),
        name@ == all@[place].name@,
        call_ensures(target, (name,), found),
        call_ensures(crate::contributions::commands, (), words),
        call_ensures(crate::contributions::command_schemas, (), schemas),
    ensures
        all@.len() == 30,
        found is Some,
        found->0.name == all@[place].name,
        found->0.schema == all@[place].schema,
        found->0.reads == all@[place].reads,
        found->0.fields@ == all@[place].fields@,
        words@.len() == 2,
        words@[0].name@ == "set-k8s-resource"@,
        words@[1].name@ == "remove-k8s-resource"@,
        schemas@.len() == 1,
        schemas@[0].id@ == "io.github.godspeed-you.kubernetes.mutation/1"@,
        schemas@[0].fields@ == schema_fields(FieldSet::Mutation),
{
    assert(all@[place].is_row(TARGETS@[place]));
    target_is_its_row(name, found, place);
    assert(words@[0].is_row(crate::contributions::COMMANDS@[0]));
    assert(words@[1].is_row(crate::contributions::COMMANDS@[1]));
}

/// A typing is that of what was published, where the server answered with it.
pub proof fn a_resource_is_typed_as_published(
    resource: Resource,
    status: u16,
    body: Vec<u8>,
    typing: Typing,
    text: &str,
    group: &str,
    version: &str,
    kind: &str,
    of: Typing,
)
    requires
        call_ensures(crate::query::typing_of, (&resource, status, body), typing),
        group@ == resource.group@,
        version@ == resource.version@,
        kind@ == resource.kind@,
        vstd::utf8::valid_utf8(body@),
        text@ == vstd::utf8::decode_utf8(body@),
        call_ensures(Typing::of, (Some(text), group, version, kind), of),
    ensures
        status == 200 ==> crate::text::text_view(typing.component) == crate::text::text_view(
            of.component,
        ),
        status != 200 ==> typing.component is None,
{
}

/// A command's records are of the schema it names, where the package contributes it.
pub proof fn a_command_has_the_schema_it_names(
    held: Command,
    schemas: Vec<crate::contributions::SchemaDef>,
    found: Result<&crate::contributions::SchemaDef, WireError>,
)
    requires
        call_ensures(crate::mutations::declared, (&held, &schemas), found),
    ensures
        found matches Ok(schema) ==> schema.id@ == held.schema@,
        (forall|i: int| 0 <= i < schemas@.len() ==> (#[trigger] schemas@[i]).id@ != held.schema@)
            ==> found is Err,
        found is Err ==> found->Err_0.name@ == "provider.unavailable"@,
{
    first_schema(schemas@, held.schema@);
}

proof fn first_schema(schemas: Seq<crate::contributions::SchemaDef>, id: Seq<char>)
    ensures
        crate::mutations::schema_of(schemas, id) matches Some(schema) ==> schema.id@ == id,
        (forall|i: int| 0 <= i < schemas.len() ==> (#[trigger] schemas[i]).id@ != id)
            ==> crate::mutations::schema_of(schemas, id) is None,
    decreases schemas.len(),
{
    if schemas.len() > 0 {
        let rest = schemas.skip(1);
        first_schema(rest, id);
        if forall|i: int| 0 <= i < schemas.len() ==> (#[trigger] schemas[i]).id@ != id {
            assert(schemas[0].id@ != id);
            assert forall|i: int| 0 <= i < rest.len() implies (#[trigger] rest[i]).id@ != id by {
                assert(rest[i] == schemas[i + 1]);
            }
        }
    }
}

}
