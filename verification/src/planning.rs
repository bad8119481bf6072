//! What a change would do, answered before anything is changed.
//!
//! Building a plan alternates requests and decisions; what is decided stands here, and the requests
//! are made by whoever holds the connection. The permission check is advisory and never an
//! authorizer: every way it can go wrong is "not answered", and none of them is a denial.

use vstd::prelude::*;
use vstd::string::*;
use vstd::utf8::*;

use crate::actions::{change_views, Action, ChangeView, FieldChange, REPLICAS};
use crate::cluster::refused_as;
use crate::coverage::{gap, gap_views, Gap, Outcome};
use crate::discovery::{
    group_version, group_version_of, resource_of, Discovery, Group, Resource, Scope, Verb,
};
use crate::document::{parsed_bytes, read_document_bytes};
use crate::failure::{failure, refusal, Class, WireError};
use crate::json::{Json, JsonView};
use crate::text::{decode, fill1, fill2, fill3, filled, group_views, join3, same, views};

verus! {

// --- before the object is read --------------------------------------------------------------------

pub const VERB_NOT_OFFERED: &'static str =
    "the cluster serves `{}` and does not offer `{}` on it";

pub const VERB_NOT_OFFERED_HELP: &'static str =
    "A verb the API server does not serve is not a permission the caller is missing and not \
    an object that is not there: discovery says which verbs a resource offers, and this one \
    does not offer that (§11.5).";

/// The word of a verb.
pub open spec fn verb_text(verb: Verb) -> Seq<char> {
    match verb {
        Verb::Patch => "patch"@,
        Verb::Delete => "delete"@,
        Verb::Get => "get"@,
        Verb::List => "list"@,
        Verb::Watch => "watch"@,
        Verb::Create => "create"@,
        Verb::Update => "update"@,
    }
}

/// The word of a verb.
pub fn verb_word(verb: Verb) -> (r: &'static str)
    ensures
        r@ == verb_text(verb),
{
    match verb {
        Verb::Patch => "patch",
        Verb::Delete => "delete",
        Verb::Get => "get",
        Verb::List => "list",
        Verb::Watch => "watch",
        Verb::Create => "create",
        Verb::Update => "update",
    }
}

/// A change the cluster does not offer on this resource.
pub fn unsupported_verb(resource: &Resource, verb: Verb) -> (r: WireError)
    ensures
        r@ == refusal(
            Class::Unsupported,
            filled(VERB_NOT_OFFERED@, seq![resource.gvr@, verb_text(verb)]),
            VERB_NOT_OFFERED_HELP@,
        ),
{
    failure(
        Class::Unsupported,
        fill2(VERB_NOT_OFFERED, resource.gvr.as_str(), verb_word(verb)),
        VERB_NOT_OFFERED_HELP,
    )
}

/// Whether a resource offers the verb a change needs, asked of discovery before anything is sent.
///
/// # Errors
///
/// A refusal naming the verb.
pub fn offered(resource: &Resource, verb: Verb) -> (r: Result<(), WireError>)
    ensures
        match r {
            Ok(_) => resource.offers(verb),
            Err(error) => !resource.offers(verb) && error@ == refusal(
                Class::Unsupported,
                filled(VERB_NOT_OFFERED@, seq![resource.gvr@, verb_text(verb)]),
                VERB_NOT_OFFERED_HELP@,
            ),
        },
{
    if resource.supports(verb) {
        Ok(())
    } else {
        Err(unsupported_verb(resource, verb))
    }
}

pub const NOTHING_TO_CHANGE: &'static str =
    "`{}` in {} holds no object named `{}`, so there is nothing to change";

pub const NOTHING_TO_CHANGE_HELP: &'static str =
    "A change is aimed at an object that exists, and this provider creates nothing \
    it was not asked to change. A `404` on an object's own endpoint is the one \
    outcome that is evidence of absence rather than a statement about what could \
    not be seen (§21.4).";

pub const NOT_ONE_OBJECT: &'static str = "a direct read answered with a collection";

pub const DEFECT_HELP: &'static str =
    "This is a defect in the Kubernetes provider, not in the cluster.";

/// What a direct read came to.
#[derive(Debug, Clone, Copy, PartialEq, Eq, Structural)]
pub enum Reading {
    Fetched,
    Absent,
    /// A listing, which a direct read is never asked for.
    Listed,
}

/// Whether there is one object to change.
///
/// # Errors
///
/// A refusal where the object is not there, or where the answer was no object.
pub fn aimed_at(reading: Reading, resource: &Resource, scope: &str, name: &str) -> (r: Result<
    (),
    WireError,
>)
    ensures
        match (reading, r) {
            (Reading::Fetched, Ok(_)) => true,
            (Reading::Absent, Err(error)) => error@ == refusal(
                Class::Unsupported,
                filled(NOTHING_TO_CHANGE@, seq![resource.gvr@, scope@, name@]),
                NOTHING_TO_CHANGE_HELP@,
            ),
            (Reading::Listed, Err(error)) => error@ == refusal(
                Class::Unavailable,
                NOT_ONE_OBJECT@,
                DEFECT_HELP@,
            ),
            _ => false,
        },
{
    match reading {
        Reading::Fetched => Ok(()),
        Reading::Absent => Err(
            failure(
                Class::Unsupported,
                fill3(NOTHING_TO_CHANGE, resource.gvr.as_str(), scope, name),
                NOTHING_TO_CHANGE_HELP,
            ),
        ),
        Reading::Listed => Err(
            failure(Class::Unavailable, NOT_ONE_OBJECT.to_owned(), DEFECT_HELP),
        ),
    }
}

pub const PLAN_REFUSED: &'static str = "this change was refused before anything was sent: {}";

pub const PLAN_REFUSED_HELP: &'static str =
    "§56 asks a mutation to carry preconditions, and this provider reads that as a refusal \
    rather than a warning: a change with nothing guarding its target can land on an object \
    recreated under the same name since it was planned, and the response would look \
    exactly like success (ADR-0019). Read the object again and plan against what came back.";

/// A plan the domain layer would not build.
pub fn refused(detail: &str) -> (r: WireError)
    ensures
        r@ == refusal(Class::Refused, filled(PLAN_REFUSED@, seq![detail@]), PLAN_REFUSED_HELP@),
{
    failure(Class::Refused, fill1(PLAN_REFUSED, detail), PLAN_REFUSED_HELP)
}

// --- what a plan is made of, in order -------------------------------------------------------------

/// What is still to be done for a plan once the change itself is described.
#[derive(Debug, Clone, Copy, PartialEq, Eq, Structural)]
pub enum Remaining {
    /// Look for autoscalers that write the same replica count.
    Autoscalers,
    /// Count what a namespace holds.
    Contents,
    /// Ask whether this identity may make the change.
    Permission,
}

/// Whether one of some changes writes the replica count.
pub open spec fn writes_replicas(changes: Seq<ChangeView>) -> bool {
    exists|i: int| 0 <= i < changes.len() && (#[trigger] changes[i]).path == REPLICAS@
}

/// Whether a change deletes a namespace.
pub open spec fn deletes_namespace(destructive: bool, kind: Seq<char>) -> bool {
    destructive && kind == "Namespace"@
}

/// What is still to be done for a plan, in order: the autoscalers only for a change that writes the
/// replica count, the contents only for the deletion of a namespace, and the permission last and
/// always.
pub open spec fn to_do(changes: Seq<ChangeView>, destructive: bool, kind: Seq<char>) -> Seq<
    Remaining,
> {
    let first = if writes_replicas(changes) {
        seq![Remaining::Autoscalers]
    } else {
        Seq::empty()
    };
    let second = if deletes_namespace(destructive, kind) {
        seq![Remaining::Contents]
    } else {
        Seq::empty()
    };
    first + second + seq![Remaining::Permission]
}

/// Whether one of some changes writes the replica count.
fn touches_replicas(changes: &Vec<FieldChange>) -> (r: bool)
    ensures
        r == writes_replicas(change_views(changes@)),
{
    let ghost all = change_views(changes@);
    let mut i: usize = 0;
    while i < changes.len()
        invariant
            i <= changes.len(),
            all == change_views(changes@),
            forall|j: int| 0 <= j < i ==> (#[trigger] all[j]).path != REPLICAS@,
        decreases changes.len() - i,
    {
        assert(all[i as int] == changes@[i as int]@);
        if same(changes[i].path.as_str(), REPLICAS) {
            assert(all[i as int].path == REPLICAS@);
            return true;
        }
        i = i + 1;
    }
    false
}

/// What is still to be done for a plan, in order.
pub fn remaining(action: &Action, destructive: bool, kind: &str) -> (r: Vec<Remaining>)
    ensures
        r@ == to_do(action@.changes(), destructive, kind@),
{
    let replicas: bool = match action {
        Action::Apply { changes } => touches_replicas(changes),
        Action::Curated { changes, .. } => touches_replicas(changes),
        Action::Delete { .. } => false,
    };
    assert(replicas == writes_replicas(action@.changes()));
    let mut out: Vec<Remaining> = Vec::new();
    if replicas {
        out.push(Remaining::Autoscalers);
    }
    if destructive && same(kind, "Namespace") {
        out.push(Remaining::Contents);
    }
    out.push(Remaining::Permission);
    assert(out@ =~= to_do(action@.changes(), destructive, kind@));
    out
}

// --- autoscalers ----------------------------------------------------------------------------------

/// The group whose objects write a workload's replica count on their own.
pub const AUTOSCALING_GROUP: &'static str = "autoscaling";

/// The kind that names the workload it scales.
pub const AUTOSCALER_KIND: &'static str = "HorizontalPodAutoscaler";

/// How many objects one page of an inventory asks for: one page and no more.
pub const INVENTORY_PAGE: u32 = 500;

/// The group-version to look for autoscalers in, or the gap that there is none.
pub open spec fn autoscaling_version(served: Discovery) -> Result<Seq<char>, (Seq<char>, Outcome)> {
    match served.preferred(AUTOSCALING_GROUP@) {
        Some(version) => Ok(group_version(AUTOSCALING_GROUP@, version)),
        None => Err((AUTOSCALING_GROUP@, Outcome::TypeNotServed)),
    }
}

/// The collection to look for autoscalers in, or the gap that there is none: a resource list that
/// would not read is a failed request, and a kind that is not served or not listable is not served.
pub open spec fn autoscaler_collection(catalogue: Option<Discovery>, version: Seq<char>) -> Result<
    Resource,
    (Seq<char>, Outcome),
> {
    match catalogue {
        None => Err((AUTOSCALING_GROUP@, Outcome::RequestFailed)),
        Some(catalogue) => match resource_of(catalogue.resources@, version, AUTOSCALER_KIND@) {
            Some(resource) => if resource.offers(Verb::List) {
                Ok(resource)
            } else {
                Err((AUTOSCALING_GROUP@, Outcome::TypeNotServed))
            },
            None => Err((AUTOSCALING_GROUP@, Outcome::TypeNotServed)),
        },
    }
}

/// The group-version to look for autoscalers in: which version a cluster serves is learnt.
///
/// # Errors
///
/// The gap, where the cluster serves none.
pub fn autoscaler_version(served: &Discovery) -> (r: Result<String, Gap>)
    ensures
        match r {
            Ok(version) => autoscaling_version(*served) == Ok::<Seq<char>, (Seq<char>, Outcome)>(
                version@,
            ),
            Err(gap) => autoscaling_version(*served) == Err::<Seq<char>, (Seq<char>, Outcome)>(
                gap@,
            ),
        },
{
    match served.preferred_version(AUTOSCALING_GROUP) {
        Some(version) => Ok(group_version_of(AUTOSCALING_GROUP, version)),
        None => Err(gap(AUTOSCALING_GROUP, Outcome::TypeNotServed)),
    }
}

/// The collection to look for autoscalers in, once its resource list was asked for.
///
/// # Errors
///
/// The gap, where there is no such collection or nobody could find out.
pub fn autoscaler_resource<'a>(catalogue: Option<&'a Discovery>, version: &str) -> (r: Result<
    &'a Resource,
    Gap,
>)
    ensures
        ({
            let wanted = autoscaler_collection(
                match catalogue {
                    Some(catalogue) => Some(*catalogue),
                    None => None,
                },
                version@,
            );
            match r {
                Ok(resource) => wanted == Ok::<Resource, (Seq<char>, Outcome)>(*resource),
                Err(gap) => wanted == Err::<Resource, (Seq<char>, Outcome)>(gap@),
            }
        }),
{
    match catalogue {
        None => Err(gap(AUTOSCALING_GROUP, Outcome::RequestFailed)),
        Some(catalogue) => match catalogue.by_kind(version, AUTOSCALER_KIND) {
            Some(resource) => if resource.supports(Verb::List) {
                Ok(resource)
            } else {
                Err(gap(AUTOSCALING_GROUP, Outcome::TypeNotServed))
            },
            None => Err(gap(AUTOSCALING_GROUP, Outcome::TypeNotServed)),
        },
    }
}

/// What a search covered: what it could not reach, whether there is more, and whether it reached
/// what it was asked about at all.
#[derive(Debug, PartialEq, Eq)]
pub struct Searched {
    pub gaps: Vec<Gap>,
    pub more_available: bool,
    pub observed: bool,
}

/// What listing the autoscalers covered: one page, and whether it ended, or the gap.
pub fn autoscaler_page(listed: Result<bool, Outcome>, version: &str) -> (r: Searched)
    ensures
        match listed {
            Ok(more) => r.gaps@.len() == 0 && r.more_available == more && r.observed,
            Err(outcome) => gap_views(r.gaps@) == seq![(version@, outcome)] && !r.more_available
                && !r.observed,
        },
{
    match listed {
        Ok(more) => Searched { gaps: Vec::new(), more_available: more, observed: true },
        Err(outcome) => {
            let gaps: Vec<Gap> = vec![gap(version, outcome)];
            assert(gap_views(gaps@) =~= seq![(version@, outcome)]);
            Searched { gaps, more_available: false, observed: false }
        },
    }
}

// --- what a namespace holds -----------------------------------------------------------------------

/// One resource type a namespace holds, and whether the number is a total or a floor.
#[derive(Debug, PartialEq, Eq)]
pub struct Contained {
    pub gvr: String,
    pub count: usize,
    pub at_least: bool,
}

impl View for Contained {
    type V = (Seq<char>, int, bool);

    open spec fn view(&self) -> (Seq<char>, int, bool) {
        (self.gvr@, self.count as int, self.at_least)
    }
}

/// What some counts are.
pub open spec fn contained_views(counted: Seq<Contained>) -> Seq<(Seq<char>, int, bool)> {
    counted.map_values(|entry: Contained| entry@)
}

/// The preferred group-version of each group that has one, in the order the server lists them.
///
/// One per group, because the same objects served at two versions would be counted twice.
pub open spec fn preferred_versions(groups: Seq<Group>, served: Discovery) -> Seq<Seq<char>>
    decreases groups.len(),
{
    if groups.len() == 0 {
        Seq::empty()
    } else {
        let before = preferred_versions(groups.drop_last(), served);
        match served.preferred(groups.last().name@) {
            Some(version) => before.push(group_version(groups.last().name@, version)),
            None => before,
        }
    }
}

/// The preferred group-version of each group that has one.
pub fn preferred_group_versions(served: &Discovery) -> (r: Vec<String>)
    ensures
        views(r@) == preferred_versions(served.groups@, *served),
{
    let ghost all = served.groups@;
    let mut out: Vec<String> = Vec::new();
    let mut i: usize = 0;
    assert(views(out@) =~= preferred_versions(all.take(0), *served));
    while i < served.groups.len()
        invariant
            i <= served.groups.len(),
            all == served.groups@,
            views(out@) == preferred_versions(all.take(i as int), *served),
        decreases served.groups.len() - i,
    {
        broadcast use group_views;

        assert(all.take(i + 1).drop_last() =~= all.take(i as int));
        assert(all.take(i + 1).last() == all[i as int]);
        let name: &String = &served.groups[i].name;
        if let Some(version) = served.preferred_version(name.as_str()) {
            out.push(group_version_of(name.as_str(), version));
        }
        i = i + 1;
    }
    assert(all.take(i as int) =~= all);
    out
}

/// Whether a collection is one to count: it can be listed, and its objects live in namespaces.
pub open spec fn is_countable(resource: Resource) -> bool {
    resource.offers(Verb::List) && resource.scope == Scope::Namespaced
}

/// The places of the collections to count, among the resources of a snapshot.
pub open spec fn countable_places(resources: Seq<Resource>) -> Seq<int>
    decreases resources.len(),
{
    if resources.len() == 0 {
        Seq::empty()
    } else if is_countable(resources.last()) {
        countable_places(resources.drop_last()).push(resources.len() - 1)
    } else {
        countable_places(resources.drop_last())
    }
}

/// The places of the collections to count, among the resources of a snapshot.
pub fn countable(discovered: &Discovery) -> (r: Vec<usize>)
    ensures
        r@.map_values(|place: usize| place as int) == countable_places(discovered.resources@),
{
    let ghost all = discovered.resources@;
    let mut out: Vec<usize> = Vec::new();
    let mut i: usize = 0;
    assert(out@.map_values(|place: usize| place as int) =~= countable_places(all.take(0)));
    while i < discovered.resources.len()
        invariant
            i <= discovered.resources.len(),
            all == discovered.resources@,
            out@.map_values(|place: usize| place as int) == countable_places(all.take(i as int)),
        decreases discovered.resources.len() - i,
    {
        let resource: &Resource = &discovered.resources[i];
        let ghost before = out@.map_values(|place: usize| place as int);
        assert(all.take(i + 1).drop_last() =~= all.take(i as int));
        assert(all.take(i + 1).last() == *resource);
        if resource.supports(Verb::List) && resource.scope == Scope::Namespaced {
            out.push(i);
            assert(out@.map_values(|place: usize| place as int) =~= before.push(i as int));
        }
        i = i + 1;
    }
    assert(all.take(i as int) =~= all);
    out
}

/// The text of a group-version's resource list, or why it is not there: a refusal says which one it
/// was.
pub open spec fn list_read(status: int, body: Seq<u8>) -> Result<Seq<char>, Outcome> {
    if status != 200 {
        Err(refused_as(status))
    } else if valid_utf8(body) {
        Ok(decode_utf8(body))
    } else {
        Err(Outcome::RequestFailed)
    }
}

/// The text of a group-version's resource list.
///
/// # Errors
///
/// Why it is not there.
pub fn group_document(status: u16, body: Vec<u8>) -> (r: Result<String, Outcome>)
    ensures
        match r {
            Ok(text) => list_read(status as int, body@) == Ok::<Seq<char>, Outcome>(text@),
            Err(outcome) => list_read(status as int, body@) == Err::<Seq<char>, Outcome>(outcome),
        },
{
    if status != 200 {
        return Err(crate::cluster::refused(status));
    }
    match decode(body) {
        Ok(text) => Ok(text),
        Err(_) => Err(Outcome::RequestFailed),
    }
}

/// What counting the contents of a namespace has come to so far.
#[derive(Debug, PartialEq, Eq)]
pub struct Inventory {
    pub counted: Vec<Contained>,
    pub gaps: Vec<Gap>,
    pub more_available: bool,
    pub observed: bool,
}

/// What one step of an inventory learnt.
pub enum Learnt {
    /// The resource list of a group-version did not read, for this reason.
    GroupUnread { group_version: Seq<char>, outcome: Outcome },
    /// A page of a collection: how many objects it held, and whether there are more.
    Page { group: Seq<char>, version: Seq<char>, plural: Seq<char>, seen: int, more: bool },
    /// A collection that would not list, for this reason.
    CollectionRefused { gvr: Seq<char>, outcome: Outcome },
    /// Every collection of a group-version was asked for.
    GroupDone,
}

impl Inventory {
    /// An inventory nothing has gone into.
    pub fn new() -> (r: Inventory)
        ensures
            r.counted@.len() == 0,
            r.gaps@.len() == 0,
            !r.more_available,
            !r.observed,
    {
        Inventory {
            counted: Vec::new(),
            gaps: Vec::new(),
            more_available: false,
            observed: false,
        }
    }

    /// Whether an inventory is another one after one more thing was learnt. What could not be
    /// listed becomes a gap and never a count.
    pub open spec fn follows(self, before: Inventory, learnt: Learnt) -> bool {
        let counted = contained_views(before.counted@);
        let gaps = gap_views(before.gaps@);
        match learnt {
            Learnt::GroupUnread { group_version, outcome } => {
                &&& contained_views(self.counted@) == counted
                &&& gap_views(self.gaps@) == gaps.push((group_version, outcome))
                &&& self.more_available == before.more_available
                &&& self.observed == before.observed
            },
            Learnt::CollectionRefused { gvr, outcome } => {
                &&& contained_views(self.counted@) == counted
                &&& gap_views(self.gaps@) == gaps.push((gvr, outcome))
                &&& self.more_available == before.more_available
                &&& self.observed == before.observed
            },
            Learnt::Page { group, version, plural, seen, more } => {
                &&& contained_views(self.counted@) == counted.push(
                    (crate::discovery::group_version(group, version) + "/"@ + plural, seen, more),
                )
                &&& gap_views(self.gaps@) == gaps
                &&& self.more_available == (before.more_available || more)
                &&& self.observed == before.observed
            },
            Learnt::GroupDone => {
                &&& contained_views(self.counted@) == counted
                &&& gap_views(self.gaps@) == gaps
                &&& self.more_available == before.more_available
                &&& self.observed
            },
        }
    }

    /// A resource list that did not read.
    pub fn group_unread(&mut self, group_version: &str, outcome: Outcome)
        ensures
            final(self).follows(
                *old(self),
                Learnt::GroupUnread { group_version: group_version@, outcome },
            ),
    {
        let ghost before = gap_views(self.gaps@);
        self.gaps.push(gap(group_version, outcome));
        assert(gap_views(self.gaps@) =~= before.push((group_version@, outcome)));
    }

    /// A page of a collection. One that did not end is a floor rather than a total.
    pub fn page(&mut self, resource: &Resource, seen: usize, more: bool)
        ensures
            final(self).follows(
                *old(self),
                Learnt::Page {
                    group: resource.group@,
                    version: resource.version@,
                    plural: resource.plural@,
                    seen: seen as int,
                    more,
                },
            ),
    {
        let ghost before = contained_views(self.counted@);
        let served: String = group_version_of(resource.group.as_str(), resource.version.as_str());
        let entry: Contained = Contained {
            gvr: join3(served.as_str(), "/", resource.plural.as_str()),
            count: seen,
            at_least: more,
        };
        self.counted.push(entry);
        if more {
            self.more_available = true;
        }
        assert(contained_views(self.counted@) =~= before.push(entry@));
    }

    /// A collection that would not list: neither a count nor a zero.
    pub fn collection_refused(&mut self, gvr: &str, outcome: Outcome)
        ensures
            final(self).follows(*old(self), Learnt::CollectionRefused { gvr: gvr@, outcome }),
    {
        let ghost before = gap_views(self.gaps@);
        self.gaps.push(gap(gvr, outcome));
        assert(gap_views(self.gaps@) =~= before.push((gvr@, outcome)));
    }

    /// Every collection of a group-version was asked for.
    pub fn group_done(&mut self)
        ensures
            final(self).follows(*old(self), Learnt::GroupDone),
    {
        self.observed = true;
    }
}

// --- the permission check -------------------------------------------------------------------------

/// The API group that answers "may this identity do that".
pub const REVIEW_GROUP: &'static str = "authorization.k8s.io";

/// The kind that asks about one action for the caller's own identity.
pub const REVIEW_KIND: &'static str = "SelfSubjectAccessReview";

pub const NO_REVIEW_GROUP: &'static str =
    "this cluster serves no `{}` API group, so no permission check \
    could be asked";

pub const REVIEW_LIST_UNREAD: &'static str =
    "the resource list of `{}` could not be read, so no permission \
    check could be asked";

pub const NO_REVIEW_KIND: &'static str =
    "this cluster's `{}` serves no `{}`, so no permission \
    check could be asked";

pub const REVIEW_NOT_CREATABLE: &'static str =
    "this cluster serves `{}` and does not offer `create` on it, so no permission \
    check could be asked";

pub const REVIEW_NOT_SENT: &'static str = "the permission check could not be sent: {}";

pub const REVIEW_ANSWERED: &'static str =
    "the API server answered the permission check with {} {}";

pub const REVIEW_UNREAD: &'static str =
    "the API server's answer to the permission check did not read: {}";

/// What asking for permission came to.
#[derive(Debug, PartialEq)]
pub enum Preflight {
    /// Nobody answered, and why. Never a denial.
    NotAnswered(String),
    /// The review as the API server answered it.
    Review(Json),
}

/// What asking for permission came to.
pub enum PreflightView {
    NotAnswered(Seq<char>),
    Review(JsonView),
}

impl View for Preflight {
    type V = PreflightView;

    open spec fn view(&self) -> PreflightView {
        match self {
            Preflight::NotAnswered(reason) => PreflightView::NotAnswered(reason@),
            Preflight::Review(review) => PreflightView::Review(review@),
        }
    }
}

/// The group-version to ask for permission in, or why there is none.
pub open spec fn review_group_version(served: Discovery) -> Result<Seq<char>, Seq<char>> {
    match served.preferred(REVIEW_GROUP@) {
        Some(version) => Ok(group_version(REVIEW_GROUP@, version)),
        None => Err(filled(NO_REVIEW_GROUP@, seq![REVIEW_GROUP@])),
    }
}

/// The collection a review is created in, or why there is none.
pub open spec fn review_collection(catalogue: Option<Discovery>, version: Seq<char>) -> Result<
    Resource,
    Seq<char>,
> {
    match catalogue {
        None => Err(filled(REVIEW_LIST_UNREAD@, seq![version])),
        Some(catalogue) => match resource_of(catalogue.resources@, version, REVIEW_KIND@) {
            None => Err(filled(NO_REVIEW_KIND@, seq![version, REVIEW_KIND@])),
            Some(review) => if review.offers(Verb::Create) {
                Ok(review)
            } else {
                Err(filled(REVIEW_NOT_CREATABLE@, seq![review.gvr@]))
            },
        },
    }
}

/// The group-version to ask for permission in: which version a cluster serves is learnt.
///
/// # Errors
///
/// Why no permission check could be asked.
pub fn review_version(served: &Discovery) -> (r: Result<String, Preflight>)
    ensures
        match r {
            Ok(version) => review_group_version(*served) == Ok::<Seq<char>, Seq<char>>(version@),
            Err(preflight) => preflight@ matches PreflightView::NotAnswered(reason)
                && review_group_version(*served) == Err::<Seq<char>, Seq<char>>(reason),
        },
{
    match served.preferred_version(REVIEW_GROUP) {
        Some(version) => Ok(group_version_of(REVIEW_GROUP, version)),
        None => Err(Preflight::NotAnswered(fill1(NO_REVIEW_GROUP, REVIEW_GROUP))),
    }
}

/// The collection a review is created in, once its resource list was asked for.
///
/// # Errors
///
/// Why no permission check could be asked.
pub fn review_resource<'a>(catalogue: Option<&'a Discovery>, version: &str) -> (r: Result<
    &'a Resource,
    Preflight,
>)
    ensures
        ({
            let wanted = review_collection(
                match catalogue {
                    Some(catalogue) => Some(*catalogue),
                    None => None,
                },
                version@,
            );
            match r {
                Ok(resource) => wanted == Ok::<Resource, Seq<char>>(*resource),
                Err(preflight) => preflight@ matches PreflightView::NotAnswered(reason) && wanted
                    == Err::<Resource, Seq<char>>(reason),
            }
        }),
{
    match catalogue {
        None => Err(Preflight::NotAnswered(fill1(REVIEW_LIST_UNREAD, version))),
        Some(catalogue) => match catalogue.by_kind(version, REVIEW_KIND) {
            None => Err(Preflight::NotAnswered(fill2(NO_REVIEW_KIND, version, REVIEW_KIND))),
            Some(review) => if review.supports(Verb::Create) {
                Ok(review)
            } else {
                Err(Preflight::NotAnswered(fill1(REVIEW_NOT_CREATABLE, review.gvr.as_str())))
            },
        },
    }
}

/// What a review that could not be sent came to.
pub fn review_not_sent(error: &str) -> (r: Preflight)
    ensures
        r@ == PreflightView::NotAnswered(filled(REVIEW_NOT_SENT@, seq![error@])),
{
    Preflight::NotAnswered(fill1(REVIEW_NOT_SENT, error))
}

/// What the body of a review comes to once it was read.
pub open spec fn review_read_as(read: Result<JsonView, Seq<char>>) -> PreflightView {
    match read {
        Ok(review) => PreflightView::Review(review),
        Err(error) => PreflightView::NotAnswered(filled(REVIEW_UNREAD@, seq![error])),
    }
}

/// What a review's answer comes to: the review where it was created and reads, and otherwise not an
/// answer.
pub open spec fn review_came_to(status: int, reason: Seq<char>, body: Seq<u8>) -> PreflightView {
    if 200 <= status < 300 {
        review_read_as(parsed_bytes(body))
    } else {
        PreflightView::NotAnswered(
            filled(REVIEW_ANSWERED@, seq![crate::digits::decimal(status as nat), reason]),
        )
    }
}

/// What the body of a review comes to once it was read.
pub fn review_read(read: Result<Json, String>) -> (r: Preflight)
    ensures
        r@ == review_read_as(
            match read {
                Ok(json) => Ok(json@),
                Err(message) => Err(message@),
            },
        ),
{
    match read {
        Ok(review) => Preflight::Review(review),
        Err(message) => Preflight::NotAnswered(fill1(REVIEW_UNREAD, message.as_str())),
    }
}

/// What a review's answer comes to.
pub fn review_answered(status: u16, reason: &str, body: &[u8]) -> (r: Preflight)
    ensures
        r@ == review_came_to(status as int, reason@, body@),
{
    if status < 200 || status >= 300 {
        return Preflight::NotAnswered(
            fill2(
                REVIEW_ANSWERED,
                crate::digits::number(status as u128).as_str(),
                reason,
            ),
        );
    }
    review_read(read_document_bytes(body))
}

// --- laws -----------------------------------------------------------------------------------------

/// A permission check is never a denial of this package's own: whatever kept it from being asked or
/// answered comes out as not answered, and only a review the server sent comes out as a review.
pub proof fn only_the_server_answers(status: int, reason: Seq<char>, body: Seq<u8>)
    ensures
        review_came_to(status, reason, body) is Review ==> 200 <= status < 300 && parsed_bytes(body)
            == Ok::<JsonView, Seq<char>>(review_came_to(status, reason, body)->Review_0),
{
}

/// Asking for permission is the last thing a plan does, and it is done for every plan.
pub proof fn permission_is_asked_last(
    changes: Seq<ChangeView>,
    destructive: bool,
    kind: Seq<char>,
)
    ensures
        to_do(changes, destructive, kind).len() > 0,
        to_do(changes, destructive, kind).last() == Remaining::Permission,
        forall|i: int|
            0 <= i < to_do(changes, destructive, kind).len() - 1 ==> #[trigger] to_do(
                changes,
                destructive,
                kind,
            )[i] != Remaining::Permission,
{
}

}
