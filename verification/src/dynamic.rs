//! Reading a resource this package has never heard of.
//!
//! The curated targets name a group and a kind at build time. This is the other route: the query
//! names the kind, and what the cluster serves says which collection that is. Nothing here names a
//! Kubernetes kind.

use vstd::prelude::*;

use crate::discovery::{Discovery, Resource, Scope, Verb};
use crate::json::{member, JsonView};
use crate::options::{nonempty, text_option, Options};
use crate::order::{
    ascending, at_most, at_most_antisymmetric, at_most_total, at_most_transitive, no_later,
    sort_once,
};
use crate::text::{
    fill1, fill2, fill4, filled, group_views, held, join, joined, lowered, same, same_but_case,
    str_view, text_view, views,
};

pub use crate::projection::{content, Content, Typing};

verus! {

// --- what a query asked for -----------------------------------------------------------------------

/// What a query said about the resource it wants, before any cluster has seen it.
///
/// Every part is optional because every part may be the thing the operator does not know. What is
/// *not* optional is that at least one of `kind` and `resource` is present: a query naming neither
/// has not asked about anything.
#[derive(Debug, PartialEq, Eq)]
pub struct Selector {
    pub kind: Option<String>,
    pub resource: Option<String>,
    pub group: Option<String>,
    pub version: Option<String>,
}

/// What a selector says.
pub struct Selection {
    pub kind: Option<Seq<char>>,
    pub resource: Option<Seq<char>>,
    pub group: Option<Seq<char>>,
    pub version: Option<Seq<char>>,
}

impl View for Selector {
    type V = Selection;

    open spec fn view(&self) -> Selection {
        Selection {
            kind: text_view(self.kind),
            resource: text_view(self.resource),
            group: text_view(self.group),
            version: text_view(self.version),
        }
    }
}

impl Clone for Selector {
    fn clone(&self) -> (r: Selector)
        ensures
            r@ == self@,
    {
        Selector {
            kind: held(&self.kind),
            resource: held(&self.resource),
            group: held(&self.group),
            version: held(&self.version),
        }
    }
}

impl Default for Selector {
    fn default() -> (r: Selector)
        ensures
            r@ == (Selection { kind: None, resource: None, group: None, version: None }),
    {
        Selector { kind: None, resource: None, group: None, version: None }
    }
}

pub const KIND_AND_RESOURCE: &'static str = "kind `{}` and resource `{}`";

pub const KIND_ONLY: &'static str = "kind `{}`";

pub const RESOURCE_ONLY: &'static str = "resource `{}`";

pub const NOTHING: &'static str = "nothing";

impl Selection {
    /// Whether a query named anything at all to look for.
    pub open spec fn asks(self) -> bool {
        self.kind is Some || self.resource is Some
    }

    /// How a query spelled what it wants.
    pub open spec fn spelled(self) -> Seq<char> {
        match (self.kind, self.resource) {
            (Some(kind), Some(resource)) => filled(KIND_AND_RESOURCE@, seq![kind, resource]),
            (Some(kind), None) => filled(KIND_ONLY@, seq![kind]),
            (None, Some(resource)) => filled(RESOURCE_ONLY@, seq![resource]),
            (None, None) => NOTHING@,
        }
    }

    /// Whether a resource goes by a name: its plural or one of its short names, in any case.
    pub open spec fn goes_by(resource: Resource, name: Seq<char>) -> bool {
        lowered(resource.plural@) == lowered(name) || exists|i: int|
            0 <= i < resource.short_names@.len() && lowered(
                (#[trigger] resource.short_names@[i])@,
            ) == lowered(name)
    }

    /// Whether a resource is one the query asked for.
    ///
    /// The group, the version and the kind are matched exactly; a plural or short name is matched
    /// without regard to case.
    pub open spec fn picks(self, resource: Resource) -> bool {
        &&& self.group matches Some(group) ==> resource.group@ == group
        &&& self.version matches Some(version) ==> resource.version@ == version
        &&& self.kind matches Some(kind) ==> resource.kind@ == kind
        &&& self.resource matches Some(name) ==> Self::goes_by(resource, name)
    }
}

/// What a query's options say about the resource it wants.
///
/// An empty `group` names the core group, so it is kept; any other option that is empty says
/// nothing.
pub open spec fn selected(options: Seq<(Seq<char>, JsonView)>) -> Selection {
    Selection {
        kind: nonempty(text_option(options, "kind"@)),
        resource: nonempty(text_option(options, "resource"@)),
        group: text_option(options, "group"@),
        version: nonempty(text_option(options, "version"@)),
    }
}

impl Selector {
    /// Reads a selector out of a query's options.
    pub fn from_options(options: &Options) -> (r: Selector)
        ensures
            r@ == selected(options@),
    {
        Selector {
            kind: options.some_text("kind"),
            resource: options.some_text("resource"),
            group: match options.text("group") {
                Some(group) => Some(group.to_owned()),
                None => None,
            },
            version: options.some_text("version"),
        }
    }

    /// Whether the query named anything at all to look for.
    pub fn names_something(&self) -> (r: bool)
        ensures
            r == self@.asks(),
    {
        self.kind.is_some() || self.resource.is_some()
    }

    /// The group the query narrowed to, where it named one.
    pub fn group(&self) -> (r: Option<&str>)
        ensures
            str_view(r) == self@.group,
    {
        match &self.group {
            Some(group) => Some(group.as_str()),
            None => None,
        }
    }

    /// The version the query named, which stays reachable beside the preferred one.
    pub fn version(&self) -> (r: Option<&str>)
        ensures
            str_view(r) == self@.version,
    {
        match &self.version {
            Some(version) => Some(version.as_str()),
            None => None,
        }
    }

    /// How the query spelled what it wants, for an error message that quotes it back.
    pub fn spelling(&self) -> (r: String)
        ensures
            r@ == self@.spelled(),
    {
        match (&self.kind, &self.resource) {
            (Some(kind), Some(resource)) => fill2(
                KIND_AND_RESOURCE,
                kind.as_str(),
                resource.as_str(),
            ),
            (Some(kind), None) => fill1(KIND_ONLY, kind.as_str()),
            (None, Some(resource)) => fill1(RESOURCE_ONLY, resource.as_str()),
            (None, None) => NOTHING.to_owned(),
        }
    }

    /// Whether this resource is one the query asked for.
    fn matches(&self, resource: &Resource) -> (r: bool)
        ensures
            r == self@.picks(*resource),
    {
        if let Some(group) = &self.group {
            if !same(resource.group.as_str(), group.as_str()) {
                return false;
            }
        }
        if let Some(version) = &self.version {
            if !same(resource.version.as_str(), version.as_str()) {
                return false;
            }
        }
        if let Some(kind) = &self.kind {
            if !same(resource.kind.as_str(), kind.as_str()) {
                return false;
            }
        }
        if let Some(name) = &self.resource {
            return goes_by(resource, name.as_str());
        }
        true
    }
}

/// Whether a resource goes by a name: its plural or one of its short names, in any case.
fn goes_by(resource: &Resource, name: &str) -> (r: bool)
    ensures
        r == Selection::goes_by(*resource, name@),
{
    if same_but_case(resource.plural.as_str(), name) {
        return true;
    }
    let mut i: usize = 0;
    while i < resource.short_names.len()
        invariant
            i <= resource.short_names.len(),
            lowered(resource.plural@) != lowered(name@),
            forall|j: int|
                0 <= j < i ==> lowered((#[trigger] resource.short_names@[j])@) != lowered(name@),
        decreases resource.short_names.len() - i,
    {
        if same_but_case(resource.short_names[i].as_str(), name) {
            return true;
        }
        i = i + 1;
    }
    false
}

// --- resolving it ---------------------------------------------------------------------------------

/// Why a selector did not resolve to exactly one resource.
#[derive(Debug, PartialEq, Eq)]
pub enum Unresolved {
    /// The query named no kind and no resource.
    Unasked,
    /// The cluster serves nothing that matches.
    NotServed,
    /// More than one served resource matches, and none of them is the obvious one.
    Ambiguous {
        /// Every candidate, spelled the way a query would have to spell it to pick one.
        candidates: Vec<String>,
    },
    /// Exactly one resource matches and the server does not offer `list` on it.
    NotListable {
        /// The collection, for an error that says which one.
        gvr: String,
    },
    /// Exactly one resource matches and the server does not offer `get` on it.
    NotGettable {
        /// The collection, for an error that says which one.
        gvr: String,
    },
}

/// What looking for a selector among what a cluster serves comes to.
pub enum Resolution {
    Unasked,
    NotServed,
    Ambiguous { candidates: Seq<Seq<char>> },
    NotListable { gvr: Seq<char> },
    NotGettable { gvr: Seq<char> },
    Found { resource: Resource },
}

impl View for Unresolved {
    type V = Resolution;

    open spec fn view(&self) -> Resolution {
        match self {
            Unresolved::Unasked => Resolution::Unasked,
            Unresolved::NotServed => Resolution::NotServed,
            Unresolved::Ambiguous { candidates } => Resolution::Ambiguous {
                candidates: views(candidates@),
            },
            Unresolved::NotListable { gvr } => Resolution::NotListable { gvr: gvr@ },
            Unresolved::NotGettable { gvr } => Resolution::NotGettable { gvr: gvr@ },
        }
    }
}

pub const CANDIDATE: &'static str = "--kind {} --group '{}' (version {}, resource {})";

/// One candidate, spelled as the options that would select it alone.
pub open spec fn candidate_text(resource: Resource) -> Seq<char> {
    filled(
        CANDIDATE@,
        seq![resource.kind@, resource.group@, resource.version@, resource.plural@],
    )
}

/// Whether `a` is listed before `b` or beside it: by group, and by kind within a group.
pub open spec fn listed_by(a: Resource, b: Resource) -> bool {
    if a.group@ == b.group@ {
        at_most(a.kind@, b.kind@)
    } else {
        at_most(a.group@, b.group@)
    }
}

/// One more resource among resources in order, behind every one it is not listed before.
pub open spec fn placed(resources: Seq<Resource>, resource: Resource) -> Seq<Resource>
    decreases resources.len(),
{
    if resources.len() == 0 || listed_by(resources.last(), resource) {
        resources.push(resource)
    } else {
        placed(resources.drop_last(), resource).push(resources.last())
    }
}

/// Resources by group and kind; those of one group and kind in the order they came.
pub open spec fn in_listing_order(resources: Seq<Resource>) -> Seq<Resource>
    decreases resources.len(),
{
    if resources.len() == 0 {
        Seq::empty()
    } else {
        placed(in_listing_order(resources.drop_last()), resources.last())
    }
}

/// The resources of a snapshot that a selection asks for.
pub open spec fn picked(selection: Selection, resources: Seq<Resource>) -> Seq<Resource> {
    resources.filter(|resource: Resource| selection.picks(resource))
}

/// What the one resource that matches comes to, for a verb: one that cannot be listed, or read one
/// by one, where that is what it is looked for, is its own answer. Any other verb is asked for once
/// the resource is known.
pub open spec fn offered_for(resource: Resource, verb: Verb) -> Resolution {
    if verb == Verb::List && !resource.offers(Verb::List) {
        Resolution::NotListable { gvr: resource.gvr@ }
    } else if verb == Verb::Get && !resource.offers(Verb::Get) {
        Resolution::NotGettable { gvr: resource.gvr@ }
    } else {
        Resolution::Found { resource }
    }
}

/// What looking for a selection among what a cluster serves comes to, for a verb.
pub open spec fn resolution(selection: Selection, resources: Seq<Resource>, verb: Verb) -> Resolution {
    let matched = picked(selection, resources);
    if !selection.asks() {
        Resolution::Unasked
    } else if matched.len() == 0 {
        Resolution::NotServed
    } else if matched.len() > 1 {
        Resolution::Ambiguous {
            candidates: in_listing_order(matched).map_values(|r: Resource| candidate_text(r)),
        }
    } else {
        offered_for(matched[0], verb)
    }
}

/// What some references refer to.
spec fn targets(resources: Seq<&Resource>) -> Seq<Resource> {
    Seq::new(resources.len(), |i: int| *resources[i])
}

/// One candidate, spelled as the options that would select it alone.
fn candidate(resource: &Resource) -> (r: String)
    ensures
        r@ == candidate_text(*resource),
{
    fill4(
        CANDIDATE,
        resource.kind.as_str(),
        resource.group.as_str(),
        resource.version.as_str(),
        resource.plural.as_str(),
    )
}

/// Whether `a` is listed before `b` or beside it.
fn listed(a: &Resource, b: &Resource) -> (r: bool)
    ensures
        r == listed_by(*a, *b),
{
    if same(a.group.as_str(), b.group.as_str()) {
        no_later(a.kind.as_str(), b.kind.as_str())
    } else {
        no_later(a.group.as_str(), b.group.as_str())
    }
}

/// Puts one more resource where it is listed.
fn place<'a>(out: &mut Vec<&'a Resource>, resource: &'a Resource)
    ensures
        targets(final(out)@) == placed(targets(old(out)@), *resource),
{
    let ghost all = targets(out@);
    let ghost whole = placed(all, *resource);
    let mut at: usize = out.len();
    assert(all.take(at as int) =~= all);
    assert(whole + all.skip(at as int) =~= whole);
    while at > 0 && !listed(out[at - 1], resource)
        invariant
            at <= out.len(),
            all == targets(out@),
            whole == placed(all.take(at as int), *resource) + all.skip(at as int),
        decreases at,
    {
        let ghost start = all.take(at as int);
        proof {
            assert(start.drop_last() =~= all.take(at - 1));
            assert(start.last() == *out@[at - 1]);
            assert(placed(start.drop_last(), *resource).push(start.last()) + all.skip(at as int)
                =~= placed(all.take(at - 1), *resource) + all.skip(at - 1));
        }
        at = at - 1;
    }
    proof {
        let start = all.take(at as int);
        if at > 0 {
            assert(start.last() == *out@[at - 1]);
        }
        assert(placed(start, *resource) == start.push(*resource));
    }
    let ghost held = out@;
    out.insert(at, resource);
    proof {
        assert(out@ == held.insert(at as int, resource));
        assert(targets(out@) =~= all.take(at as int).push(*resource) + all.skip(at as int));
    }
}

/// Filtering one more item keeps it exactly where it passes.
proof fn filter_one_more(resources: Seq<Resource>, resource: Resource, pass: spec_fn(Resource) -> bool)
    ensures
        resources.push(resource).filter(pass) == if pass(resource) {
            resources.filter(pass).push(resource)
        } else {
            resources.filter(pass)
        },
{
    reveal(Seq::filter);
    assert(resources.push(resource).drop_last() =~= resources);
}

/// The one listable resource a selector names, in the snapshot it is looked for in.
///
/// # Errors
///
/// [`Unresolved`]: each of its states is a different one and none of them is "empty". A name that
/// several types share is never settled by preferring one of them.
pub fn resolve<'snapshot>(selector: &Selector, discovery: &'snapshot Discovery) -> (r: Result<
    &'snapshot Resource,
    Unresolved,
>)
    ensures
        match r {
            Ok(resource) => resolution(selector@, discovery.resources@, Verb::List) == (
            Resolution::Found { resource: *resource }),
            Err(unresolved) => resolution(selector@, discovery.resources@, Verb::List)
                == unresolved@,
        },
{
    resolve_for(selector, discovery, Verb::List)
}

/// The one resource a selector names, in the snapshot it is looked for in, for a verb.
///
/// # Errors
///
/// [`Unresolved`], as [`resolve`] has it.
pub fn resolve_for<'snapshot>(
    selector: &Selector,
    discovery: &'snapshot Discovery,
    verb: Verb,
) -> (r: Result<&'snapshot Resource, Unresolved>)
    ensures
        match r {
            Ok(resource) => resolution(selector@, discovery.resources@, verb) == (
            Resolution::Found { resource: *resource }),
            Err(unresolved) => resolution(selector@, discovery.resources@, verb) == unresolved@,
        },
{
    if !selector.names_something() {
        return Err(Unresolved::Unasked);
    }
    let ghost pass = |resource: Resource| selector@.picks(resource);
    let ghost all = discovery.resources@;
    let mut matched: Vec<&Resource> = Vec::new();
    let mut i: usize = 0;
    proof {
        reveal(Seq::filter);
        assert(all.take(0).filter(pass) =~= Seq::<Resource>::empty());
        assert(targets(matched@) =~= Seq::<Resource>::empty());
    }
    while i < discovery.resources.len()
        invariant
            i <= discovery.resources.len(),
            all == discovery.resources@,
            pass == |resource: Resource| selector@.picks(resource),
            targets(matched@) == all.take(i as int).filter(pass),
        decreases discovery.resources.len() - i,
    {
        let resource: &Resource = &discovery.resources[i];
        let ghost held = matched@;
        if selector.matches(resource) {
            matched.push(resource);
            assert(targets(matched@) =~= targets(held).push(*resource));
        }
        i = i + 1;
        proof {
            assert(all.take(i as int) =~= all.take(i - 1).push(*resource));
            filter_one_more(all.take(i - 1), *resource, pass);
        }
    }
    let ghost found = picked(selector@, all);
    assert(all.take(i as int) =~= all);
    assert(targets(matched@) == found);
    if matched.len() == 0 {
        assert(found.len() == 0);
        return Err(Unresolved::NotServed);
    }
    if matched.len() == 1 {
        let only: &Resource = matched[0];
        assert(found[0] == *only);
        if verb == Verb::List && !only.supports(Verb::List) {
            return Err(Unresolved::NotListable { gvr: only.gvr.clone() });
        }
        if verb == Verb::Get && !only.supports(Verb::Get) {
            return Err(Unresolved::NotGettable { gvr: only.gvr.clone() });
        }
        return Ok(only);
    }
    let mut arranged: Vec<&Resource> = Vec::new();
    let mut k: usize = 0;
    assert(targets(arranged@) =~= in_listing_order(found.take(0)));
    while k < matched.len()
        invariant
            k <= matched.len(),
            targets(matched@) == found,
            targets(arranged@) == in_listing_order(found.take(k as int)),
        decreases matched.len() - k,
    {
        place(&mut arranged, matched[k]);
        k = k + 1;
        proof {
            assert(found.take(k as int).drop_last() =~= found.take(k - 1));
            assert(found.take(k as int).last() == *matched@[k - 1]);
        }
    }
    assert(found.take(k as int) =~= found);
    let ghost listing = in_listing_order(found);
    let ghost wanted = listing.map_values(|r: Resource| candidate_text(r));
    let mut candidates: Vec<String> = Vec::new();
    let mut m: usize = 0;
    while m < arranged.len()
        invariant
            m <= arranged.len(),
            targets(arranged@) == listing,
            wanted == listing.map_values(|r: Resource| candidate_text(r)),
            views(candidates@) == wanted.take(m as int),
        decreases arranged.len() - m,
    {
        broadcast use group_views;

        let spelled: String = candidate(arranged[m]);
        assert(listing[m as int] == *arranged@[m as int]);
        candidates.push(spelled);
        m = m + 1;
        assert(wanted.take(m as int) =~= wanted.take(m - 1).push(wanted[m - 1]));
    }
    assert(wanted.take(m as int) =~= wanted);
    Err(Unresolved::Ambiguous { candidates })
}

/// The scope word a record reports, which is the server's answer and never a guess.
pub fn scope_word(scope: Scope) -> (r: &'static str)
    ensures
        r@ == match scope {
            Scope::Namespaced => "namespaced"@,
            Scope::Cluster => "cluster"@,
        },
{
    match scope {
        Scope::Namespaced => "namespaced",
        Scope::Cluster => "cluster",
    }
}

// --- the cluster's own catalogue ------------------------------------------------------------------

pub const CORE: &'static str = "core";

pub const CATALOGUE_LINE: &'static str = "{}: {}";

/// The name a group is shown under; the core group has an empty one of its own.
pub open spec fn group_shown(group: Seq<char>) -> Seq<char> {
    if group.len() == 0 {
        CORE@
    } else {
        group
    }
}

/// The groups in which something may be listed.
pub open spec fn listable_groups(resources: Seq<Resource>) -> Set<Seq<char>> {
    Set::new(
        |group: Seq<char>|
            exists|i: int|
                0 <= i < resources.len() && (#[trigger] resources[i]).offers(Verb::List)
                    && resources[i].group@ == group,
    )
}

/// The kinds of a group that may be listed.
pub open spec fn listable_kinds(resources: Seq<Resource>, group: Seq<char>) -> Set<Seq<char>> {
    Set::new(
        |kind: Seq<char>|
            exists|i: int|
                0 <= i < resources.len() && (#[trigger] resources[i]).offers(Verb::List)
                    && resources[i].group@ == group && resources[i].kind@ == kind,
    )
}

/// One line of the catalogue: a group, and its listable kinds in order, each once.
pub open spec fn catalogue_line(resources: Seq<Resource>, group: Seq<char>) -> Seq<char> {
    filled(
        CATALOGUE_LINE@,
        seq![
            group_shown(group),
            joined(ascending(listable_kinds(resources, group)), ", "@),
        ],
    )
}

/// The catalogue: a line for each group in which something may be listed, in order.
pub open spec fn catalogue_lines(resources: Seq<Resource>) -> Seq<Seq<char>> {
    ascending(listable_groups(resources)).map_values(
        |group: Seq<char>| catalogue_line(resources, group),
    )
}

/// The name a group is shown under.
pub fn shown_group(group: &str) -> (r: String)
    ensures
        r@ == group_shown(group@),
{
    if crate::text::chars(group).len() == 0 {
        CORE.to_owned()
    } else {
        group.to_owned()
    }
}

/// The groups in which something may be listed, in order.
fn groups_of(resources: &Vec<Resource>) -> (r: Vec<String>)
    ensures
        views(r@) == ascending(listable_groups(resources@)),
{
    let mut groups: Vec<String> = Vec::new();
    let mut i: usize = 0;
    while i < resources.len()
        invariant
            i <= resources.len(),
            forall|g: Seq<char>| #[trigger]
                views(groups@).contains(g) <==> listable_groups(resources@.take(i as int)).contains(
                    g,
                ),
        decreases resources.len() - i,
    {
        broadcast use group_views;

        let ghost before = views(groups@);
        let ghost some = resources@.take(i as int);
        let resource: &Resource = &resources[i];
        let offered: bool = resource.supports(Verb::List);
        if offered {
            groups.push(resource.group.clone());
        }
        i = i + 1;
        proof {
            let more = resources@.take(i as int);
            assert(more =~= some.push(*resource));
            assert forall|g: Seq<char>| #[trigger]
                views(groups@).contains(g) <==> listable_groups(more).contains(g) by {
                if offered {
                    lemma_pushed(before, resource.group@, g);
                }
                if listable_groups(some).contains(g) {
                    let k = choose|k: int|
                        0 <= k < some.len() && (#[trigger] some[k]).offers(Verb::List)
                            && some[k].group@ == g;
                    assert(more[k] == some[k]);
                }
                if offered && resource.group@ == g {
                    assert(more[i - 1] == *resource);
                }
                if listable_groups(more).contains(g) {
                    let k = choose|k: int|
                        0 <= k < more.len() && (#[trigger] more[k]).offers(Verb::List)
                            && more[k].group@ == g;
                    if k < i - 1 {
                        assert(some[k] == more[k]);
                    }
                }
            }
        }
    }
    proof {
        assert(resources@.take(i as int) =~= resources@);
        assert(views(groups@).to_set() =~= listable_groups(resources@));
    }
    sort_once(&groups)
}

/// Appending adds exactly the one item.
proof fn lemma_pushed(items: Seq<Seq<char>>, item: Seq<char>, other: Seq<char>)
    ensures
        items.push(item).contains(other) <==> items.contains(other) || item == other,
{
    if items.contains(other) {
        let k = choose|k: int| 0 <= k < items.len() && items[k] == other;
        assert(items.push(item)[k] == other);
    }
    if item == other {
        assert(items.push(item)[items.len() as int] == other);
    }
    if items.push(item).contains(other) {
        let k = choose|k: int| 0 <= k < items.push(item).len() && items.push(item)[k] == other;
        if k < items.len() {
            assert(items[k] == other);
        }
    }
}

/// The kinds of a group that may be listed, in order.
fn kinds_of(resources: &Vec<Resource>, group: &str) -> (r: Vec<String>)
    ensures
        views(r@) == ascending(listable_kinds(resources@, group@)),
{
    let mut kinds: Vec<String> = Vec::new();
    let mut i: usize = 0;
    while i < resources.len()
        invariant
            i <= resources.len(),
            forall|k: Seq<char>| #[trigger]
                views(kinds@).contains(k) <==> listable_kinds(
                    resources@.take(i as int),
                    group@,
                ).contains(k),
        decreases resources.len() - i,
    {
        broadcast use group_views;

        let ghost before = views(kinds@);
        let ghost some = resources@.take(i as int);
        let resource: &Resource = &resources[i];
        let wanted: bool = resource.supports(Verb::List) && same(resource.group.as_str(), group);
        if wanted {
            kinds.push(resource.kind.clone());
        }
        i = i + 1;
        proof {
            let more = resources@.take(i as int);
            assert(more =~= some.push(*resource));
            assert forall|kind: Seq<char>| #[trigger]
                views(kinds@).contains(kind) <==> listable_kinds(more, group@).contains(kind) by {
                if wanted {
                    lemma_pushed(before, resource.kind@, kind);
                }
                if listable_kinds(some, group@).contains(kind) {
                    let k = choose|k: int|
                        0 <= k < some.len() && (#[trigger] some[k]).offers(Verb::List)
                            && some[k].group@ == group@ && some[k].kind@ == kind;
                    assert(more[k] == some[k]);
                }
                if wanted && resource.kind@ == kind {
                    assert(more[i - 1] == *resource);
                }
                if listable_kinds(more, group@).contains(kind) {
                    let k = choose|k: int|
                        0 <= k < more.len() && (#[trigger] more[k]).offers(Verb::List)
                            && more[k].group@ == group@ && more[k].kind@ == kind;
                    if k < i - 1 {
                        assert(some[k] == more[k]);
                    }
                }
            }
        }
    }
    proof {
        assert(resources@.take(i as int) =~= resources@);
        assert(views(kinds@).to_set() =~= listable_kinds(resources@, group@));
    }
    sort_once(&kinds)
}

/// Every listable resource a snapshot holds, spelled as the query that would select it.
///
/// What a refusal offers when the query named nothing: the cluster's own catalogue, which is the
/// only honest answer to "which resource?" from a provider that compiles in no list of them.
pub fn catalogue(discovery: &Discovery) -> (r: Vec<String>)
    ensures
        views(r@) == catalogue_lines(discovery.resources@),
{
    let groups: Vec<String> = groups_of(&discovery.resources);
    let ghost resources = discovery.resources@;
    let ghost wanted = catalogue_lines(resources);
    let mut lines: Vec<String> = Vec::new();
    let mut i: usize = 0;
    while i < groups.len()
        invariant
            i <= groups.len(),
            resources == discovery.resources@,
            wanted == catalogue_lines(resources),
            views(groups@) == ascending(listable_groups(resources)),
            views(lines@) == wanted.take(i as int),
        decreases groups.len() - i,
    {
        broadcast use group_views;

        let kinds: Vec<String> = kinds_of(&discovery.resources, groups[i].as_str());
        let shown: String = shown_group(groups[i].as_str());
        let line: String = fill2(CATALOGUE_LINE, shown.as_str(), join(&kinds, ", ").as_str());
        lines.push(line);
        i = i + 1;
        proof {
            assert(views(groups@)[i - 1] == groups@[i - 1]@);
            assert(wanted.take(i as int) =~= wanted.take(i - 1).push(wanted[i - 1]));
        }
    }
    assert(wanted.take(i as int) =~= wanted);
    lines
}

// --- laws -----------------------------------------------------------------------------------------

/// The order resources are listed in is a total one, up to resources of one group and kind.
proof fn listing_order_is_total(a: Resource, b: Resource, c: Resource)
    ensures
        listed_by(a, b) || listed_by(b, a),
        listed_by(a, b) && listed_by(b, c) ==> listed_by(a, c),
{
    at_most_total(a.group@, b.group@);
    at_most_total(a.kind@, b.kind@);
    if listed_by(a, b) && listed_by(b, c) {
        if a.group@ == b.group@ && b.group@ == c.group@ {
            at_most_transitive(a.kind@, b.kind@, c.kind@);
        } else if a.group@ != b.group@ && b.group@ != c.group@ {
            at_most_transitive(a.group@, b.group@, c.group@);
            if a.group@ == c.group@ {
                at_most_antisymmetric(a.group@, b.group@);
            }
        }
    }
}

/// Whether resources stand in listing order.
pub open spec fn is_listing(resources: Seq<Resource>) -> bool {
    forall|i: int, j: int| 0 <= i < j < resources.len() ==> listed_by(resources[i], resources[j])
}

/// Placing one more resource keeps the order and adds exactly that one.
proof fn placing_keeps(resources: Seq<Resource>, resource: Resource)
    requires
        is_listing(resources),
    ensures
        is_listing(placed(resources, resource)),
        placed(resources, resource).to_multiset() == resources.to_multiset().insert(resource),
        placed(resources, resource).len() == resources.len() + 1,
    decreases resources.len(),
{
    let out = placed(resources, resource);
    if resources.len() == 0 || listed_by(resources.last(), resource) {
        resources.to_multiset_ensures();
        assert forall|i: int, j: int| 0 <= i < j < out.len() implies listed_by(out[i], out[j]) by {
            if j == resources.len() {
                assert(out[i] == resources[i]);
                if i < resources.len() - 1 {
                    listing_order_is_total(resources[i], resources.last(), resource);
                }
            } else {
                assert(out[i] == resources[i] && out[j] == resources[j]);
            }
        }
    } else {
        let start = resources.drop_last();
        let last = resources.last();
        assert forall|i: int, j: int| 0 <= i < j < start.len() implies listed_by(
            start[i],
            start[j],
        ) by {
            assert(start[i] == resources[i] && start[j] == resources[j]);
        }
        placing_keeps(start, resource);
        let before = placed(start, resource);
        before.to_multiset_ensures();
        start.to_multiset_ensures();
        assert(start.push(last) =~= resources);
        assert(out.to_multiset() =~= resources.to_multiset().insert(resource));
        listing_order_is_total(last, resource, resource);
        assert forall|i: int| 0 <= i < before.len() implies listed_by(before[i], last) by {
            assert(before.to_multiset().contains(before[i])) by {
                assert(before.contains(before[i]));
            }
            if before[i] != resource {
                assert(start.to_multiset().contains(before[i]));
                assert(start.contains(before[i]));
                let k = choose|k: int| 0 <= k < start.len() && start[k] == before[i];
                assert(listed_by(resources[k], resources[resources.len() - 1]));
            }
        }
        assert forall|i: int, j: int| 0 <= i < j < out.len() implies listed_by(out[i], out[j]) by {
            if j < before.len() {
                assert(out[i] == before[i] && out[j] == before[j]);
            } else {
                assert(out[i] == before[i]);
            }
        }
    }
}

/// Listing resources in order keeps every one of them, as often as it was there.
pub proof fn listing_keeps(resources: Seq<Resource>)
    ensures
        is_listing(in_listing_order(resources)),
        in_listing_order(resources).to_multiset() == resources.to_multiset(),
        in_listing_order(resources).len() == resources.len(),
    decreases resources.len(),
{
    if resources.len() == 0 {
        assert(in_listing_order(resources) =~= resources);
    } else {
        listing_keeps(resources.drop_last());
        placing_keeps(in_listing_order(resources.drop_last()), resources.last());
        resources.drop_last().to_multiset_ensures();
        assert(resources.drop_last().push(resources.last()) =~= resources);
    }
}

/// What is filtered out of two places that pass is at least two.
proof fn two_pass(resources: Seq<Resource>, pass: spec_fn(Resource) -> bool, i: int, j: int)
    requires
        0 <= i < j < resources.len(),
        pass(resources[i]),
        pass(resources[j]),
    ensures
        resources.filter(pass).len() >= 2,
{
    let start = resources.take(j);
    let end = resources.skip(j);
    assert(resources =~= start + end);
    Seq::filter_distributes_over_add(start, end, pass);
    start.lemma_filter_contains(pass, i);
    assert(end[0] == resources[j]);
    end.lemma_filter_contains(pass, 0);
    assert(start.filter(pass).len() > 0);
    assert(end.filter(pass).len() > 0);
}

/// A name that two served types share is never settled by preferring one of them: the answer is
/// every candidate, spelled out, whatever the types are and however many more there are.
pub proof fn ambiguity_is_never_settled(
    selection: Selection,
    resources: Seq<Resource>,
    verb: Verb,
    i: int,
    j: int,
)
    requires
        selection.asks(),
        0 <= i < j < resources.len(),
        selection.picks(resources[i]),
        selection.picks(resources[j]),
    ensures
        resolution(selection, resources, verb) matches Resolution::Ambiguous { candidates }
            && candidates.len() == picked(selection, resources).len()
            && candidates.contains(candidate_text(resources[i]))
            && candidates.contains(candidate_text(resources[j])),
{
    let pass = |resource: Resource| selection.picks(resource);
    let matched = picked(selection, resources);
    two_pass(resources, pass, i, j);
    listing_keeps(matched);
    let listing = in_listing_order(matched);
    let candidates = listing.map_values(|r: Resource| candidate_text(r));
    resources.lemma_filter_contains(pass, i);
    resources.lemma_filter_contains(pass, j);
    matched.to_multiset_ensures();
    listing.to_multiset_ensures();
    assert(listing.to_multiset().contains(resources[i]));
    assert(listing.to_multiset().contains(resources[j]));
    let a = choose|a: int| 0 <= a < listing.len() && listing[a] == resources[i];
    let b = choose|b: int| 0 <= b < listing.len() && listing[b] == resources[j];
    assert(candidates[a] == candidate_text(resources[i]));
    assert(candidates[b] == candidate_text(resources[j]));
}

/// A resource a selector resolves to is one the cluster serves, one the selector asks for, the only
/// such one, and one that offers what it is looked for, a listing or a direct read.
pub proof fn what_is_found_is_the_only_match(
    selection: Selection,
    resources: Seq<Resource>,
    verb: Verb,
)
    requires
        resolution(selection, resources, verb) is Found,
    ensures
        ({
            let resource = resolution(selection, resources, verb)->Found_resource;
            &&& selection.asks()
            &&& resources.contains(resource)
            &&& selection.picks(resource)
            &&& verb == Verb::List || verb == Verb::Get ==> resource.offers(verb)
            &&& forall|i: int|
                0 <= i < resources.len() && selection.picks(#[trigger] resources[i])
                    ==> resources[i] == resource
        }),
{
    let pass = |resource: Resource| selection.picks(resource);
    let matched = picked(selection, resources);
    let resource = matched[0];
    assert(matched.contains(resource));
    resources.lemma_filter_contains_rev(pass, resource);
    resources.lemma_filter_pred(pass, 0);
    assert forall|i: int|
        0 <= i < resources.len() && selection.picks(#[trigger] resources[i]) implies resources[i]
        == resource by {
        resources.lemma_filter_contains(pass, i);
        let k = choose|k: int| 0 <= k < matched.len() && matched[k] == resources[i];
        assert(k == 0);
    }
}

/// Naming the core group by its empty name and naming no group are different questions: the first
/// asks for the core group alone, the second leaves the group open.
pub proof fn an_empty_group_narrows(options: Seq<(Seq<char>, JsonView)>)
    requires
        member(options, "group"@) == Some(JsonView::Text(Seq::empty())),
    ensures
        forall|resource: Resource| #[trigger]
            selected(options).picks(resource) ==> resource.group@.len() == 0,
{
}

}
