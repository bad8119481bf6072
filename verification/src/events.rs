//! The Events a cluster reported about one object, and everything they are not.
//!
//! Nothing observed is not nothing happened: a search that matches no Event ends the invocation
//! with a refusal rather than with an empty stream, which every consumer reads as absence.

use vstd::prelude::*;

use crate::discovery::{group_version, group_version_of, resource_of, Discovery, Resource, Verb};
use crate::emission::{Emission, Ended, Invocation};
use crate::failure::{failure, refusal, Class, Refusal, WireError};
use crate::text::{among, fill1, fill3, filled, views};

verus! {

/// How many Events one page asks the API server for.
pub const PAGE_SIZE: u32 = 500;

/// The kind of an Event, in either representation.
pub const EVENT_KIND: &'static str = "Event";

/// The groups of the two representations, the preferred one first.
pub const REPRESENTATIONS: [&'static str; 2] = ["events.k8s.io", ""];

// --- which representation to read -----------------------------------------------------------------

/// The first representation from a place on whose group the cluster serves.
pub open spec fn representation_from(served: Discovery, place: int) -> Option<(int, Seq<char>)>
    decreases 2 - place,
{
    if place < 0 || place >= 2 {
        None
    } else {
        match served.preferred(REPRESENTATIONS@[place]@) {
            Some(version) => Some((place, group_version(REPRESENTATIONS@[place]@, version))),
            None => representation_from(served, place + 1),
        }
    }
}

/// The next representation to look for, from a place on, and the version of its group: the ones
/// whose group the cluster does not serve are passed over.
pub fn next_representation(served: &Discovery, place: usize) -> (r: Option<(usize, String)>)
    ensures
        match r {
            Some((found, version)) => representation_from(*served, place as int) == Some(
                (found as int, version@),
            ),
            None => representation_from(*served, place as int) is None,
        },
{
    let mut i: usize = place;
    while i < REPRESENTATIONS.len()
        invariant
            place <= i,
            i <= 2 || i == place,
            REPRESENTATIONS@.len() == 2,
            representation_from(*served, i as int) == representation_from(*served, place as int),
        decreases 2 - i,
    {
        let group: &str = REPRESENTATIONS[i];
        if let Some(version) = served.preferred_version(group) {
            return Some((i, group_version_of(group, version)));
        }
        i = i + 1;
    }
    None
}

/// The collection of Events of a group-version, where it may be listed.
pub open spec fn listable_events(catalogue: Discovery, group_version: Seq<char>) -> Option<
    Resource,
> {
    match resource_of(catalogue.resources@, group_version, EVENT_KIND@) {
        Some(resource) => if resource.offers(Verb::List) {
            Some(resource)
        } else {
            None
        },
        None => None,
    }
}

/// The collection of Events of a group-version, where it may be listed.
pub fn serving<'a>(catalogue: &'a Discovery, group_version: &str) -> (r: Option<&'a Resource>)
    ensures
        match r {
            Some(resource) => listable_events(*catalogue, group_version@) == Some(*resource),
            None => listable_events(*catalogue, group_version@) is None,
        },
{
    match catalogue.by_kind(group_version, EVENT_KIND) {
        Some(resource) => if resource.supports(Verb::List) {
            Some(resource)
        } else {
            None
        },
        None => None,
    }
}

pub const NO_EVENTS: &'static str =
    "this cluster serves neither `events.k8s.io` Events nor core Events that may be \
    listed";

pub const NO_EVENTS_HELP: &'static str =
    "An unserved API is not a cluster in which nothing was reported: nothing was asked, \
    so nothing is known (specification section 21.4).";

/// A cluster that serves neither representation: nobody was asked.
pub fn unserved() -> (r: WireError)
    ensures
        r@ == refusal(Class::Unsupported, NO_EVENTS@, NO_EVENTS_HELP@),
{
    failure(Class::Unsupported, NO_EVENTS.to_owned(), NO_EVENTS_HELP)
}

pub const NOT_AN_EVENT: &'static str =
    "the Events collection answered with something else: {}";

pub const NOT_AN_EVENT_HELP: &'static str =
    "The endpoint answered, but not as the collection discovery named.";

/// A collection of Events that holds something else, which is never skipped.
pub fn not_an_event(detail: &str) -> (r: WireError)
    ensures
        r@ == refusal(Class::Unavailable, filled(NOT_AN_EVENT@, seq![detail@]), NOT_AN_EVENT_HELP@),
{
    failure(Class::Unavailable, fill1(NOT_AN_EVENT, detail), NOT_AN_EVENT_HELP)
}

// --- which Events are handed over -----------------------------------------------------------------

/// The places of the Events whose identity is among the ones matched.
pub open spec fn regarded_places(read: Seq<Seq<char>>, matched: Seq<Seq<char>>) -> Seq<int>
    decreases read.len(),
{
    if read.len() == 0 {
        Seq::empty()
    } else if matched.contains(read.last()) {
        regarded_places(read.drop_last(), matched).push(read.len() - 1)
    } else {
        regarded_places(read.drop_last(), matched)
    }
}

/// The places of the Events that regard the subject, in the order the server sent them.
pub fn regarded(read: &Vec<String>, matched: &Vec<String>) -> (r: Vec<usize>)
    ensures
        r@.map_values(|place: usize| place as int) == regarded_places(
            views(read@),
            views(matched@),
        ),
{
    let ghost all = views(read@);
    let mut out: Vec<usize> = Vec::new();
    let mut i: usize = 0;
    assert(out@.map_values(|place: usize| place as int) =~= regarded_places(
        all.take(0),
        views(matched@),
    ));
    while i < read.len()
        invariant
            i <= read.len(),
            all == views(read@),
            out@.map_values(|place: usize| place as int) == regarded_places(
                all.take(i as int),
                views(matched@),
            ),
        decreases read.len() - i,
    {
        let ghost before = out@.map_values(|place: usize| place as int);
        assert(all.take(i + 1).drop_last() =~= all.take(i as int));
        assert(all.take(i + 1).last() == read@[i as int]@);
        if among(matched, read[i].as_str()) {
            out.push(i);
            assert(out@.map_values(|place: usize| place as int) =~= before.push(i as int));
        }
        i = i + 1;
    }
    assert(all.take(i as int) =~= all);
    out
}

/// What a search of the Events came to.
#[derive(Debug, PartialEq, Eq)]
pub enum Search {
    /// Events regarding the subject, by their identity.
    Observed(Vec<String>),
    /// None, and what that is rather than an absence.
    NotObserved(String),
}

/// One search: the object it is about, every Event that was read, and what the read covered.
#[derive(Debug, PartialEq, Eq)]
pub struct Reported {
    pub kind: String,
    pub name: String,
    /// The identity of each Event, in the order the server sent them.
    pub read: Vec<String>,
    pub found: Search,
    /// Whether the read covered what was asked about.
    pub complete: bool,
    /// What it covered, in words.
    pub coverage: String,
}

pub const NOT_OBSERVED: &'static str = "no Event regarding `{}/{}` was observed: {}";

pub const NOT_OBSERVED_HELP: &'static str =
    "This is not evidence that nothing happened. Kubernetes Events are best-effort and \
    retained for minutes to hours, so what is not here may have been reported and discarded, \
    or never reported at all (specification section 38.6).";

pub const EVENTS_SHORT: &'static str = "the Events could not all be read: {}";

pub const EVENTS_SHORT_HELP: &'static str =
    "The Events that did arrive are true. Events are best-effort and briefly retained even \
    when the read is complete, so a short read is short twice over (specification sections \
    38.1 and 21.4).";

/// The refusal to answer an empty search with silence.
pub open spec fn unobserved_refusal(kind: Seq<char>, name: Seq<char>, outcome: Seq<char>) -> Refusal {
    refusal(
        Class::Refused,
        filled(NOT_OBSERVED@, seq![kind, name, outcome]),
        NOT_OBSERVED_HELP@,
    )
}

/// The answer to a search that matched nothing.
pub fn not_observed(kind: &str, name: &str, outcome: &str) -> (r: WireError)
    ensures
        r@ == unobserved_refusal(kind@, name@, outcome@),
{
    failure(Class::Refused, fill3(NOT_OBSERVED, kind, name, outcome), NOT_OBSERVED_HELP)
}

/// Which of the Events read are handed over, and how the invocation ends after them. An object that
/// is not there has no Events, which is an answer.
pub open spec fn event_emission(reported: Option<Reported>) -> (Seq<int>, Ended) {
    match reported {
        None => (Seq::empty(), Ended::Completed),
        Some(reported) => match reported.found {
            Search::NotObserved(outcome) => (
                Seq::empty(),
                Ended::Failed(unobserved_refusal(reported.kind@, reported.name@, outcome@)),
            ),
            Search::Observed(matched) => (
                regarded_places(views(reported.read@), views(matched@)),
                if reported.complete {
                    Ended::Completed
                } else {
                    Ended::Failed(
                        refusal(
                            Class::Unavailable,
                            filled(EVENTS_SHORT@, seq![reported.coverage@]),
                            EVENTS_SHORT_HELP@,
                        ),
                    )
                },
            ),
        },
    }
}

/// Which of the Events read are handed over, and the emission of their records.
pub fn emission(reported: &Option<Reported>) -> (r: (Vec<usize>, Emission))
    ensures
        r.0@.map_values(|place: usize| place as int) == event_emission(*reported).0,
        r.1.left == r.0@.len(),
        r.1.ending@ == event_emission(*reported).1,
{
    match reported {
        None => {
            let none: Vec<usize> = Vec::new();
            assert(none@.map_values(|place: usize| place as int) =~= Seq::<int>::empty());
            (none, Emission { left: 0, ending: Invocation::Completed })
        },
        Some(reported) => match &reported.found {
            Search::NotObserved(outcome) => {
                let none: Vec<usize> = Vec::new();
                assert(none@.map_values(|place: usize| place as int) =~= Seq::<int>::empty());
                let error: WireError = not_observed(
                    reported.kind.as_str(),
                    reported.name.as_str(),
                    outcome.as_str(),
                );
                (none, Emission { left: 0, ending: Invocation::Failed(error) })
            },
            Search::Observed(matched) => {
                let places: Vec<usize> = regarded(&reported.read, matched);
                let ending: Invocation = if reported.complete {
                    Invocation::Completed
                } else {
                    Invocation::Failed(
                        failure(
                            Class::Unavailable,
                            fill1(EVENTS_SHORT, reported.coverage.as_str()),
                            EVENTS_SHORT_HELP,
                        ),
                    )
                };
                let left: usize = places.len();
                (places, Emission { left, ending })
            },
        },
    }
}

// --- laws -----------------------------------------------------------------------------------------

/// The newer representation is read wherever the cluster serves its group, and the core one only
/// where it does not.
pub proof fn the_newer_representation_comes_first(served: Discovery)
    ensures
        served.preferred(REPRESENTATIONS@[0]@) is Some ==> representation_from(served, 0) is Some
            && representation_from(served, 0)->Some_0.0 == 0,
        served.preferred(REPRESENTATIONS@[0]@) is None ==> representation_from(served, 0)
            == representation_from(served, 1),
{
    reveal_with_fuel(representation_from, 3);
}

/// A search that observed nothing about an object that exists ends in a refusal and never
/// completes.
pub proof fn nothing_observed_is_never_an_absence(reported: Reported)
    requires
        reported.found is NotObserved,
    ensures
        event_emission(Some(reported)).0.len() == 0,
        event_emission(Some(reported)).1 is Failed,
{
}

/// No Event is handed over twice, none that was not read, and all of them in the order the server
/// sent them: a count stays a count.
pub proof fn an_event_is_one_record(read: Seq<Seq<char>>, matched: Seq<Seq<char>>)
    ensures
        regarded_places(read, matched).len() <= read.len(),
        forall|i: int|
            0 <= i < regarded_places(read, matched).len() ==> {
                &&& 0 <= #[trigger] regarded_places(read, matched)[i] < read.len()
                &&& matched.contains(read[regarded_places(read, matched)[i]])
            },
        forall|i: int, j: int|
            0 <= i < j < regarded_places(read, matched).len() ==> #[trigger] regarded_places(
                read,
                matched,
            )[i] < #[trigger] regarded_places(read, matched)[j],
        forall|k: int|
            0 <= k < read.len() && matched.contains(#[trigger] read[k]) ==> regarded_places(
                read,
                matched,
            ).contains(k),
    decreases read.len(),
{
    if read.len() > 0 {
        let rest = read.drop_last();
        let held = regarded_places(rest, matched);
        let places = regarded_places(read, matched);
        an_event_is_one_record(rest, matched);
        assert forall|i: int| 0 <= i < places.len() implies 0 <= #[trigger] places[i] < read.len()
            && matched.contains(read[places[i]]) by {
            if i < held.len() {
                assert(places[i] == held[i]);
                assert(rest[held[i]] == read[held[i]]);
            }
        }
        assert forall|k: int| 0 <= k < read.len() && matched.contains(#[trigger] read[k]) implies
            places.contains(k) by {
            if k < rest.len() {
                assert(rest[k] == read[k]);
                let i = choose|i: int| 0 <= i < held.len() && held[i] == k;
                assert(places[i] == k);
            } else {
                assert(places[places.len() - 1] == k);
            }
        }
    }
}

}
