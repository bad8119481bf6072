//! Handing records over one at a time, and how an invocation ends.
//!
//! What was already delivered is true. An answer known to be partial is delivered and then fails,
//! because a stream of records of one schema has nowhere to put a coverage report.

use vstd::prelude::*;

use crate::failure::{failure, refusal, Class, Refusal, WireError};
use crate::text::{fill1, fill2, filled};

verus! {

/// How an invocation ended.
#[derive(Debug, PartialEq, Eq)]
pub enum Invocation {
    Completed,
    Cancelled,
    Failed(WireError),
}

/// How an invocation ended.
pub enum Ended {
    Completed,
    Cancelled,
    Failed(Refusal),
}

impl View for Invocation {
    type V = Ended;

    open spec fn view(&self) -> Ended {
        match self {
            Invocation::Completed => Ended::Completed,
            Invocation::Cancelled => Ended::Cancelled,
            Invocation::Failed(error) => Ended::Failed(error@),
        }
    }
}

impl Clone for Invocation {
    fn clone(&self) -> (r: Invocation)
        ensures
            r@ == self@,
    {
        match self {
            Invocation::Completed => Invocation::Completed,
            Invocation::Cancelled => Invocation::Cancelled,
            Invocation::Failed(error) => Invocation::Failed(error.clone()),
        }
    }
}

/// What became of one record.
#[derive(Debug, PartialEq, Eq)]
pub enum Delivery {
    /// The host took it.
    Taken,
    /// The operator stopped the query.
    Cancelled,
    /// The host would not take it, and why.
    Refused(String),
    /// The object could not be taken across the redaction boundary, and why.
    Unguarded(String),
    /// The record could not be built, and why.
    Unbuilt(String),
}

/// What became of one record.
pub enum DeliveryView {
    Taken,
    Cancelled,
    Refused(Seq<char>),
    Unguarded(Seq<char>),
    Unbuilt(Seq<char>),
}

impl View for Delivery {
    type V = DeliveryView;

    open spec fn view(&self) -> DeliveryView {
        match self {
            Delivery::Taken => DeliveryView::Taken,
            Delivery::Cancelled => DeliveryView::Cancelled,
            Delivery::Refused(error) => DeliveryView::Refused(error@),
            Delivery::Unguarded(error) => DeliveryView::Unguarded(error@),
            Delivery::Unbuilt(error) => DeliveryView::Unbuilt(error@),
        }
    }
}

pub const RECORD_REFUSED: &'static str = "the host refused a record: {}";

pub const RECORD_REFUSED_HELP: &'static str = "The stream ended before the query did.";

pub const NOT_GUARDED: &'static str =
    "an object could not be taken across the redaction boundary: {}";

pub const NOT_GUARDED_HELP: &'static str =
    "This is a defect in the Kubernetes provider, not in the cluster.";

pub const NOT_BUILT: &'static str = "a record of `{}` could not be built: {}";

pub const NOT_BUILT_HELP: &'static str =
    "This is a defect in the Kubernetes provider's schema table.";

/// How the delivery of one record ends the invocation, where it does.
pub open spec fn ended_by(delivery: DeliveryView, schema: Seq<char>) -> Option<Ended> {
    match delivery {
        DeliveryView::Taken => None,
        DeliveryView::Cancelled => Some(Ended::Cancelled),
        DeliveryView::Refused(error) => Some(
            Ended::Failed(
                refusal(
                    Class::Unavailable,
                    filled(RECORD_REFUSED@, seq![error]),
                    RECORD_REFUSED_HELP@,
                ),
            ),
        ),
        DeliveryView::Unguarded(error) => Some(
            Ended::Failed(
                refusal(Class::Unavailable, filled(NOT_GUARDED@, seq![error]), NOT_GUARDED_HELP@),
            ),
        ),
        DeliveryView::Unbuilt(error) => Some(
            Ended::Failed(
                refusal(
                    Class::Unavailable,
                    filled(NOT_BUILT@, seq![schema, error]),
                    NOT_BUILT_HELP@,
                ),
            ),
        ),
    }
}

/// How the delivery of one record ends the invocation, where it does.
pub fn after_delivery(delivery: &Delivery, schema: &str) -> (r: Option<Invocation>)
    ensures
        match r {
            Some(ended) => ended_by(delivery@, schema@) == Some(ended@),
            None => ended_by(delivery@, schema@) is None,
        },
{
    match delivery {
        Delivery::Taken => None,
        Delivery::Cancelled => Some(Invocation::Cancelled),
        Delivery::Refused(error) => Some(
            Invocation::Failed(
                failure(
                    Class::Unavailable,
                    fill1(RECORD_REFUSED, error.as_str()),
                    RECORD_REFUSED_HELP,
                ),
            ),
        ),
        Delivery::Unguarded(error) => Some(Invocation::Failed(not_guarded(error.as_str()))),
        Delivery::Unbuilt(error) => Some(
            Invocation::Failed(
                failure(
                    Class::Unavailable,
                    fill2(NOT_BUILT, schema, error.as_str()),
                    NOT_BUILT_HELP,
                ),
            ),
        ),
    }
}

/// An object that could not be taken across the redaction boundary.
pub fn not_guarded(error: &str) -> (r: WireError)
    ensures
        r@ == refusal(Class::Unavailable, filled(NOT_GUARDED@, seq![error@]), NOT_GUARDED_HELP@),
{
    failure(Class::Unavailable, fill1(NOT_GUARDED, error), NOT_GUARDED_HELP)
}

/// What to do next.
#[derive(Debug, PartialEq, Eq)]
pub enum Next {
    /// Hand over the next record.
    Deliver,
    /// The invocation is over.
    Stop(Invocation),
}

/// What to do next.
pub enum NextView {
    Deliver,
    Stop(Ended),
}

impl View for Next {
    type V = NextView;

    open spec fn view(&self) -> NextView {
        match self {
            Next::Deliver => NextView::Deliver,
            Next::Stop(ended) => NextView::Stop(ended@),
        }
    }
}

/// Records being handed over: how many are left, and how the invocation ends once none is.
#[derive(Debug, PartialEq, Eq)]
pub struct Emission {
    pub left: usize,
    pub ending: Invocation,
}

/// What to do next: stop where nothing is left, stop promptly where the operator has stopped the
/// query, and otherwise hand over the next record.
pub open spec fn next_step(left: nat, ending: Ended, cancelled: bool) -> NextView {
    if left == 0 {
        NextView::Stop(ending)
    } else if cancelled {
        NextView::Stop(Ended::Cancelled)
    } else {
        NextView::Deliver
    }
}

impl Emission {
    /// What to do next, asked between two records.
    pub fn next(&self, cancelled: bool) -> (r: Next)
        ensures
            r@ == next_step(self.left as nat, self.ending@, cancelled),
    {
        if self.left == 0 {
            Next::Stop(self.ending.clone())
        } else if cancelled {
            Next::Stop(Invocation::Cancelled)
        } else {
            Next::Deliver
        }
    }

    /// Notes what became of one record, and says how that ends the invocation, where it does.
    pub fn delivered(&mut self, delivery: &Delivery, schema: &str) -> (r: Option<Invocation>)
        requires
            old(self).left > 0,
        ensures
            final(self).left == old(self).left - 1,
            final(self).ending@ == old(self).ending@,
            match r {
                Some(ended) => ended_by(delivery@, schema@) == Some(ended@),
                None => ended_by(delivery@, schema@) is None,
            },
    {
        self.left = self.left - 1;
        after_delivery(delivery, schema)
    }
}

// --- laws -----------------------------------------------------------------------------------------

/// How handing over some records ends: before each one the operator may have stopped the query, and
/// each one comes to something.
pub open spec fn emission_ends(
    turns: Seq<(bool, DeliveryView)>,
    schema: Seq<char>,
    ending: Ended,
) -> Ended
    decreases turns.len(),
{
    let cancelled = turns.len() > 0 && turns[0].0;
    match next_step(turns.len(), ending, cancelled) {
        NextView::Stop(ended) => ended,
        NextView::Deliver => match ended_by(turns[0].1, schema) {
            Some(ended) => ended,
            None => emission_ends(turns.skip(1), schema, ending),
        },
    }
}

/// An answer whose ending is a failure never completes, however many of its records were taken: a
/// partial answer never renders as a whole one.
pub proof fn a_partial_answer_never_completes(
    turns: Seq<(bool, DeliveryView)>,
    schema: Seq<char>,
    ending: Ended,
)
    requires
        ending is Failed,
    ensures
        !(emission_ends(turns, schema, ending) is Completed),
    decreases turns.len(),
{
    if turns.len() > 0 && !turns[0].0 && ended_by(turns[0].1, schema) is None {
        a_partial_answer_never_completes(turns.skip(1), schema, ending);
    }
}

/// Where nobody stops the query and the host takes every record, the invocation ends the way the
/// answer says it does.
pub proof fn an_undisturbed_answer_ends_as_it_says(
    turns: Seq<(bool, DeliveryView)>,
    schema: Seq<char>,
    ending: Ended,
)
    requires
        forall|i: int| 0 <= i < turns.len() ==> #[trigger] turns[i] == (false, DeliveryView::Taken),
    ensures
        emission_ends(turns, schema, ending) == ending,
    decreases turns.len(),
{
    if turns.len() > 0 {
        assert(turns[0] == (false, DeliveryView::Taken));
        assert forall|i: int| 0 <= i < turns.skip(1).len() implies #[trigger] turns.skip(1)[i] == (
            false,
            DeliveryView::Taken,
        ) by {
            assert(turns.skip(1)[i] == turns[i + 1]);
        }
        an_undisturbed_answer_ends_as_it_says(turns.skip(1), schema, ending);
    }
}

}
