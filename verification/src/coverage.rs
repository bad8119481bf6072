//! What a search reached, and what kept it from reaching the rest.
//!
//! A denial, an unserved type and a failed request are three different reasons to have found
//! nothing, and none of them is evidence that there is nothing.

use vstd::prelude::*;


verus! {

/// How a question put to the API server came out.
#[derive(Debug, Clone, Copy, PartialEq, Eq, Structural)]
pub enum Outcome {
    /// The one outcome that is evidence of absence.
    Absent,
    NamespaceAbsent,
    ReadDenied,
    TypeNotServed,
    RequestFailed,
    Disconnected,
    NotQueried,
    /// Any other outcome of the domain layer's vocabulary.
    Other,
}

/// What was asked about.
#[derive(Debug, PartialEq, Eq)]
pub enum Reach {
    /// What belongs to no namespace.
    Cluster,
    AllNamespaces,
    Namespace(String),
}

/// What was asked about.
pub enum ReachView {
    Cluster,
    AllNamespaces,
    Namespace(Seq<char>),
}

impl View for Reach {
    type V = ReachView;

    open spec fn view(&self) -> ReachView {
        match self {
            Reach::Cluster => ReachView::Cluster,
            Reach::AllNamespaces => ReachView::AllNamespaces,
            Reach::Namespace(name) => ReachView::Namespace(name@),
        }
    }
}

impl Clone for Reach {
    fn clone(&self) -> (r: Reach)
        ensures
            r@ == self@,
    {
        match self {
            Reach::Cluster => Reach::Cluster,
            Reach::AllNamespaces => Reach::AllNamespaces,
            Reach::Namespace(name) => Reach::Namespace(name.clone()),
        }
    }
}

/// What could not be reached, and why.
#[derive(Debug, PartialEq, Eq)]
pub struct Gap {
    pub place: String,
    pub outcome: Outcome,
}

impl View for Gap {
    type V = (Seq<char>, Outcome);

    open spec fn view(&self) -> (Seq<char>, Outcome) {
        (self.place@, self.outcome)
    }
}

/// What some gaps are.
pub open spec fn gap_views(gaps: Seq<Gap>) -> Seq<(Seq<char>, Outcome)> {
    gaps.map_values(|gap: Gap| gap@)
}

/// One gap.
pub fn gap(place: &str, outcome: Outcome) -> (r: Gap)
    ensures
        r@ == (place@, outcome),
{
    Gap { place: place.to_owned(), outcome }
}

/// What is asked about for a resource: a cluster-scoped one has no namespace, and inventing one for
/// it would name nothing.
pub open spec fn reach_for(scope: crate::discovery::Scope, asked: ReachView) -> ReachView {
    match scope {
        crate::discovery::Scope::Cluster => ReachView::Cluster,
        crate::discovery::Scope::Namespaced => asked,
    }
}

/// What is asked about for a resource.
pub fn scope_for(scope: crate::discovery::Scope, asked: &Reach) -> (r: Reach)
    ensures
        r@ == reach_for(scope, asked@),
{
    match scope {
        crate::discovery::Scope::Cluster => Reach::Cluster,
        crate::discovery::Scope::Namespaced => asked.clone(),
    }
}

}
