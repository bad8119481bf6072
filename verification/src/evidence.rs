//! What a Node states about the machine underneath it, as evidence and never as a match.
//!
//! A key that could not be read is a record too, so that a Node that states nothing reads
//! differently from a Node nobody asked.

use vstd::prelude::*;

use crate::contributions::Reads;
use crate::emission::{Emission, Ended, Invocation};
use crate::failure::{failure, refusal, Class, WireError};
use crate::records::{Exported, IdentityEvidence, Unobserved};
use crate::text::{fill1, filled};

verus! {

/// The kind whose evidence is read.
pub const NODE_KIND: &'static str = "Node";

pub const NOT_NODE_EVIDENCE: &'static str = "this target does not read Node evidence";

pub const NOT_NODE_EVIDENCE_HELP: &'static str =
    "This is a defect in the Kubernetes provider's contribution table.";

/// Whether a target reads Node evidence.
///
/// # Errors
///
/// A refusal where it reads anything else.
pub fn reads_evidence(reads: Reads) -> (r: Result<(), WireError>)
    ensures
        match r {
            Ok(_) => reads is Evidence,
            Err(error) => !(reads is Evidence) && error@ == refusal(
                Class::Unsupported,
                NOT_NODE_EVIDENCE@,
                NOT_NODE_EVIDENCE_HELP@,
            ),
        },
{
    match reads {
        Reads::Evidence => Ok(()),
        _ => Err(
            failure(Class::Unsupported, NOT_NODE_EVIDENCE.to_owned(), NOT_NODE_EVIDENCE_HELP),
        ),
    }
}

pub const NO_EVIDENCE_HELP: &'static str =
    "This target reads the machine evidence of a Node (specification section 47).";

pub const NO_ADDRESS: &'static str = "the Node this is evidence about has no address: {}";

pub const NO_ADDRESS_HELP: &'static str =
    "A place needs a name, and §35.4 binds it to the object's lifetime identity.";

/// An object that states no machine evidence.
pub fn no_evidence(detail: &str) -> (r: WireError)
    ensures
        r@ == refusal(Class::Unsupported, detail@, NO_EVIDENCE_HELP@),
{
    failure(Class::Unsupported, detail.to_owned(), NO_EVIDENCE_HELP)
}

/// A Node without an address.
pub fn no_address(detail: &str) -> (r: WireError)
    ensures
        r@ == refusal(Class::Unavailable, filled(NO_ADDRESS@, seq![detail@]), NO_ADDRESS_HELP@),
{
    failure(Class::Unavailable, fill1(NO_ADDRESS, detail), NO_ADDRESS_HELP)
}

/// Every exported row: what was observed, and behind it every key that was not.
pub open spec fn rows(items: Seq<IdentityEvidence>, unobserved: Seq<Unobserved>) -> Seq<Exported> {
    items.map_values(|item: IdentityEvidence| Exported::Observed(item)) + unobserved.map_values(
        |gap: Unobserved| Exported::Unobserved(gap),
    )
}

/// Every exported row: what was observed, and behind it every key that was not.
pub fn exported(items: Vec<IdentityEvidence>, unobserved: Vec<Unobserved>) -> (r: Vec<Exported>)
    ensures
        r@ == rows(items@, unobserved@),
{
    let mut out: Vec<Exported> = Vec::new();
    let ghost observed = items@.map_values(|item: IdentityEvidence| Exported::Observed(item));
    let ghost missed = unobserved@.map_values(|gap: Unobserved| Exported::Unobserved(gap));
    assert(out@ =~= observed.take(0));
    for item in iter: items
        invariant
            iter.seq() == items@,
            observed == items@.map_values(|item: IdentityEvidence| Exported::Observed(item)),
            out@ == observed.take(iter.index()),
    {
        out.push(Exported::Observed(item));
        assert(observed.take(iter.index() + 1) =~= observed.take(iter.index()).push(
            observed[iter.index()],
        ));
    }
    assert(out@ =~= observed);
    assert(out@ =~= observed + missed.take(0));
    for gap in iter: unobserved
        invariant
            iter.seq() == unobserved@,
            missed == unobserved@.map_values(|gap: Unobserved| Exported::Unobserved(gap)),
            out@ == observed + missed.take(iter.index()),
    {
        out.push(Exported::Unobserved(gap));
        assert(missed.take(iter.index() + 1) =~= missed.take(iter.index()).push(
            missed[iter.index()],
        ));
        assert(out@ =~= observed + missed.take(iter.index() + 1));
    }
    assert(out@ =~= observed + missed);
    out
}

/// The records to hand over: one for each row, and none where the Node is not there. Either way the
/// answer is whole.
pub fn emission(rows: Option<usize>) -> (r: Emission)
    ensures
        r.ending@ == Ended::Completed,
        r.left == match rows {
            Some(rows) => rows,
            None => 0,
        },
{
    let left: usize = match rows {
        Some(rows) => rows,
        None => 0,
    };
    Emission { left, ending: Invocation::Completed }
}

// --- laws -----------------------------------------------------------------------------------------

/// A key that could not be read is a row like any other: none is dropped, and all of them come
/// behind what was observed.
pub proof fn gaps_are_rows(items: Seq<IdentityEvidence>, unobserved: Seq<Unobserved>)
    ensures
        rows(items, unobserved).len() == items.len() + unobserved.len(),
        forall|i: int|
            0 <= i < items.len() ==> #[trigger] rows(items, unobserved)[i] == Exported::Observed(
                items[i],
            ),
        forall|i: int|
            0 <= i < unobserved.len() ==> rows(items, unobserved)[items.len() + i]
                == Exported::Unobserved(#[trigger] unobserved[i]),
{
}

}
