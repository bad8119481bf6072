//! The structured observations one object's controllers wrote about it.
//!
//! One condition is one record. An object that states no conditions answers with no records and
//! completes: that its status carries none is a fact about the object rather than about the search.

use vstd::prelude::*;

use crate::emission::{Emission, Ended, Invocation};
use crate::options::{nonempty, text_option, Options};
use crate::text::text_view;

verus! {

/// The `name` option, where the query gave a non-empty one.
pub fn named(options: &Options) -> (r: Option<String>)
    ensures
        text_view(r) == nonempty(text_option(options@, "name"@)),
{
    options.some_text("name")
}

/// The records to hand over: one for each condition of the object, and none where the object is not
/// there. Either way the answer is whole.
pub fn emission(conditions: Option<usize>) -> (r: Emission)
    ensures
        r.ending@ == Ended::Completed,
        r.left == match conditions {
            Some(conditions) => conditions,
            None => 0,
        },
{
    let left: usize = match conditions {
        Some(conditions) => conditions,
        None => 0,
    };
    Emission { left, ending: Invocation::Completed }
}

}
