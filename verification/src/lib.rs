//! Answering an interactive shell's queries from a Kubernetes cluster: the rules, the readings and
//! the records, without the sockets.
//!
//! Everything here computes. What is asked of a cluster, what an answer means, which of two answers
//! a reader may be given and when an invocation is over are decided by functions of plain values,
//! and their contracts say what they decide. Whoever holds the host's capabilities performs the
//! requests and hands the answers back.
//!
//! ```text
//! text, digits, order, hex, calendar      words, numbers and instants as text
//! json, pointer, document, value          documents as they are read, and values as they are shown
//! failure, options, emission              refusals, arguments, and how an invocation ends
//! contributions, schemas, parameters      what the package declares
//! discovery, dynamic, projection          what a cluster serves, finding a resource, typing it
//! objects, fields, records                one object, and the records made of it
//! endpoint, kubeconfig                    which API server, and how it is reached
//! credential_store, credentials           what a credential source resolved to, and running one
//! broker                                  a brokered connection, seen as a stream of bytes
//! query, coverage                         one query: what is read, and what the read covered
//! intent, actions, planning, plans        one prospective change, and the plan that shows it
//! mutations, converging                   one change made, and waiting for it to converge
//! changes, watching                       one live watch, with the periods it did not observe
//! cluster, interrogation                  the diagnostic: which cluster, as whom, and the unknowns
//! conditions, events, evidence, logs      what is reported about one object
//! audit                                   what the package records about itself
//! ```
//!
//! What these promise together is stated and proved beside them:
//!
//! ```text
//! asked, asked_each, effecting            what is asked for is what is done, and when it is proven
//! shown, filled, declaring                what a record shows, field by field, and what is declared
//! observing, reporting, diagnosing        what a watch, a report and the diagnostic tell a reader
//! connecting, finding, refusing, wording  what reaching, finding, refusing and wording come to
//! ```

pub use crate::contributions::{CONCURRENT_INVOCATIONS, PACKAGE, VERSION};

pub mod actions;
pub mod asked;
pub mod asked_each;
pub mod audit;
pub mod broker;
pub mod calendar;
pub mod changes;
pub mod cluster;
pub mod conditions;
pub mod connecting;
pub mod contributions;
pub mod converging;
pub mod coverage;
pub mod credential_store;
pub mod credentials;
pub mod declaring;
pub mod diagnosing;
pub mod digits;
pub mod discovery;
pub mod document;
pub mod dynamic;
pub mod effecting;
pub mod emission;
pub mod endpoint;
pub mod events;
pub mod evidence;
pub mod failure;
pub mod fields;
pub mod filled;
pub mod finding;
pub mod hex;
pub mod intent;
pub mod interrogation;
pub mod json;
pub mod kubeconfig;
pub mod logs;
pub mod mutations;
pub mod objects;
pub mod observing;
pub mod options;
pub mod order;
pub mod parameters;
pub mod planning;
pub mod plans;
pub mod pointer;
pub mod projection;
pub mod query;
pub mod records;
pub mod refusing;
pub mod reporting;
pub mod schemas;
pub mod shown;
pub mod text;
pub mod value;
pub mod watching;
pub mod wording;
