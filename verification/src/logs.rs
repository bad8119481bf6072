//! One container's log, as lines that say what they are not.
//!
//! A retrieved log is not the output of a container: the runtime rotated and truncated it long
//! before anybody asked. So an empty log is never answered with silence, and the node whose clock
//! wrote a line's prefix travels beside it.

use vstd::prelude::*;

use crate::digits::{decimal, number};
use crate::discovery::{Resource, Verb};
use crate::emission::{Emission, Ended, Invocation};
use crate::failure::{failure, refusal, Class, Refusal, WireError};
use crate::json::{flag_of, member, natural_of, text_of, Json, JsonView};
use crate::options::{nonempty, positive, text_option, Options};
use crate::pointer::at;
use crate::text::{
    among, decode_lossy, fill1, fill2, fill4, filled, join, joined, lossy, text_view, views,
};
use crate::value::{Clock, ClockView};

verus! {

/// The subresource a log is read from, as discovery spells it.
pub const SUBRESOURCE: &'static str = "log";

pub const NO_NAMESPACE: &'static str =
    "a log is read from one Pod, and the query named no namespace to find it in";

pub const NO_NAMESPACE_HELP: &'static str =
    "Pass `namespace`, or use a context whose namespace names one. A Pod name is unique \
    within a namespace of one cluster and nowhere else, and a log line attributed to the \
    identically named Pod elsewhere is the most expensive kind of wrong \
    (specification section 42.1).";

/// The one namespace a Pod is looked for in.
///
/// # Errors
///
/// A refusal where the query is aimed at no single namespace.
pub fn pod_namespace(namespace: Option<String>) -> (r: Result<String, WireError>)
    ensures
        match r {
            Ok(name) => text_view(namespace) == Some(name@),
            Err(error) => namespace is None && error@ == refusal(
                Class::Unsupported,
                NO_NAMESPACE@,
                NO_NAMESPACE_HELP@,
            ),
        },
{
    match namespace {
        Some(name) => Ok(name),
        None => Err(failure(Class::Unsupported, NO_NAMESPACE.to_owned(), NO_NAMESPACE_HELP)),
    }
}

// --- what was asked -------------------------------------------------------------------------------

/// What the query asked for beyond which Pod. Each option that is set narrows the answer.
#[derive(Debug, PartialEq, Eq)]
pub struct Asked {
    pub container: Option<String>,
    pub previous: bool,
    pub timestamps: bool,
    pub tail_lines: Option<u32>,
    pub since_seconds: Option<u64>,
    pub limit_bytes: Option<u64>,
}

/// The read of one container's log, with what it cuts off.
#[derive(Debug, PartialEq, Eq)]
pub struct LogRequest {
    /// The provider instance the Pod belongs to.
    pub instance: String,
    pub namespace: String,
    pub pod: String,
    pub container: Option<String>,
    /// Whether the run before the present one is meant.
    pub previous: bool,
    pub timestamps: bool,
    pub tail_lines: Option<u32>,
    pub since_seconds: Option<u64>,
    pub limit_bytes: Option<u64>,
}

/// A count an option gives, where it is above zero.
pub open spec fn counted(options: Seq<(Seq<char>, JsonView)>, name: Seq<char>) -> Option<int> {
    positive(natural_of(member(options, name)))
}

/// A number, where there is one.
pub open spec fn number_of(n: Option<u64>) -> Option<int> {
    match n {
        Some(n) => Some(n as int),
        None => None,
    }
}

/// A number of lines: one too large to be one is none.
pub open spec fn lines_of(n: Option<int>) -> Option<u32> {
    match n {
        Some(n) => if n <= u32::MAX {
            Some(n as u32)
        } else {
            None
        },
        None => None,
    }
}

impl Asked {
    /// What the options ask for. An option of the wrong shape asks for nothing.
    pub fn from_options(options: &Options) -> (r: Asked)
        ensures
            text_view(r.container) == nonempty(text_option(options@, "container"@)),
            r.previous == (flag_of(member(options@, "previous"@)) == Some(true)),
            r.timestamps == (flag_of(member(options@, "timestamps"@)) == Some(true)),
            r.tail_lines == lines_of(counted(options@, "tail_lines"@)),
            number_of(r.since_seconds) == counted(options@, "since_seconds"@),
            number_of(r.limit_bytes) == counted(options@, "limit_bytes"@),
    {
        let tail_lines: Option<u32> = match options.positive("tail_lines") {
            Some(lines) => if lines <= u32::MAX as u64 {
                Some(lines as u32)
            } else {
                None
            },
            None => None,
        };
        Asked {
            container: options.some_text("container"),
            previous: options.flag("previous") == Some(true),
            timestamps: options.flag("timestamps") == Some(true),
            tail_lines,
            since_seconds: options.positive("since_seconds"),
            limit_bytes: options.positive("limit_bytes"),
        }
    }

    /// The read this asks for, of one Pod.
    pub fn request(&self, instance: &str, namespace: &str, pod: &str) -> (r: LogRequest)
        ensures
            r.instance@ == instance@,
            r.namespace@ == namespace@,
            r.pod@ == pod@,
            text_view(r.container) == text_view(self.container),
            r.previous == self.previous,
            r.timestamps == self.timestamps,
            r.tail_lines == self.tail_lines,
            r.since_seconds == self.since_seconds,
            r.limit_bytes == self.limit_bytes,
    {
        let container: Option<String> = match &self.container {
            Some(container) => Some(container.clone()),
            None => None,
        };
        LogRequest {
            instance: instance.to_owned(),
            namespace: namespace.to_owned(),
            pod: pod.to_owned(),
            container,
            previous: self.previous,
            timestamps: self.timestamps,
            tail_lines: self.tail_lines,
            since_seconds: self.since_seconds,
            limit_bytes: self.limit_bytes,
        }
    }
}

// --- whether it can be read -----------------------------------------------------------------------

pub const NO_SUBRESOURCE: &'static str = "this cluster serves `{}` without the `log` subresource";

pub const NO_SUBRESOURCE_HELP: &'static str =
    "A log that cannot be read is not a container that printed nothing.";

pub const NOT_ONE_OF_THEM: &'static str =
    "the cluster serves `{}` and does not offer `get` on one of them";

pub const NOT_ONE_OF_THEM_HELP: &'static str =
    "A log is read through one Pod's own endpoint, which needs `get` rather than \
    `list` (specification section 60.5).";

/// Whether logs can be read on this cluster, which discovery decides.
///
/// # Errors
///
/// A refusal where Pods are served without their logs, or cannot be read one by one.
pub fn readable(resource: &Resource) -> (r: Result<(), WireError>)
    ensures
        match r {
            Ok(_) => views(resource.subresources@).contains(SUBRESOURCE@) && resource.offers(
                Verb::Get,
            ),
            Err(error) => if !views(resource.subresources@).contains(SUBRESOURCE@) {
                error@ == refusal(
                    Class::Unsupported,
                    filled(NO_SUBRESOURCE@, seq![resource.gvr@]),
                    NO_SUBRESOURCE_HELP@,
                )
            } else {
                !resource.offers(Verb::Get) && error@ == refusal(
                    Class::Unsupported,
                    filled(NOT_ONE_OF_THEM@, seq![resource.gvr@]),
                    NOT_ONE_OF_THEM_HELP@,
                )
            },
        },
{
    if !among(&resource.subresources, SUBRESOURCE) {
        return Err(
            failure(
                Class::Unsupported,
                fill1(NO_SUBRESOURCE, resource.gvr.as_str()),
                NO_SUBRESOURCE_HELP,
            ),
        );
    }
    if !resource.supports(Verb::Get) {
        return Err(
            failure(
                Class::Unsupported,
                fill1(NOT_ONE_OF_THEM, resource.gvr.as_str()),
                NOT_ONE_OF_THEM_HELP,
            ),
        );
    }
    Ok(())
}

/// The clock that writes a Pod's timestamp prefixes: that of the node it runs on, where it names
/// one.
pub open spec fn clock_of(pod: JsonView) -> ClockView {
    match text_of(at(pod, "/spec/nodeName"@)) {
        Some(node) => ClockView::Node(node),
        None => ClockView::Unattributed,
    }
}

/// The clock that writes a Pod's timestamp prefixes.
pub fn clock(pod: &Json) -> (r: Clock)
    ensures
        r@ == clock_of(pod@),
{
    let node: Option<&str> = match pod.field("/spec/nodeName") {
        Some(json) => json.as_str(),
        None => None,
    };
    match node {
        Some(node) => Clock::Node(node.to_owned()),
        None => Clock::Unattributed,
    }
}

pub const RUN_ENDED_HELP: &'static str =
    "A run that has already ended cannot produce another line.";

/// A read that cannot be asked for at all.
pub fn unaskable(detail: &str) -> (r: WireError)
    ensures
        r@ == refusal(Class::Unsupported, detail@, RUN_ENDED_HELP@),
{
    failure(Class::Unsupported, detail.to_owned(), RUN_ENDED_HELP)
}

pub const NO_LOG: &'static str = "the log of `{}` did not answer: {} {} — {}";

pub const NO_LOG_HELP: &'static str =
    "This is what happened instead of a read, and it is not the container having printed \
    nothing (specification section 21.4).";

/// The bytes of the log. Every status but one is a statement about the read rather than about the
/// container.
///
/// # Errors
///
/// What the server did instead.
pub fn body(pod: &str, status: u16, reason: &str, bytes: Vec<u8>) -> (r: Result<Vec<u8>, WireError>)
    ensures
        match r {
            Ok(body) => status == 200 && body@ == bytes@,
            Err(error) => status != 200 && error@ == refusal(
                Class::Unavailable,
                filled(NO_LOG@, seq![pod@, decimal(status as nat), reason@, lossy(bytes@)]),
                NO_LOG_HELP@,
            ),
        },
{
    if status == 200 {
        return Ok(bytes);
    }
    let status: String = number(status as u128);
    let said: String = decode_lossy(bytes.as_slice());
    Err(
        failure(
            Class::Unavailable,
            fill4(NO_LOG, pod, status.as_str(), reason, said.as_str()),
            NO_LOG_HELP,
        ),
    )
}

// --- what is handed over --------------------------------------------------------------------------

pub const NO_LINE: &'static str = "no line was read from {} [{} run]";

pub const NO_LINE_HELP: &'static str =
    "This is not evidence that the container printed nothing. What was retrievable was \
    already bounded before it was requested: {} (specification section 42.1).";

/// What one retrieval says about itself.
#[derive(Debug, PartialEq, Eq)]
pub struct Retrieved {
    /// The container it was read from, in words.
    pub target: String,
    /// Which run of the container.
    pub instance: String,
    /// How many lines came.
    pub lines: usize,
    /// Everything that kept the read short of what the container wrote.
    pub bounds: Vec<String>,
}

/// The refusal to answer an empty log with silence.
pub open spec fn empty_refusal(retrieved: Retrieved) -> Refusal {
    refusal(
        Class::Refused,
        filled(NO_LINE@, seq![retrieved.target@, retrieved.instance@]),
        filled(NO_LINE_HELP@, seq![joined(views(retrieved.bounds@), "; "@)]),
    )
}

/// How many records a read of a log comes to, and how it ends: a Pod that is not there has no log,
/// which is an answer; a log without lines is refused with its bounds.
pub open spec fn log_emission(read: Option<Retrieved>) -> (nat, Ended) {
    match read {
        None => (0, Ended::Completed),
        Some(retrieved) => if retrieved.lines == 0 {
            (0, Ended::Failed(empty_refusal(retrieved)))
        } else {
            (retrieved.lines as nat, Ended::Completed)
        },
    }
}

/// The records to hand over: one for each line.
pub fn emission(read: &Option<Retrieved>) -> (r: Emission)
    ensures
        (r.left as nat, r.ending@) == log_emission(*read),
{
    match read {
        None => Emission { left: 0, ending: Invocation::Completed },
        Some(retrieved) => if retrieved.lines == 0 {
            let bounds: String = join(&retrieved.bounds, "; ");
            let help: String = fill1(NO_LINE_HELP, bounds.as_str());
            let error: WireError = failure(
                Class::Refused,
                fill2(NO_LINE, retrieved.target.as_str(), retrieved.instance.as_str()),
                help.as_str(),
            );
            Emission { left: 0, ending: Invocation::Failed(error) }
        } else {
            Emission { left: retrieved.lines, ending: Invocation::Completed }
        },
    }
}

// --- laws -----------------------------------------------------------------------------------------

/// A log that was read and holds no line never completes: nothing printed is not what it shows.
pub proof fn an_empty_log_is_no_evidence(retrieved: Retrieved)
    requires
        retrieved.lines == 0,
    ensures
        log_emission(Some(retrieved)).0 == 0,
        log_emission(Some(retrieved)).1 == Ended::Failed(empty_refusal(retrieved)),
{
}

}
