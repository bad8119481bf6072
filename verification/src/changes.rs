//! Watching a collection for as long as the operator wants it watched, and making the periods that
//! could not be observed impossible to miss.
//!
//! A gap is a record: a stream of changes with nothing in it to mark a break would stitch what was
//! observed before it to what was observed after it. A view that goes quiet because it lost its
//! connection says so with a notice, because a reader learns only from records that arrive.

use vstd::prelude::*;
use vstd::string::*;

use crate::broker::{overlapping_borrow, OVERLAP, OVERLAP_HELP};
use crate::digits::{decimal, number};
use crate::discovery::{Resource, Verb};
use crate::emission::{after_delivery, ended_by, Delivery, DeliveryView, Ended, Invocation};
use crate::failure::{failure, refusal, Class, Refusal, WireError};
use crate::json::{flag_of, member, natural_of};
use crate::objects::Guarded;
use crate::options::{positive, Options};
use crate::records::{Change, Freshness, Origin};
use crate::text::{fill1, fill2, filled, same, text_view};

verus! {

/// How many objects a listing asks the API server for per page.
pub const PAGE_SIZE: u32 = 500;

/// The shortest pause before a watch that ended with nothing is reopened, in milliseconds.
pub const RECONNECT_FLOOR_MILLIS: u64 = 50;

/// The longest pause before a watch that ended with nothing is reopened, in milliseconds.
pub const RECONNECT_CEILING_MILLIS: u64 = 1_000;

/// How long a view may go without a live observation before it says so, in milliseconds.
pub const STALE_AFTER_MILLIS: u64 = 30_000;

/// How many objects a view holds before it starts withholding.
pub const VIEW_CAPACITY: usize = 2_000;

// --- what was asked -------------------------------------------------------------------------------

/// What one invocation asks for beyond the collection.
#[derive(Debug, Clone, Copy, PartialEq, Eq, Structural)]
pub struct Watched {
    /// How many records it wants; a watch without a bound runs until the operator stops it.
    pub budget: Option<usize>,
    /// Whether state is acquired again once continuity broke.
    pub reacquire: bool,
    /// How long without a live observation makes the view stale, in milliseconds.
    pub stale_after: u64,
}

/// How many records an invocation wants, where it says so.
pub open spec fn budget_of(limit: Option<int>) -> Option<usize> {
    match limit {
        Some(limit) => if 0 < limit <= usize::MAX {
            Some(limit as usize)
        } else {
            None
        },
        None => None,
    }
}

/// How long without a live observation makes a view stale.
pub open spec fn staleness_of(window: Option<int>) -> int {
    match positive(window) {
        Some(window) => window,
        None => STALE_AFTER_MILLIS as int,
    }
}

impl Watched {
    /// What the options ask for.
    pub fn from_options(options: &Options) -> (r: Watched)
        ensures
            r.budget == budget_of(natural_of(member(options@, "max_changes"@))),
            r.reacquire == (flag_of(member(options@, "reacquire"@)) != Some(false)),
            r.stale_after == staleness_of(natural_of(member(options@, "stale_after_ms"@))),
    {
        let budget: Option<usize> = match options.natural("max_changes") {
            Some(limit) => if 0 < limit && limit <= usize::MAX as u64 {
                Some(limit as usize)
            } else {
                None
            },
            None => None,
        };
        let stale_after: u64 = match options.positive("stale_after_ms") {
            Some(window) => window,
            None => STALE_AFTER_MILLIS,
        };
        Watched { budget, reacquire: options.flag("reacquire") != Some(false), stale_after }
    }
}

pub const NO_WATCH: &'static str = "the cluster serves `{}` and does not offer `watch` on it";

pub const NO_WATCH_HELP: &'static str =
    "A collection nobody may watch is not a collection in which nothing happens. \
    `get k8s-resource` reads it once instead.";

/// Whether a collection can be watched.
///
/// # Errors
///
/// A refusal where the server does not offer it.
pub fn watchable(resource: &Resource) -> (r: Result<(), WireError>)
    ensures
        match r {
            Ok(_) => resource.offers(Verb::Watch),
            Err(error) => !resource.offers(Verb::Watch) && error@ == refusal(
                Class::Unsupported,
                filled(NO_WATCH@, seq![resource.gvr@]),
                NO_WATCH_HELP@,
            ),
        },
{
    if resource.supports(Verb::Watch) {
        Ok(())
    } else {
        Err(failure(Class::Unsupported, fill1(NO_WATCH, resource.gvr.as_str()), NO_WATCH_HELP))
    }
}

pub const UNACQUIRABLE: &'static str = "the collection could not be acquired: {}";

pub const UNACQUIRABLE_HELP: &'static str =
    "A watch is only as true as the snapshot it opened from. A listing that lost a page is a \
    legitimate answer to `get` and an illegitimate cache: every object it was refused would \
    afterwards be reported as absent (§4 invariant 13).";

/// A listing that may not become the cache a watch keeps true.
pub fn unacquirable(detail: &str) -> (r: WireError)
    ensures
        r@ == refusal(Class::Unavailable, filled(UNACQUIRABLE@, seq![detail@]), UNACQUIRABLE_HELP@),
{
    failure(Class::Unavailable, fill1(UNACQUIRABLE, detail), UNACQUIRABLE_HELP)
}

pub const WATCH_UNOPENED: &'static str = "a watch on `{}` could not be opened: {}";

pub const WATCH_UNOPENED_HELP: &'static str =
    "The bytes travel through the host's broker; a refusal there is a capability decision.";

/// A watch request that could not be made.
pub fn watch_failure(gvr: &str, error: &str) -> (r: WireError)
    ensures
        r@ == refusal(
            Class::Unavailable,
            filled(WATCH_UNOPENED@, seq![gvr@, error@]),
            WATCH_UNOPENED_HELP@,
        ),
{
    failure(Class::Unavailable, fill2(WATCH_UNOPENED, gvr, error), WATCH_UNOPENED_HELP)
}

// --- the words ------------------------------------------------------------------------------------

/// What a record reports.
#[derive(Debug, Clone, Copy, PartialEq, Eq, Structural)]
pub enum Word {
    /// It was there when observation began or resumed; it did not arrive.
    Listed,
    Added,
    Modified,
    Deleted,
    /// A period was not observed.
    Gap,
    /// The view changed state and nothing arrived to say so.
    Notice,
}

/// The word a record carries.
pub open spec fn word_text(word: Word) -> Seq<char> {
    match word {
        Word::Listed => "listed"@,
        Word::Added => "added"@,
        Word::Modified => "modified"@,
        Word::Deleted => "deleted"@,
        Word::Gap => "gap"@,
        Word::Notice => "notice"@,
    }
}

/// The word a record carries.
pub fn spelled(word: Word) -> (r: &'static str)
    ensures
        r@ == word_text(word),
{
    match word {
        Word::Listed => "listed",
        Word::Added => "added",
        Word::Modified => "modified",
        Word::Deleted => "deleted",
        Word::Gap => "gap",
        Word::Notice => "notice",
    }
}

/// What the connection may honestly say of itself.
#[derive(Debug, Clone, Copy, PartialEq, Eq, Structural)]
pub enum SyncState {
    Syncing,
    Live,
    Reconnecting,
    GapDetected,
    Denied,
}

/// What a reader is looking at.
#[derive(Debug, Clone, Copy, PartialEq, Eq, Structural)]
pub enum ViewState {
    Syncing,
    Live,
    Reconnecting,
    GapDetected,
    /// Nothing live was observed for too long.
    Stale,
    Denied,
}

/// The word of a state.
pub open spec fn sync_text(state: SyncState) -> Seq<char> {
    match state {
        SyncState::Syncing => "syncing"@,
        SyncState::Live => "live"@,
        SyncState::Reconnecting => "reconnecting"@,
        SyncState::GapDetected => "gap detected"@,
        SyncState::Denied => "denied"@,
    }
}

/// The word of a state.
pub fn sync_word(state: SyncState) -> (r: &'static str)
    ensures
        r@ == sync_text(state),
{
    match state {
        SyncState::Syncing => "syncing",
        SyncState::Live => "live",
        SyncState::Reconnecting => "reconnecting",
        SyncState::GapDetected => "gap detected",
        SyncState::Denied => "denied",
    }
}

/// The word of a view's state.
pub open spec fn view_text(state: ViewState) -> Seq<char> {
    match state {
        ViewState::Syncing => "syncing"@,
        ViewState::Live => "live"@,
        ViewState::Reconnecting => "reconnecting"@,
        ViewState::GapDetected => "gap detected"@,
        ViewState::Stale => "stale"@,
        ViewState::Denied => "denied"@,
    }
}

/// The word of a view's state.
pub fn view_word(state: ViewState) -> (r: &'static str)
    ensures
        r@ == view_text(state),
{
    match state {
        ViewState::Syncing => "syncing",
        ViewState::Live => "live",
        ViewState::Reconnecting => "reconnecting",
        ViewState::GapDetected => "gap detected",
        ViewState::Stale => "stale",
        ViewState::Denied => "denied",
    }
}

/// What a reader is looking at, and how many objects the view is not holding.
#[derive(Debug, Clone, Copy, PartialEq, Eq, Structural)]
pub struct Looking {
    pub state: ViewState,
    pub withheld: usize,
}

/// What a reader is looking at after the view was refreshed: no stream yet is a view that has not
/// synchronised, rather than a cluster with nothing in it.
pub fn refreshed(view: Option<Looking>) -> (r: Looking)
    ensures
        r == match view {
            Some(view) => view,
            None => (Looking { state: ViewState::Syncing, withheld: 0 }),
        },
{
    match view {
        Some(view) => view,
        None => Looking { state: ViewState::Syncing, withheld: 0 },
    }
}

/// The state a reader would be looking at right now.
pub open spec fn state_now(view: Option<ViewState>, streaming: bool) -> ViewState {
    match view {
        Some(state) => if streaming {
            state
        } else {
            ViewState::Syncing
        },
        None => ViewState::Syncing,
    }
}

/// The state a reader would be looking at right now: that of the view, where there is a view and a
/// stream behind it.
pub fn observed_state(view: Option<ViewState>, streaming: bool) -> (r: ViewState)
    ensures
        r == state_now(view, streaming),
{
    match view {
        Some(state) => if streaming {
            state
        } else {
            ViewState::Syncing
        },
        None => ViewState::Syncing,
    }
}

// --- continuity -----------------------------------------------------------------------------------

/// What a stream says of its own history.
#[derive(Debug, PartialEq, Eq)]
pub struct Stream {
    /// How many unbroken periods of observation there are.
    pub segments: usize,
    /// Whether there has been no break.
    pub gap_free: bool,
    pub state: SyncState,
    /// The last break: why, and with both of its edges.
    pub gap: Option<(String, String)>,
}

/// Which observation period a stream is in, and what it has failed to observe.
#[derive(Debug, PartialEq, Eq)]
pub struct Continuity {
    pub segment: usize,
    pub continuous: bool,
    pub state: SyncState,
    pub gap: Option<(String, String)>,
}

/// A break, where there was one.
pub open spec fn gap_view(gap: Option<(String, String)>) -> Option<(Seq<char>, Seq<char>)> {
    match gap {
        Some(gap) => Some((gap.0@, gap.1@)),
        None => None,
    }
}

/// Which observation period a stream is in: the count of periods, so that the first record of a
/// stream that never broke says one; where there is no stream, nothing is continuous.
pub fn continuity(stream: &Option<Stream>) -> (r: Continuity)
    ensures
        match *stream {
            None => r.segment == 0 && !r.continuous && r.state == SyncState::Syncing && r.gap
                is None,
            Some(stream) => r.segment == stream.segments && r.continuous == stream.gap_free
                && r.state == stream.state && gap_view(r.gap) == gap_view(stream.gap),
        },
{
    match stream {
        None => Continuity {
            segment: 0,
            continuous: false,
            state: SyncState::Syncing,
            gap: None,
        },
        Some(stream) => {
            let gap: Option<(String, String)> = match &stream.gap {
                Some(gap) => Some((gap.0.clone(), gap.1.clone())),
                None => None,
            };
            Continuity {
                segment: stream.segments,
                continuous: stream.gap_free,
                state: stream.state,
                gap,
            }
        },
    }
}

/// The facts one record carries. Why continuity broke, and where, is on the record that reports
/// the break.
pub fn change(
    word: Word,
    resource: &str,
    scope: &str,
    continuity: Continuity,
    view: Looking,
    object: Option<Guarded>,
) -> (r: Change)
    ensures
        r.class@ == word_text(word),
        r.resource@ == resource@,
        r.scope@ == scope@,
        r.segment == continuity.segment,
        r.continuous == continuity.continuous,
        r.sync_state@ == sync_text(continuity.state),
        r.view_state@ == view_text(view.state),
        r.withheld == view.withheld,
        text_view(r.gap_reason) == match gap_view(continuity.gap) {
            Some(gap) if word == Word::Gap => Some(gap.0),
            _ => None,
        },
        text_view(r.gap_detail) == match gap_view(continuity.gap) {
            Some(gap) if word == Word::Gap => Some(gap.1),
            _ => None,
        },
        r.object == object,
{
    let (gap_reason, gap_detail): (Option<String>, Option<String>) = match continuity.gap {
        Some((reason, detail)) if word == Word::Gap => (Some(reason), Some(detail)),
        _ => (None, None),
    };
    Change {
        class: spelled(word).to_owned(),
        resource: resource.to_owned(),
        scope: scope.to_owned(),
        segment: continuity.segment,
        continuous: continuity.continuous,
        sync_state: sync_word(continuity.state).to_owned(),
        view_state: view_word(view.state).to_owned(),
        withheld: view.withheld,
        gap_reason,
        gap_detail,
        object,
    }
}

/// Where a record's object came from: what was listed was read, and everything after it arrived
/// because the server sent it.
pub fn stamped(word: Word, freshness: Freshness) -> (r: Freshness)
    ensures
        r == if word == Word::Listed {
            freshness
        } else {
            (Freshness { origin: Origin::WatchEvent, ..freshness })
        },
{
    match word {
        Word::Listed => freshness,
        _ => Freshness {
            provider_instance: freshness.provider_instance,
            origin: Origin::WatchEvent,
            scope: freshness.scope,
            endpoint: freshness.endpoint,
            resource_version: freshness.resource_version,
            observed_at: freshness.observed_at,
        },
    }
}

// --- handing records over -------------------------------------------------------------------------

/// What the watch loop does next.
#[derive(Debug, PartialEq, Eq)]
pub enum Step {
    /// The response body may go on being read.
    Reading,
    /// This response is over.
    Ended,
    /// The invocation is over.
    Stopped(Invocation),
}

/// What the watch loop does next.
pub enum StepView {
    Reading,
    Ended,
    Stopped(Ended),
}

impl View for Step {
    type V = StepView;

    open spec fn view(&self) -> StepView {
        match self {
            Step::Reading => StepView::Reading,
            Step::Ended => StepView::Ended,
            Step::Stopped(ended) => StepView::Stopped(ended@),
        }
    }
}

/// What an invocation emits under.
#[derive(Debug, PartialEq, Eq)]
pub struct Emitter {
    /// How many records it may emit.
    pub budget: Option<usize>,
    /// How many it has.
    pub emitted: usize,
}

/// What a delivery comes to: a record that was taken counts, and the one that uses up the budget
/// completes the invocation.
pub open spec fn delivery_comes_to(
    budget: Option<usize>,
    emitted: int,
    delivery: DeliveryView,
    schema: Seq<char>,
) -> (int, StepView) {
    match ended_by(delivery, schema) {
        Some(ended) => (emitted, StepView::Stopped(ended)),
        None => match budget {
            Some(budget) => if emitted + 1 >= budget {
                (emitted + 1, StepView::Stopped(Ended::Completed))
            } else {
                (emitted + 1, StepView::Reading)
            },
            None => (emitted + 1, StepView::Reading),
        },
    }
}

impl Emitter {
    /// Nothing emitted yet.
    pub fn new(budget: Option<usize>) -> (r: Emitter)
        ensures
            r.budget == budget,
            r.emitted == 0,
    {
        Emitter { budget, emitted: 0 }
    }

    /// Notes what became of one record.
    pub fn deliver(&mut self, delivery: &Delivery, schema: &str) -> (r: Step)
        requires
            old(self).emitted < usize::MAX,
        ensures
            final(self).budget == old(self).budget,
            (final(self).emitted as int, r@) == delivery_comes_to(
                old(self).budget,
                old(self).emitted as int,
                delivery@,
                schema@,
            ),
    {
        if let Some(ended) = after_delivery(delivery, schema) {
            return Step::Stopped(ended);
        }
        self.emitted = self.emitted + 1;
        if let Some(budget) = self.budget {
            if self.emitted >= budget {
                return Step::Stopped(Invocation::Completed);
            }
        }
        Step::Reading
    }

    /// A record that could not be handed over because the context was lent out elsewhere.
    pub fn overlapped(&self) -> (r: Step)
        ensures
            r@ == StepView::Stopped(
                Ended::Failed(refusal(Class::Trap, OVERLAP@, OVERLAP_HELP@)),
            ),
    {
        Step::Stopped(Invocation::Failed(overlapping_borrow()))
    }
}

// --- one event ------------------------------------------------------------------------------------

/// What the state machine of a stream made of one event.
#[derive(Debug, Clone, Copy, PartialEq, Eq, Structural)]
pub enum Reception {
    /// The cache changed.
    Applied,
    /// A position moved and nothing else did.
    Checkpointed,
    /// The stream was not receiving, so it is no part of its history.
    Discarded,
    /// The body is over; the position survives it.
    Suspended,
    /// Something between two observations was not observed.
    ContinuityBroken,
}

/// What a reader is told about one event.
#[derive(Debug, Clone, Copy, PartialEq, Eq, Structural)]
pub enum Reaction {
    /// One record, about the object of the event.
    Tell(Word),
    /// One record, about no object.
    TellGap,
    /// Nothing; the view is refreshed, because the stream is alive.
    Refresh,
    /// Nothing.
    Silent,
}

/// The word for a change of an event's class.
pub open spec fn word_of(class: Seq<char>) -> Word {
    if class == "ADDED"@ {
        Word::Added
    } else if class == "DELETED"@ {
        Word::Deleted
    } else {
        Word::Modified
    }
}

/// What a reader is told about one event.
pub open spec fn told(class: Seq<char>, reception: Reception) -> Reaction {
    match reception {
        Reception::Applied => Reaction::Tell(word_of(class)),
        Reception::Checkpointed | Reception::Discarded => Reaction::Refresh,
        Reception::Suspended => Reaction::Silent,
        Reception::ContinuityBroken => Reaction::TellGap,
    }
}

/// What a reader is told about one event. The state machine decides what may be claimed; this only
/// reports what it decided.
pub fn reaction(class: &str, reception: Reception) -> (r: Reaction)
    ensures
        r == told(class@, reception),
{
    match reception {
        Reception::Applied => if same(class, "ADDED") {
            Reaction::Tell(Word::Added)
        } else if same(class, "DELETED") {
            Reaction::Tell(Word::Deleted)
        } else {
            Reaction::Tell(Word::Modified)
        },
        Reception::Checkpointed | Reception::Discarded => Reaction::Refresh,
        Reception::Suspended => Reaction::Silent,
        Reception::ContinuityBroken => Reaction::TellGap,
    }
}

/// What one event comes to for the body being read: after a break the body is over whatever became
/// of the record that reports it.
pub open spec fn event_comes_to(reaction: Reaction, delivered: StepView) -> StepView {
    match reaction {
        Reaction::Tell(_) => delivered,
        Reaction::Refresh => StepView::Reading,
        Reaction::Silent => StepView::Ended,
        Reaction::TellGap => if delivered is Stopped {
            delivered
        } else {
            StepView::Ended
        },
    }
}

/// What one event comes to, once the record it asked for was handed over; where it asked for none,
/// what was handed over does not matter.
pub fn applied(reaction: Reaction, delivered: Step) -> (r: Step)
    ensures
        r@ == event_comes_to(reaction, delivered@),
{
    match reaction {
        Reaction::Tell(_) => delivered,
        Reaction::Refresh => Step::Reading,
        Reaction::Silent => Step::Ended,
        Reaction::TellGap => match delivered {
            Step::Stopped(ended) => Step::Stopped(ended),
            _ => Step::Ended,
        },
    }
}

// --- one response ---------------------------------------------------------------------------------

pub const WATCH_ANSWERED: &'static str = "the API server answered a watch on `{}` with {}";

pub const WATCH_ANSWERED_HELP: &'static str =
    "A watch that could not be opened is not a collection in which nothing \
    happened.";

/// What the status of a watch response says before its body is read.
#[derive(Debug, Clone, Copy, PartialEq, Eq, Structural)]
pub enum Opening {
    /// The body can be read.
    Open,
    /// The position names history the server has discarded: the one event there is.
    Expired,
    /// The stream was refused: the one event there is.
    Denied,
}

/// What the status of a watch response says. An expiry may arrive here or inside the body, and it
/// is the same expiry.
///
/// # Errors
///
/// A refusal for any other status.
pub fn opening(gvr: &str, status: u16) -> (r: Result<Opening, WireError>)
    ensures
        match r {
            Ok(Opening::Open) => status == 200,
            Ok(Opening::Expired) => status == 410,
            Ok(Opening::Denied) => status == 403,
            Err(error) => status != 200 && status != 410 && status != 403 && error@ == refusal(
                Class::Unavailable,
                filled(WATCH_ANSWERED@, seq![gvr@, decimal(status as nat)]),
                WATCH_ANSWERED_HELP@,
            ),
        },
{
    if status == 200 {
        Ok(Opening::Open)
    } else if status == 410 {
        Ok(Opening::Expired)
    } else if status == 403 {
        Ok(Opening::Denied)
    } else {
        Err(
            failure(
                Class::Unavailable,
                fill2(WATCH_ANSWERED, gvr, number(status as u128).as_str()),
                WATCH_ANSWERED_HELP,
            ),
        )
    }
}

/// What the one event of a response without a body comes to: the response is over either way.
pub fn closed(step: Step) -> (r: Step)
    ensures
        r@ == if step@ is Stopped {
            step@
        } else {
            StepView::Ended
        },
{
    match step {
        Step::Stopped(ended) => Step::Stopped(ended),
        _ => Step::Ended,
    }
}

/// What one read of the body brought.
#[derive(Debug, Clone, Copy, PartialEq, Eq, Structural)]
pub enum Brought {
    /// The body is over.
    Nothing,
    /// Frames that read as events.
    Events,
    /// A frame that did not read.
    Unreadable,
    /// A window passed and the server said nothing.
    Quiet,
    /// The body stopped in the middle.
    Broken,
}

/// What to do with what one read brought.
#[derive(Debug, Clone, Copy, PartialEq, Eq, Structural)]
pub enum Handling {
    /// Read what the decoder still holds, and close.
    Finish,
    /// Apply each event.
    Apply,
    /// Apply the one event that says the stream was interrupted.
    Interrupt,
    /// Go on reading.
    Again,
    /// The operator stopped the query.
    Cancelled,
}

/// What to do with what one read brought: silence is neither an event nor an interruption, and a
/// read that broke because the operator stopped the query is a cancellation.
pub open spec fn handled(brought: Brought, cancelled: bool) -> Handling {
    match brought {
        Brought::Nothing => Handling::Finish,
        Brought::Events => Handling::Apply,
        Brought::Unreadable => Handling::Interrupt,
        Brought::Quiet => Handling::Again,
        Brought::Broken => if cancelled {
            Handling::Cancelled
        } else {
            Handling::Interrupt
        },
    }
}

/// What to do with what one read brought.
pub fn handling(brought: Brought, cancelled: bool) -> (r: Handling)
    ensures
        r == handled(brought, cancelled),
{
    match brought {
        Brought::Nothing => Handling::Finish,
        Brought::Events => Handling::Apply,
        Brought::Unreadable => Handling::Interrupt,
        Brought::Quiet => Handling::Again,
        Brought::Broken => if cancelled {
            Handling::Cancelled
        } else {
            Handling::Interrupt
        },
    }
}

/// How one event ends the response, where it does. Behind the end of the body only what ends the
/// invocation still counts.
pub open spec fn response_ends(step: StepView, finishing: bool) -> Option<StepView> {
    match step {
        StepView::Reading => None,
        StepView::Ended => if finishing {
            None
        } else {
            Some(StepView::Ended)
        },
        StepView::Stopped(ended) => Some(StepView::Stopped(ended)),
    }
}

/// A step, where there is one.
pub open spec fn step_view(step: Option<Step>) -> Option<StepView> {
    match step {
        Some(step) => Some(step@),
        None => None,
    }
}

/// How one event ends the response, where it does.
pub fn after_event(step: Step, finishing: bool) -> (r: Option<Step>)
    ensures
        step_view(r) == response_ends(step@, finishing),
{
    match step {
        Step::Reading => None,
        Step::Ended => if finishing {
            None
        } else {
            Some(Step::Ended)
        },
        Step::Stopped(ended) => Some(Step::Stopped(ended)),
    }
}

// --- the loop -------------------------------------------------------------------------------------

/// How a failed exchange ends the invocation: one that the operator caused is a cancellation.
pub open spec fn refused_as(cancelled: bool, error: Refusal) -> Ended {
    if cancelled {
        Ended::Cancelled
    } else {
        Ended::Failed(error)
    }
}

/// How a failed exchange ends the invocation.
pub fn refused(cancelled: bool, error: WireError) -> (r: Invocation)
    ensures
        r@ == refused_as(cancelled, error@),
{
    if cancelled {
        Invocation::Cancelled
    } else {
        Invocation::Failed(error)
    }
}

/// What a round came to.
pub open spec fn round_view(round: Result<Step, WireError>) -> Result<StepView, Refusal> {
    match round {
        Ok(step) => Ok(step@),
        Err(error) => Err(error@),
    }
}

/// How observation goes on after a round.
#[derive(Debug, Clone, Copy, PartialEq, Eq, Structural)]
pub enum Resume {
    /// The server closed a healthy watch: nothing was missed.
    GoOn,
    /// The position still holds: tell the stream, and complete where it does not take that.
    Reconnect,
    /// The position is void: list again.
    Relist,
    /// There is nothing more to observe.
    Complete,
}

/// How observation goes on after a round. A reconnect is no break, a break is answered by listing
/// again where the query wants that, and what was refused is not asked again.
pub open spec fn resumed(state: SyncState, reacquire: bool) -> Resume {
    match state {
        SyncState::Live => Resume::GoOn,
        SyncState::Reconnecting => Resume::Reconnect,
        SyncState::GapDetected => if reacquire {
            Resume::Relist
        } else {
            Resume::Complete
        },
        SyncState::Denied | SyncState::Syncing => Resume::Complete,
    }
}

/// How observation goes on after a round.
pub fn resume(state: SyncState, reacquire: bool) -> (r: Resume)
    ensures
        r == resumed(state, reacquire),
{
    match state {
        SyncState::Live => Resume::GoOn,
        SyncState::Reconnecting => Resume::Reconnect,
        SyncState::GapDetected => if reacquire {
            Resume::Relist
        } else {
            Resume::Complete
        },
        SyncState::Denied | SyncState::Syncing => Resume::Complete,
    }
}

// --- laws -----------------------------------------------------------------------------------------

/// What handing over some records comes to, one after the other.
pub open spec fn run(budget: Option<usize>, emitted: int, deliveries: Seq<DeliveryView>, schema: Seq<
    char,
>) -> (int, StepView)
    decreases deliveries.len(),
{
    if deliveries.len() == 0 {
        (emitted, StepView::Reading)
    } else {
        let (now, step) = delivery_comes_to(budget, emitted, deliveries[0], schema);
        if step is Reading {
            run(budget, now, deliveries.skip(1), schema)
        } else {
            (now, step)
        }
    }
}

/// A query that asks for a prefix gets no more than it asked for, and a prefix of that length ends
/// the invocation, which is complete.
pub proof fn a_budget_is_never_exceeded(
    budget: usize,
    emitted: int,
    deliveries: Seq<DeliveryView>,
    schema: Seq<char>,
)
    requires
        0 <= emitted < budget,
    ensures
        run(Some(budget), emitted, deliveries, schema).0 <= budget,
        run(Some(budget), emitted, deliveries, schema).0 == budget ==> run(
            Some(budget),
            emitted,
            deliveries,
            schema,
        ).1 == StepView::Stopped(Ended::Completed),
        run(Some(budget), emitted, deliveries, schema).1 is Reading ==> run(
            Some(budget),
            emitted,
            deliveries,
            schema,
        ).0 < budget,
    decreases deliveries.len(),
{
    if deliveries.len() > 0 {
        let (now, step) = delivery_comes_to(Some(budget), emitted, deliveries[0], schema);
        if step is Reading {
            a_budget_is_never_exceeded(budget, now, deliveries.skip(1), schema);
        }
    }
}

/// A watch without a bound is not ended by records that are taken, however many there are.
pub proof fn an_unbounded_watch_goes_on(
    emitted: int,
    deliveries: Seq<DeliveryView>,
    schema: Seq<char>,
)
    requires
        forall|i: int| 0 <= i < deliveries.len() ==> #[trigger] deliveries[i] is Taken,
    ensures
        run(None, emitted, deliveries, schema) == (
            emitted + deliveries.len(),
            StepView::Reading,
        ),
    decreases deliveries.len(),
{
    if deliveries.len() > 0 {
        assert(deliveries[0] is Taken);
        assert forall|i: int| 0 <= i < deliveries.skip(1).len() implies #[trigger] deliveries.skip(
            1,
        )[i] is Taken by {
            assert(deliveries.skip(1)[i] == deliveries[i + 1]);
        }
        an_unbounded_watch_goes_on(emitted + 1, deliveries.skip(1), schema);
    }
}

/// A break in observation is always told, and nothing more of the body it happened in is read: no
/// later event joins the history before it.
pub proof fn a_gap_is_a_record(class: Seq<char>, delivered: StepView)
    ensures
        told(class, Reception::ContinuityBroken) == Reaction::TellGap,
        !(event_comes_to(Reaction::TellGap, delivered) is Reading),
        response_ends(event_comes_to(Reaction::TellGap, delivered), false) is Some,
{
}

/// Only what changed the cache reaches a reader as a change: an event that was discarded, or that
/// moved a position and nothing else, is no record.
pub proof fn only_what_was_applied_is_a_change(class: Seq<char>, reception: Reception)
    ensures
        told(class, reception) is Tell <==> reception == Reception::Applied,
        reception == Reception::Discarded || reception == Reception::Checkpointed
            ==> event_comes_to(told(class, reception), StepView::Ended) == StepView::Reading,
{
}

/// A change that arrived is never told as one that was listed, nor as a gap or a notice.
pub proof fn arrivals_are_not_listings(class: Seq<char>)
    ensures
        word_of(class) == Word::Added || word_of(class) == Word::Modified || word_of(class)
            == Word::Deleted,
        word_of(class) == Word::Added <==> class == "ADDED"@,
        word_of(class) == Word::Deleted <==> class == "DELETED"@,
{
    reveal_strlit("ADDED");
    reveal_strlit("DELETED");
    assert("ADDED"@.len() != "DELETED"@.len());
}

/// A reconnect is no break: state is listed again only where continuity broke, and what was denied
/// is not asked for again.
pub proof fn only_a_break_is_listed_again(state: SyncState, reacquire: bool)
    ensures
        resumed(state, reacquire) == Resume::Relist <==> state == SyncState::GapDetected
            && reacquire,
        state == SyncState::Denied ==> resumed(state, reacquire) == Resume::Complete,
{
}

/// A query the operator stopped ends as cancelled, and never as a failure of the cluster.
pub proof fn a_stopped_watch_is_cancelled(error: Refusal)
    ensures
        handled(Brought::Broken, true) == Handling::Cancelled,
        refused_as(true, error) == Ended::Cancelled,
{
}

/// No two states of a view share a word.
pub proof fn states_are_told_apart(a: ViewState, b: ViewState)
    requires
        a != b,
    ensures
        view_text(a) != view_text(b),
{
    reveal_strlit("syncing");
    reveal_strlit("live");
    reveal_strlit("reconnecting");
    reveal_strlit("gap detected");
    reveal_strlit("stale");
    reveal_strlit("denied");
    assert("syncing"@.len() == 7 && "live"@.len() == 4 && "reconnecting"@.len() == 12);
    assert("gap detected"@.len() == 12 && "stale"@.len() == 5 && "denied"@.len() == 6);
    assert("gap detected"@[0] == 'g' && "reconnecting"@[0] == 'r');
}

}
