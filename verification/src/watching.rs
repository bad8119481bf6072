//! A live watch, step by step: the loop that acquires a collection and observes it until the
//! operator, a bound or the cluster ends that, and the loop that reads one response inside it.
//!
//! Each loop is a state and the moments that move it on. Whoever holds the connection performs what
//! the state is waiting for and hands back what came of it; a moment the state is not waiting for
//! moves nothing.

use vstd::prelude::*;

use crate::changes::{
    after_event, closed, delivery_comes_to, handled, handling, refused, refused_as, response_ends,
    resume, resumed, round_view, unacquirable, Brought, Emitter, Handling, Opening, Resume, Step,
    StepView, SyncState, ViewState, UNACQUIRABLE, UNACQUIRABLE_HELP,
};
use crate::emission::{Delivery, Ended, Invocation};
use crate::failure::{refusal, Class, Refusal, WireError};
use crate::text::filled;

verus! {

// --- the loop -------------------------------------------------------------------------------------

/// What a live watch is waiting for.
#[derive(Debug, PartialEq, Eq)]
pub enum Stage {
    /// The objects of a listing to be handed over; the first one, or one after a break.
    Listing {
        first: bool,
    },
    /// The next turn.
    Turning,
    /// One response of the watch.
    Watching,
    /// The stream to be told that its position still holds.
    Reconnecting,
    /// Another listing.
    Relisting,
    /// The state the view is in now.
    Settling,
    /// A notice to be handed over.
    Noticing,
    /// The end of the turn.
    Resting,
    /// Nothing: the invocation is over.
    Over(Invocation),
}

/// What a live watch is waiting for.
pub enum StageView {
    Listing {
        first: bool,
    },
    Turning,
    Watching,
    Reconnecting,
    Relisting,
    Settling,
    Noticing,
    Resting,
    Over(Ended),
}

impl View for Stage {
    type V = StageView;

    open spec fn view(&self) -> StageView {
        match self {
            Stage::Listing { first } => StageView::Listing { first: *first },
            Stage::Turning => StageView::Turning,
            Stage::Watching => StageView::Watching,
            Stage::Reconnecting => StageView::Reconnecting,
            Stage::Relisting => StageView::Relisting,
            Stage::Settling => StageView::Settling,
            Stage::Noticing => StageView::Noticing,
            Stage::Resting => StageView::Resting,
            Stage::Over(ended) => StageView::Over(ended@),
        }
    }
}

/// What came of what a live watch was waiting for.
#[derive(Debug, PartialEq, Eq)]
pub enum Moment {
    /// The objects of a listing were handed over, and the view is in this state.
    Listed(Step, ViewState),
    /// A turn begins, and whether the operator stopped the query.
    Turn(bool),
    /// A response was read, whether the operator stopped the query, and what the stream is.
    Watched(Result<Step, WireError>, bool, SyncState),
    /// Whether the stream took that its position still holds.
    Reconnected(bool),
    /// Another listing was made and became the cache, or may not; or it failed, and whether the
    /// operator stopped the query.
    Relisted(Result<Result<(), String>, WireError>, bool),
    /// The view is in this state.
    Settled(ViewState),
    /// A notice was handed over.
    Noticed(Step),
    /// The turn ends, and the view is in this state.
    Rested(ViewState),
}

/// What came of what a live watch was waiting for.
pub enum MomentView {
    Listed(StepView, ViewState),
    Turn(bool),
    Watched(Result<StepView, Refusal>, bool, SyncState),
    Reconnected(bool),
    Relisted(Result<Result<(), Seq<char>>, Refusal>, bool),
    Settled(ViewState),
    Noticed(StepView),
    Rested(ViewState),
}

/// What became of a listing.
pub open spec fn listing_view(listing: Result<Result<(), String>, WireError>) -> Result<
    Result<(), Seq<char>>,
    Refusal,
> {
    match listing {
        Ok(Ok(_)) => Ok(Ok(())),
        Ok(Err(detail)) => Ok(Err(detail@)),
        Err(error) => Err(error@),
    }
}

impl View for Moment {
    type V = MomentView;

    open spec fn view(&self) -> MomentView {
        match self {
            Moment::Listed(step, now) => MomentView::Listed(step@, *now),
            Moment::Turn(cancelled) => MomentView::Turn(*cancelled),
            Moment::Watched(round, cancelled, state) => MomentView::Watched(
                round_view(*round),
                *cancelled,
                *state,
            ),
            Moment::Reconnected(taken) => MomentView::Reconnected(*taken),
            Moment::Relisted(listing, cancelled) => MomentView::Relisted(
                listing_view(*listing),
                *cancelled,
            ),
            Moment::Settled(now) => MomentView::Settled(*now),
            Moment::Noticed(step) => MomentView::Noticed(step@),
            Moment::Rested(now) => MomentView::Rested(*now),
        }
    }
}

/// A live watch.
#[derive(Debug, PartialEq, Eq)]
pub struct Live {
    pub stage: Stage,
    /// What it emits under.
    pub emitter: Emitter,
    /// Whether state is acquired again once continuity broke.
    pub reacquire: bool,
    /// What the last record told a reader the view was.
    pub announced: ViewState,
    /// How many records had been emitted when the turn began.
    pub before: usize,
}

/// A live watch.
pub struct LiveView {
    pub stage: StageView,
    pub budget: Option<usize>,
    pub emitted: int,
    pub reacquire: bool,
    pub announced: ViewState,
    pub before: int,
}

impl View for Live {
    type V = LiveView;

    open spec fn view(&self) -> LiveView {
        LiveView {
            stage: self.stage@,
            budget: self.emitter.budget,
            emitted: self.emitter.emitted as int,
            reacquire: self.reacquire,
            announced: self.announced,
            before: self.before as int,
        }
    }
}

/// The refusal of a listing that may not become a cache.
pub open spec fn unacquired(detail: Seq<char>) -> Refusal {
    refusal(Class::Unavailable, filled(UNACQUIRABLE@, seq![detail]), UNACQUIRABLE_HELP@)
}

/// What a watch waits for after a response of it was read.
pub open spec fn after_response(
    round: Result<StepView, Refusal>,
    cancelled: bool,
    state: SyncState,
    reacquire: bool,
) -> StageView {
    match round {
        Ok(StepView::Stopped(ended)) => StageView::Over(ended),
        Ok(_) => match resumed(state, reacquire) {
            Resume::GoOn => StageView::Settling,
            Resume::Reconnect => StageView::Reconnecting,
            Resume::Relist => StageView::Relisting,
            Resume::Complete => StageView::Over(Ended::Completed),
        },
        Err(error) => StageView::Over(refused_as(cancelled, error)),
    }
}

/// What a watch waits for after another listing was made.
pub open spec fn after_listing(
    listing: Result<Result<(), Seq<char>>, Refusal>,
    cancelled: bool,
) -> StageView {
    match listing {
        Ok(Ok(_)) => StageView::Listing { first: false },
        Ok(Err(detail)) => StageView::Over(Ended::Failed(unacquired(detail))),
        Err(error) => StageView::Over(refused_as(cancelled, error)),
    }
}

/// A live watch after one moment. What is not waited for moves nothing.
pub open spec fn advanced(state: LiveView, moment: MomentView) -> LiveView {
    match (state.stage, moment) {
        (StageView::Listing { first }, MomentView::Listed(step, now)) => if step is Stopped {
            LiveView { stage: StageView::Over(step->Stopped_0), ..state }
        } else if first {
            LiveView { stage: StageView::Turning, announced: now, ..state }
        } else {
            LiveView { stage: StageView::Settling, ..state }
        },
        (StageView::Turning, MomentView::Turn(cancelled)) => if cancelled {
            LiveView { stage: StageView::Over(Ended::Cancelled), ..state }
        } else {
            LiveView { stage: StageView::Watching, before: state.emitted, ..state }
        },
        (StageView::Watching, MomentView::Watched(round, cancelled, sync)) => LiveView {
            stage: after_response(round, cancelled, sync, state.reacquire),
            ..state
        },
        (StageView::Reconnecting, MomentView::Reconnected(taken)) => LiveView {
            stage: if taken {
                StageView::Settling
            } else {
                StageView::Over(Ended::Completed)
            },
            ..state
        },
        (StageView::Relisting, MomentView::Relisted(listing, cancelled)) => LiveView {
            stage: after_listing(listing, cancelled),
            ..state
        },
        (StageView::Settling, MomentView::Settled(now)) => LiveView {
            stage: if now != state.announced {
                StageView::Noticing
            } else {
                StageView::Resting
            },
            announced: now,
            ..state
        },
        (StageView::Noticing, MomentView::Noticed(step)) => LiveView {
            stage: if step is Stopped {
                StageView::Over(step->Stopped_0)
            } else {
                StageView::Resting
            },
            ..state
        },
        (StageView::Resting, MomentView::Rested(now)) => LiveView {
            stage: StageView::Turning,
            announced: if state.emitted > state.before {
                now
            } else {
                state.announced
            },
            ..state
        },
        _ => state,
    }
}

impl Live {
    /// Begins a watch with its first listing, which became the cache or may not.
    pub fn new(listing: Result<(), String>, budget: Option<usize>, reacquire: bool) -> (r: Live)
        ensures
            r@ == (LiveView {
                stage: match listing {
                    Ok(_) => StageView::Listing { first: true },
                    Err(detail) => StageView::Over(Ended::Failed(unacquired(detail@))),
                },
                budget,
                emitted: 0,
                reacquire,
                announced: ViewState::Syncing,
                before: 0,
            }),
    {
        let stage: Stage = match listing {
            Ok(_) => Stage::Listing { first: true },
            Err(detail) => Stage::Over(Invocation::Failed(unacquirable(detail.as_str()))),
        };
        Live {
            stage,
            emitter: Emitter::new(budget),
            reacquire,
            announced: ViewState::Syncing,
            before: 0,
        }
    }

    /// Notes what became of one record.
    pub fn deliver(&mut self, delivery: &Delivery, schema: &str) -> (r: Step)
        requires
            old(self).emitter.emitted < usize::MAX,
        ensures
            final(self)@ == (LiveView { emitted: final(self)@.emitted, ..old(self)@ }),
            (final(self)@.emitted, r@) == delivery_comes_to(
                old(self)@.budget,
                old(self)@.emitted,
                delivery@,
                schema@,
            ),
    {
        self.emitter.deliver(delivery, schema)
    }

    /// Whether to pause before the next turn: only a turn that handed over nothing could spin.
    pub fn pauses(&self) -> (r: bool)
        ensures
            r == (self@.emitted <= self@.before),
    {
        self.emitter.emitted <= self.before
    }

    /// Moves on by one moment.
    pub fn advance(&mut self, moment: Moment)
        ensures
            final(self)@ == advanced(old(self)@, moment@),
    {
        let first: bool = match &self.stage {
            Stage::Listing { first } => *first,
            _ => false,
        };
        match moment {
            Moment::Listed(step, now) => {
                if let Stage::Listing { .. } = self.stage {
                    match step {
                        Step::Stopped(ended) => {
                            self.stage = Stage::Over(ended);
                        },
                        _ => if first {
                            self.announced = now;
                            self.stage = Stage::Turning;
                        } else {
                            self.stage = Stage::Settling;
                        },
                    }
                }
            },
            Moment::Turn(cancelled) => {
                if let Stage::Turning = self.stage {
                    if cancelled {
                        self.stage = Stage::Over(Invocation::Cancelled);
                    } else {
                        self.before = self.emitter.emitted;
                        self.stage = Stage::Watching;
                    }
                }
            },
            Moment::Watched(round, cancelled, state) => {
                if let Stage::Watching = self.stage {
                    self.stage = match round {
                        Ok(Step::Stopped(ended)) => Stage::Over(ended),
                        Ok(_) => match resume(state, self.reacquire) {
                            Resume::GoOn => Stage::Settling,
                            Resume::Reconnect => Stage::Reconnecting,
                            Resume::Relist => Stage::Relisting,
                            Resume::Complete => Stage::Over(Invocation::Completed),
                        },
                        Err(error) => Stage::Over(refused(cancelled, error)),
                    };
                }
            },
            Moment::Reconnected(taken) => {
                if let Stage::Reconnecting = self.stage {
                    self.stage = if taken {
                        Stage::Settling
                    } else {
                        Stage::Over(Invocation::Completed)
                    };
                }
            },
            Moment::Relisted(listing, cancelled) => {
                if let Stage::Relisting = self.stage {
                    self.stage = match listing {
                        Ok(Ok(_)) => Stage::Listing { first: false },
                        Ok(Err(detail)) => Stage::Over(
                            Invocation::Failed(unacquirable(detail.as_str())),
                        ),
                        Err(error) => Stage::Over(refused(cancelled, error)),
                    };
                }
            },
            Moment::Settled(now) => {
                if let Stage::Settling = self.stage {
                    self.stage = if now != self.announced {
                        Stage::Noticing
                    } else {
                        Stage::Resting
                    };
                    self.announced = now;
                }
            },
            Moment::Noticed(step) => {
                if let Stage::Noticing = self.stage {
                    self.stage = match step {
                        Step::Stopped(ended) => Stage::Over(ended),
                        _ => Stage::Resting,
                    };
                }
            },
            Moment::Rested(now) => {
                if let Stage::Resting = self.stage {
                    if self.emitter.emitted > self.before {
                        self.announced = now;
                    }
                    self.stage = Stage::Turning;
                }
            },
        }
    }
}

// --- one response ---------------------------------------------------------------------------------

/// What the reading of one response is waiting for.
#[derive(Debug, PartialEq, Eq)]
pub enum Point {
    /// The one event that the status stands for to be applied.
    Opening,
    /// The moment between two reads.
    Between,
    /// A notice to be handed over.
    Noticing,
    /// One read of the body.
    Reading,
    /// This many events to be applied, one after the other.
    Applying {
        left: usize,
    },
    /// What the decoder still holds.
    Finishing,
    /// This many events of that to be applied.
    Draining {
        left: usize,
    },
    /// Nothing: the response is over.
    Over(Step),
}

/// What the reading of one response is waiting for.
pub enum PointView {
    Opening,
    Between,
    Noticing,
    Reading,
    Applying {
        left: int,
    },
    Finishing,
    Draining {
        left: int,
    },
    Over(StepView),
}

impl View for Point {
    type V = PointView;

    open spec fn view(&self) -> PointView {
        match self {
            Point::Opening => PointView::Opening,
            Point::Between => PointView::Between,
            Point::Noticing => PointView::Noticing,
            Point::Reading => PointView::Reading,
            Point::Applying { left } => PointView::Applying { left: *left as int },
            Point::Finishing => PointView::Finishing,
            Point::Draining { left } => PointView::Draining { left: *left as int },
            Point::Over(step) => PointView::Over(step@),
        }
    }
}

/// What came of what the reading of a response was waiting for.
#[derive(Debug, PartialEq, Eq)]
pub enum Event {
    /// Whether the operator stopped the query, and the state the view is in.
    Paused(bool, ViewState),
    /// A notice was handed over.
    Noticed(Step),
    /// What one read brought, how many events it is, whether the operator stopped the query, and
    /// the state the view is in.
    Read(Brought, usize, bool, ViewState),
    /// How many events the decoder still held; one where that did not read.
    Finished(usize),
    /// One event was applied, and the view is in this state.
    Applied(Step, ViewState),
}

/// What came of what the reading of a response was waiting for.
pub enum EventView {
    Paused(bool, ViewState),
    Noticed(StepView),
    Read(Brought, int, bool, ViewState),
    Finished(int),
    Applied(StepView, ViewState),
}

impl View for Event {
    type V = EventView;

    open spec fn view(&self) -> EventView {
        match self {
            Event::Paused(cancelled, now) => EventView::Paused(*cancelled, *now),
            Event::Noticed(step) => EventView::Noticed(step@),
            Event::Read(brought, events, cancelled, now) => EventView::Read(
                *brought,
                *events as int,
                *cancelled,
                *now,
            ),
            Event::Finished(events) => EventView::Finished(*events as int),
            Event::Applied(step, now) => EventView::Applied(step@, *now),
        }
    }
}

/// The reading of one response.
#[derive(Debug, PartialEq, Eq)]
pub struct Response {
    pub point: Point,
    /// What the last record told a reader the view was.
    pub announced: ViewState,
}

/// The reading of one response.
pub struct ResponseView {
    pub point: PointView,
    pub announced: ViewState,
}

impl View for Response {
    type V = ResponseView;

    open spec fn view(&self) -> ResponseView {
        ResponseView { point: self.point@, announced: self.announced }
    }
}

/// The reading of a response once some events wait to be applied: where there are none, whatever
/// arrived has been told.
pub open spec fn applying(state: ResponseView, events: int, now: ViewState) -> ResponseView {
    if events <= 0 {
        ResponseView { point: PointView::Between, announced: now }
    } else {
        ResponseView { point: PointView::Applying { left: events }, ..state }
    }
}

/// The reading of a response after what one read brought.
pub open spec fn after_read(
    state: ResponseView,
    brought: Brought,
    events: int,
    cancelled: bool,
    now: ViewState,
) -> ResponseView {
    match handled(brought, cancelled) {
        Handling::Finish => ResponseView { point: PointView::Finishing, ..state },
        Handling::Apply => applying(state, events, now),
        Handling::Interrupt => applying(state, 1, now),
        Handling::Again => ResponseView { point: PointView::Between, ..state },
        Handling::Cancelled => ResponseView {
            point: PointView::Over(StepView::Stopped(Ended::Cancelled)),
            ..state
        },
    }
}

/// The reading of a response after one event was applied: an event may end it, and behind the end
/// of the body only what ends the invocation does.
pub open spec fn after_applied(
    state: ResponseView,
    left: int,
    finishing: bool,
    step: StepView,
    now: ViewState,
) -> ResponseView {
    match response_ends(step, finishing) {
        Some(ended) => ResponseView { point: PointView::Over(ended), ..state },
        None => if left > 1 {
            ResponseView {
                point: if finishing {
                    PointView::Draining { left: left - 1 }
                } else {
                    PointView::Applying { left: left - 1 }
                },
                ..state
            }
        } else if finishing {
            ResponseView { point: PointView::Over(StepView::Ended), ..state }
        } else {
            ResponseView { point: PointView::Between, announced: now }
        },
    }
}

/// The reading of one response after what it was waiting for. What is not waited for moves nothing.
pub open spec fn responded(state: ResponseView, event: EventView) -> ResponseView {
    match (state.point, event) {
        (PointView::Opening, EventView::Applied(step, _)) => ResponseView {
            point: PointView::Over(
                if step is Stopped {
                    step
                } else {
                    StepView::Ended
                },
            ),
            ..state
        },
        (PointView::Between, EventView::Paused(cancelled, now)) => if cancelled {
            ResponseView {
                point: PointView::Over(StepView::Stopped(Ended::Cancelled)),
                ..state
            }
        } else if now != state.announced {
            ResponseView { point: PointView::Noticing, announced: now }
        } else {
            ResponseView { point: PointView::Reading, ..state }
        },
        (PointView::Noticing, EventView::Noticed(step)) => ResponseView {
            point: if step is Stopped {
                PointView::Over(step)
            } else {
                PointView::Reading
            },
            ..state
        },
        (PointView::Reading, EventView::Read(brought, events, cancelled, now)) => after_read(
            state,
            brought,
            events,
            cancelled,
            now,
        ),
        (PointView::Applying { left }, EventView::Applied(step, now)) => after_applied(
            state,
            left,
            false,
            step,
            now,
        ),
        (PointView::Finishing, EventView::Finished(events)) => ResponseView {
            point: if events <= 0 {
                PointView::Over(StepView::Ended)
            } else {
                PointView::Draining { left: events }
            },
            ..state
        },
        (PointView::Draining { left }, EventView::Applied(step, now)) => after_applied(
            state,
            left,
            true,
            step,
            now,
        ),
        _ => state,
    }
}

impl Response {
    /// Begins to read a response: one that is open goes on between two reads, and any other one is
    /// the one event its status stands for.
    pub fn new(opening: Opening, now: ViewState) -> (r: Response)
        ensures
            r@ == (ResponseView {
                point: if opening == Opening::Open {
                    PointView::Between
                } else {
                    PointView::Opening
                },
                announced: now,
            }),
    {
        let point: Point = match opening {
            Opening::Open => Point::Between,
            _ => Point::Opening,
        };
        Response { point, announced: now }
    }

    fn apply(&mut self, events: usize, now: ViewState)
        ensures
            final(self)@ == applying(old(self)@, events as int, now),
    {
        if events == 0 {
            self.announced = now;
            self.point = Point::Between;
        } else {
            self.point = Point::Applying { left: events };
        }
    }

    fn applied(&mut self, left: usize, finishing: bool, step: Step, now: ViewState)
        ensures
            final(self)@ == after_applied(old(self)@, left as int, finishing, step@, now),
    {
        match after_event(step, finishing) {
            Some(ended) => {
                self.point = Point::Over(ended);
            },
            None => if left > 1 {
                self.point = if finishing {
                    Point::Draining { left: left - 1 }
                } else {
                    Point::Applying { left: left - 1 }
                };
            } else if finishing {
                self.point = Point::Over(Step::Ended);
            } else {
                self.announced = now;
                self.point = Point::Between;
            },
        }
    }

    fn read(&mut self, brought: Brought, events: usize, cancelled: bool, now: ViewState)
        ensures
            final(self)@ == after_read(old(self)@, brought, events as int, cancelled, now),
    {
        match handling(brought, cancelled) {
            Handling::Finish => {
                self.point = Point::Finishing;
            },
            Handling::Apply => self.apply(events, now),
            Handling::Interrupt => self.apply(1, now),
            Handling::Again => {
                self.point = Point::Between;
            },
            Handling::Cancelled => {
                self.point = Point::Over(Step::Stopped(Invocation::Cancelled));
            },
        }
    }

    /// Moves on by one event.
    pub fn advance(&mut self, event: Event)
        ensures
            final(self)@ == responded(old(self)@, event@),
    {
        match event {
            Event::Paused(cancelled, now) => {
                if let Point::Between = self.point {
                    if cancelled {
                        self.point = Point::Over(Step::Stopped(Invocation::Cancelled));
                    } else if now != self.announced {
                        self.announced = now;
                        self.point = Point::Noticing;
                    } else {
                        self.point = Point::Reading;
                    }
                }
            },
            Event::Noticed(step) => {
                if let Point::Noticing = self.point {
                    self.point = match step {
                        Step::Stopped(ended) => Point::Over(Step::Stopped(ended)),
                        _ => Point::Reading,
                    };
                }
            },
            Event::Read(brought, events, cancelled, now) => {
                if let Point::Reading = self.point {
                    self.read(brought, events, cancelled, now);
                }
            },
            Event::Finished(events) => {
                if let Point::Finishing = self.point {
                    self.point = if events == 0 {
                        Point::Over(Step::Ended)
                    } else {
                        Point::Draining { left: events }
                    };
                }
            },
            Event::Applied(step, now) => {
                match self.point {
                    Point::Opening => {
                        self.point = Point::Over(closed(step));
                    },
                    Point::Applying { left } => self.applied(left, false, step, now),
                    Point::Draining { left } => self.applied(left, true, step, now),
                    _ => {},
                }
            },
        }
    }
}

// --- laws -----------------------------------------------------------------------------------------

/// A live watch after some moments.
pub open spec fn after_all(state: LiveView, moments: Seq<MomentView>) -> LiveView
    decreases moments.len(),
{
    if moments.len() == 0 {
        state
    } else {
        after_all(advanced(state, moments[0]), moments.skip(1))
    }
}

/// An invocation that is over stays over, the way it ended.
pub proof fn what_is_over_stays_over(state: LiveView, moments: Seq<MomentView>)
    requires
        state.stage is Over,
    ensures
        after_all(state, moments) == state,
    decreases moments.len(),
{
    if moments.len() > 0 {
        assert(advanced(state, moments[0]) == state);
        what_is_over_stays_over(state, moments.skip(1));
    }
}

/// After a break nothing more is watched before the collection was listed again: the watch goes on
/// to another listing or is over, and from there to that listing's objects or is over.
pub proof fn a_break_is_followed_by_a_listing(
    state: LiveView,
    round: Result<StepView, Refusal>,
    cancelled: bool,
    moment: MomentView,
)
    requires
        state.stage is Watching,
    ensures
        ({
            let broken = advanced(
                state,
                MomentView::Watched(round, cancelled, SyncState::GapDetected),
            );
            &&& broken.stage is Relisting || broken.stage is Over
            &&& broken.stage is Relisting ==> state.reacquire
            &&& broken.stage is Relisting ==> {
                let next = advanced(broken, moment);
                next.stage is Relisting || next.stage is Over || next.stage
                    == (StageView::Listing { first: false })
            }
        }),
{
}

/// A notice is handed over exactly where the view is no longer what the reader was told.
pub proof fn a_notice_says_that_the_view_moved(state: LiveView, now: ViewState)
    requires
        state.stage is Settling,
    ensures
        advanced(state, MomentView::Settled(now)).stage is Noticing <==> now != state.announced,
        advanced(state, MomentView::Settled(now)).announced == now,
{
}

/// An operator who stops the query between two reads, or during one that breaks, ends it as
/// cancelled; no more of the body is read.
pub proof fn a_stopped_response_is_cancelled(state: ResponseView, now: ViewState, events: int)
    ensures
        state.point is Between ==> responded(state, EventView::Paused(true, now)).point
            == PointView::Over(StepView::Stopped(Ended::Cancelled)),
        state.point is Reading ==> responded(
            state,
            EventView::Read(Brought::Broken, events, true, now),
        ).point == PointView::Over(StepView::Stopped(Ended::Cancelled)),
{
}

/// Silence ends nothing: a window in which the server said nothing leaves the reading where it was,
/// with what the reader was told.
pub proof fn silence_ends_nothing(
    state: ResponseView,
    events: int,
    cancelled: bool,
    now: ViewState,
)
    requires
        state.point is Reading,
    ensures
        responded(state, EventView::Read(Brought::Quiet, events, cancelled, now)) == (
        ResponseView { point: PointView::Between, announced: state.announced }),
{
}

/// A view that moved while nothing arrived is told before anything more is read.
pub proof fn a_frozen_view_is_told(state: ResponseView, now: ViewState)
    requires
        state.point is Between,
    ensures
        responded(state, EventView::Paused(false, now)).point is Noticing <==> now
            != state.announced,
        responded(state, EventView::Paused(false, now)).point is Reading <==> now
            == state.announced,
{
}

}
