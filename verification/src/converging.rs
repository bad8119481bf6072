//! Watching a changed object until the rule for its change is decided or the window ends.
//!
//! Nothing here fabricates convergence. A gap, a partial observation, a window that ends and a
//! target that vanishes are each a named reason why the verification stayed unfinished, and never a
//! verdict. The session's own watch is asked first, where it is live; behind it comes a watch of
//! this invocation's own, opened at the version the first look observed.

use vstd::prelude::*;

use crate::coverage::Outcome;
use crate::digits::{natural, natural_number};
use crate::text::text_view;

verus! {

// --- the window -----------------------------------------------------------------------------------

/// How long a verification may watch before it reports that it did not finish, in milliseconds.
pub const VERIFICATION_WINDOW_MILLIS: u64 = 60_000;

/// The variable that sets another window for a process.
pub const WINDOW_VARIABLE: &'static str = "ONO_K8S_VERIFICATION_WINDOW_MS";

/// How often the session's own watch is asked, in milliseconds.
pub const CACHE_POLL_MILLIS: u64 = 100;

/// The window a process verifies under: what its environment sets where that is a number, and the
/// usual one otherwise.
pub open spec fn window_of(variable: Option<Seq<char>>) -> u64 {
    match variable {
        Some(text) => match natural_number(text) {
            Some(millis) => if millis <= u64::MAX {
                millis as u64
            } else {
                VERIFICATION_WINDOW_MILLIS
            },
            None => VERIFICATION_WINDOW_MILLIS,
        },
        None => VERIFICATION_WINDOW_MILLIS,
    }
}

/// The window a process verifies under, from what its environment sets.
pub fn verification_window(variable: &Option<String>) -> (r: u64)
    ensures
        r == window_of(text_view(*variable)),
{
    match variable {
        Some(text) => match natural(text.as_str(), u64::MAX) {
            Some(millis) => millis,
            None => VERIFICATION_WINDOW_MILLIS,
        },
        None => VERIFICATION_WINDOW_MILLIS,
    }
}

/// What proves a change.
#[derive(Debug, Clone, Copy, PartialEq, Eq, Structural)]
pub enum Rule {
    /// That the object is gone, which is read.
    Absence,
    /// Nothing this provider knows.
    NoneKnown,
    /// Something a watch over the target can show.
    Shown,
}

/// Whether a watch over the target can prove a rule.
pub open spec fn can_be_watched(rule: Rule) -> bool {
    rule != Rule::Absence && rule != Rule::NoneKnown
}

/// Whether a watch over the target can prove a rule.
pub fn watchable(rule: Rule) -> (r: bool)
    ensures
        r == can_be_watched(rule),
{
    match rule {
        Rule::Absence | Rule::NoneKnown => false,
        Rule::Shown => true,
    }
}

/// The window the first look is judged under: it is already over where no watch can prove the rule.
pub fn first_window(rule: Rule, window: u64) -> (r: u64)
    ensures
        r == if can_be_watched(rule) {
            window
        } else {
            0
        },
{
    if watchable(rule) {
        window
    } else {
        0
    }
}

// --- one look -------------------------------------------------------------------------------------

/// What the look after a change found.
#[derive(Debug, Clone, Copy, PartialEq, Eq, Structural)]
pub enum Looked {
    Object,
    Absent,
    /// Nobody could look, and why; never that the object is gone.
    Unobservable(Outcome),
}

/// What the look after a change found: only the one outcome that is evidence of absence shows that
/// the object is gone.
pub open spec fn look_of(read: Result<(), Outcome>) -> Looked {
    match read {
        Ok(_) => Looked::Object,
        Err(outcome) => if outcome == Outcome::Absent {
            Looked::Absent
        } else {
            Looked::Unobservable(outcome)
        },
    }
}

/// What the look after a change found; no look is made where nothing was written.
pub fn looked(requires_verification: bool, read: Result<(), Outcome>) -> (r: Option<Looked>)
    ensures
        r == if requires_verification {
            Some(look_of(read))
        } else {
            None
        },
{
    if !requires_verification {
        return None;
    }
    match read {
        Ok(_) => Some(Looked::Object),
        Err(outcome) => if outcome == Outcome::Absent {
            Some(Looked::Absent)
        } else {
            Some(Looked::Unobservable(outcome))
        },
    }
}

/// The outcome a deletion learns of a look that found no object; none where it found one.
pub fn absence_seen(looked: Looked) -> (r: Option<Outcome>)
    ensures
        r == match looked {
            Looked::Object => None,
            Looked::Absent => Some(Outcome::Absent),
            Looked::Unobservable(outcome) => Some(outcome),
        },
{
    match looked {
        Looked::Object => None,
        Looked::Absent => Some(Outcome::Absent),
        Looked::Unobservable(outcome) => Some(outcome),
    }
}

// --- what a look establishes ----------------------------------------------------------------------

/// What an observation of the target establishes about the change.
#[derive(Debug, Clone, Copy, PartialEq, Eq, Structural)]
pub enum Verdict {
    /// Not decided yet.
    Pending,
    /// The rule is proven or refuted.
    Decided,
    /// It will not be decided.
    Incomplete,
}

/// How far the target got on its way to the change.
#[derive(Debug, Clone, Copy, PartialEq, Eq, Structural)]
pub enum Stage {
    ApiAccepted,
    SpecObserved,
    /// Anything behind those two.
    Further,
}

/// One observation of the target, judged. The number says which one it is.
#[derive(Debug, Clone, Copy, PartialEq, Eq, Structural)]
pub struct Sight {
    pub number: u64,
    pub verdict: Verdict,
    pub reached: Option<Stage>,
}

/// Why a verification stayed unfinished.
#[derive(Debug, Clone, Copy, PartialEq, Eq, Structural)]
pub enum Unfinished {
    WindowExpired,
    GenerationNotObserved,
    ConditionsInconclusive,
    TargetGone,
    /// Something between two observations was not observed.
    WatchGap,
    WatchUnavailable(Outcome),
    PartialCoverage(Outcome),
}

/// Which unfinished answer a window that ended on this evidence is.
pub open spec fn ended_on(last: Sight) -> Unfinished {
    match last.reached {
        None => Unfinished::WindowExpired,
        Some(Stage::ApiAccepted) | Some(Stage::SpecObserved) => Unfinished::GenerationNotObserved,
        Some(Stage::Further) => Unfinished::ConditionsInconclusive,
    }
}

/// Which unfinished answer a window that ended on this evidence is.
pub fn window_ended(last: &Sight) -> (r: Unfinished)
    ensures
        r == ended_on(*last),
{
    match last.reached {
        None => Unfinished::WindowExpired,
        Some(Stage::ApiAccepted) | Some(Stage::SpecObserved) => Unfinished::GenerationNotObserved,
        Some(Stage::Further) => Unfinished::ConditionsInconclusive,
    }
}

// --- the whole verification -----------------------------------------------------------------------

/// What is asked about the target.
#[derive(Debug, Clone, Copy, PartialEq, Eq, Structural)]
pub enum Asked {
    /// The session's own watch.
    Cache,
    /// A watch of this invocation's own.
    Watch,
}

/// How a verification came out.
#[derive(Debug, Clone, Copy, PartialEq, Eq, Structural)]
pub enum Converged {
    /// An observation decided it.
    Verified(Sight),
    /// It stayed unfinished, for a reason, after this last observation.
    Unfinished(Unfinished, Sight),
    /// The operator stopped it; the change stands as it was taken.
    Cancelled,
}

/// What to do next.
#[derive(Debug, Clone, Copy, PartialEq, Eq, Structural)]
pub enum Move {
    /// Ask the session's own watch.
    LookInCache,
    /// Wait a moment, then ask again.
    Wait,
    /// Open a watch from the version held.
    OpenWatch,
    /// Ask what to do next.
    Again,
    Finish(Converged),
}

/// What the session's own watch says about the target.
#[derive(Debug, Clone, Copy, PartialEq, Eq, Structural)]
pub enum Lookup {
    /// The event for the write has not arrived.
    NotYet,
    ConfirmedAbsent,
    Cached(Sight),
}

/// What one watch round came to.
#[derive(Debug, PartialEq, Eq)]
pub enum Watched {
    Decided(Sight),
    /// The watch could not go on, for this reason, after the last observation it made.
    Unfinished(Unfinished, Option<Sight>),
    /// The watch ended and the version it reached still holds.
    Reopen(Option<String>, Option<Sight>),
}

/// What one watch round came to.
pub enum WatchedView {
    Decided(Sight),
    Unfinished(Unfinished, Option<Sight>),
    Reopen(Option<Seq<char>>, Option<Sight>),
}

impl View for Watched {
    type V = WatchedView;

    open spec fn view(&self) -> WatchedView {
        match self {
            Watched::Decided(sight) => WatchedView::Decided(*sight),
            Watched::Unfinished(reason, seen) => WatchedView::Unfinished(*reason, *seen),
            Watched::Reopen(version, seen) => WatchedView::Reopen(text_view(*version), *seen),
        }
    }
}

/// A verification under way.
#[derive(Debug, PartialEq, Eq)]
pub struct Convergence {
    pub asked: Asked,
    /// The last observation that decided nothing.
    pub last: Sight,
    /// The version a watch opens from.
    pub from: Option<String>,
    /// How long it may take, in milliseconds.
    pub window: u64,
}

/// A verification under way.
pub struct ConvergenceView {
    pub asked: Asked,
    pub last: Sight,
    pub from: Option<Seq<char>>,
    pub window: int,
}

impl View for Convergence {
    type V = ConvergenceView;

    open spec fn view(&self) -> ConvergenceView {
        ConvergenceView {
            asked: self.asked,
            last: self.last,
            from: text_view(self.from),
            window: self.window as int,
        }
    }
}

/// An observation, or the one before it where there is none.
pub open spec fn latest(seen: Option<Sight>, last: Sight) -> Sight {
    match seen {
        Some(seen) => seen,
        None => last,
    }
}

/// What to do next, before anything is asked: the operator comes first, and the window ends the
/// watch of this invocation's own before it is opened.
pub open spec fn next_move(state: ConvergenceView, cancelled: bool, elapsed: int) -> Move {
    if cancelled {
        Move::Finish(Converged::Cancelled)
    } else {
        match state.asked {
            Asked::Cache => Move::LookInCache,
            Asked::Watch => if elapsed >= state.window {
                Move::Finish(Converged::Unfinished(ended_on(state.last), state.last))
            } else {
                Move::OpenWatch
            },
        }
    }
}

/// What a look into the session's own watch comes to. A watch that is not live is asked no more.
pub open spec fn after_look(state: ConvergenceView, live: bool, look: Lookup, elapsed: int) -> (
    ConvergenceView,
    Move,
) {
    if !live {
        (ConvergenceView { asked: Asked::Watch, ..state }, Move::Again)
    } else if look is ConfirmedAbsent {
        (state, Move::Finish(Converged::Unfinished(Unfinished::TargetGone, state.last)))
    } else if look is Cached && look->Cached_0.verdict is Decided {
        (state, Move::Finish(Converged::Verified(look->Cached_0)))
    } else {
        let last = if look is Cached {
            look->Cached_0
        } else {
            state.last
        };
        let held = ConvergenceView { last, ..state };
        if elapsed >= state.window {
            (held, Move::Finish(Converged::Unfinished(ended_on(last), last)))
        } else {
            (held, Move::Wait)
        }
    }
}

/// What a round of this invocation's own watch comes to; no round where the transport failed
/// underneath it, which is a read nobody could make and not a change that failed.
pub open spec fn after_round(
    state: ConvergenceView,
    round: Option<WatchedView>,
    cancelled: bool,
) -> (ConvergenceView, Move) {
    match round {
        Some(WatchedView::Decided(sight)) => (state, Move::Finish(Converged::Verified(sight))),
        Some(WatchedView::Unfinished(reason, seen)) => (
            state,
            Move::Finish(Converged::Unfinished(reason, latest(seen, state.last))),
        ),
        Some(WatchedView::Reopen(version, seen)) => (
            ConvergenceView {
                last: latest(seen, state.last),
                from: if version is Some {
                    version
                } else {
                    state.from
                },
                ..state
            },
            Move::Again,
        ),
        None => if cancelled {
            (state, Move::Finish(Converged::Cancelled))
        } else {
            (
                state,
                Move::Finish(
                    Converged::Unfinished(
                        Unfinished::WatchUnavailable(Outcome::RequestFailed),
                        state.last,
                    ),
                ),
            )
        },
    }
}

/// A watch round, where there was one.
pub open spec fn round_view(round: Option<Watched>) -> Option<WatchedView> {
    match round {
        Some(round) => Some(round@),
        None => None,
    }
}

impl Convergence {
    /// Begins to wait for a change to converge; none where there is nothing to wait for, because
    /// nothing was written, the first look decided the question, or the rule is one no watch can
    /// prove.
    pub fn begin(first: Option<Sight>, rule: Rule, from: Option<String>, window: u64) -> (r: Option<
        Convergence,
    >)
        ensures
            match r {
                Some(state) => first matches Some(sight) && sight.verdict == Verdict::Pending
                    && can_be_watched(rule) && state@ == (ConvergenceView {
                    asked: Asked::Cache,
                    last: sight,
                    from: text_view(from),
                    window: window as int,
                }),
                None => first matches Some(sight) ==> sight.verdict != Verdict::Pending
                    || !can_be_watched(rule),
            },
    {
        match first {
            Some(sight) => if sight.verdict == Verdict::Pending && watchable(rule) {
                Some(Convergence { asked: Asked::Cache, last: sight, from, window })
            } else {
                None
            },
            None => None,
        }
    }

    /// What to do next, before anything is asked.
    pub fn next(&self, cancelled: bool, elapsed: u64) -> (r: Move)
        ensures
            r == next_move(self@, cancelled, elapsed as int),
    {
        if cancelled {
            return Move::Finish(Converged::Cancelled);
        }
        match self.asked {
            Asked::Cache => Move::LookInCache,
            Asked::Watch => if elapsed >= self.window {
                Move::Finish(Converged::Unfinished(window_ended(&self.last), self.last))
            } else {
                Move::OpenWatch
            },
        }
    }

    /// Takes what the session's own watch said.
    pub fn looked(&mut self, live: bool, look: Lookup, elapsed: u64) -> (r: Move)
        ensures
            (final(self)@, r) == after_look(old(self)@, live, look, elapsed as int),
    {
        if !live {
            self.asked = Asked::Watch;
            return Move::Again;
        }
        match look {
            Lookup::NotYet => {},
            Lookup::ConfirmedAbsent => {
                return Move::Finish(Converged::Unfinished(Unfinished::TargetGone, self.last));
            },
            Lookup::Cached(sight) => {
                if sight.verdict == Verdict::Decided {
                    return Move::Finish(Converged::Verified(sight));
                }
                self.last = sight;
            },
        }
        if elapsed >= self.window {
            return Move::Finish(Converged::Unfinished(window_ended(&self.last), self.last));
        }
        Move::Wait
    }

    /// Takes what a round of this invocation's own watch came to.
    pub fn watched(&mut self, round: Option<Watched>, cancelled: bool) -> (r: Move)
        ensures
            (final(self)@, r) == after_round(old(self)@, round_view(round), cancelled),
    {
        match round {
            Some(Watched::Decided(sight)) => Move::Finish(Converged::Verified(sight)),
            Some(Watched::Unfinished(reason, seen)) => {
                let last: Sight = match seen {
                    Some(seen) => seen,
                    None => self.last,
                };
                Move::Finish(Converged::Unfinished(reason, last))
            },
            Some(Watched::Reopen(version, seen)) => {
                if let Some(seen) = seen {
                    self.last = seen;
                }
                if version.is_some() {
                    self.from = version;
                }
                Move::Again
            },
            None => if cancelled {
                Move::Finish(Converged::Cancelled)
            } else {
                Move::Finish(
                    Converged::Unfinished(
                        Unfinished::WatchUnavailable(Outcome::RequestFailed),
                        self.last,
                    ),
                )
            },
        }
    }
}

// --- one watch round ------------------------------------------------------------------------------

/// What a chunk of the watch is when it brings no events.
#[derive(Debug, Clone, Copy, PartialEq, Eq, Structural)]
pub enum Chunk {
    /// The body ended.
    Ended,
    /// A frame did not read: an observation with a hole in it.
    Undecodable,
    /// Nothing came in this window.
    Quiet,
    /// The connection failed.
    Failed,
}

/// One event of the watch.
#[derive(Debug, PartialEq, Eq)]
pub enum Event {
    /// The target as it now is: its version where it states one, and what that establishes.
    Held(Option<String>, Sight),
    Deleted,
    /// The watch reached a version.
    Position(String),
    /// The server's history does not reach back far enough.
    Expired,
    Denied,
    Interrupted,
}

/// One event of the watch.
pub enum EventView {
    Held(Option<Seq<char>>, Sight),
    Deleted,
    Position(Seq<char>),
    Expired,
    Denied,
    Interrupted,
}

impl View for Event {
    type V = EventView;

    open spec fn view(&self) -> EventView {
        match self {
            Event::Held(version, sight) => EventView::Held(text_view(*version), *sight),
            Event::Deleted => EventView::Deleted,
            Event::Position(version) => EventView::Position(version@),
            Event::Expired => EventView::Expired,
            Event::Denied => EventView::Denied,
            Event::Interrupted => EventView::Interrupted,
        }
    }
}

/// A watch round under way.
#[derive(Debug, PartialEq, Eq)]
pub struct Round {
    /// The version the watch reached.
    pub checkpoint: Option<String>,
    /// The last observation this round made.
    pub seen: Option<Sight>,
    /// The last observation before it.
    pub last: Sight,
}

/// A watch round under way.
pub struct RoundView {
    pub checkpoint: Option<Seq<char>>,
    pub seen: Option<Sight>,
    pub last: Sight,
}

impl View for Round {
    type V = RoundView;

    open spec fn view(&self) -> RoundView {
        RoundView { checkpoint: text_view(self.checkpoint), seen: self.seen, last: self.last }
    }
}

/// Why a watch that was answered with a status cannot be read, where it cannot.
pub open spec fn status_refuses(status: int) -> Option<Unfinished> {
    if status == 200 {
        None
    } else if status == 410 {
        Some(Unfinished::WatchGap)
    } else if status == 401 || status == 403 {
        Some(Unfinished::WatchUnavailable(Outcome::ReadDenied))
    } else if status == 404 {
        Some(Unfinished::WatchUnavailable(Outcome::TypeNotServed))
    } else {
        Some(Unfinished::WatchUnavailable(Outcome::RequestFailed))
    }
}

/// How a chunk without events ends the round, where it does.
pub open spec fn chunk_ends(state: RoundView, chunk: Chunk) -> Option<WatchedView> {
    match chunk {
        Chunk::Quiet => None,
        Chunk::Undecodable => Some(
            WatchedView::Unfinished(
                Unfinished::PartialCoverage(Outcome::RequestFailed),
                state.seen,
            ),
        ),
        Chunk::Ended | Chunk::Failed => Some(WatchedView::Reopen(state.checkpoint, state.seen)),
    }
}

/// What an event makes of a round, and how it ends it, where it does.
pub open spec fn after_event(state: RoundView, event: EventView) -> (
    RoundView,
    Option<WatchedView>,
) {
    match event {
        EventView::Held(version, sight) => {
            let moved = RoundView {
                checkpoint: if version is Some {
                    version
                } else {
                    state.checkpoint
                },
                ..state
            };
            if sight.verdict == Verdict::Decided {
                (moved, Some(WatchedView::Decided(sight)))
            } else {
                (RoundView { seen: Some(sight), ..moved }, None)
            }
        },
        EventView::Deleted => (
            state,
            Some(WatchedView::Unfinished(Unfinished::TargetGone, state.seen)),
        ),
        EventView::Position(version) => (RoundView { checkpoint: Some(version), ..state }, None),
        EventView::Expired => (
            state,
            Some(WatchedView::Unfinished(Unfinished::WatchGap, state.seen)),
        ),
        EventView::Denied => (
            state,
            Some(
                WatchedView::Unfinished(
                    Unfinished::WatchUnavailable(Outcome::ReadDenied),
                    state.seen,
                ),
            ),
        ),
        EventView::Interrupted => (state, Some(WatchedView::Reopen(state.checkpoint, state.seen))),
    }
}

/// A text that may not be there, held a second time.
fn again(text: &Option<String>) -> (r: Option<String>)
    ensures
        text_view(r) == text_view(*text),
{
    match text {
        Some(text) => Some(text.clone()),
        None => None,
    }
}

impl Round {
    /// Begins to read a watch that was answered.
    ///
    /// # Errors
    ///
    /// Why it cannot be read, with nothing seen.
    pub fn open(status: u16, from: &Option<String>, last: Sight) -> (r: Result<Round, Watched>)
        ensures
            match r {
                Ok(round) => status_refuses(status as int) is None && round@ == (RoundView {
                    checkpoint: text_view(*from),
                    seen: None,
                    last,
                }),
                Err(watched) => status_refuses(status as int) is Some && watched@
                    == WatchedView::Unfinished(status_refuses(status as int)->Some_0, None),
            },
    {
        let reason: Unfinished = if status == 200 {
            return Ok(Round { checkpoint: again(from), seen: None, last });
        } else if status == 410 {
            Unfinished::WatchGap
        } else if status == 401 || status == 403 {
            Unfinished::WatchUnavailable(Outcome::ReadDenied)
        } else if status == 404 {
            Unfinished::WatchUnavailable(Outcome::TypeNotServed)
        } else {
            Unfinished::WatchUnavailable(Outcome::RequestFailed)
        };
        Err(Watched::Unfinished(reason, None))
    }

    /// How the end of the window ends the round, asked before each chunk.
    pub fn expired(&self, window_over: bool) -> (r: Option<Watched>)
        ensures
            round_view(r) == if window_over {
                Some(
                    WatchedView::Unfinished(ended_on(latest(self@.seen, self@.last)), self@.seen),
                )
            } else {
                None
            },
    {
        if !window_over {
            return None;
        }
        let last: Sight = match self.seen {
            Some(seen) => seen,
            None => self.last,
        };
        Some(Watched::Unfinished(window_ended(&last), self.seen))
    }

    /// How a chunk without events ends the round, where it does.
    pub fn chunk(&self, chunk: Chunk) -> (r: Option<Watched>)
        ensures
            round_view(r) == chunk_ends(self@, chunk),
    {
        match chunk {
            Chunk::Quiet => None,
            Chunk::Undecodable => Some(
                Watched::Unfinished(
                    Unfinished::PartialCoverage(Outcome::RequestFailed),
                    self.seen,
                ),
            ),
            Chunk::Ended | Chunk::Failed => Some(
                Watched::Reopen(again(&self.checkpoint), self.seen),
            ),
        }
    }

    /// Takes one event, and says how it ends the round, where it does.
    pub fn event(&mut self, event: Event) -> (r: Option<Watched>)
        ensures
            (final(self)@, round_view(r)) == after_event(old(self)@, event@),
    {
        match event {
            Event::Held(version, sight) => {
                if version.is_some() {
                    self.checkpoint = version;
                }
                if sight.verdict == Verdict::Decided {
                    return Some(Watched::Decided(sight));
                }
                self.seen = Some(sight);
                None
            },
            Event::Deleted => Some(Watched::Unfinished(Unfinished::TargetGone, self.seen)),
            Event::Position(version) => {
                self.checkpoint = Some(version);
                None
            },
            Event::Expired => Some(Watched::Unfinished(Unfinished::WatchGap, self.seen)),
            Event::Denied => Some(
                Watched::Unfinished(
                    Unfinished::WatchUnavailable(Outcome::ReadDenied),
                    self.seen,
                ),
            ),
            Event::Interrupted => Some(Watched::Reopen(again(&self.checkpoint), self.seen)),
        }
    }
}

// --- laws -----------------------------------------------------------------------------------------

/// Convergence is never made up: a verification is verified only by an observation that decided it.
pub proof fn only_an_observation_verifies(
    state: ConvergenceView,
    cancelled: bool,
    live: bool,
    look: Lookup,
    round: Option<WatchedView>,
    elapsed: int,
)
    ensures
        !(next_move(state, cancelled, elapsed) matches Move::Finish(Converged::Verified(_))),
        after_look(state, live, look, elapsed).1 matches Move::Finish(Converged::Verified(sight))
            ==> live && look == Lookup::Cached(sight) && sight.verdict == Verdict::Decided,
        after_round(state, round, cancelled).1 matches Move::Finish(Converged::Verified(sight))
            ==> round == Some(WatchedView::Decided(sight)),
{
}

/// A watch round decides only by an observation of the target that decided the rule; silence, a
/// gap, a broken frame and a vanished target decide nothing.
pub proof fn only_an_observation_decides(state: RoundView, event: EventView, chunk: Chunk)
    ensures
        !(chunk_ends(state, chunk) matches Some(WatchedView::Decided(_))),
        after_event(state, event).1 matches Some(WatchedView::Decided(sight)) ==> event
            matches EventView::Held(_, held) && held == sight && sight.verdict == Verdict::Decided,
{
}

/// Once the window has ended, the next question ends the verification, and in no verdict.
pub proof fn a_window_that_ended_ends(state: ConvergenceView, look: Lookup, elapsed: int)
    requires
        elapsed >= state.window,
    ensures
        state.asked == Asked::Watch ==> next_move(state, false, elapsed) == Move::Finish(
            Converged::Unfinished(ended_on(state.last), state.last),
        ),
        after_look(state, true, look, elapsed).1 is Finish,
{
}

/// An operator who stops the verification is answered that it was stopped, before anything more is
/// asked.
pub proof fn a_stopped_verification_is_cancelled(state: ConvergenceView, elapsed: int)
    ensures
        next_move(state, true, elapsed) == Move::Finish(Converged::Cancelled),
        after_round(state, None, true).1 == Move::Finish(Converged::Cancelled),
{
}

/// A version once reached is never lost: whatever a round sees, it goes on from a version it was
/// told or from the one it had, and so does the verification behind it.
pub proof fn a_checkpoint_is_never_lost(
    state: ConvergenceView,
    round: RoundView,
    event: EventView,
    watched: WatchedView,
)
    ensures
        round.checkpoint is Some ==> after_event(round, event).0.checkpoint is Some,
        state.from is Some ==> after_round(state, Some(watched), false).0.from is Some,
{
}

}
