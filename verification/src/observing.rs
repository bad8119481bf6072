//! What a live watch and every other stream of records promise to a reader.
//!
//! Each law here speaks of what a function was given and of what it returned.

use vstd::prelude::*;
use vstd::string::*;

use crate::asked::{a_member_is_the_first_of_its_name, gives, gives_no};
use crate::changes::{
    after_event, applied, change, closed, continuity, handling, observed_state, opening, reaction,
    refreshed, refused, resume, stamped, sync_word, view_word, watchable, Brought, Continuity,
    Emitter, Handling, Looking, Opening, Reaction, Reception, Resume, Step, Stream, SyncState,
    ViewState, Watched, Word,
};
use crate::discovery::{Resource, Verb};
use crate::emission::{after_delivery, Delivery, Emission, Invocation, Next};
use crate::failure::WireError;
use crate::json::JsonView;
use crate::objects::Guarded;
use crate::options::Options;
use crate::records::{Change, Freshness, Origin};
use crate::watching::{Event, Live, Moment, Point, Response, Stage};

verus! {

// --- what is told ---------------------------------------------------------------------------------

/// A watch emits at most as many records as were asked for, and any number where none was named; it
/// acquires state again unless that was refused; and it is stale after the time that was named.
pub proof fn a_watch_runs_as_it_was_asked_to(options: Options, asked: Watched)
    requires
        call_ensures(Watched::from_options, (&options,), asked),
    ensures
        forall|n: int|
            0 < n <= u64::MAX && n <= usize::MAX && #[trigger] gives(
                options@,
                "max_changes"@,
                JsonView::Integer(n),
            ) ==> asked.budget == Some(n as usize),
        gives_no(options@, "max_changes"@) || gives(
            options@,
            "max_changes"@,
            JsonView::Integer(0),
        ) ==> asked.budget is None,
        !asked.reacquire <==> gives(options@, "reacquire"@, JsonView::Bool(false)),
        forall|n: int|
            0 < n <= u64::MAX && #[trigger] gives(
                options@,
                "stale_after_ms"@,
                JsonView::Integer(n),
            ) ==> asked.stale_after == n,
        gives_no(options@, "stale_after_ms"@) ==> asked.stale_after == 30_000,
{
    a_member_is_the_first_of_its_name(options@, "max_changes"@);
    a_member_is_the_first_of_its_name(options@, "reacquire"@);
    a_member_is_the_first_of_its_name(options@, "stale_after_ms"@);
}

/// The word of what happened.
pub open spec fn happened(word: Word) -> Seq<char> {
    match word {
        Word::Listed => "listed"@,
        Word::Added => "added"@,
        Word::Modified => "modified"@,
        Word::Deleted => "deleted"@,
        Word::Gap => "gap"@,
        Word::Notice => "notice"@,
    }
}

/// A change says what happened, to what, and how continuous the observation is, as the stream
/// states
/// it; why it broke, and where, is told where the break is told and nowhere else.
pub proof fn a_change_says_what_the_stream_states(
    word: Word,
    resource: &str,
    scope: &str,
    stream: Option<Stream>,
    period: Continuity,
    view: Looking,
    object: Option<Guarded>,
    told: Change,
)
    requires
        call_ensures(continuity, (&stream,), period),
        call_ensures(change, (word, resource, scope, period, view, object), told),
    ensures
        told.class@ == happened(word),
        told.resource@ == resource@,
        told.scope@ == scope@,
        told.withheld == view.withheld,
        told.object == object,
        stream matches Some(held) ==> {
            &&& told.segment == held.segments
            &&& told.continuous == held.gap_free
            &&& word == Word::Gap ==> match held.gap {
                Some((reason, detail)) => {
                    &&& told.gap_reason matches Some(text) && text@ == reason@
                    &&& told.gap_detail matches Some(text) && text@ == detail@
                },
                None => told.gap_reason is None && told.gap_detail is None,
            }
        },
        stream is None ==> told.segment == 0 && !told.continuous,
        word != Word::Gap ==> told.gap_reason is None && told.gap_detail is None,
        told.sync_state@ == match stream {
            None => "syncing"@,
            Some(held) => match held.state {
                SyncState::Syncing => "syncing"@,
                SyncState::Live => "live"@,
                SyncState::Reconnecting => "reconnecting"@,
                SyncState::GapDetected => "gap detected"@,
                SyncState::Denied => "denied"@,
            },
        },
        told.view_state@ == match view.state {
            ViewState::Syncing => "syncing"@,
            ViewState::Live => "live"@,
            ViewState::Reconnecting => "reconnecting"@,
            ViewState::GapDetected => "gap detected"@,
            ViewState::Stale => "stale"@,
            ViewState::Denied => "denied"@,
        },
{
}

/// The words of the states are the words a change says them in.
pub proof fn states_are_said_alike(
    sync: SyncState,
    shown: ViewState,
    sync_said: &'static str,
    view_said: &'static str,
)
    requires
        call_ensures(sync_word, (sync,), sync_said),
        call_ensures(view_word, (shown,), view_said),
    ensures
        sync == SyncState::Live <==> sync_said@ == "live"@,
        shown == ViewState::Live <==> view_said@ == "live"@,
        shown == ViewState::Stale <==> view_said@ == "stale"@,
        sync == SyncState::GapDetected <==> sync_said@ == "gap detected"@,
        shown == ViewState::GapDetected <==> view_said@ == "gap detected"@,
        sync == SyncState::Denied <==> sync_said@ == "denied"@,
        shown == ViewState::Denied <==> view_said@ == "denied"@,
        sync == SyncState::Syncing <==> sync_said@ == "syncing"@,
        shown == ViewState::Syncing <==> view_said@ == "syncing"@,
        sync == SyncState::Reconnecting <==> sync_said@ == "reconnecting"@,
        shown == ViewState::Reconnecting <==> view_said@ == "reconnecting"@,
{
    reveal_strlit("live");
    reveal_strlit("stale");
    reveal_strlit("gap detected");
    reveal_strlit("denied");
    reveal_strlit("syncing");
    reveal_strlit("reconnecting");
    assert("live"@.len() == 4 && "stale"@.len() == 5 && "denied"@.len() == 6 && "syncing"@.len()
        == 7 && "gap detected"@.len() == 12 && "reconnecting"@.len() == 12);
    assert("gap detected"@[0] == 'g' && "reconnecting"@[0] == 'r');
}

/// What was listed was read; everything after it arrived because the server pushed it. Nothing else
/// about the read is changed by saying so.
pub proof fn only_a_listing_was_read(word: Word, read: Freshness, stated: Freshness)
    requires
        call_ensures(stamped, (word, read), stated),
    ensures
        word == Word::Listed ==> stated == read,
        word != Word::Listed ==> stated.origin == Origin::WatchEvent,
        stated.provider_instance == read.provider_instance,
        stated.scope == read.scope,
        stated.endpoint == read.endpoint,
        stated.resource_version == read.resource_version,
        stated.observed_at == read.observed_at,
{
}

/// A view that was never opened is syncing and withholds nothing, and one without a stream is
/// syncing whatever it was; otherwise a view is what it is.
pub proof fn a_view_is_what_it_is(
    view: Option<Looking>,
    looking: Looking,
    held: Option<ViewState>,
    streaming: bool,
    state: ViewState,
)
    requires
        call_ensures(refreshed, (view,), looking),
        call_ensures(observed_state, (held, streaming), state),
    ensures
        view matches Some(known) ==> looking == known,
        view is None ==> looking.state == ViewState::Syncing && looking.withheld == 0,
        streaming && held is Some ==> held == Some(state),
        !streaming || held is None ==> state == ViewState::Syncing,
{
}

/// A collection is watched exactly where the server offers that.
pub proof fn only_what_is_offered_is_watched(resource: Resource, said: Result<(), WireError>)
    requires
        call_ensures(watchable, (&resource,), said),
    ensures
        said is Ok <==> resource.verbs@.contains(Verb::Watch),
        said is Err ==> said->Err_0.name@ == "provider.unsupported"@,
{
}

// --- one response ---------------------------------------------------------------------------------

/// A watch is read where the server opened it, is a break where its history was discarded, is a
/// denial where it was refused, and is a failure anywhere else.
pub proof fn a_watch_opens_by_its_status(
    gvr: &str,
    status: u16,
    opened: Result<Opening, WireError>,
)
    requires
        call_ensures(opening, (gvr, status), opened),
    ensures
        status == 200 ==> opened == Ok::<Opening, WireError>(Opening::Open),
        status == 410 ==> opened == Ok::<Opening, WireError>(Opening::Expired),
        status == 403 ==> opened == Ok::<Opening, WireError>(Opening::Denied),
        status != 200 && status != 410 && status != 403 ==> opened is Err,
        opened is Err ==> opened->Err_0.name@ == "provider.unavailable"@,
{
}

/// An event that changed the cache is told by its own word; one that did not is not told, and keeps
/// the view alive; a break is told as a break; and the end of a body is told as nothing.
pub proof fn an_event_is_told_by_its_word(class: &str, reception: Reception, told: Reaction)
    requires
        call_ensures(reaction, (class, reception), told),
    ensures
        reception == Reception::Applied && class@ == "ADDED"@ ==> told == Reaction::Tell(
            Word::Added,
        ),
        reception == Reception::Applied && class@ == "MODIFIED"@ ==> told == Reaction::Tell(
            Word::Modified,
        ),
        reception == Reception::Applied && class@ == "DELETED"@ ==> told == Reaction::Tell(
            Word::Deleted,
        ),
        reception == Reception::Applied ==> told is Tell,
        reception == Reception::Checkpointed || reception == Reception::Discarded ==> told
            == Reaction::Refresh,
        reception == Reception::Suspended ==> told == Reaction::Silent,
        reception == Reception::ContinuityBroken ==> told == Reaction::TellGap,
{
    reveal_strlit("ADDED");
    reveal_strlit("MODIFIED");
    reveal_strlit("DELETED");
    assert("ADDED"@.len() == 5 && "MODIFIED"@.len() == 8 && "DELETED"@.len() == 7);
}

/// A record that stopped the invocation stops it; after a break, and at the end of a body, nothing
/// more of that body is read; and what told nothing new is read on from.
pub proof fn reading_goes_on_where_nothing_ended(
    told: Reaction,
    delivered: Step,
    step: Step,
    finishing: bool,
    ends: Option<Step>,
    closing: Step,
)
    requires
        call_ensures(applied, (told, delivered), step),
        call_ensures(after_event, (step, finishing), ends),
        call_ensures(closed, (step,), closing),
    ensures
        told is Tell ==> step@ == delivered@,
        told is Refresh ==> step is Reading && ends is None,
        told is Silent ==> step is Ended,
        told is TellGap && delivered is Stopped ==> step@ == delivered@,
        told is TellGap && !(delivered is Stopped) ==> step is Ended,
        step is Reading ==> ends is None,
        step is Ended ==> (ends is None <==> finishing),
        step is Stopped ==> ends is Some && ends->0@ == step@,
        step is Stopped ==> closing@ == step@,
        !(step is Stopped) ==> closing is Ended,
{
}

/// What a read brought decides what is done with it: events are applied, a frame that does not read
/// and a body that broke are one interruption, silence ends nothing, and only the operator cancels.
pub proof fn what_a_read_brings_is_handled(brought: Brought, cancelled: bool, done: Handling)
    requires
        call_ensures(handling, (brought, cancelled), done),
    ensures
        brought == Brought::Nothing ==> done == Handling::Finish,
        brought == Brought::Events ==> done == Handling::Apply,
        brought == Brought::Unreadable ==> done == Handling::Interrupt,
        brought == Brought::Quiet ==> done == Handling::Again,
        brought == Brought::Broken && cancelled ==> done == Handling::Cancelled,
        brought == Brought::Broken && !cancelled ==> done == Handling::Interrupt,
{
}

/// A failure that the operator caused is a cancellation, and any other is itself.
pub proof fn a_failure_is_told_as_itself(cancelled: bool, error: WireError, ended: Invocation)
    requires
        call_ensures(refused, (cancelled, error), ended),
    ensures
        cancelled ==> ended is Cancelled,
        !cancelled ==> (ended matches Invocation::Failed(told) && told@ == error@),
{
}

/// A watch that is still live goes on, one whose position holds is reconnected, one whose position
/// is void is listed again where that was not refused, and anything else is over.
pub proof fn a_watch_resumes_by_its_state(state: SyncState, reacquire: bool, next: Resume)
    requires
        call_ensures(resume, (state, reacquire), next),
    ensures
        state == SyncState::Live ==> next == Resume::GoOn,
        state == SyncState::Reconnecting ==> next == Resume::Reconnect,
        state == SyncState::GapDetected && reacquire ==> next == Resume::Relist,
        state == SyncState::GapDetected && !reacquire ==> next == Resume::Complete,
        state == SyncState::Denied || state == SyncState::Syncing ==> next == Resume::Complete,
{
}

// --- records handed over --------------------------------------------------------------------------

/// Only a record that the host did not take ends an invocation, and it ends it as what happened:
/// a cancellation where the operator stopped it, and a failure anywhere else.
pub proof fn a_record_that_is_taken_ends_nothing(
    delivery: Delivery,
    schema: &str,
    ended: Option<Invocation>,
)
    requires
        call_ensures(after_delivery, (&delivery, schema), ended),
    ensures
        delivery is Taken <==> ended is None,
        delivery is Cancelled ==> (ended matches Some(Invocation::Cancelled)),
        delivery is Refused || delivery is Unguarded || delivery is Unbuilt ==> (ended matches Some(
            Invocation::Failed(_),
        )),
{
}

/// Every record that is taken is counted, and a watch with a budget is over, and complete, exactly
/// when it is used up.
pub proof fn a_budget_is_counted_in_records(
    emitter: &mut Emitter,
    delivery: Delivery,
    schema: &str,
    step: Step,
)
    requires
        call_ensures(Emitter::deliver, (emitter, &delivery, schema), step),
    ensures
        final(emitter).budget == old(emitter).budget,
        delivery is Taken ==> {
            &&& final(emitter).emitted == old(emitter).emitted + 1
            &&& old(emitter).budget matches Some(budget) ==> if old(emitter).emitted + 1 < budget {
                step is Reading
            } else {
                step matches Step::Stopped(Invocation::Completed)
            }
            &&& old(emitter).budget is None ==> step is Reading
        },
        !(delivery is Taken) ==> final(emitter).emitted == old(emitter).emitted && step is Stopped,
        delivery is Cancelled ==> (step matches Step::Stopped(Invocation::Cancelled)),
{
}

/// A stream of records hands over each that is left, stops where the operator stopped it, and ends
/// as it was going to where nothing is left.
pub proof fn a_stream_hands_over_what_is_left(emission: Emission, cancelled: bool, next: Next)
    requires
        call_ensures(Emission::next, (&emission, cancelled), next),
    ensures
        emission.left > 0 && !cancelled ==> next is Deliver,
        emission.left > 0 && cancelled ==> (next matches Next::Stop(Invocation::Cancelled)),
        emission.left == 0 ==> (next matches Next::Stop(ended) && ended@ == emission.ending@),
{
}

/// Each record handed over leaves one less, and changes nothing about how the stream will end.
pub proof fn a_record_handed_over_is_one_less(
    emission: &mut Emission,
    delivery: Delivery,
    schema: &str,
    ended: Option<Invocation>,
)
    requires
        call_ensures(Emission::delivered, (emission, &delivery, schema), ended),
    ensures
        final(emission).left == old(emission).left - 1,
        final(emission).ending@ == old(emission).ending@,
        delivery is Taken <==> ended is None,
        delivery is Cancelled ==> (ended matches Some(Invocation::Cancelled)),
{
}

// --- the turns of a live watch --------------------------------------------------------------------

/// A live watch whose first listing may stand begins by telling it, and one whose listing may not
/// is over and failed. Nothing has been told yet.
pub proof fn a_live_watch_begins_with_its_listing(
    listing: Result<(), String>,
    budget: Option<usize>,
    reacquire: bool,
    live: Live,
)
    requires
        call_ensures(Live::new, (listing, budget, reacquire), live),
    ensures
        listing is Ok ==> (live.stage matches Stage::Listing { first } && first),
        listing is Err ==> (live.stage matches Stage::Over(Invocation::Failed(_))),
        live.emitter.budget == budget,
        live.emitter.emitted == 0,
        live.reacquire == reacquire,
        live.announced == ViewState::Syncing,
{
}

/// A live watch moves on as its last moment says: it lists, turns, watches, and by the state of the
/// stream goes on, reconnects, lists again or ends; what stopped stays stopped as it was stopped.
pub proof fn a_live_watch_turns(live: &mut Live, moment: Moment)
    requires
        call_ensures(Live::advance, (live, moment), ()),
    ensures
        old(live).stage is Listing && (moment matches Moment::Listed(step, now) && !(step
            is Stopped)) ==> {
            &&& old(live).stage->first ==> final(live).stage is Turning && final(live).announced
                == moment->Listed_1
            &&& !old(live).stage->first ==> final(live).stage is Settling
        },
        old(live).stage is Listing && (moment matches Moment::Listed(Step::Stopped(ended), _))
            ==> (final(live).stage matches Stage::Over(told) && told@
            == moment->Listed_0->Stopped_0@),
        old(live).stage is Turning && moment == Moment::Turn(true) ==> (final(live).stage
            matches Stage::Over(Invocation::Cancelled)),
        old(live).stage is Turning && moment == Moment::Turn(false) ==> final(live).stage is Watching,
        old(live).stage is Watching && (moment matches Moment::Watched(
            Ok(step),
            cancelled,
            state,
        ) && !(step is Stopped)) ==> match moment->Watched_2 {
            SyncState::Live => final(live).stage is Settling,
            SyncState::Reconnecting => final(live).stage is Reconnecting,
            SyncState::GapDetected => if old(live).reacquire {
                final(live).stage is Relisting
            } else {
                final(live).stage matches Stage::Over(Invocation::Completed)
            },
            _ => final(live).stage matches Stage::Over(Invocation::Completed),
        },
        old(live).stage is Watching && (moment matches Moment::Watched(
            Ok(Step::Stopped(ended)),
            cancelled,
            state,
        )) ==> (final(live).stage matches Stage::Over(told) && told@
            == moment->Watched_0->Ok_0->Stopped_0@),
        old(live).stage is Watching && (moment matches Moment::Watched(Err(error), cancelled, state))
            ==> if moment->Watched_1 {
            final(live).stage matches Stage::Over(Invocation::Cancelled)
        } else {
            final(live).stage matches Stage::Over(Invocation::Failed(_))
        },
        old(live).stage is Reconnecting && moment == Moment::Reconnected(true)
            ==> final(live).stage is Settling,
        old(live).stage is Reconnecting && moment == Moment::Reconnected(false)
            ==> (final(live).stage matches Stage::Over(Invocation::Completed)),
        old(live).stage is Relisting && (moment matches Moment::Relisted(Ok(Ok(_)), cancelled))
            ==> (final(live).stage matches Stage::Listing { first } && !first),
        old(live).stage is Relisting && (moment matches Moment::Relisted(Ok(Err(_)), cancelled))
            ==> (final(live).stage matches Stage::Over(Invocation::Failed(_))),
        old(live).stage is Settling && (moment matches Moment::Settled(now)) ==> {
            &&& moment->Settled_0 != old(live).announced ==> final(live).stage is Noticing
            &&& moment->Settled_0 == old(live).announced ==> final(live).stage is Resting
            &&& final(live).announced == moment->Settled_0
        },
        old(live).stage is Noticing && (moment matches Moment::Noticed(step) && !(step is Stopped))
            ==> final(live).stage is Resting,
        old(live).stage is Resting && (moment matches Moment::Rested(now)) ==> final(live).stage
            is Turning,
        old(live).stage is Over ==> final(live).stage@ == old(live).stage@,
        final(live).emitter.budget == old(live).emitter.budget,
        final(live).emitter.emitted == old(live).emitter.emitted,
        final(live).reacquire == old(live).reacquire,
{
    assert(old(live)@.stage == old(live).stage@);
    assert(final(live)@.stage == final(live).stage@);
}

/// A response is read from where the server opened it; where it did not, its status is the one
/// event
/// there is.
pub proof fn a_response_begins_as_it_was_opened(
    opening: Opening,
    now: ViewState,
    response: Response,
)
    requires
        call_ensures(Response::new, (opening, now), response),
    ensures
        opening == Opening::Open ==> response.point is Between,
        opening != Opening::Open ==> response.point is Opening,
        response.announced == now,
{
}

/// A response moves on as its last event says: between two reads the operator comes first and a
/// view
/// that moved is told; each event that was read is applied in turn; and what stopped stays stopped.
pub proof fn a_response_moves_on(response: &mut Response, event: Event)
    requires
        call_ensures(Response::advance, (response, event), ()),
    ensures
        old(response).point is Between && (event matches Event::Paused(cancelled, now)) ==> {
            &&& event->Paused_0 ==> (final(response).point matches Point::Over(
                Step::Stopped(Invocation::Cancelled),
            ))
            &&& !event->Paused_0 && event->Paused_1 != old(response).announced
                ==> final(response).point is Noticing
            &&& !event->Paused_0 && event->Paused_1 == old(response).announced
                ==> final(response).point is Reading
        },
        old(response).point is Noticing && (event matches Event::Noticed(step) && !(step
            is Stopped)) ==> final(response).point is Reading,
        old(response).point is Reading && (event matches Event::Read(
            brought,
            events,
            cancelled,
            now,
        )) ==> match event->Read_0 {
            Brought::Nothing => final(response).point is Finishing,
            Brought::Quiet => final(response).point is Between,
            Brought::Events => if event->Read_1 == 0 {
                final(response).point is Between
            } else {
                final(response).point matches Point::Applying { left } && left == event->Read_1
            },
            Brought::Unreadable => final(response).point matches Point::Applying { left } && left
                == 1,
            Brought::Broken => if event->Read_2 {
                final(response).point matches Point::Over(Step::Stopped(Invocation::Cancelled))
            } else {
                final(response).point matches Point::Applying { left } && left == 1
            },
        },
        old(response).point is Applying && (event matches Event::Applied(Step::Reading, now)) ==> if
            old(response).point->Applying_left > 1 {
            final(response).point matches Point::Applying { left } && left
                == old(response).point->Applying_left - 1
        } else {
            final(response).point is Between
        },
        old(response).point is Applying && (event matches Event::Applied(Step::Ended, now))
            ==> (final(response).point matches Point::Over(Step::Ended)),
        old(response).point is Finishing && (event matches Event::Finished(events)) ==> if
            event->Finished_0 == 0 {
            final(response).point matches Point::Over(Step::Ended)
        } else {
            final(response).point matches Point::Draining { left } && left == event->Finished_0
        },
        old(response).point is Over ==> final(response).point@ == old(response).point@,
{
    assert(old(response)@.point == old(response).point@);
    assert(final(response)@.point == final(response).point@);
}

/// A live watch counts what it hands over as every stream does, pauses where a turn told nothing,
/// and
/// starts from nothing.
pub proof fn a_live_watch_counts_what_it_tells(
    live: &mut Live,
    delivery: Delivery,
    schema: &str,
    step: Step,
    turned: Live,
    pauses: bool,
    budget: Option<usize>,
    fresh: Emitter,
)
    requires
        call_ensures(Live::deliver, (live, &delivery, schema), step),
        call_ensures(Live::pauses, (&turned,), pauses),
        call_ensures(Emitter::new, (budget,), fresh),
    ensures
        delivery is Taken ==> final(live).emitter.emitted == old(live).emitter.emitted + 1,
        !(delivery is Taken) ==> final(live).emitter.emitted == old(live).emitter.emitted && step
            is Stopped,
        delivery is Taken && (old(live).emitter.budget is None || old(live).emitter.emitted + 1
            < old(live).emitter.budget->0) ==> step is Reading,
        final(live).stage@ == old(live).stage@,
        final(live).reacquire == old(live).reacquire,
        final(live).announced == old(live).announced,
        pauses <==> turned.emitter.emitted <= turned.before,
        fresh.budget == budget,
        fresh.emitted == 0,
{
    assert(final(live)@.emitted == final(live).emitter.emitted);
    assert(old(live)@.emitted == old(live).emitter.emitted);
    assert(final(live)@.stage == old(live)@.stage);
    assert(final(live)@.announced == old(live)@.announced);
}

/// What a turn told a reader is what the view was announced as last: a turn begins by counting from
/// what was emitted, a turn that emitted leaves the view announced as it is now, and one that did
/// not
/// leaves it as it was.
pub proof fn a_view_is_announced_as_it_was_told(live: &mut Live, moment: Moment)
    requires
        call_ensures(Live::advance, (live, moment), ()),
    ensures
        old(live).stage is Turning && moment == Moment::Turn(false) ==> final(live).before
            == old(live).emitter.emitted,
        old(live).stage is Resting && moment is Rested ==> final(live).announced == if old(
            live,
        ).emitter.emitted > old(live).before {
            moment->Rested_0
        } else {
            old(live).announced
        },
        !(old(live).stage is Listing) && !(old(live).stage is Settling) && !(old(live).stage
            is Resting) ==> final(live).announced == old(live).announced,
        !(old(live).stage is Turning) ==> final(live).before == old(live).before,
{
    assert(final(live)@.before == final(live).before);
    assert(final(live)@.announced == final(live).announced);
    assert(old(live)@.before == old(live).before);
}

/// Between two reads a view that moved is announced as it is; the last of the events of a read
/// leaves
/// it announced as it is then; what the decoder still held is applied one by one until it is over.
pub proof fn a_response_announces_and_drains(response: &mut Response, event: Event)
    requires
        call_ensures(Response::advance, (response, event), ()),
    ensures
        old(response).point is Between && (event matches Event::Paused(cancelled, now)
            && !cancelled && now != old(response).announced) ==> final(response).announced
            == event->Paused_1,
        old(response).point is Applying && old(response).point->Applying_left <= 1 && event
            is Applied && event->Applied_0 is Reading ==> final(response).announced
            == event->Applied_1,
        old(response).point is Draining && event is Applied && !(event->Applied_0 is Stopped) ==> if old(
            response,
        ).point->Draining_left > 1 {
            final(response).point is Draining && final(response).point->Draining_left == old(
                response,
            ).point->Draining_left - 1
        } else {
            final(response).point is Over && final(response).point->Over_0 is Ended
        },
        (old(response).point is Applying || old(response).point is Draining) && event is Applied
            && event->Applied_0 is Stopped ==> final(response).point is Over
            && final(response).point->Over_0@ == event->Applied_0@,
        old(response).point is Opening && event is Applied ==> final(response).point is Over && (
        event->Applied_0 is Stopped ==> final(response).point->Over_0@ == event->Applied_0@) && (!(
        event->Applied_0 is Stopped) ==> final(response).point->Over_0 is Ended),
{
    assert(final(response)@.announced == final(response).announced);
    assert(final(response)@.point == final(response).point@);
    assert(old(response)@.point == old(response).point@);
}

/// A read that overlapped another is this package's own defect, and ends the watch as that.
pub proof fn an_overlap_is_a_defect(emitter: Emitter, step: Step)
    requires
        call_ensures(Emitter::overlapped, (&emitter,), step),
    ensures
        step is Stopped,
        step->Stopped_0 is Failed,
        step->Stopped_0->Failed_0.name@ == "runtime.trap"@,
{
    assert(step@ is Stopped);
}

/// A watch lists five hundred objects at a time and holds two thousand; it is opened again after a
/// twentieth of a second at the soonest and a second at the latest.
pub proof fn a_watch_keeps_within_its_bounds()
    ensures
        crate::changes::PAGE_SIZE == 500,
        crate::changes::VIEW_CAPACITY == 2_000,
        crate::changes::RECONNECT_FLOOR_MILLIS == 50,
        crate::changes::RECONNECT_CEILING_MILLIS == 1_000,
        crate::events::PAGE_SIZE == 500,
        crate::query::PAGE_SIZE == 500,
        crate::planning::INVENTORY_PAGE == 500,
        crate::broker::CHUNKS_PER_READ == 16,
        crate::converging::CACHE_POLL_MILLIS == 100,
        crate::contributions::CONCURRENT_INVOCATIONS == 3,
{
}

}
