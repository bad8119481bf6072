//! What making a change promises: how it is made, what is said of it, and when it counts as proven.
//!
//! Each law here speaks of what a function was given and of what it returned.

use vstd::prelude::*;
use vstd::string::*;

use crate::asked::{a_member_is_the_first_of_its_name, gives};
use crate::converging::{
    absence_seen, first_window, looked, verification_window, watchable, window_ended, Asked, Chunk,
    Converged, Convergence, Event, Looked, Lookup, Move, Round, Rule, Sight, Stage, Unfinished,
    Verdict, Watched,
};
use crate::coverage::Outcome;
use crate::digits::natural_number;
use crate::failure::WireError;
use crate::json::JsonView;
use crate::mutations::{
    acceptance, acceptance_recorded, invalidates, place_recorded, refuse_a_denied_change, statement,
    Acceptance, How, Made,
};
use crate::options::Options;
use crate::text::{joined, text_view};

verus! {

// --- how a change is made -------------------------------------------------------------------------

/// A change is written only where that was asked for in so many words; it is made under the manager
/// that was named, or under this package's own name; and it is forced only for the reason given.
pub proof fn a_change_is_made_as_asked(
    options: Options,
    named: Option<Result<String, String>>,
    read: Result<How, WireError>,
)
    requires
        call_ensures(How::read, (&options, named), read),
    ensures
        named matches Some(Err(_)) <==> read is Err,
        read is Err ==> read->Err_0.name@ == "contribution.refused"@,
        read matches Ok(how) ==> {
            &&& !how.dry_run <==> gives(options@, "dry_run"@, JsonView::Bool(false))
            &&& match named {
                Some(Ok(name)) => how.manager@ == name@,
                _ => how.manager@ == "ono-sendai"@,
            }
            &&& match how.force_because {
                Some(reason) => gives(options@, "force_because"@, JsonView::Text(reason@))
                    && crate::mutations::says_something(reason@),
                None => forall|reason: Seq<char>| #[trigger]
                    gives(options@, "force_because"@, JsonView::Text(reason))
                        ==> !crate::mutations::says_something(reason),
            }
        },
{
    a_member_is_the_first_of_its_name(options@, "dry_run"@);
    a_member_is_the_first_of_its_name(options@, "force_because"@);
}

/// An apply is made exactly as it was asked for; a deletion keeps whether it is a prediction, and
/// owns and forces nothing.
pub proof fn a_deletion_owns_nothing(how: How, apply: How, delete: How)
    requires
        call_ensures(How::apply_options, (&how,), apply),
        call_ensures(How::delete_options, (&how,), delete),
    ensures
        apply.dry_run == how.dry_run,
        apply.manager@ == how.manager@,
        text_view(apply.force_because) == text_view(how.force_because),
        delete.dry_run == how.dry_run,
        delete.force_because is None,
        delete.manager@ == "ono-sendai"@,
{
}

/// The manager asked for is the text given under its name.
pub proof fn the_manager_asked_for_is_the_one_given(options: Options, asked: Option<&str>)
    requires
        call_ensures(How::asked_manager, (&options,), asked),
    ensures
        asked matches Some(name) ==> gives(options@, "field_manager"@, JsonView::Text(name@)),
        asked is None ==> forall|name: Seq<char>|
            !#[trigger] gives(options@, "field_manager"@, JsonView::Text(name)),
{
    a_member_is_the_first_of_its_name(options@, "field_manager"@);
}

/// A change is sent exactly where the server's own check did not deny it.
pub proof fn only_a_denial_refuses_a_change(
    denied: Option<String>,
    verb: &str,
    target: &str,
    said: Result<(), WireError>,
)
    requires
        call_ensures(refuse_a_denied_change, (&denied, verb, target), said),
    ensures
        said is Ok <==> denied is None,
        said is Err ==> said->Err_0.name@ == "contribution.refused"@,
{
}

/// What came back is said in its own word; only what was written makes a session forget; and a
/// place
/// is a namespace, or the cluster where there is none.
pub proof fn what_came_back_is_said_in_its_word(
    accepted: Acceptance,
    word: &'static str,
    recorded: String,
    forgets: bool,
    namespace: Option<String>,
    place: String,
)
    requires
        call_ensures(acceptance, (&accepted,), word),
        call_ensures(acceptance_recorded, (&accepted,), recorded),
        call_ensures(invalidates, (&accepted,), forgets),
        call_ensures(place_recorded, (&namespace,), place),
    ensures
        match accepted {
            Acceptance::Persisted => word@ == "persisted"@ && recorded@ == "persisted"@,
            Acceptance::DryRun => word@ == "dry run"@ && recorded@ == "dry run"@,
            Acceptance::Conflict => word@ == "conflict"@ && recorded@ == "conflict"@,
            Acceptance::PreconditionFailed => word@ == "precondition failed"@ && recorded@
                == "precondition failed"@,
            Acceptance::Refused(reason) => word@ == "refused"@ && recorded@ == "refused: "@
                + reason@,
        },
        forgets <==> accepted is Persisted,
        match namespace {
            Some(name) => place@ == name@,
            None => place@ == "cluster"@,
        },
{
}

/// Everything an attempt amounts to is said, in order: what came back, where a deletion leaves the
/// object, what a later look established or that there was none to make, and what was forgotten.
pub proof fn an_attempt_is_told_whole(made: Made, told: String, parts: Seq<Seq<char>>)
    requires
        call_ensures(statement, (&made,), told),
        parts == crate::mutations::sentences(made),
    ensures
        told@ == joined(parts, "; "@),
        parts.len() >= 2,
        parts[0] == made.outcome@,
        made.deletion matches Some(deletion) ==> parts[1] == deletion.description@,
        made.verification matches Some(verification) ==> parts[if made.deletion is Some {
            2int
        } else {
            1
        }] == verification.description@,
        made.invalidated matches Some(forgotten) ==> parts.contains(forgotten@),
        made.rule != Rule::NoneKnown && made.invalidated is None ==> parts.len() == if made.deletion
            is Some {
            3int
        } else {
            2
        },
{
    let one = seq![made.outcome@] + crate::mutations::deletion_said(made);
    let two = one + crate::mutations::verification_said(made);
    let three = two + crate::mutations::invalidation_said(made);
    assert(parts == three + crate::mutations::rule_said(made));
    assert(parts[0] == one[0]);
    if made.deletion is Some {
        assert(parts[1] == one[1]);
        assert(parts[2] == two[2]);
    } else {
        assert(parts[1] == two[1]);
    }
    if made.invalidated is Some {
        assert(parts[two.len() as int] == made.invalidated->0@);
    }
}

// --- when it counts as proven ---------------------------------------------------------------------

/// A process waits as long as its environment says, where that is a number, and a minute otherwise;
/// a
/// rule that no watch can prove is given no time at all.
pub proof fn a_change_is_given_its_window(
    variable: Option<String>,
    window: u64,
    rule: Rule,
    watched: bool,
    first: u64,
)
    requires
        call_ensures(verification_window, (&variable,), window),
        call_ensures(watchable, (rule,), watched),
        call_ensures(first_window, (rule, window), first),
    ensures
        variable matches Some(text) ==> match natural_number(text@) {
            Some(n) => if n <= u64::MAX {
                window == n
            } else {
                window == 60_000
            },
            None => window == 60_000,
        },
        variable is None ==> window == 60_000,
        watched <==> rule == Rule::Shown,
        watched ==> first == window,
        !watched ==> first == 0,
{
}

/// A look is made only where the answer asks for one; it sees the object, that it is absent, or why
/// nobody could look, and never takes one for another.
pub proof fn a_look_sees_what_was_read(
    wanted: bool,
    read: Result<(), Outcome>,
    seen: Option<Looked>,
    missing: Option<Outcome>,
)
    requires
        call_ensures(looked, (wanted, read), seen),
        seen matches Some(look) ==> call_ensures(absence_seen, (look,), missing),
    ensures
        seen is Some <==> wanted,
        wanted && read is Ok ==> seen == Some(Looked::Object) && missing is None,
        wanted && read == Err::<(), Outcome>(Outcome::Absent) ==> seen == Some(Looked::Absent)
            && missing == Some(Outcome::Absent),
        wanted && read is Err && read->Err_0 != Outcome::Absent ==> seen == Some(
            Looked::Unobservable(read->Err_0),
        ) && missing == Some(read->Err_0),
{
}

/// A window that ended is told by how far the change had come: not at all, not as far as its
/// controller, or as far as conditions that decided nothing.
pub proof fn a_window_ends_on_what_was_reached(last: Sight, reason: Unfinished)
    requires
        call_ensures(window_ended, (&last,), reason),
    ensures
        last.reached is None ==> reason == Unfinished::WindowExpired,
        last.reached == Some(Stage::ApiAccepted) || last.reached == Some(Stage::SpecObserved)
            ==> reason == Unfinished::GenerationNotObserved,
        last.reached == Some(Stage::Further) ==> reason == Unfinished::ConditionsInconclusive,
{
}

/// There is something to wait for exactly where a change was looked at, is not decided and can be
/// shown by a watch; then it is waited for from that look, that version and in that window.
pub proof fn a_change_is_waited_for_where_it_can_be_shown(
    first: Option<Sight>,
    rule: Rule,
    from: Option<String>,
    window: u64,
    begun: Option<Convergence>,
)
    requires
        call_ensures(Convergence::begin, (first, rule, from, window), begun),
    ensures
        begun is Some <==> rule == Rule::Shown && first is Some && first->0.verdict
            == Verdict::Pending,
        begun matches Some(state) ==> {
            &&& state.asked == Asked::Cache
            &&& first == Some(state.last)
            &&& text_view(state.from) == text_view(from)
            &&& state.window == window
        },
{
}

/// Before anything is asked the operator comes first; then the session's own watch is asked, and
/// behind it one of this invocation's own while the window lasts.
pub proof fn the_operator_comes_first(
    state: Convergence,
    cancelled: bool,
    elapsed: u64,
    next: Move,
)
    requires
        call_ensures(Convergence::next, (&state, cancelled, elapsed), next),
    ensures
        cancelled ==> next == Move::Finish(Converged::Cancelled),
        !cancelled && state.asked == Asked::Cache ==> next == Move::LookInCache,
        !cancelled && state.asked == Asked::Watch && elapsed < state.window ==> next
            == Move::OpenWatch,
        !cancelled && state.asked == Asked::Watch && elapsed >= state.window ==> (next
            matches Move::Finish(Converged::Unfinished(_, last)) && last == state.last),
{
}

/// A look into the session's own watch proves a change only by a sight that decided it, loses it
/// where the object is gone, and otherwise waits while the window lasts, from what it last saw.
pub proof fn a_look_into_the_cache_decides_or_waits(
    state: &mut Convergence,
    live: bool,
    look: Lookup,
    elapsed: u64,
    next: Move,
)
    requires
        call_ensures(Convergence::looked, (state, live, look, elapsed), next),
    ensures
        !live ==> next == Move::Again && final(state).asked == Asked::Watch && final(state).last
            == old(state).last,
        live && look is ConfirmedAbsent ==> next == Move::Finish(
            Converged::Unfinished(Unfinished::TargetGone, old(state).last),
        ),
        live && look is Cached && look->Cached_0.verdict == Verdict::Decided ==> next
            == Move::Finish(Converged::Verified(look->Cached_0)),
        live && look is Cached && look->Cached_0.verdict != Verdict::Decided ==> final(state).last
            == look->Cached_0,
        live && look is NotYet ==> final(state).last == old(state).last,
        live && (look is NotYet || (look is Cached && look->Cached_0.verdict != Verdict::Decided))
            ==> if elapsed < old(state).window {
            next == Move::Wait
        } else {
            next is Finish && next->Finish_0 is Unfinished
        },
        final(state).window == old(state).window,
        text_view(final(state).from) == text_view(old(state).from),
{
    assert(old(state)@.window == old(state).window);
    assert(final(state)@.window == final(state).window);
    assert(final(state)@.last == final(state).last);
    assert(final(state)@.asked == final(state).asked);
}

/// A round of a watch proves a change by the sight that decided it, ends it for the reason it could
/// not go on, or is made again from the version it reached.
pub proof fn a_round_decides_or_is_made_again(
    state: &mut Convergence,
    round: Option<Watched>,
    cancelled: bool,
    next: Move,
)
    requires
        call_ensures(Convergence::watched, (state, round, cancelled), next),
    ensures
        round matches Some(Watched::Decided(sight)) ==> next == Move::Finish(
            Converged::Verified(sight),
        ),
        round matches Some(Watched::Unfinished(reason, seen)) ==> next == Move::Finish(
            Converged::Unfinished(
                reason,
                match seen {
                    Some(sight) => sight,
                    None => old(state).last,
                },
            ),
        ),
        round matches Some(Watched::Reopen(version, seen)) ==> {
            &&& next == Move::Again
            &&& version is Some ==> text_view(final(state).from) == text_view(version)
            &&& version is None ==> text_view(final(state).from) == text_view(old(state).from)
            &&& final(state).last == match seen {
                Some(sight) => sight,
                None => old(state).last,
            }
        },
        round is None && cancelled ==> next == Move::Finish(Converged::Cancelled),
        round is None && !cancelled ==> next is Finish && next->Finish_0 is Unfinished,
{
    assert(final(state)@.last == final(state).last);
    assert(final(state)@.from == text_view(final(state).from));
}

/// A round is opened where the server answered 200, from the version it was to be opened at; a
/// discarded history is a gap, and a refusal a watch that is not available.
pub proof fn a_round_opens_by_its_status(
    status: u16,
    from: Option<String>,
    last: Sight,
    opened: Result<Round, Watched>,
)
    requires
        call_ensures(Round::open, (status, &from, last), opened),
    ensures
        status == 200 <==> opened is Ok,
        opened matches Ok(round) ==> text_view(round.checkpoint) == text_view(from) && round.seen
            is None && round.last == last,
        status == 410 ==> (opened matches Err(Watched::Unfinished(reason, None)) && reason
            == Unfinished::WatchGap),
        status == 401 || status == 403 ==> (opened matches Err(Watched::Unfinished(reason, None))
            && reason == Unfinished::WatchUnavailable(Outcome::ReadDenied)),
        status == 404 ==> (opened matches Err(Watched::Unfinished(reason, None)) && reason
            == Unfinished::WatchUnavailable(Outcome::TypeNotServed)),
{
    assert(opened matches Err(watched) ==> watched@ is Unfinished);
}

/// An event that decided the change ends the round, and any other sight of it is remembered; a
/// deletion loses it, a discarded history breaks it and a denial ends it, and none of them proves
/// it.
pub proof fn an_event_decides_or_is_remembered(
    round: &mut Round,
    event: Event,
    ended: Option<Watched>,
)
    requires
        call_ensures(Round::event, (round, event), ended),
    ensures
        event matches Event::Held(version, sight) ==> {
            &&& sight.verdict == Verdict::Decided ==> ended == Some(Watched::Decided(sight))
            &&& sight.verdict != Verdict::Decided ==> ended is None && final(round).seen == Some(
                sight,
            )
            &&& version is Some ==> text_view(final(round).checkpoint) == text_view(version)
            &&& version is None ==> text_view(final(round).checkpoint) == text_view(
                old(round).checkpoint,
            )
        },
        event is Deleted ==> ended == Some(
            Watched::Unfinished(Unfinished::TargetGone, old(round).seen),
        ),
        event is Expired ==> ended == Some(
            Watched::Unfinished(Unfinished::WatchGap, old(round).seen),
        ),
        event is Denied ==> ended == Some(
            Watched::Unfinished(
                Unfinished::WatchUnavailable(Outcome::ReadDenied),
                old(round).seen,
            ),
        ),
        event matches Event::Position(version) ==> ended is None && text_view(
            final(round).checkpoint,
        ) == Some(version@) && final(round).seen == old(round).seen,
        event is Interrupted ==> (ended matches Some(Watched::Reopen(version, seen)) && text_view(
            version,
        ) == text_view(old(round).checkpoint) && seen == old(round).seen),
        final(round).last == old(round).last,
{
    assert(final(round)@.seen == final(round).seen);
    assert(final(round)@.last == final(round).last);
    assert(final(round)@.checkpoint == text_view(final(round).checkpoint));
    if let Some(watched) = ended {
        assert(watched@ is Decided <==> watched is Decided);
        assert(watched@ is Unfinished <==> watched is Unfinished);
    }
}

/// Silence ends no round, a frame that does not read is a hole in the observation, and a body that
/// ended or broke is opened again from the version reached; the end of the window ends it.
pub proof fn a_round_ends_by_what_came(
    round: Round,
    chunk: Chunk,
    ended: Option<Watched>,
    over: bool,
    expired: Option<Watched>,
)
    requires
        call_ensures(Round::chunk, (&round, chunk), ended),
        call_ensures(Round::expired, (&round, over), expired),
    ensures
        chunk is Quiet ==> ended is None,
        chunk is Undecodable ==> ended == Some(
            Watched::Unfinished(
                Unfinished::PartialCoverage(Outcome::RequestFailed),
                round.seen,
            ),
        ),
        chunk is Ended || chunk is Failed ==> (ended matches Some(Watched::Reopen(version, seen))
            && text_view(version) == text_view(round.checkpoint) && seen == round.seen),
        expired is Some <==> over,
        over ==> (expired matches Some(Watched::Unfinished(_, seen)) && seen == round.seen),
{
    if let Some(watched) = ended {
        assert(watched@ is Unfinished <==> watched is Unfinished);
        assert(watched@ is Reopen <==> watched is Reopen);
    }
    if let Some(watched) = expired {
        assert(watched@ is Unfinished <==> watched is Unfinished);
    }
}

}
