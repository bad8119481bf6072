use ono_kubernetes_plugin::changes::{
    applied, change, closed, continuity, handling, observed_state, opening, reaction, refreshed,
    refused, resume, stamped, watchable, watch_failure, Brought, Emitter, Handling, Looking,
    Opening, Reaction, Reception, Resume, Step, Stream, SyncState, ViewState, Watched, Word,
};
use ono_kubernetes_plugin::contributions::target;
use ono_kubernetes_plugin::discovery::{Resource, Scope, Verb};
use ono_kubernetes_plugin::document::read_document;
use ono_kubernetes_plugin::emission::{Delivery, Invocation};
use ono_kubernetes_plugin::failure::{failure, Class};
use ono_kubernetes_plugin::json::Json;
use ono_kubernetes_plugin::options::Options;
use ono_kubernetes_plugin::records::{change_record, EndpointCategory, Freshness, Origin};
use ono_kubernetes_plugin::value::FieldValue;
use ono_kubernetes_plugin::watching::{Event, Live, Moment, Point, Response, Stage};

fn options(text: &str) -> Options {
    match read_document(text).expect("a document") {
        Json::Object(entries) => Options { entries },
        _ => panic!("options are an object"),
    }
}

fn freshness() -> Freshness {
    Freshness {
        provider_instance: "kubernetes:prod".to_owned(),
        origin: Origin::DirectRead,
        scope: "prod".to_owned(),
        endpoint: EndpointCategory::Core,
        resource_version: Some("41".to_owned()),
        observed_at: 0,
    }
}

#[test]
fn a_watch_runs_until_it_is_stopped() {
    let plain = Watched::from_options(&options("{}"));
    assert_eq!(plain, Watched { budget: None, reacquire: true, stale_after: 30_000 });
    let asked = Watched::from_options(&options(
        r#"{"max_changes": 3, "reacquire": false, "stale_after_ms": 5}"#,
    ));
    assert_eq!(asked, Watched { budget: Some(3), reacquire: false, stale_after: 5 });
    let zero = Watched::from_options(&options(r#"{"max_changes": 0, "stale_after_ms": 0}"#));
    assert_eq!(zero, plain);
}

#[test]
fn a_collection_nobody_may_watch_is_refused() {
    let mut pods = Resource {
        group: String::new(),
        version: "v1".to_owned(),
        kind: "Pod".to_owned(),
        plural: "pods".to_owned(),
        gvr: "v1/pods".to_owned(),
        scope: Scope::Namespaced,
        verbs: vec![Verb::List],
        short_names: Vec::new(),
        subresources: Vec::new(),
    };
    assert_eq!(
        watchable(&pods).unwrap_err().message,
        "the cluster serves `v1/pods` and does not offer `watch` on it"
    );
    pods.verbs.push(Verb::Watch);
    assert!(watchable(&pods).is_ok());
    assert_eq!(
        watch_failure("v1/pods", "reset").message,
        "a watch on `v1/pods` could not be opened: reset"
    );
}

#[test]
fn a_budget_completes_the_watch() {
    let mut emitter = Emitter::new(Some(2));
    assert_eq!(emitter.deliver(&Delivery::Taken, "s"), Step::Reading);
    assert_eq!(emitter.deliver(&Delivery::Cancelled, "s"), Step::Stopped(Invocation::Cancelled));
    assert_eq!(emitter.emitted, 1);
    assert_eq!(emitter.deliver(&Delivery::Taken, "s"), Step::Stopped(Invocation::Completed));
    let mut unbounded = Emitter::new(None);
    for _ in 0..10 {
        assert_eq!(unbounded.deliver(&Delivery::Taken, "s"), Step::Reading);
    }
    assert_eq!(unbounded.emitted, 10);
    let Step::Stopped(Invocation::Failed(overlap)) = unbounded.overlapped() else {
        panic!("a context lent twice ends the watch");
    };
    assert_eq!(overlap.name, "runtime.trap");
}

#[test]
fn a_gap_is_a_record_and_ends_the_body() {
    assert_eq!(reaction("ERROR", Reception::ContinuityBroken), Reaction::TellGap);
    assert_eq!(applied(Reaction::TellGap, Step::Reading), Step::Ended);
    assert_eq!(
        applied(Reaction::TellGap, Step::Stopped(Invocation::Completed)),
        Step::Stopped(Invocation::Completed)
    );
}

#[test]
fn only_what_changed_is_told() {
    assert_eq!(reaction("ADDED", Reception::Applied), Reaction::Tell(Word::Added));
    assert_eq!(reaction("MODIFIED", Reception::Applied), Reaction::Tell(Word::Modified));
    assert_eq!(reaction("DELETED", Reception::Applied), Reaction::Tell(Word::Deleted));
    assert_eq!(reaction("BOOKMARK", Reception::Checkpointed), Reaction::Refresh);
    assert_eq!(reaction("ADDED", Reception::Discarded), Reaction::Refresh);
    assert_eq!(reaction("ERROR", Reception::Suspended), Reaction::Silent);
    assert_eq!(applied(Reaction::Refresh, Step::Ended), Step::Reading);
    assert_eq!(applied(Reaction::Silent, Step::Reading), Step::Ended);
    assert_eq!(applied(Reaction::Tell(Word::Added), Step::Reading), Step::Reading);
}

#[test]
fn an_expiry_is_the_same_in_either_place() {
    assert_eq!(opening("v1/pods", 200), Ok(Opening::Open));
    assert_eq!(opening("v1/pods", 410), Ok(Opening::Expired));
    assert_eq!(opening("v1/pods", 403), Ok(Opening::Denied));
    assert_eq!(
        opening("v1/pods", 500).unwrap_err().message,
        "the API server answered a watch on `v1/pods` with 500"
    );
    assert_eq!(closed(Step::Reading), Step::Ended);
}

#[test]
fn silence_is_neither_an_event_nor_an_interruption() {
    assert_eq!(handling(Brought::Quiet, true), Handling::Again);
    assert_eq!(handling(Brought::Nothing, false), Handling::Finish);
    assert_eq!(handling(Brought::Events, false), Handling::Apply);
    assert_eq!(handling(Brought::Unreadable, false), Handling::Interrupt);
    assert_eq!(handling(Brought::Broken, false), Handling::Interrupt);
    assert_eq!(handling(Brought::Broken, true), Handling::Cancelled);
}

#[test]
fn a_break_is_listed_again_and_a_reconnect_is_not() {
    assert_eq!(resume(SyncState::Live, true), Resume::GoOn);
    assert_eq!(resume(SyncState::Reconnecting, true), Resume::Reconnect);
    assert_eq!(resume(SyncState::GapDetected, true), Resume::Relist);
    assert_eq!(resume(SyncState::GapDetected, false), Resume::Complete);
    assert_eq!(resume(SyncState::Denied, true), Resume::Complete);
    assert_eq!(resume(SyncState::Syncing, true), Resume::Complete);
}

#[test]
fn a_view_without_a_stream_is_syncing() {
    assert_eq!(observed_state(Some(ViewState::Stale), true), ViewState::Stale);
    assert_eq!(observed_state(Some(ViewState::Live), false), ViewState::Syncing);
    assert_eq!(observed_state(None, true), ViewState::Syncing);
    assert_eq!(refreshed(None), Looking { state: ViewState::Syncing, withheld: 0 });
}

#[test]
fn a_record_says_which_period_it_belongs_to() {
    let period = || {
        continuity(&Some(Stream {
            segments: 2,
            gap_free: false,
            state: SyncState::GapDetected,
            gap: Some(("expired".to_owned(), "between 41 and 50".to_owned())),
        }))
    };
    let looking = Looking { state: ViewState::GapDetected, withheld: 3 };
    let after = change(Word::Added, "v1/pods", "prod", period(), looking, None);
    assert_eq!((after.segment, after.continuous), (2, false));
    assert_eq!((after.gap_reason, after.gap_detail), (None, None));
    let told = change(Word::Gap, "v1/pods", "prod", period(), looking, None);
    assert_eq!(told.gap_detail.as_deref(), Some("between 41 and 50"));
    let changes = target("k8s-change").expect("a target");
    let record = change_record(&changes, &told, &stamped(Word::Gap, freshness()));
    let field = |name: &str| {
        let found = record.fields.iter().find(|(field, _)| field == name);
        found.map(|(_, value)| value.clone()).expect("a declared field")
    };
    assert_eq!(field("change"), FieldValue::Text("gap".to_owned()));
    assert_eq!(field("segment"), FieldValue::Int(2));
    assert_eq!(field("continuous"), FieldValue::Bool(false));
    assert_eq!(field("view_state"), FieldValue::Text("gap detected".to_owned()));
    assert_eq!(field("withheld"), FieldValue::Int(3));
    assert_eq!(field("gap_reason"), FieldValue::Text("expired".to_owned()));
    assert_eq!(field("uid"), FieldValue::Null);
    assert!(record.provenance.source.expect("a source").contains("watch"));
    let none = continuity(&None);
    assert_eq!((none.segment, none.continuous, none.state), (0, false, SyncState::Syncing));
}

#[test]
fn what_was_listed_was_read() {
    assert_eq!(stamped(Word::Listed, freshness()).origin, Origin::DirectRead);
    assert_eq!(stamped(Word::Added, freshness()).origin, Origin::WatchEvent);
}

#[test]
fn a_live_watch_goes_round() {
    let mut live = Live::new(Ok(()), None, true);
    assert_eq!(live.stage, Stage::Listing { first: true });
    live.advance(Moment::Listed(Step::Reading, ViewState::Live));
    assert_eq!(live.stage, Stage::Turning);
    live.advance(Moment::Turn(false));
    assert_eq!(live.stage, Stage::Watching);
    live.advance(Moment::Watched(Ok(Step::Ended), false, SyncState::Reconnecting));
    assert_eq!(live.stage, Stage::Reconnecting);
    live.advance(Moment::Reconnected(true));
    assert_eq!(live.stage, Stage::Settling);
    live.advance(Moment::Settled(ViewState::Reconnecting));
    assert_eq!(live.stage, Stage::Noticing);
    assert_eq!(live.deliver(&Delivery::Taken, "s"), Step::Reading);
    live.advance(Moment::Noticed(Step::Reading));
    assert_eq!(live.stage, Stage::Resting);
    assert!(!live.pauses());
    live.advance(Moment::Rested(ViewState::Live));
    assert_eq!((live.announced, &live.stage), (ViewState::Live, &Stage::Turning));
    live.advance(Moment::Turn(true));
    assert_eq!(live.stage, Stage::Over(Invocation::Cancelled));
    live.advance(Moment::Turn(false));
    assert_eq!(live.stage, Stage::Over(Invocation::Cancelled));
}

#[test]
fn a_break_is_followed_by_a_listing() {
    let mut live = Live::new(Ok(()), None, true);
    live.advance(Moment::Listed(Step::Reading, ViewState::Live));
    live.advance(Moment::Turn(false));
    live.advance(Moment::Watched(Ok(Step::Ended), false, SyncState::GapDetected));
    assert_eq!(live.stage, Stage::Relisting);
    live.advance(Moment::Turn(false));
    assert_eq!(live.stage, Stage::Relisting);
    live.advance(Moment::Relisted(Ok(Ok(())), false));
    assert_eq!(live.stage, Stage::Listing { first: false });
    live.advance(Moment::Listed(Step::Reading, ViewState::Live));
    assert_eq!(live.stage, Stage::Settling);
    live.advance(Moment::Settled(ViewState::Live));
    assert_eq!(live.stage, Stage::Resting);
    assert!(live.pauses());
}

#[test]
fn a_live_watch_ends_by_what_happened() {
    let refusal = || failure(Class::Unavailable, "reset".to_owned(), "help");
    let watching = |reacquire: bool| {
        let mut live = Live::new(Ok(()), None, reacquire);
        live.advance(Moment::Listed(Step::Reading, ViewState::Live));
        live.advance(Moment::Turn(false));
        live
    };
    let Stage::Over(Invocation::Failed(unacquired)) = Live::new(Err("a page".to_owned()), None, true).stage
    else {
        panic!("a listing that lost a page is no cache");
    };
    assert_eq!(unacquired.message, "the collection could not be acquired: a page");
    let mut live = watching(false);
    live.advance(Moment::Watched(Ok(Step::Ended), false, SyncState::GapDetected));
    assert_eq!(live.stage, Stage::Over(Invocation::Completed));
    let mut live = watching(true);
    live.advance(Moment::Watched(Err(refusal()), false, SyncState::Live));
    assert_eq!(live.stage, Stage::Over(Invocation::Failed(refusal())));
    let mut live = watching(true);
    live.advance(Moment::Watched(Err(refusal()), true, SyncState::Live));
    assert_eq!(live.stage, Stage::Over(Invocation::Cancelled));
    let mut live = watching(true);
    live.advance(Moment::Watched(Ok(Step::Ended), false, SyncState::GapDetected));
    live.advance(Moment::Relisted(Ok(Err("a page".to_owned())), false));
    assert!(matches!(live.stage, Stage::Over(Invocation::Failed(_))));
    let mut live = watching(true);
    live.advance(Moment::Watched(Ok(Step::Ended), false, SyncState::Reconnecting));
    live.advance(Moment::Reconnected(false));
    assert_eq!(live.stage, Stage::Over(Invocation::Completed));
    assert_eq!(refused(true, refusal()), Invocation::Cancelled);
}

#[test]
fn a_response_is_read_to_its_end() {
    let mut body = Response::new(Opening::Open, ViewState::Live);
    body.advance(Event::Paused(false, ViewState::Live));
    assert_eq!(body.point, Point::Reading);
    body.advance(Event::Read(Brought::Events, 2, false, ViewState::Live));
    assert_eq!(body.point, Point::Applying { left: 2 });
    body.advance(Event::Applied(Step::Reading, ViewState::Live));
    body.advance(Event::Applied(Step::Reading, ViewState::Live));
    assert_eq!(body.point, Point::Between);
    body.advance(Event::Paused(false, ViewState::Stale));
    assert_eq!(body.point, Point::Noticing);
    body.advance(Event::Noticed(Step::Reading));
    body.advance(Event::Read(Brought::Quiet, 0, false, ViewState::Stale));
    assert_eq!(body.point, Point::Between);
    body.advance(Event::Paused(false, ViewState::Stale));
    body.advance(Event::Read(Brought::Nothing, 0, false, ViewState::Stale));
    assert_eq!(body.point, Point::Finishing);
    body.advance(Event::Finished(1));
    body.advance(Event::Applied(Step::Ended, ViewState::Stale));
    assert_eq!(body.point, Point::Over(Step::Ended));
}

#[test]
fn a_response_ends_early() {
    let mut refused = Response::new(Opening::Expired, ViewState::Live);
    assert_eq!(refused.point, Point::Opening);
    refused.advance(Event::Applied(Step::Reading, ViewState::Live));
    assert_eq!(refused.point, Point::Over(Step::Ended));
    let mut stopped = Response::new(Opening::Open, ViewState::Live);
    stopped.advance(Event::Paused(true, ViewState::Live));
    assert_eq!(stopped.point, Point::Over(Step::Stopped(Invocation::Cancelled)));
    let mut broken = Response::new(Opening::Open, ViewState::Live);
    broken.advance(Event::Paused(false, ViewState::Live));
    broken.advance(Event::Read(Brought::Broken, 0, false, ViewState::Live));
    assert_eq!(broken.point, Point::Applying { left: 1 });
    broken.advance(Event::Applied(Step::Ended, ViewState::Live));
    assert_eq!(broken.point, Point::Over(Step::Ended));
}
