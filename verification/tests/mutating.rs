use ono_kubernetes_plugin::contributions::{command_schemas, commands};
use ono_kubernetes_plugin::converging::{
    absence_seen, first_window, looked, verification_window, watchable, window_ended, Chunk,
    Converged, Convergence, Event, Looked, Lookup, Move, Round, Rule, Sight, Stage, Unfinished,
    Verdict, Watched,
};
use ono_kubernetes_plugin::coverage::Outcome;
use ono_kubernetes_plugin::document::read_document;
use ono_kubernetes_plugin::json::Json;
use ono_kubernetes_plugin::mutations::{
    acceptance, acceptance_recorded, declared, invalidates, mutation_record, mutation_refused,
    place_recorded, refuse_a_denied_change, statement, unbuildable, Acceptance, Conflict, Deletion,
    How, Made, Standing, Verification,
};
use ono_kubernetes_plugin::options::Options;
use ono_kubernetes_plugin::plans::{plan_record, plan_refused, ChangeTarget, Plan, Preconditions, Recovery};
use ono_kubernetes_plugin::records::Record;
use ono_kubernetes_plugin::value::FieldValue;

fn options(text: &str) -> Options {
    match read_document(text).expect("a document") {
        Json::Object(entries) => Options { entries },
        _ => panic!("options are an object"),
    }
}

fn sight(number: u64, verdict: Verdict, reached: Option<Stage>) -> Sight {
    Sight { number, verdict, reached }
}

fn pending(number: u64) -> Sight {
    sight(number, Verdict::Pending, Some(Stage::SpecObserved))
}

fn plan() -> Plan {
    Plan {
        target: ChangeTarget {
            uid: Some("u-1".to_owned()),
            name: "api".to_owned(),
            namespace: Some("prod".to_owned()),
            group: "apps".to_owned(),
            version: "v1".to_owned(),
            kind: "Deployment".to_owned(),
            resource_version: Some("41".to_owned()),
        },
        action_verb: "scale".to_owned(),
        changes: vec!["/spec/replicas: 2 -> 5".to_owned()],
        preconditions: Preconditions {
            resource_version: Some("41".to_owned()),
            uid: Some("u-1".to_owned()),
            guards_lost_update: true,
            guards_recreation: true,
        },
        propagation: None,
        precondition_guarded: true,
        effects: Vec::new(),
        reversibility: "reversible".to_owned(),
        recovery: Recovery {
            restores: vec!["/spec/replicas".to_owned()],
            does_not_restore: Vec::new(),
            statement: "scale back".to_owned(),
        },
        dependents: Vec::new(),
        dependent_coverage: "complete".to_owned(),
        preflight: "allowed".to_owned(),
        verification: "replicas-ready".to_owned(),
        verification_stage: Some("ready".to_owned()),
        statement: "scales api".to_owned(),
        caveats: vec!["one writer".to_owned()],
        competing_writers: Vec::new(),
        competing_writer_coverage: "complete".to_owned(),
        contents: None,
    }
}

fn made() -> Made {
    Made {
        plan: plan(),
        rule: Rule::Shown,
        rule_shown: "the replicas are ready".to_owned(),
        accepted: Acceptance::Persisted,
        outcome: "the change was persisted".to_owned(),
        code: 200,
        stage: Some("api accepted".to_owned()),
        how: How { dry_run: false, manager: "ono-sendai".to_owned(), force_because: None },
        conflict: None,
        deletion: None,
        verification: None,
        admission: Vec::new(),
        invalidated: None,
    }
}

fn field(record: &Record, name: &str) -> FieldValue {
    let found = record.fields.iter().find(|(field, _)| field == name);
    found.map(|(_, value)| value.clone()).expect("a declared field")
}

fn text(value: &str) -> FieldValue {
    FieldValue::Text(value.to_owned())
}

#[test]
fn a_change_is_a_prediction_unless_told_otherwise() {
    let plain = How::read(&options("{}"), None).expect("how");
    assert!(plain.dry_run);
    assert_eq!(plain.manager, "ono-sendai");
    assert_eq!(plain.force_because, None);
    let spelled = r#"{"dry_run": "false", "force_because": "  "}"#;
    assert_eq!(How::read(&options(spelled), None).expect("how"), plain);
    assert!(!How::read(&options(r#"{"dry_run": false}"#), None).expect("how").dry_run);
    let refused = How::read(&options("{}"), Some(Err("no name".to_owned()))).unwrap_err();
    assert_eq!(refused.message, "no name");
    assert_eq!(refused.name, "contribution.refused");
    assert_eq!(How::asked_manager(&options(r#"{"field_manager": "me"}"#)), Some("me"));
    assert_eq!(How::asked_manager(&options("{}")), None);
}

#[test]
fn nothing_is_forced_without_a_reason() {
    let how = |text: &str| How::read(&options(text), Some(Ok("m".to_owned()))).expect("how");
    assert_eq!(how(r#"{"force_because": " \t"}"#).force_because, None);
    let forced = how(r#"{"force_because": "rollback"}"#);
    assert_eq!(forced.apply_options().force_because.as_deref(), Some("rollback"));
    assert_eq!(forced.apply_options().manager, "m");
    assert_eq!(forced.delete_options().force_because, None);
    assert_eq!(forced.delete_options().manager, "ono-sendai");
}

#[test]
fn a_command_has_its_schema() {
    let schemas = command_schemas();
    for command in commands() {
        assert_eq!(declared(&command, &schemas).expect("a schema").id, command.schema);
        let missing = declared(&command, &Vec::new()).unwrap_err();
        assert!(missing.message.ends_with("names a schema this package does not contribute"));
    }
}

#[test]
fn only_an_explicit_denial_stops_a_change() {
    assert!(refuse_a_denied_change(&None, "patch", "api").is_ok());
    let denied = refuse_a_denied_change(&Some("no grant".to_owned()), "patch", "api").unwrap_err();
    assert_eq!(
        denied.message,
        "the API server's own permission check says this identity may not `patch` `api`: no grant"
    );
    assert_eq!(
        unbuildable("no fields").message,
        "this change was refused before anything was sent: no fields"
    );
    assert_eq!(mutation_refused("full").message, "the host refused the mutation record: full");
}

#[test]
fn no_word_is_one_for_success() {
    let refused = Acceptance::Refused("forbidden".to_owned());
    assert_eq!(acceptance(&Acceptance::Persisted), "persisted");
    assert_eq!(acceptance(&Acceptance::DryRun), "dry run");
    assert_eq!(acceptance(&Acceptance::Conflict), "conflict");
    assert_eq!(acceptance(&Acceptance::PreconditionFailed), "precondition failed");
    assert_eq!(acceptance(&refused), "refused");
    assert_eq!(acceptance_recorded(&refused), "refused: forbidden");
    assert_eq!(acceptance_recorded(&Acceptance::DryRun), "dry run");
    assert!(invalidates(&Acceptance::Persisted));
    assert!(!invalidates(&Acceptance::DryRun));
    assert_eq!(place_recorded(&None), "cluster");
    assert_eq!(place_recorded(&Some("prod".to_owned())), "prod");
}

#[test]
fn a_statement_says_everything_in_order() {
    let mut attempt = made();
    assert_eq!(
        statement(&attempt),
        "the change was persisted; nothing was written, so there is nothing to verify; the rule \
         that would have applied is: the replicas are ready"
    );
    attempt.rule = Rule::NoneKnown;
    attempt.deletion = Some(Deletion {
        state: "accepted".to_owned(),
        finalizers: Vec::new(),
        description: "deletion accepted".to_owned(),
        removes_dependents: true,
    });
    attempt.verification = Some(Verification {
        verdict: "pending".to_owned(),
        description: "not seen yet".to_owned(),
        reconciliation: None,
    });
    attempt.invalidated = Some("forgot one object".to_owned());
    let said = statement(&attempt);
    let parts: Vec<&str> = said.split("; ").collect();
    assert_eq!(parts[0], "the change was persisted");
    assert_eq!(parts[1], "deletion accepted");
    assert_eq!(parts[2], "not seen yet");
    assert_eq!(parts[3], "forgot one object");
    assert!(parts[4].starts_with("the objects the collector removes"));
    assert!(parts[5].starts_with("this provider has no rule"));
}

#[test]
fn an_attempt_is_a_record() {
    let schema = command_schemas().remove(0);
    let mut attempt = made();
    attempt.conflict = Some(Conflict {
        fields: vec!["/spec/replicas".to_owned()],
        managers: vec!["kubectl".to_owned()],
        resolution: "take it over".to_owned(),
    });
    attempt.verification = Some(Verification {
        verdict: "verified".to_owned(),
        description: "it is ready".to_owned(),
        reconciliation: Some(Standing {
            state: "converged".to_owned(),
            rule: "r".to_owned(),
            verified_convergence: true,
            evidence: vec!["status".to_owned()],
        }),
    });
    let record = mutation_record(&schema.fields, schema.id, &attempt);
    assert_eq!(record.provenance.schema, schema.id);
    assert_eq!(record.fields.len(), schema.fields.len());
    assert_eq!(field(&record, "acceptance"), text("persisted"));
    assert_eq!(field(&record, "prediction"), FieldValue::Null);
    assert_eq!(field(&record, "code"), FieldValue::Int(200));
    assert_eq!(field(&record, "forced"), FieldValue::Bool(false));
    assert_eq!(field(&record, "resolution"), text("take it over"));
    assert_eq!(field(&record, "deletion_state"), FieldValue::Null);
    assert_eq!(field(&record, "verdict"), text("verified"));
    assert_eq!(field(&record, "admission_differences"), FieldValue::Null);
    assert_eq!(field(&record, "api_version"), text("apps/v1"));
    assert_eq!(field(&record, "caveats"), FieldValue::List(vec![text("one writer")]));
    assert!(matches!(field(&record, "reconciliation"), FieldValue::Entries(_)));
    attempt.how.dry_run = true;
    let predicted = mutation_record(&schema.fields, schema.id, &attempt);
    assert!(matches!(field(&predicted, "prediction"), FieldValue::Text(_)));
}

#[test]
fn a_plan_is_a_record() {
    let target = ono_kubernetes_plugin::contributions::target("k8s-plan").expect("a target");
    let record = plan_record(&target.fields, target.schema, &plan());
    assert_eq!(field(&record, "action"), text("scale"));
    assert_eq!(field(&record, "verification_stage"), text("ready"));
    assert_eq!(field(&record, "contained"), FieldValue::Null);
    assert_eq!(field(&record, "precondition_guarded"), FieldValue::Bool(true));
    assert!(record.provenance.observed.is_none());
    assert_eq!(plan_refused("full").message, "the host refused the plan: full");
}

#[test]
fn a_window_is_set_by_a_number() {
    assert_eq!(verification_window(&None), 60_000);
    assert_eq!(verification_window(&Some("250".to_owned())), 250);
    assert_eq!(verification_window(&Some("+250".to_owned())), 250);
    assert_eq!(verification_window(&Some("soon".to_owned())), 60_000);
    assert_eq!(verification_window(&Some("18446744073709551616".to_owned())), 60_000);
    assert!(watchable(Rule::Shown));
    assert!(!watchable(Rule::Absence));
    assert_eq!(first_window(Rule::NoneKnown, 10), 0);
    assert_eq!(first_window(Rule::Shown, 10), 10);
}

#[test]
fn a_refused_look_is_no_absence() {
    assert_eq!(looked(false, Ok(())), None);
    assert_eq!(looked(true, Ok(())), Some(Looked::Object));
    assert_eq!(looked(true, Err(Outcome::Absent)), Some(Looked::Absent));
    let denied = Looked::Unobservable(Outcome::ReadDenied);
    assert_eq!(looked(true, Err(Outcome::ReadDenied)), Some(denied));
    assert_eq!(absence_seen(denied), Some(Outcome::ReadDenied));
    assert_eq!(absence_seen(Looked::Absent), Some(Outcome::Absent));
    assert_eq!(absence_seen(Looked::Object), None);
}

#[test]
fn the_end_of_a_window_names_how_far_it_got() {
    assert_eq!(window_ended(&sight(0, Verdict::Pending, None)), Unfinished::WindowExpired);
    assert_eq!(window_ended(&pending(0)), Unfinished::GenerationNotObserved);
    assert_eq!(
        window_ended(&sight(0, Verdict::Pending, Some(Stage::Further))),
        Unfinished::ConditionsInconclusive
    );
}

#[test]
fn a_verification_asks_the_cache_then_the_watch() {
    assert!(Convergence::begin(None, Rule::Shown, None, 10).is_none());
    let decided = Some(sight(0, Verdict::Decided, None));
    assert!(Convergence::begin(decided, Rule::Shown, None, 10).is_none());
    assert!(Convergence::begin(Some(pending(0)), Rule::Absence, None, 10).is_none());
    assert!(Convergence::begin(Some(pending(0)), Rule::NoneKnown, None, 10).is_none());
    let from = Some("41".to_owned());
    let mut state = Convergence::begin(Some(pending(0)), Rule::Shown, from, 10).expect("begun");
    assert_eq!(state.next(false, 0), Move::LookInCache);
    assert_eq!(state.looked(true, Lookup::NotYet, 0), Move::Wait);
    assert_eq!(state.looked(true, Lookup::Cached(pending(1)), 5), Move::Wait);
    assert_eq!(state.last.number, 1);
    assert_eq!(state.looked(false, Lookup::NotYet, 6), Move::Again);
    assert_eq!(state.next(false, 6), Move::OpenWatch);
    let reopened = Watched::Reopen(Some("44".to_owned()), Some(pending(2)));
    assert_eq!(state.watched(Some(reopened), false), Move::Again);
    assert_eq!(state.from.as_deref(), Some("44"));
    assert_eq!(
        state.next(false, 10),
        Move::Finish(Converged::Unfinished(Unfinished::GenerationNotObserved, pending(2)))
    );
    assert_eq!(state.next(true, 0), Move::Finish(Converged::Cancelled));
}

#[test]
fn a_verification_ends_by_what_it_saw() {
    let decided = sight(3, Verdict::Decided, Some(Stage::Further));
    let begin = || Convergence::begin(Some(pending(0)), Rule::Shown, None, 10).expect("begun");
    assert_eq!(
        begin().looked(true, Lookup::Cached(decided), 0),
        Move::Finish(Converged::Verified(decided))
    );
    assert_eq!(
        begin().looked(true, Lookup::ConfirmedAbsent, 0),
        Move::Finish(Converged::Unfinished(Unfinished::TargetGone, pending(0)))
    );
    assert_eq!(
        begin().watched(Some(Watched::Decided(decided)), false),
        Move::Finish(Converged::Verified(decided))
    );
    assert_eq!(
        begin().watched(None, false),
        Move::Finish(Converged::Unfinished(
            Unfinished::WatchUnavailable(Outcome::RequestFailed),
            pending(0)
        ))
    );
    assert_eq!(begin().watched(None, true), Move::Finish(Converged::Cancelled));
    assert_eq!(
        begin().watched(Some(Watched::Unfinished(Unfinished::WatchGap, None)), false),
        Move::Finish(Converged::Unfinished(Unfinished::WatchGap, pending(0)))
    );
}

#[test]
fn a_watch_that_is_not_answered_says_why() {
    let reason = |status: u16| match Round::open(status, &None, pending(0)) {
        Ok(_) => None,
        Err(Watched::Unfinished(reason, None)) => Some(reason),
        Err(_) => panic!("nothing was seen"),
    };
    assert_eq!(reason(200), None);
    assert_eq!(reason(410), Some(Unfinished::WatchGap));
    assert_eq!(reason(401), Some(Unfinished::WatchUnavailable(Outcome::ReadDenied)));
    assert_eq!(reason(403), Some(Unfinished::WatchUnavailable(Outcome::ReadDenied)));
    assert_eq!(reason(404), Some(Unfinished::WatchUnavailable(Outcome::TypeNotServed)));
    assert_eq!(reason(500), Some(Unfinished::WatchUnavailable(Outcome::RequestFailed)));
}

#[test]
fn a_watch_round_moves_its_checkpoint() {
    let open = || Round::open(200, &Some("41".to_owned()), pending(0)).expect("open");
    let mut round = open();
    assert_eq!(round.chunk(Chunk::Quiet), None);
    assert_eq!(round.event(Event::Position("43".to_owned())), None);
    assert_eq!(round.event(Event::Held(Some("44".to_owned()), pending(1))), None);
    assert_eq!(round.event(Event::Held(None, pending(2))), None);
    assert_eq!(
        round.chunk(Chunk::Ended),
        Some(Watched::Reopen(Some("44".to_owned()), Some(pending(2))))
    );
    assert_eq!(
        round.event(Event::Interrupted),
        Some(Watched::Reopen(Some("44".to_owned()), Some(pending(2))))
    );
    assert_eq!(round.expired(false), None);
    assert_eq!(
        round.expired(true),
        Some(Watched::Unfinished(Unfinished::GenerationNotObserved, Some(pending(2))))
    );
}

#[test]
fn a_watch_round_decides_only_by_an_observation() {
    let open = || Round::open(200, &None, pending(0)).expect("open");
    let decided = sight(1, Verdict::Decided, Some(Stage::Further));
    assert_eq!(open().event(Event::Held(None, decided)), Some(Watched::Decided(decided)));
    assert_eq!(
        open().event(Event::Deleted),
        Some(Watched::Unfinished(Unfinished::TargetGone, None))
    );
    assert_eq!(
        open().event(Event::Expired),
        Some(Watched::Unfinished(Unfinished::WatchGap, None))
    );
    assert_eq!(
        open().event(Event::Denied),
        Some(Watched::Unfinished(Unfinished::WatchUnavailable(Outcome::ReadDenied), None))
    );
    assert_eq!(
        open().chunk(Chunk::Undecodable),
        Some(Watched::Unfinished(Unfinished::PartialCoverage(Outcome::RequestFailed), None))
    );
    assert_eq!(open().chunk(Chunk::Failed), Some(Watched::Reopen(None, None)));
}
