//! Making one change, and saying what that establishes and what it does not.
//!
//! What the API server did with a request is not what became of the cluster, so none of the words
//! here is one for success. A change is a prediction unless the invocation says otherwise, and
//! conflicts are forced only under a sentence that says why.

use vstd::prelude::*;
use vstd::string::*;

use crate::contributions::{Command, SchemaDef};
use crate::converging::Rule;
use crate::failure::{failure, refusal, Class, WireError};
use crate::json::{flag_of, member, JsonView};
use crate::options::{text_option, Options};
use crate::plans::Plan;
use crate::records::{answered, build, Provenance, Record, Source};
use crate::schemas::Field;
use crate::text::{
    blank, fill1, fill3, filled, group_views, is_blank, join, join2, joined, same, str_view,
    text_view, views,
};
use crate::value::{
    entry_views, list, optional, some_texts_value, string, text_value, texts, texts_value,
    FieldValue, ValueView,
};

verus! {

// --- how a change is sent -------------------------------------------------------------------------

/// The name a change is applied under where the invocation names none.
pub const DEFAULT_MANAGER: &'static str = "ono-sendai";

pub const NO_MANAGER_HELP: &'static str =
    "Server-side apply records field ownership under this name, so it has to \
    name somebody (§44.2). Leave it out to apply as `ono-sendai`.";

/// How a change is sent: as a prediction or as a write, under whose name, and forcing what.
#[derive(Debug, PartialEq, Eq)]
pub struct How {
    pub dry_run: bool,
    pub manager: String,
    pub force_because: Option<String>,
}

/// Whether a text says anything.
pub open spec fn says_something(text: Seq<char>) -> bool {
    exists|i: int| 0 <= i < text.len() && !is_blank(#[trigger] text[i])
}

/// The reason to force conflicts, where one is given that says anything.
pub open spec fn reason_to_force(options: Seq<(Seq<char>, JsonView)>) -> Option<Seq<char>> {
    match text_option(options, "force_because"@) {
        Some(reason) => if says_something(reason) {
            Some(reason)
        } else {
            None
        },
        None => None,
    }
}

/// Whether a change is only predicted: unless the invocation says otherwise, it is.
pub open spec fn is_prediction(options: Seq<(Seq<char>, JsonView)>) -> bool {
    match flag_of(member(options, "dry_run"@)) {
        Some(flag) => flag,
        None => true,
    }
}

impl How {
    /// The name the invocation asks to apply under, where it asks for one.
    pub fn asked_manager(options: &Options) -> (r: Option<&str>)
        ensures
            str_view(r) == text_option(options@, "field_manager"@),
    {
        options.text("field_manager")
    }

    /// What the invocation's arguments ask for. `named` is what became of the name they ask to
    /// apply under, where they ask for one: the name as it is taken, or what is wrong with it.
    ///
    /// # Errors
    ///
    /// A refusal where the name names nobody.
    pub fn read(options: &Options, named: Option<Result<String, String>>) -> (r: Result<
        How,
        WireError,
    >)
        ensures
            match r {
                Ok(how) => {
                    &&& match named {
                        None => how.manager@ == DEFAULT_MANAGER@,
                        Some(Ok(name)) => how.manager@ == name@,
                        Some(Err(_)) => false,
                    }
                    &&& how.dry_run == is_prediction(options@)
                    &&& text_view(how.force_because) == reason_to_force(options@)
                },
                Err(error) => match named {
                    Some(Err(detail)) => error@ == refusal(
                        Class::Refused,
                        detail@,
                        NO_MANAGER_HELP@,
                    ),
                    _ => false,
                },
            },
    {
        let manager: String = match named {
            None => DEFAULT_MANAGER.to_owned(),
            Some(Ok(name)) => name,
            Some(Err(detail)) => {
                return Err(failure(Class::Refused, detail, NO_MANAGER_HELP));
            },
        };
        let dry_run: bool = match options.flag("dry_run") {
            Some(flag) => flag,
            None => true,
        };
        let force_because: Option<String> = match options.text("force_because") {
            Some(reason) => if blank(reason) {
                None
            } else {
                Some(reason.to_owned())
            },
            None => None,
        };
        Ok(How { dry_run, manager, force_because })
    }

    /// How an apply is sent.
    pub fn apply_options(&self) -> (r: How)
        ensures
            r.dry_run == self.dry_run,
            r.manager@ == self.manager@,
            text_view(r.force_because) == text_view(self.force_because),
    {
        let force_because: Option<String> = match &self.force_because {
            Some(reason) => Some(reason.clone()),
            None => None,
        };
        How { dry_run: self.dry_run, manager: self.manager.clone(), force_because }
    }

    /// How a deletion is sent: it owns no fields, so it goes under the usual name and forces
    /// nothing.
    pub fn delete_options(&self) -> (r: How)
        ensures
            r.dry_run == self.dry_run,
            r.manager@ == DEFAULT_MANAGER@,
            r.force_because is None,
    {
        How { dry_run: self.dry_run, manager: DEFAULT_MANAGER.to_owned(), force_because: None }
    }
}

// --- refusals -------------------------------------------------------------------------------------

pub const NO_SCHEMA: &'static str = "`{}` names a schema this package does not contribute";

pub const NO_SCHEMA_HELP: &'static str =
    "This is a defect in the Kubernetes provider's contribution table.";

/// The first schema of an identifier.
pub open spec fn schema_of(schemas: Seq<SchemaDef>, id: Seq<char>) -> Option<SchemaDef>
    decreases schemas.len(),
{
    if schemas.len() == 0 {
        None
    } else if schemas[0].id@ == id {
        Some(schemas[0])
    } else {
        schema_of(schemas.skip(1), id)
    }
}

/// The schema of a command's records, among the ones contributed.
///
/// # Errors
///
/// A refusal where none has the identifier the command names.
pub fn declared<'a>(command: &Command, schemas: &'a Vec<SchemaDef>) -> (r: Result<
    &'a SchemaDef,
    WireError,
>)
    ensures
        match r {
            Ok(schema) => schema_of(schemas@, command.schema@) == Some(*schema),
            Err(error) => schema_of(schemas@, command.schema@) is None && error@ == refusal(
                Class::Unavailable,
                filled(NO_SCHEMA@, seq![command.name@]),
                NO_SCHEMA_HELP@,
            ),
        },
{
    let mut i: usize = 0;
    assert(schemas@.skip(0) =~= schemas@);
    while i < schemas.len()
        invariant
            i <= schemas.len(),
            schema_of(schemas@.skip(i as int), command.schema@) == schema_of(
                schemas@,
                command.schema@,
            ),
        decreases schemas.len() - i,
    {
        if same(schemas[i].id, command.schema) {
            return Ok(&schemas[i]);
        }
        assert(schemas@.skip(i as int).skip(1) =~= schemas@.skip(i + 1));
        i = i + 1;
    }
    Err(failure(Class::Unavailable, fill1(NO_SCHEMA, command.name), NO_SCHEMA_HELP))
}

pub const CHECK_DENIED: &'static str =
    "the API server's own permission check says this identity may not `{}` `{}`: {}";

pub const CHECK_DENIED_HELP: &'static str =
    "The check is a `SelfSubjectAccessReview` this package sent a moment ago, and it is \
    advisory: the API server remains the authority and would decide again on the request \
    itself (§21.1, §21.2). It is relayed as a refusal rather than sent anyway because a \
    user should not have to make a write to find out, and because the answer names the \
    grant that is missing. Nothing is cached: the check runs again on the next \
    invocation, so the same command works as soon as the grant exists. `get k8s-plan` \
    describes the change either way.";

/// Stops a change the API server's own permission check has refused. Only an explicit denial stops
/// anything.
///
/// # Errors
///
/// The denial, relayed.
pub fn refuse_a_denied_change(denied: &Option<String>, verb: &str, target: &str) -> (r: Result<
    (),
    WireError,
>)
    ensures
        match r {
            Ok(_) => denied is None,
            Err(error) => denied matches Some(reason) && error@ == refusal(
                Class::Refused,
                filled(CHECK_DENIED@, seq![verb@, target@, reason@]),
                CHECK_DENIED_HELP@,
            ),
        },
{
    match denied {
        None => Ok(()),
        Some(reason) => Err(
            failure(
                Class::Refused,
                fill3(CHECK_DENIED, verb, target, reason.as_str()),
                CHECK_DENIED_HELP,
            ),
        ),
    }
}

pub const UNBUILDABLE: &'static str =
    "this change was refused before anything was sent: {}";

pub const UNBUILDABLE_HELP: &'static str =
    "Nothing was sent to the cluster. The refusal is about the change as it was written, not \
    about what the API server would have done with it.";

/// A request that cannot be built.
pub fn unbuildable(detail: &str) -> (r: WireError)
    ensures
        r@ == refusal(Class::Refused, filled(UNBUILDABLE@, seq![detail@]), UNBUILDABLE_HELP@),
{
    failure(Class::Refused, fill1(UNBUILDABLE, detail), UNBUILDABLE_HELP)
}

pub const MUTATION_REFUSED: &'static str = "the host refused the mutation record: {}";

pub const MUTATION_REFUSED_HELP: &'static str =
    "The change was made or refused before this; the stream ended after it.";

/// A mutation record the host would not take.
pub fn mutation_refused(error: &str) -> (r: WireError)
    ensures
        r@ == refusal(
            Class::Unavailable,
            filled(MUTATION_REFUSED@, seq![error@]),
            MUTATION_REFUSED_HELP@,
        ),
{
    failure(Class::Unavailable, fill1(MUTATION_REFUSED, error), MUTATION_REFUSED_HELP)
}

// --- what came back -------------------------------------------------------------------------------

/// What the API server did with a request.
#[derive(Debug, PartialEq, Eq)]
pub enum Acceptance {
    Persisted,
    DryRun,
    Conflict,
    PreconditionFailed,
    /// It refused, for a reason it classified.
    Refused(String),
}

/// The word an acceptance is reported under.
pub open spec fn acceptance_text(acceptance: Acceptance) -> Seq<char> {
    match acceptance {
        Acceptance::Persisted => "persisted"@,
        Acceptance::DryRun => "dry run"@,
        Acceptance::Conflict => "conflict"@,
        Acceptance::PreconditionFailed => "precondition failed"@,
        Acceptance::Refused(_) => "refused"@,
    }
}

/// The word an acceptance is reported under.
pub fn acceptance(accepted: &Acceptance) -> (r: &'static str)
    ensures
        r@ == acceptance_text(*accepted),
{
    match accepted {
        Acceptance::Persisted => "persisted",
        Acceptance::DryRun => "dry run",
        Acceptance::Conflict => "conflict",
        Acceptance::PreconditionFailed => "precondition failed",
        Acceptance::Refused(_) => "refused",
    }
}

/// What the trail says of an acceptance: the classified reason of a refusal beside the word, and
/// never the server's prose.
pub fn acceptance_recorded(accepted: &Acceptance) -> (r: String)
    ensures
        r@ == match *accepted {
            Acceptance::Refused(reason) => "refused: "@ + reason@,
            other => acceptance_text(other),
        },
{
    match accepted {
        Acceptance::Refused(reason) => join2("refused: ", reason.as_str()),
        _ => acceptance(accepted).to_owned(),
    }
}

pub const CLUSTER_PLACE: &'static str = "cluster";

/// Where a change was made, as the trail says it.
pub fn place_recorded(namespace: &Option<String>) -> (r: String)
    ensures
        r@ == match text_view(*namespace) {
            Some(namespace) => namespace,
            None => CLUSTER_PLACE@,
        },
{
    match namespace {
        Some(namespace) => namespace.clone(),
        None => CLUSTER_PLACE.to_owned(),
    }
}

/// Who else holds the fields a change wanted.
#[derive(Debug, PartialEq, Eq)]
pub struct Conflict {
    pub fields: Vec<String>,
    pub managers: Vec<String>,
    /// What can be done about it, in words.
    pub resolution: String,
}

/// Where a deletion leaves the object.
#[derive(Debug, PartialEq, Eq)]
pub struct Deletion {
    pub state: String,
    pub finalizers: Vec<String>,
    /// The whole of it, in words.
    pub description: String,
    /// Whether the collector removes the object's dependents along with it.
    pub removes_dependents: bool,
}

/// Where the object stands, with the rule and the evidence for it.
#[derive(Debug, PartialEq, Eq)]
pub struct Standing {
    pub state: String,
    pub rule: String,
    pub verified_convergence: bool,
    pub evidence: Vec<String>,
}

/// What a later look established.
#[derive(Debug, PartialEq, Eq)]
pub struct Verification {
    pub verdict: String,
    /// The whole of it, in words.
    pub description: String,
    pub reconciliation: Option<Standing>,
}

/// One attempt at a change: what was planned, what came back, and what a later look established.
pub struct Made {
    pub plan: Plan,
    pub rule: Rule,
    /// The rule, in words.
    pub rule_shown: String,
    pub accepted: Acceptance,
    /// What came back, in words.
    pub outcome: String,
    pub code: u16,
    /// The stage the answer establishes, where it establishes any.
    pub stage: Option<String>,
    pub how: How,
    pub conflict: Option<Conflict>,
    pub deletion: Option<Deletion>,
    pub verification: Option<Verification>,
    /// What admission and defaulting did to the document on the way in.
    pub admission: Vec<String>,
    /// What the write made this session forget, in words.
    pub invalidated: Option<String>,
}

/// Whether an answer makes the session forget what it held of the object: only one that says
/// something was written does.
pub fn invalidates(accepted: &Acceptance) -> (r: bool)
    ensures
        r == (*accepted is Persisted),
{
    match accepted {
        Acceptance::Persisted => true,
        _ => false,
    }
}

// --- the sentence ---------------------------------------------------------------------------------

pub const NOTHING_TO_VERIFY: &'static str =
    "nothing was written, so there is nothing to verify; the rule that would have \
    applied is: {}";

pub const DEPENDENTS_NOT_NAMED: &'static str =
    "the objects the collector removes along with this one are not named in the \
    answer, so nothing this session may hold about them was invalidated: those \
    remain observations of a moment before the deletion and say so";

pub const NO_RULE: &'static str =
    "this provider has no rule for what success would look like here, so acceptance is \
    all that will ever be known about it (§46.3)";

/// The sentence about where a deletion leaves the object, where there was one.
pub open spec fn deletion_said(made: Made) -> Seq<Seq<char>> {
    match made.deletion {
        Some(deletion) => seq![deletion.description@],
        None => Seq::empty(),
    }
}

/// The sentence about what a later look established, or that there was nothing to look for.
pub open spec fn verification_said(made: Made) -> Seq<Seq<char>> {
    match made.verification {
        Some(verification) => seq![verification.description@],
        None => seq![filled(NOTHING_TO_VERIFY@, seq![made.rule_shown@])],
    }
}

/// The sentences about what the session forgot, and about what it could not name to forget.
pub open spec fn invalidation_said(made: Made) -> Seq<Seq<char>> {
    match made.invalidated {
        Some(invalidated) => if made.deletion is Some && made.deletion->Some_0.removes_dependents {
            seq![invalidated@, DEPENDENTS_NOT_NAMED@]
        } else {
            seq![invalidated@]
        },
        None => Seq::empty(),
    }
}

/// The sentence about a change nothing can prove.
pub open spec fn rule_said(made: Made) -> Seq<Seq<char>> {
    if made.rule == Rule::NoneKnown {
        seq![NO_RULE@]
    } else {
        Seq::empty()
    }
}

/// Everything one attempt amounts to, in order.
pub open spec fn sentences(made: Made) -> Seq<Seq<char>> {
    seq![made.outcome@] + deletion_said(made) + verification_said(made) + invalidation_said(made)
        + rule_said(made)
}

/// Everything one attempt amounts to, in one line.
pub fn statement(made: &Made) -> (r: String)
    ensures
        r@ == joined(sentences(*made), "; "@),
{
    broadcast use group_views;

    let mut lines: Vec<String> = Vec::new();
    lines.push(made.outcome.clone());
    assert(views(lines@) =~= seq![made.outcome@]);
    if let Some(deletion) = &made.deletion {
        lines.push(deletion.description.clone());
    }
    assert(views(lines@) =~= seq![made.outcome@] + deletion_said(*made));
    match &made.verification {
        Some(verification) => {
            lines.push(verification.description.clone());
        },
        None => {
            lines.push(fill1(NOTHING_TO_VERIFY, made.rule_shown.as_str()));
        },
    }
    assert(views(lines@) =~= seq![made.outcome@] + deletion_said(*made) + verification_said(*made));
    if let Some(invalidated) = &made.invalidated {
        lines.push(invalidated.clone());
        if let Some(deletion) = &made.deletion {
            if deletion.removes_dependents {
                lines.push(DEPENDENTS_NOT_NAMED.to_owned());
            }
        }
    }
    assert(views(lines@) =~= seq![made.outcome@] + deletion_said(*made) + verification_said(*made)
        + invalidation_said(*made));
    if made.rule == Rule::NoneKnown {
        lines.push(NO_RULE.to_owned());
    }
    assert(views(lines@) =~= sentences(*made));
    join(&lines, "; ")
}

// --- the record -----------------------------------------------------------------------------------

pub const DRY_RUN_PREDICTION: &'static str =
    "provider-native dry run: the API server ran admission and defaulting and \
    wrote nothing. It predicts API acceptance, not what controllers do \
    afterwards (§44.5)";

/// Where the object stands, as a value.
pub open spec fn standing_value(standing: Standing) -> ValueView {
    ValueView::Entries(
        seq![
            ("state"@, ValueView::Text(standing.state@)),
            ("rule"@, ValueView::Text(standing.rule@)),
            ("verified_convergence"@, ValueView::Bool(standing.verified_convergence)),
            ("evidence"@, texts_value(views(standing.evidence@))),
        ],
    )
}

fn standing_shown(standing: &Standing) -> (r: FieldValue)
    ensures
        r@ == standing_value(*standing),
{
    let entries: Vec<(String, FieldValue)> = vec![
        ("state".to_owned(), string(standing.state.as_str())),
        ("rule".to_owned(), string(standing.rule.as_str())),
        ("verified_convergence".to_owned(), FieldValue::Bool(standing.verified_convergence)),
        ("evidence".to_owned(), texts(&standing.evidence)),
    ];
    assert(entry_views(entries@) =~= standing_value(*standing)->Entries_0);
    FieldValue::Entries(entries)
}

impl Made {
    /// What a record says of a conflict.
    pub open spec fn conflict_value(&self, name: Seq<char>) -> ValueView {
        match self.conflict {
            None => ValueView::Null,
            Some(conflict) => if name == "conflict_fields"@ {
                texts_value(views(conflict.fields@))
            } else if name == "conflict_managers"@ {
                texts_value(views(conflict.managers@))
            } else {
                ValueView::Text(conflict.resolution@)
            },
        }
    }

    fn conflict_field(&self, name: &str) -> (r: FieldValue)
        ensures
            r@ == self.conflict_value(name@),
    {
        match &self.conflict {
            None => FieldValue::Null,
            Some(conflict) => if same(name, "conflict_fields") {
                texts(&conflict.fields)
            } else if same(name, "conflict_managers") {
                texts(&conflict.managers)
            } else {
                string(conflict.resolution.as_str())
            },
        }
    }

    /// What a record says of a later look.
    pub open spec fn verification_value(&self, name: Seq<char>) -> ValueView {
        match self.verification {
            None => ValueView::Null,
            Some(verification) => if name == "verdict"@ {
                ValueView::Text(verification.verdict@)
            } else if name == "verification_detail"@ {
                ValueView::Text(verification.description@)
            } else {
                match verification.reconciliation {
                    Some(standing) => standing_value(standing),
                    None => ValueView::Null,
                }
            },
        }
    }

    fn verification_field(&self, name: &str) -> (r: FieldValue)
        ensures
            r@ == self.verification_value(name@),
    {
        match &self.verification {
            None => FieldValue::Null,
            Some(verification) => if same(name, "verdict") {
                string(verification.verdict.as_str())
            } else if same(name, "verification_detail") {
                string(verification.description.as_str())
            } else {
                match &verification.reconciliation {
                    Some(standing) => standing_shown(standing),
                    None => FieldValue::Null,
                }
            },
        }
    }
}

impl Source for Made {
    open spec fn answers(&self, name: Seq<char>) -> bool {
        true
    }

    open spec fn value_of(&self, name: Seq<char>) -> ValueView {
        if name == "acceptance"@ {
            ValueView::Text(acceptance_text(self.accepted))
        } else if name == "dry_run"@ {
            ValueView::Bool(self.how.dry_run)
        } else if name == "prediction"@ {
            if self.how.dry_run {
                ValueView::Text(DRY_RUN_PREDICTION@)
            } else {
                ValueView::Null
            }
        } else if name == "code"@ {
            ValueView::Int(self.code as int)
        } else if name == "stage"@ {
            text_value(text_view(self.stage))
        } else if name == "field_manager"@ {
            ValueView::Text(self.how.manager@)
        } else if name == "forced"@ {
            ValueView::Bool(self.how.force_because is Some)
        } else if name == "forced_because"@ {
            text_value(text_view(self.how.force_because))
        } else if name == "conflict_fields"@ || name == "conflict_managers"@ || name
            == "resolution"@ {
            self.conflict_value(name)
        } else if name == "admission_differences"@ {
            some_texts_value(views(self.admission@))
        } else if name == "deletion_state"@ {
            match self.deletion {
                Some(deletion) => ValueView::Text(deletion.state@),
                None => ValueView::Null,
            }
        } else if name == "finalizers"@ {
            match self.deletion {
                Some(deletion) => texts_value(views(deletion.finalizers@)),
                None => ValueView::Null,
            }
        } else if name == "verification"@ {
            ValueView::Text(self.plan.verification@)
        } else if name == "verdict"@ || name == "verification_detail"@ || name
            == "reconciliation"@ {
            self.verification_value(name)
        } else if name == "statement"@ {
            ValueView::Text(joined(sentences(*self), "; "@))
        } else {
            self.plan.analysis_value(name)
        }
    }

    fn value(&self, name: &str) -> (r: FieldValue) {
        if same(name, "acceptance") {
            string(acceptance(&self.accepted))
        } else if same(name, "dry_run") {
            FieldValue::Bool(self.how.dry_run)
        } else if same(name, "prediction") {
            if self.how.dry_run {
                string(DRY_RUN_PREDICTION)
            } else {
                FieldValue::Null
            }
        } else if same(name, "code") {
            FieldValue::Int(self.code as i128)
        } else if same(name, "stage") {
            optional(&self.stage)
        } else if same(name, "field_manager") {
            string(self.how.manager.as_str())
        } else if same(name, "forced") {
            FieldValue::Bool(self.how.force_because.is_some())
        } else if same(name, "forced_because") {
            optional(&self.how.force_because)
        } else if same(name, "conflict_fields") || same(name, "conflict_managers") || same(
            name,
            "resolution",
        ) {
            self.conflict_field(name)
        } else if same(name, "admission_differences") {
            list(&self.admission)
        } else if same(name, "deletion_state") {
            match &self.deletion {
                Some(deletion) => string(deletion.state.as_str()),
                None => FieldValue::Null,
            }
        } else if same(name, "finalizers") {
            match &self.deletion {
                Some(deletion) => texts(&deletion.finalizers),
                None => FieldValue::Null,
            }
        } else if same(name, "verification") {
            string(self.plan.verification.as_str())
        } else if same(name, "verdict") || same(name, "verification_detail") || same(
            name,
            "reconciliation",
        ) {
            self.verification_field(name)
        } else if same(name, "statement") {
            FieldValue::Text(statement(self))
        } else {
            self.plan.analysis_field(name)
        }
    }
}

/// One attempt at a change, as a record of its schema.
pub fn mutation_record(fields: &Vec<Field>, schema: &str, made: &Made) -> (r: Record)
    ensures
        r.provenance.is_local(schema@),
        entry_views(r.fields@) == answered(fields@, *made),
{
    Record { provenance: Provenance::local(schema), fields: build(fields, made) }
}

// --- laws -----------------------------------------------------------------------------------------

/// A change that is not asked to be a write is a prediction: nothing but the flag, given and false,
/// makes one.
pub proof fn a_change_is_a_prediction_by_default(options: Seq<(Seq<char>, JsonView)>)
    ensures
        !is_prediction(options) <==> flag_of(member(options, "dry_run"@)) == Some(false),
{
}

/// Conflicts are forced only under a sentence that says why: a reason of nothing but blanks forces
/// nothing.
pub proof fn nothing_is_forced_without_a_reason(options: Seq<(Seq<char>, JsonView)>)
    ensures
        reason_to_force(options) matches Some(reason) ==> says_something(reason) && text_option(
            options,
            "force_because"@,
        ) == Some(reason),
        text_option(options, "force_because"@) is None ==> reason_to_force(options) is None,
{
}

}
