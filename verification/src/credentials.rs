//! Running a kubeconfig's credential plugin, through the host and under a grant.
//!
//! Nothing here starts a program. The host owns the confinement and the streams; what is decided
//! here is whether a helper may run, when to stop waiting for it, and what its output is.

use vstd::prelude::*;
use vstd::string::*;

use crate::audit::{text_json, text_member, texts_json, texts_value};
use crate::failure::{failure, refusal, Class, WireError};
use crate::json::{
    entry, first_member, flag_of, group_json, items_of, json_views, member, member_views,
    natural_of, text_of, Json, JsonView,
};
use crate::text::{fill1, fill2, fill3, filled, same, views};

verus! {

/// The capability a credential plugin runs under.
pub const PROCESS_EXEC: &'static str = "process.exec";

/// How many stream reads a helper is given before this package stops waiting.
pub const READS: usize = 64;

pub const NOT_GRANTED: &'static str =
    "context `{}` authenticates through the credential plugin `{}`, and this \
    package was not granted `{}`";

pub const NOT_GRANTED_HELP: &'static str =
    "§8.2 requires an explicit process-execution capability for a credential plugin. \
    Grant it — `load plugin io.github.godspeed-you.kubernetes --grant process.exec` — or \
    use a context with a token or a client certificate. Nothing was run and no request \
    reached the cluster.";

pub const NOT_RUN: &'static str = "the credential plugin of context `{}` was not run: {}";

pub const NOT_RUN_HELP: &'static str =
    "A plugin declaring `interactiveMode: Always` needs a terminal, and a provider \
    invocation has none. Run its login flow yourself and use the credential it leaves \
    behind, or use a context with a token.";

pub const NO_STREAM: &'static str = "the host started `{}` and named no stream";

pub const NO_STREAM_HELP: &'static str =
    "This is a defect in the host rather than in the kubeconfig.";

pub const NO_CREDENTIAL: &'static str =
    "the credential plugin `{}` of context `{}` did not answer with a \
    credential: {}";

pub const NO_CREDENTIAL_HELP: &'static str =
    "§8.3: a credential plugin's output is the Kubernetes `ExecCredential` contract. What \
    it printed is not read as anything else, because a token taken out of an error \
    message would be sent to an API server as an identity.";

pub const EXPIRED: &'static str =
    "the credential plugin `{}` of context `{}` returned an expired \
    credential: {}";

pub const EXPIRED_HELP: &'static str =
    "Nothing was sent to the cluster. The plugin's own cache is stale; running its \
    refresh or clearing that cache is the fix, and sending the credential anyway \
    would produce a `401` that reads as a permission problem.";

/// Whether a helper may run under what was granted, asked before the request is even composed.
///
/// # Errors
///
/// A local refusal where the grant is missing; nothing the cluster said.
pub fn granted(held: bool, context: &str, command: &str) -> (r: Result<(), WireError>)
    ensures
        match r {
            Ok(_) => held,
            Err(error) => !held && error@ == refusal(
                Class::Unsupported,
                filled(NOT_GRANTED@, seq![context@, command@, PROCESS_EXEC@]),
                NOT_GRANTED_HELP@,
            ),
        },
{
    if held {
        Ok(())
    } else {
        Err(
            failure(
                Class::Unsupported,
                fill3(NOT_GRANTED, context, command, PROCESS_EXEC),
                NOT_GRANTED_HELP,
            ),
        )
    }
}

/// A helper whose interaction mode forbids the run.
pub fn not_run(context: &str, detail: &str) -> (r: WireError)
    ensures
        r@ == refusal(
            Class::Unsupported,
            filled(NOT_RUN@, seq![context@, detail@]),
            NOT_RUN_HELP@,
        ),
{
    failure(Class::Unsupported, fill2(NOT_RUN, context, detail), NOT_RUN_HELP)
}

/// The variables a helper is given, as members: of two under one name the later one holds.
pub open spec fn environment(variables: Seq<(Seq<char>, Seq<char>)>) -> Seq<(Seq<char>, JsonView)>
    decreases variables.len(),
{
    if variables.len() == 0 {
        Seq::empty()
    } else {
        let rest = environment(variables.skip(1));
        if member(rest, variables[0].0) is Some {
            rest
        } else {
            seq![(variables[0].0, JsonView::Text(variables[0].1))] + rest
        }
    }
}

/// What each of some variables is.
pub open spec fn variable_views(variables: Seq<(String, String)>) -> Seq<(Seq<char>, Seq<char>)> {
    variables.map_values(|variable: (String, String)| (variable.0@, variable.1@))
}

/// The variables a helper is given, as members.
fn environment_members(variables: &Vec<(String, String)>) -> (r: Vec<(String, Json)>)
    ensures
        member_views(r@) == environment(variable_views(variables@)),
{
    let ghost all = variable_views(variables@);
    let mut out: Vec<(String, Json)> = Vec::new();
    let mut i: usize = variables.len();
    assert(all.skip(i as int) =~= Seq::<(Seq<char>, Seq<char>)>::empty());
    assert(member_views(out@) =~= environment(all.skip(i as int)));
    while i > 0
        invariant
            i <= variables.len(),
            all == variable_views(variables@),
            member_views(out@) == environment(all.skip(i as int)),
        decreases i,
    {
        broadcast use group_json;

        i = i - 1;
        let ghost rest = out@;
        proof {
            assert(all.skip(i as int).skip(1) =~= all.skip(i + 1));
            assert(all.skip(i as int)[0] == (variables@[i as int].0@, variables@[i as int].1@));
        }
        let held: bool = match first_member(&out, variables[i].0.as_str()) {
            Some(_) => true,
            None => false,
        };
        if !held {
            let value: Json = Json::Text(variables[i].1.clone());
            let name: String = variables[i].0.clone();
            out.insert(0, (name, value));
            proof {
                assert(out@ =~= seq![(name, value)] + rest);
                assert(member_views(out@) =~= seq![(name@, value@)] + member_views(rest));
            }
        }
    }
    assert(all.skip(0) =~= all);
    out
}

/// What the host is asked to run: the program, its arguments, no input, and the variables it is
/// given beside its own.
pub open spec fn exec_request(
    command: Seq<char>,
    arguments: Seq<Seq<char>>,
    variables: Seq<(Seq<char>, Seq<char>)>,
) -> JsonView {
    JsonView::Object(
        seq![
            ("arguments"@, texts_json(arguments)),
            ("environment"@, JsonView::Object(environment(variables))),
            ("program"@, text_json(command)),
            ("stdin"@, JsonView::Null),
        ],
    )
}

/// What the host is asked to run.
pub fn request(command: &str, arguments: &Vec<String>, variables: &Vec<(String, String)>) -> (r: Json)
    ensures
        r@ == exec_request(command@, views(arguments@), variable_views(variables@)),
{
    broadcast use group_json;

    let members: Vec<(String, Json)> = vec![
        ("arguments".to_owned(), texts_value(arguments)),
        ("environment".to_owned(), Json::Object(environment_members(variables))),
        text_member("program", command),
        ("stdin".to_owned(), Json::Null),
    ];
    assert(member_views(members@) =~= seq![
        ("arguments"@, texts_json(views(arguments@))),
        ("environment"@, JsonView::Object(environment(variable_views(variables@)))),
        ("program"@, text_json(command@)),
        ("stdin"@, JsonView::Null),
    ]);
    Json::Object(members)
}

/// The stream the host's answer names.
///
/// # Errors
///
/// A refusal where it names none.
pub fn started(answer: &Json, command: &str) -> (r: Result<u64, WireError>)
    ensures
        match r {
            Ok(handle) => natural_of(entry(answer@, "handle"@)) == Some(handle as int),
            Err(error) => natural_of(entry(answer@, "handle"@)) is None && error@ == refusal(
                Class::Unsupported,
                filled(NO_STREAM@, seq![command@]),
                NO_STREAM_HELP@,
            ),
        },
{
    let handle: Option<u64> = match answer.get("handle") {
        Some(json) => json.as_u64(),
        None => None,
    };
    match handle {
        Some(handle) => Ok(handle),
        None => Err(failure(Class::Unsupported, fill1(NO_STREAM, command), NO_STREAM_HELP)),
    }
}

/// A helper whose output is no credential.
pub fn no_credential(command: &str, context: &str, detail: &str) -> (r: WireError)
    ensures
        r@ == refusal(
            Class::Unsupported,
            filled(NO_CREDENTIAL@, seq![command@, context@, detail@]),
            NO_CREDENTIAL_HELP@,
        ),
{
    failure(
        Class::Unsupported,
        fill3(NO_CREDENTIAL, command, context, detail),
        NO_CREDENTIAL_HELP,
    )
}

/// A helper whose credential is expired.
pub fn expired(command: &str, context: &str, detail: &str) -> (r: WireError)
    ensures
        r@ == refusal(
            Class::Unsupported,
            filled(EXPIRED@, seq![command@, context@, detail@]),
            EXPIRED_HELP@,
        ),
{
    failure(Class::Unsupported, fill3(EXPIRED, command, context, detail), EXPIRED_HELP)
}

// --- what it printed ------------------------------------------------------------------------------

pub const CANCELLED: &'static str = "the credential plugin `{}` was cancelled";

pub const CANCELLED_HELP: &'static str = "Nothing reached the cluster.";

pub const UNFINISHED: &'static str = "the credential plugin `{}` did not finish";

pub const UNFINISHED_HELP: &'static str =
    "A credential plugin prints one document and exits. One that has not after sixty-four \
    reads is waiting for something this package cannot give it — a prompt, or an identity \
    provider that is not answering. Nothing reached the cluster.";

/// What one value adds to the output: a line of stdout, and nothing of anything else. What a
/// failing helper said on stderr is not repeated.
pub open spec fn printed_by(value: JsonView) -> Seq<char> {
    if text_of(entry(value, "stream"@)) == Some("stdout"@) {
        match text_of(entry(value, "line"@)) {
            Some(line) => line.push('\n'),
            None => Seq::empty(),
        }
    } else {
        Seq::empty()
    }
}

/// What some values add to the output, in order.
pub open spec fn printed(values: Seq<JsonView>) -> Seq<char>
    decreases values.len(),
{
    if values.len() == 0 {
        Seq::empty()
    } else {
        printed(values.drop_last()) + printed_by(values.last())
    }
}

/// The values an answer delivers.
pub open spec fn values_of(answer: JsonView) -> Seq<JsonView> {
    match items_of(entry(answer, "values"@)) {
        Some(values) => values,
        None => Seq::empty(),
    }
}

/// Everything a helper wrote to stdout so far, and how often it was asked.
#[derive(Debug, PartialEq, Eq)]
pub struct Stdout {
    pub text: String,
    pub reads: usize,
}

impl Stdout {
    /// Nothing, and not asked yet.
    pub fn new() -> (r: Stdout)
        ensures
            r.text@.len() == 0,
            r.reads == 0,
    {
        Stdout { text: String::new(), reads: 0 }
    }

    /// Whether to ask once more.
    ///
    /// # Errors
    ///
    /// A refusal where the helper has been asked often enough, or where the operator stopped the
    /// query.
    pub fn ask(&mut self, cancelled: bool, command: &str) -> (r: Result<(), WireError>)
        ensures
            final(self).text@ == old(self).text@,
            match r {
                Ok(_) => old(self).reads < READS && !cancelled && final(self).reads
                    == old(self).reads + 1,
                Err(error) => final(self).reads == old(self).reads && if old(self).reads >= READS {
                    error@ == refusal(
                        Class::Unsupported,
                        filled(UNFINISHED@, seq![command@]),
                        UNFINISHED_HELP@,
                    )
                } else {
                    cancelled && error@ == refusal(
                        Class::Unsupported,
                        filled(CANCELLED@, seq![command@]),
                        CANCELLED_HELP@,
                    )
                },
            },
    {
        if self.reads >= READS {
            return Err(failure(Class::Unsupported, fill1(UNFINISHED, command), UNFINISHED_HELP));
        }
        if cancelled {
            return Err(failure(Class::Unsupported, fill1(CANCELLED, command), CANCELLED_HELP));
        }
        self.reads = self.reads + 1;
        Ok(())
    }

    /// Takes one answer, and says whether the helper is done.
    pub fn take(&mut self, answer: &Json) -> (r: bool)
        ensures
            final(self).text@ == old(self).text@ + printed(values_of(answer@)),
            final(self).reads == old(self).reads,
            r == (flag_of(entry(answer@, "complete"@)) == Some(true)),
    {
        let ghost values = values_of(answer@);
        let ghost start = self.text@;
        let items: Option<&Vec<Json>> = match answer.get("values") {
            Some(json) => json.as_array(),
            None => None,
        };
        assert(start + printed(values.take(0)) =~= start);
        match items {
            Some(items) => {
                let mut i: usize = 0;
                while i < items.len()
                    invariant
                        i <= items.len(),
                        values == json_views(items@),
                        self.text@ == start + printed(values.take(i as int)),
                        self.reads == old(self).reads,
                    decreases items.len() - i,
                {
                    broadcast use group_json;

                    let ghost before = self.text@;
                    proof {
                        assert(values.take(i + 1).drop_last() =~= values.take(i as int));
                        assert(values.take(i + 1).last() == items@[i as int]@);
                    }
                    let stream: Option<&str> = match items[i].get("stream") {
                        Some(json) => json.as_str(),
                        None => None,
                    };
                    let line: Option<&str> = match items[i].get("line") {
                        Some(json) => json.as_str(),
                        None => None,
                    };
                    let is_stdout: bool = match stream {
                        Some(stream) => same(stream, "stdout"),
                        None => false,
                    };
                    if is_stdout {
                        if let Some(line) = line {
                            self.text.append(line);
                            self.text.push('\n');
                            assert(self.text@ =~= before + line@.push('\n'));
                        }
                    }
                    proof {
                        assert(before + printed_by(items@[i as int]@) =~= self.text@);
                        assert(start + printed(values.take(i + 1)) =~= (start + printed(
                            values.take(i as int),
                        )) + printed_by(items@[i as int]@));
                    }
                    i = i + 1;
                }
                broadcast use group_json;

                assert(values.take(i as int) =~= values);
            },
            None => {
                assert(values.take(0) =~= values);
            },
        }
        match answer.get("complete") {
            Some(json) => match json.as_bool() {
                Some(flag) => flag,
                None => false,
            },
            None => false,
        }
    }
}

// --- laws -----------------------------------------------------------------------------------------

/// Nothing a helper writes anywhere but to stdout becomes part of its output.
pub proof fn only_stdout_is_read(values: Seq<JsonView>)
    requires
        forall|i: int|
            0 <= i < values.len() ==> text_of(entry(#[trigger] values[i], "stream"@)) != Some(
                "stdout"@,
            ),
    ensures
        printed(values) == Seq::<char>::empty(),
    decreases values.len(),
{
    if values.len() > 0 {
        assert forall|i: int| 0 <= i < values.drop_last().len() implies text_of(
            entry(#[trigger] values.drop_last()[i], "stream"@),
        ) != Some("stdout"@) by {
            assert(values.drop_last()[i] == values[i]);
        }
        only_stdout_is_read(values.drop_last());
        assert(printed_by(values[values.len() - 1]) == Seq::<char>::empty());
        assert(printed(values) =~= Seq::<char>::empty());
    }
}

}
