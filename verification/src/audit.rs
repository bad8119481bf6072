//! What this provider records about itself, for the things the capability broker cannot see.
//!
//! Nothing here may carry a secret: a record names an endpoint, a scope, a verb, a collection and an
//! outcome, and never an object, a credential, a header or a field value.

use vstd::prelude::*;

use crate::digits::{decimal, number};
use crate::json::{json_views, member_views, Json, JsonView};
use crate::text::{join3, views};

verus! {

/// A text as a JSON value.
pub open spec fn text_json(text: Seq<char>) -> JsonView {
    JsonView::Text(text)
}

/// Some texts as a JSON value.
pub open spec fn texts_json(texts: Seq<Seq<char>>) -> JsonView {
    JsonView::Array(texts.map_values(|text: Seq<char>| JsonView::Text(text)))
}

/// One member whose value is a text.
pub(crate) fn text_member(name: &str, text: &str) -> (r: (String, Json))
    ensures
        r.0@ == name@,
        r.1@ == text_json(text@),
{
    (name.to_owned(), Json::Text(text.to_owned()))
}

/// Some texts as a JSON value.
pub(crate) fn texts_value(texts: &Vec<String>) -> (r: Json)
    ensures
        r@ == texts_json(views(texts@)),
{
    let ghost wanted = views(texts@).map_values(|text: Seq<char>| JsonView::Text(text));
    let mut out: Vec<Json> = Vec::new();
    let mut i: usize = 0;
    assert(json_views(out@) =~= wanted.take(0));
    while i < texts.len()
        invariant
            i <= texts.len(),
            wanted == views(texts@).map_values(|text: Seq<char>| JsonView::Text(text)),
            json_views(out@) == wanted.take(i as int),
        decreases texts.len() - i,
    {
        let ghost held = json_views(out@);
        let item: Json = Json::Text(texts[i].clone());
        out.push(item);
        i = i + 1;
        proof {
            assert(json_views(out@) =~= held.push(item@));
            assert(wanted.take(i as int) =~= wanted.take(i - 1).push(wanted[i - 1]));
        }
    }
    assert(wanted.take(i as int) =~= wanted);
    Json::Array(out)
}

/// Records that this provider opened a connection to an API server.
pub fn connected(instance: &str, host: &str, port: u16) -> (r: Json)
    ensures
        r@ == JsonView::Object(
            seq![
                ("action"@, text_json("connect"@)),
                ("endpoint"@, text_json(host@ + ":"@ + decimal(port as nat))),
                ("provider_instance"@, text_json(instance@)),
            ],
        ),
{
    let endpoint: String = join3(host, ":", number(port as u128).as_str());
    let members: Vec<(String, Json)> = vec![
        text_member("action", "connect"),
        text_member("endpoint", endpoint.as_str()),
        text_member("provider_instance", instance),
    ];
    assert(member_views(members@) =~= seq![
        ("action"@, text_json("connect"@)),
        ("endpoint"@, text_json(host@ + ":"@ + decimal(port as nat))),
        ("provider_instance"@, text_json(instance@)),
    ]);
    Json::Object(members)
}

/// Records that a credential plugin was run, and which one: the command and never its output or its
/// environment.
pub fn ran_credential_plugin(instance: &str, context: &str, command: &str) -> (r: Json)
    ensures
        r@ == JsonView::Object(
            seq![
                ("action"@, text_json("credential-plugin"@)),
                ("command"@, text_json(command@)),
                ("context"@, text_json(context@)),
                ("provider_instance"@, text_json(instance@)),
            ],
        ),
{
    let members: Vec<(String, Json)> = vec![
        text_member("action", "credential-plugin"),
        text_member("command", command),
        text_member("context", context),
        text_member("provider_instance", instance),
    ];
    assert(member_views(members@) =~= seq![
        ("action"@, text_json("credential-plugin"@)),
        ("command"@, text_json(command@)),
        ("context"@, text_json(context@)),
        ("provider_instance"@, text_json(instance@)),
    ]);
    Json::Object(members)
}

/// Records that a local grant this package needed was not held. Distinct from the cluster's own
/// answer: this one never left the machine.
pub fn refused_locally(instance: &str, capability: &str, what: &str) -> (r: Json)
    ensures
        r@ == JsonView::Object(
            seq![
                ("action"@, text_json("blocked"@)),
                ("capability"@, text_json(capability@)),
                ("operation"@, text_json(what@)),
                ("provider_instance"@, text_json(instance@)),
            ],
        ),
{
    let members: Vec<(String, Json)> = vec![
        text_member("action", "blocked"),
        text_member("capability", capability),
        text_member("operation", what),
        text_member("provider_instance", instance),
    ];
    assert(member_views(members@) =~= seq![
        ("action"@, text_json("blocked"@)),
        ("capability"@, text_json(capability@)),
        ("operation"@, text_json(what@)),
        ("provider_instance"@, text_json(instance@)),
    ]);
    Json::Object(members)
}

/// Records that the API server refused a read to the identity this provider is using.
pub fn refused(instance: &str, what: &str, scope: &str, verb: &str) -> (r: Json)
    ensures
        r@ == JsonView::Object(
            seq![
                ("action"@, text_json("denied"@)),
                ("provider_instance"@, text_json(instance@)),
                ("resource"@, text_json(what@)),
                ("scope"@, text_json(scope@)),
                ("verb"@, text_json(verb@)),
            ],
        ),
{
    let members: Vec<(String, Json)> = vec![
        text_member("action", "denied"),
        text_member("provider_instance", instance),
        text_member("resource", what),
        text_member("scope", scope),
        text_member("verb", verb),
    ];
    assert(member_views(members@) =~= seq![
        ("action"@, text_json("denied"@)),
        ("provider_instance"@, text_json(instance@)),
        ("resource"@, text_json(what@)),
        ("scope"@, text_json(scope@)),
        ("verb"@, text_json(verb@)),
    ]);
    Json::Object(members)
}

/// Records that this provider changed something in a cluster, or asked what a change would do. The
/// fields that were written are named and their values are not.
pub fn mutated(
    instance: &str,
    what: &str,
    scope: &str,
    name: &str,
    dry_run: bool,
    acceptance: &str,
    fields: &Vec<String>,
) -> (r: Json)
    ensures
        r@ == JsonView::Object(
            seq![
                ("acceptance"@, text_json(acceptance@)),
                ("action"@, text_json("mutate"@)),
                ("dry_run"@, JsonView::Bool(dry_run)),
                ("fields"@, texts_json(views(fields@))),
                ("name"@, text_json(name@)),
                ("provider_instance"@, text_json(instance@)),
                ("resource"@, text_json(what@)),
                ("scope"@, text_json(scope@)),
            ],
        ),
{
    let members: Vec<(String, Json)> = vec![
        text_member("acceptance", acceptance),
        text_member("action", "mutate"),
        ("dry_run".to_owned(), Json::Bool(dry_run)),
        ("fields".to_owned(), texts_value(fields)),
        text_member("name", name),
        text_member("provider_instance", instance),
        text_member("resource", what),
        text_member("scope", scope),
    ];
    assert(member_views(members@) =~= seq![
        ("acceptance"@, text_json(acceptance@)),
        ("action"@, text_json("mutate"@)),
        ("dry_run"@, JsonView::Bool(dry_run)),
        ("fields"@, texts_json(views(fields@))),
        ("name"@, text_json(name@)),
        ("provider_instance"@, text_json(instance@)),
        ("resource"@, text_json(what@)),
        ("scope"@, text_json(scope@)),
    ]);
    Json::Object(members)
}

}
