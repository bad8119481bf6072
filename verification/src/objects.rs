//! One Kubernetes object, with what its kind lets the domain layer derive from it.
//!
//! Everything here is plain: the document the API server sent, the metadata every object carries,
//! and the answers of the domain layer's own rules. A [`Guarded`] is an object that has crossed the
//! redaction boundary; of a Secret it holds the keys and no payload.

use vstd::prelude::*;

use crate::document::is_document;
use crate::json::{entry, group_json, int_of, items_of, json_views, Json, JsonView};
use crate::pointer::at;
use crate::text::{same, str_view};

verus! {

/// A group, a version and a kind.
#[derive(Debug, PartialEq, Eq)]
pub struct Gvk {
    /// The API group; empty for the core group.
    pub group: String,
    pub version: String,
    pub kind: String,
    /// The three in one line, as they are shown to a reader.
    pub shown: String,
}

/// One reference to an owner, whole.
#[derive(Debug, PartialEq, Eq)]
pub struct OwnerReference {
    pub api_version: String,
    pub kind: String,
    pub name: String,
    pub uid: String,
    /// Whether the owner is the controller above the object.
    pub controller: bool,
    /// Whether the owner's deletion waits for the object.
    pub blocks_owner_deletion: bool,
}

/// Where an object stands between desired and observed state, with its rule and its evidence.
#[derive(Debug, PartialEq, Eq)]
pub struct Reconciliation {
    pub state: String,
    pub rule: String,
    pub verified_convergence: bool,
    /// How far the evidence reaches; `None` where it establishes nothing.
    pub stage: Option<String>,
    pub citations: Vec<String>,
}

/// Which relationship a routing edge is.
#[derive(Debug, Clone, Copy, PartialEq, Eq, Structural)]
pub enum Relation {
    UsesIngressClass,
    RoutesTo,
    UsesTlsSecret,
    Other,
}

/// One edge of an Ingress: what it is, and the name of what it points at.
#[derive(Debug, PartialEq, Eq)]
pub struct RoutingEdge {
    pub relation: Relation,
    pub target: String,
}

/// One endpoint of a slice.
#[derive(Debug, PartialEq, Eq)]
pub struct SliceEndpoint {
    /// Whether it is ready, where the slice says so.
    pub ready: Option<bool>,
    pub addresses: Vec<String>,
    /// The name of the object behind it, where it names one.
    pub target: Option<String>,
}

/// What is known of a Secret: its type and its keys, never what they hold.
#[derive(Debug, PartialEq, Eq)]
pub struct SecretKeys {
    pub secret_type: Option<String>,
    pub keys: Vec<String>,
}

/// One Kubernetes object.
#[derive(Debug, PartialEq)]
pub struct Object {
    pub uid: Option<String>,
    pub name: String,
    pub namespace: Option<String>,
    pub gvk: Gvk,
    pub resource_version: Option<String>,
    pub creation_timestamp: Option<String>,
    pub generation: Option<i64>,
    /// The labels, by key.
    pub labels: Vec<(String, String)>,
    /// The annotations, by key.
    pub annotations: Vec<(String, String)>,
    /// Whether a deletion of it has been accepted.
    pub terminating: bool,
    pub finalizers: Vec<String>,
    pub owner_references: Vec<OwnerReference>,
    /// The distinct field managers, sorted.
    pub field_managers: Vec<String>,
    /// The document as the API server sent it, redacted.
    pub native: Json,
    /// Where it stands between desired and observed state.
    pub reconciliation: Reconciliation,
    /// The governing Service a StatefulSet names.
    pub governing_service: Option<String>,
    /// The claim templates a StatefulSet declares.
    pub claim_templates: Vec<String>,
    /// The routing edges of an Ingress.
    pub ingress_edges: Vec<RoutingEdge>,
    /// The endpoints of a slice.
    pub endpoints: Vec<SliceEndpoint>,
}

/// An object behind the redaction boundary.
#[derive(Debug, PartialEq)]
pub struct Guarded {
    pub object: Object,
    /// The keys, where the object is a Secret.
    pub secret: Option<SecretKeys>,
}

/// The sum of the restart counts some container statuses state.
pub open spec fn restart_sum(statuses: Seq<JsonView>) -> int
    decreases statuses.len(),
{
    if statuses.len() == 0 {
        0
    } else {
        restart_sum(statuses.drop_last()) + match int_of(
            entry(statuses.last(), "restartCount"@),
        ) {
            Some(n) => n,
            None => 0,
        }
    }
}

/// Whether the restart counts of some container statuses add up within an `i64` at every step.
pub open spec fn sums_fit(statuses: Seq<JsonView>) -> bool {
    forall|i: int|
        0 <= i <= statuses.len() ==> i64::MIN <= #[trigger] restart_sum(statuses.take(i))
            <= i64::MAX
}

impl Object {
    /// Whether a field of a record can be told from it: the document is one a parser gives, and the
    /// one field that is a sum adds up within an `i64` at every step.
    pub open spec fn shows(self, name: Seq<char>) -> bool {
        &&& is_document(self.native@)
        &&& name == "restarts"@ ==> self.restarts_fit()
    }

    /// Whether the restart counts of the containers add up within an `i64` at every step.
    pub open spec fn restarts_fit(self) -> bool {
        match items_of(at(self.native@, "/status/containerStatuses"@)) {
            Some(statuses) => sums_fit(statuses),
            None => true,
        }
    }

    /// Whether the restart counts of the containers add up within an `i64` at every step.
    pub fn adds_up(&self) -> (r: bool)
        ensures
            r == self.restarts_fit(),
    {
        let statuses: Option<&Vec<Json>> = match self.native.field("/status/containerStatuses") {
            Some(json) => json.as_array(),
            None => None,
        };
        match statuses {
            Some(statuses) => counts_fit(statuses),
            None => true,
        }
    }
}

/// Whether the restart counts of some container statuses add up within an `i64` at every step.
fn counts_fit(statuses: &Vec<Json>) -> (r: bool)
    ensures
        r == sums_fit(json_views(statuses@)),
{
    let ghost all = json_views(statuses@);
    let mut total: i128 = 0;
    let mut i: usize = 0;
    assert(all.take(0) =~= Seq::<JsonView>::empty());
    while i < statuses.len()
        invariant
            i <= statuses.len(),
            all == json_views(statuses@),
            total == restart_sum(all.take(i as int)),
            i64::MIN <= total <= i64::MAX,
            forall|j: int|
                0 <= j <= i ==> i64::MIN <= #[trigger] restart_sum(all.take(j)) <= i64::MAX,
        decreases statuses.len() - i,
    {
        broadcast use group_json;

        proof {
            assert(all.take(i + 1).drop_last() =~= all.take(i as int));
            assert(all.take(i + 1).last() == statuses@[i as int]@);
        }
        let held: Option<i64> = match statuses[i].get("restartCount") {
            Some(json) => json.as_i64(),
            None => None,
        };
        let count: i64 = match held {
            Some(count) => count,
            None => 0,
        };
        total = total + count as i128;
        assert(total == restart_sum(all.take(i + 1)));
        if total < i64::MIN as i128 || total > i64::MAX as i128 {
            broadcast use group_json;

            return false;
        }
        i = i + 1;
    }
    broadcast use group_json;

    true
}

/// The value of a key, where a table of texts has it.
pub open spec fn text_under(entries: Seq<(String, String)>, key: Seq<char>) -> Option<Seq<char>>
    decreases entries.len(),
{
    if entries.len() == 0 {
        None
    } else if entries[0].0@ == key {
        Some(entries[0].1@)
    } else {
        text_under(entries.skip(1), key)
    }
}

/// The value of a key, where a table of texts has it.
pub fn text_at_key<'a>(entries: &'a Vec<(String, String)>, key: &str) -> (r: Option<&'a str>)
    ensures
        str_view(r) == text_under(entries@, key@),
{
    let mut i: usize = 0;
    assert(entries@.skip(0) =~= entries@);
    while i < entries.len()
        invariant
            i <= entries.len(),
            text_under(entries@.skip(i as int), key@) == text_under(entries@, key@),
        decreases entries.len() - i,
    {
        if same(entries[i].0.as_str(), key) {
            return Some(entries[i].1.as_str());
        }
        assert(entries@.skip(i as int).skip(1) =~= entries@.skip(i + 1));
        i = i + 1;
    }
    None
}

// --- documents within documents -------------------------------------------------------------------

/// A member of a document is a document.
pub proof fn member_is_document(members: Seq<(Seq<char>, JsonView)>, name: Seq<char>)
    requires
        forall|i: int| 0 <= i < members.len() ==> is_document((#[trigger] members[i]).1),
    ensures
        crate::json::member(members, name) matches Some(json) ==> is_document(json),
    decreases members.len(),
{
    if members.len() > 0 && members[0].0 != name {
        assert forall|i: int| 0 <= i < members.skip(1).len() implies is_document(
            (#[trigger] members.skip(1)[i]).1,
        ) by {
            assert(members.skip(1)[i] == members[i + 1]);
        }
        member_is_document(members.skip(1), name);
    }
}

/// What a key leads to in a document is a document.
pub proof fn step_is_document(json: JsonView, key: Seq<char>)
    requires
        is_document(json),
    ensures
        entry(json, key) matches Some(found) ==> is_document(found),
        crate::pointer::step(json, key) matches Some(found) ==> is_document(found),
{
    crate::document::parts_are_documents(json);
    match json {
        JsonView::Object(members) => member_is_document(members, key),
        JsonView::Array(items) => {
            if let Some(k) = crate::pointer::place(key) {
                if k < items.len() {
                    assert(is_document(items[k as int]));
                }
            }
        },
        _ => {},
    }
}

/// What a path leads to in a document is a document.
proof fn walk_is_document(json: JsonView, path: Seq<Seq<char>>)
    requires
        is_document(json),
    ensures
        crate::pointer::walk(json, path) matches Some(found) ==> is_document(found),
    decreases path.len(),
{
    if path.len() > 0 {
        let key = crate::pointer::unescaped(path[0]);
        step_is_document(json, key);
        if let Some(next) = crate::pointer::step(json, key) {
            walk_is_document(next, path.skip(1));
        }
    }
}

/// What a pointer names in a document is a document.
pub proof fn field_is_document(json: JsonView, pointer: Seq<char>)
    requires
        is_document(json),
    ensures
        at(json, pointer) matches Some(found) ==> is_document(found),
{
    if pointer.len() > 0 && pointer[0] == '/' {
        walk_is_document(json, crate::pointer::segments(pointer.skip(1)));
    }
}

}
