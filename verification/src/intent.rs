//! What a plan or a mutation was asked to do, read from one invocation's arguments.
//!
//! The curated actions are arguments rather than words, and exactly one of them goes into one
//! invocation: there is one verification rule per action and one set of effects. `set` and `unset`
//! are the low-level path beside them. Nothing an invocation can say supplies a precondition; those
//! come from the object that is read.

use vstd::prelude::*;
use vstd::string::*;

use crate::contributions::Writes;
use crate::digits::{signed, signed_decimal, whole, whole_number};
use crate::document::{parsed, read_document};
use crate::dynamic::{selected, Selection, Selector};
use crate::failure::{failure, refusal, Class, Refusal, WireError};
use crate::fields::{collect, texts_in};
use crate::json::{group_json, int_of, member, member_views, Json, JsonView};
use crate::options::{nonempty, text_option, Options};
use crate::text::{
    begins, behind, chars, cut, cut_at, fill1, filled, group_views, join, join3, joined, lower,
    lowered, same, text_view, views,
};

verus! {

// --- what may be wanted ---------------------------------------------------------------------------

/// A curated transition.
#[derive(Debug, Clone, Copy, PartialEq, Eq, Structural)]
pub enum Curated {
    Scale,
    SetImage,
    RestartRollout,
    Cordon,
    Uncordon,
    Label,
    Annotate,
}

/// What becomes of the objects that depend on a deleted one.
#[derive(Debug, Clone, Copy, PartialEq, Eq, Structural)]
pub enum Propagation {
    Foreground,
    Background,
    Orphan,
}

/// What the arguments asked for, before an object has been read to express it against.
#[derive(Debug, PartialEq)]
pub enum Wanted {
    /// The low-level path: field changes named by JSON pointer.
    Apply { set: Vec<(String, Json)>, unset: Vec<String> },
    /// How many replicas a workload should ask for.
    Scale { replicas: i64 },
    /// An image for each container named.
    SetImage { images: Vec<(String, String)> },
    /// A rollout once more, through the pod template.
    RestartRollout,
    /// Whether the scheduler may place pods on a node.
    Schedulable { allowed: bool },
    /// Labels or annotations; a key without a value is removed.
    Metadata { curation: Curated, pairs: Vec<(String, Option<String>)> },
    /// The object itself.
    Delete { propagation: Propagation },
}

/// What a `Wanted` says.
pub enum WantedView {
    Apply { set: Seq<(Seq<char>, JsonView)>, unset: Seq<Seq<char>> },
    Scale { replicas: int },
    SetImage { images: Seq<(Seq<char>, Seq<char>)> },
    RestartRollout,
    Schedulable { allowed: bool },
    Metadata { curation: Curated, pairs: Seq<(Seq<char>, Option<Seq<char>>)> },
    Delete { propagation: Propagation },
}

/// What some images are.
pub open spec fn image_views(images: Seq<(String, String)>) -> Seq<(Seq<char>, Seq<char>)> {
    images.map_values(|image: (String, String)| (image.0@, image.1@))
}

/// What some pairs are.
pub open spec fn pair_views(pairs: Seq<(String, Option<String>)>) -> Seq<
    (Seq<char>, Option<Seq<char>>),
> {
    pairs.map_values(|pair: (String, Option<String>)| (pair.0@, text_view(pair.1)))
}

impl View for Wanted {
    type V = WantedView;

    open spec fn view(&self) -> WantedView {
        match self {
            Wanted::Apply { set, unset } => WantedView::Apply {
                set: member_views(set@),
                unset: views(unset@),
            },
            Wanted::Scale { replicas } => WantedView::Scale { replicas: *replicas as int },
            Wanted::SetImage { images } => WantedView::SetImage { images: image_views(images@) },
            Wanted::RestartRollout => WantedView::RestartRollout,
            Wanted::Schedulable { allowed } => WantedView::Schedulable { allowed: *allowed },
            Wanted::Metadata { curation, pairs } => WantedView::Metadata {
                curation: *curation,
                pairs: pair_views(pairs@),
            },
            Wanted::Delete { propagation } => WantedView::Delete { propagation: *propagation },
        }
    }
}

// --- pointers -------------------------------------------------------------------------------------

pub const STATUS: &'static str = "/status";

pub const STATUS_PREFIX: &'static str = "/status/";

pub const WRITES_STATUS: &'static str =
    "`{}` writes observed state, which this provider does not write";

pub const WRITES_STATUS_HELP: &'static str =
    "§33.6 asks a provider to preserve desired/observed semantics and mutation \
    boundaries. `status` is a controller's report of what it observed, reached through \
    its own subresource wherever one is served: sent to the object endpoint the field is \
    dropped and the request still answers 200, and sent to the subresource it succeeds \
    and a value meant to say what a controller saw now says what somebody typed (Gate G, \
    §62.7). Change the desired state and let the controller write what it observes; read \
    the observed side with `get k8s-resource`, which keeps the two apart already.";

pub const NOT_A_PATH: &'static str = "`{}` is not a field path";

pub const NOT_A_PATH_HELP: &'static str =
    "A field path is a JSON pointer: it starts with `/` and names the fields down to the one \
    being changed, as in `/spec/template/spec/containers/0/image`.";

/// Whether a pointer reaches into observed state.
pub open spec fn reaches_status(path: Seq<char>) -> bool {
    path == STATUS@ || begins(path, STATUS_PREFIX@)
}

/// What is wrong with a field path, where something is. Observed state is a controller's report and
/// is refused before anything is asked of a cluster.
pub open spec fn pointer_fault(path: Seq<char>) -> Option<Refusal> {
    if reaches_status(path) {
        Some(refusal(Class::Unsupported, filled(WRITES_STATUS@, seq![path]), WRITES_STATUS_HELP@))
    } else if path.len() > 1 && path[0] == '/' {
        None
    } else {
        Some(refusal(Class::Unsupported, filled(NOT_A_PATH@, seq![path]), NOT_A_PATH_HELP@))
    }
}

/// What is wrong with the first of some field paths with which something is.
pub open spec fn first_fault(paths: Seq<Seq<char>>) -> Option<Refusal>
    decreases paths.len(),
{
    if paths.len() == 0 {
        None
    } else {
        match first_fault(paths.drop_last()) {
            Some(fault) => Some(fault),
            None => pointer_fault(paths.last()),
        }
    }
}

/// Whether a text may stand as a field path.
pub fn check_pointer(path: &str) -> (r: Result<(), WireError>)
    ensures
        match r {
            Ok(_) => pointer_fault(path@) is None,
            Err(error) => pointer_fault(path@) == Some(error@),
        },
{
    if same(path, STATUS) || behind(path, STATUS_PREFIX).is_some() {
        return Err(
            failure(Class::Unsupported, fill1(WRITES_STATUS, path), WRITES_STATUS_HELP),
        );
    }
    let shape: Vec<char> = chars(path);
    if shape.len() > 1 && shape[0] == '/' {
        return Ok(());
    }
    Err(failure(Class::Unsupported, fill1(NOT_A_PATH, path), NOT_A_PATH_HELP))
}

pub const SET_SHAPE: &'static str =
    "`set` is a mapping from a field path to the value it should hold";

pub const SET_SHAPE_HELP: &'static str =
    "For example `--set '{\"/spec/replicas\": 2}'`. A path is a JSON pointer into the \
    object, which is the same notation every other part of this provider reads a field \
    by.";

/// The field paths of a mapping.
pub open spec fn paths_of(fields: Seq<(Seq<char>, JsonView)>) -> Seq<Seq<char>> {
    fields.map_values(|field: (Seq<char>, JsonView)| field.0)
}

/// The pointers and values a mapping sets, or the fault of the first pointer that has one.
pub open spec fn pointers_of(fields: Seq<(Seq<char>, JsonView)>) -> Result<
    Seq<(Seq<char>, JsonView)>,
    Refusal,
> {
    match first_fault(paths_of(fields)) {
        Some(fault) => Err(fault),
        None => Ok(fields),
    }
}

/// The mapping a `set` argument spells: a record as it is, and a quoted document as what it reads
/// as, where it reads as a mapping.
pub open spec fn mapping_of(set: JsonView) -> Option<Seq<(Seq<char>, JsonView)>> {
    match set {
        JsonView::Object(fields) => Some(fields),
        JsonView::Text(document) => match parsed(document) {
            Some(JsonView::Object(fields)) => Some(fields),
            _ => None,
        },
        _ => None,
    }
}

/// What the `set` of an apply says.
pub open spec fn set_wanted(options: Seq<(Seq<char>, JsonView)>) -> Result<
    Seq<(Seq<char>, JsonView)>,
    Refusal,
> {
    match member(options, "set"@) {
        None => Ok(Seq::empty()),
        Some(set) => match mapping_of(set) {
            Some(fields) => pointers_of(fields),
            None => Err(refusal(Class::Unsupported, SET_SHAPE@, SET_SHAPE_HELP@)),
        },
    }
}

/// The pointers and values a mapping sets.
///
/// # Errors
///
/// The fault of the first pointer that has one.
pub fn pointers_in(fields: &Vec<(String, Json)>) -> (r: Result<Vec<(String, Json)>, WireError>)
    ensures
        match r {
            Ok(set) => pointers_of(member_views(fields@)) == Ok::<
                Seq<(Seq<char>, JsonView)>,
                Refusal,
            >(member_views(set@)),
            Err(error) => pointers_of(member_views(fields@)) == Err::<
                Seq<(Seq<char>, JsonView)>,
                Refusal,
            >(error@),
        },
{
    broadcast use group_json;

    let ghost all = member_views(fields@);
    let ghost paths = paths_of(all);
    let mut out: Vec<(String, Json)> = Vec::new();
    let mut i: usize = 0;
    assert(member_views(out@) =~= all.take(0));
    while i < fields.len()
        invariant
            i <= fields.len(),
            all == member_views(fields@),
            paths == paths_of(all),
            first_fault(paths.take(i as int)) is None,
            member_views(out@) == all.take(i as int),
        decreases fields.len() - i,
    {
        broadcast use group_json;

        let ghost held = member_views(out@);
        proof {
            assert(all[i as int] == (fields@[i as int].0@, fields@[i as int].1@));
            assert(paths.take(i + 1).drop_last() =~= paths.take(i as int));
            assert(paths.take(i + 1).last() == fields@[i as int].0@);
        }
        if let Err(error) = check_pointer(fields[i].0.as_str()) {
            proof {
                fault_stays(paths, i + 1);
            }
            return Err(error);
        }
        let value: Json = fields[i].1.clone();
        out.push((fields[i].0.clone(), value));
        i = i + 1;
        assert(member_views(out@) =~= all.take(i as int));
    }
    assert(paths.take(i as int) =~= paths);
    assert(all.take(i as int) =~= all);
    Ok(out)
}

/// A fault among the first of some paths is the fault of all of them.
proof fn fault_stays(paths: Seq<Seq<char>>, upto: int)
    requires
        0 <= upto <= paths.len(),
        first_fault(paths.take(upto)) is Some,
    ensures
        first_fault(paths) == first_fault(paths.take(upto)),
    decreases paths.len() - upto,
{
    if upto == paths.len() {
        assert(paths.take(upto) =~= paths);
    } else {
        assert(paths.take(upto + 1).drop_last() =~= paths.take(upto));
        fault_stays(paths, upto + 1);
    }
}

/// The JSON pointers and values an `apply` sets.
///
/// Two spellings, because a shell has two ways to hand over a mapping: a record arrives as one, and
/// a quoted document arrives as text.
///
/// # Errors
///
/// A refusal where the argument is neither, or where a pointer cannot be one.
pub fn pointers(options: &Options) -> (r: Result<Vec<(String, Json)>, WireError>)
    ensures
        match r {
            Ok(set) => set_wanted(options@) == Ok::<Seq<(Seq<char>, JsonView)>, Refusal>(
                member_views(set@),
            ),
            Err(error) => set_wanted(options@) == Err::<Seq<(Seq<char>, JsonView)>, Refusal>(
                error@,
            ),
        },
{
    let set: &Json = match options.get("set") {
        Some(set) => set,
        None => {
            let none: Vec<(String, Json)> = Vec::new();
            assert(member_views(none@) =~= Seq::<(Seq<char>, JsonView)>::empty());
            return Ok(none);
        },
    };
    match set {
        Json::Object(fields) => pointers_in(fields),
        Json::Text(document) => {
            if let Some(json) = read_document(document.as_str()) {
                if let Json::Object(fields) = &json {
                    return pointers_in(fields);
                }
            }
            Err(failure(Class::Unsupported, SET_SHAPE.to_owned(), SET_SHAPE_HELP))
        },
        _ => Err(failure(Class::Unsupported, SET_SHAPE.to_owned(), SET_SHAPE_HELP)),
    }
}

pub const UNSET_SHAPE: &'static str = "`unset` is a field path, or a list of them";

pub const UNSET_SHAPE_HELP: &'static str =
    "For example `--unset /spec/replicas`. Server-side apply expresses a removal by \
    the field's absence from the applied document (§44.1).";

/// What the `unset` of an apply says.
pub open spec fn unset_wanted(options: Seq<(Seq<char>, JsonView)>) -> Result<
    Seq<Seq<char>>,
    Refusal,
> {
    match member(options, "unset"@) {
        None => Ok(Seq::empty()),
        Some(JsonView::Text(one)) => match pointer_fault(one) {
            Some(fault) => Err(fault),
            None => Ok(seq![one]),
        },
        Some(JsonView::Array(many)) => match first_fault(texts_in(many)) {
            Some(fault) => Err(fault),
            None => Ok(texts_in(many)),
        },
        Some(_) => Err(refusal(Class::Unsupported, UNSET_SHAPE@, UNSET_SHAPE_HELP@)),
    }
}

/// The JSON pointers an `apply` removes.
///
/// # Errors
///
/// A refusal where the argument is no path and no list, or where a pointer cannot be one.
pub fn unset(options: &Options) -> (r: Result<Vec<String>, WireError>)
    ensures
        match r {
            Ok(paths) => unset_wanted(options@) == Ok::<Seq<Seq<char>>, Refusal>(views(paths@)),
            Err(error) => unset_wanted(options@) == Err::<Seq<Seq<char>>, Refusal>(error@),
        },
{
    broadcast use group_views;

    let unset: &Json = match options.get("unset") {
        Some(unset) => unset,
        None => {
            return Ok(Vec::new());
        },
    };
    let paths: Vec<String> = match unset {
        Json::Text(one) => {
            if let Err(error) = check_pointer(one.as_str()) {
                return Err(error);
            }
            let only: Vec<String> = vec![one.clone()];
            assert(views(only@) =~= seq![one@]);
            return Ok(only);
        },
        Json::Array(many) => collect(many),
        _ => {
            return Err(failure(Class::Unsupported, UNSET_SHAPE.to_owned(), UNSET_SHAPE_HELP));
        },
    };
    let ghost all = views(paths@);
    let mut i: usize = 0;
    while i < paths.len()
        invariant
            i <= paths.len(),
            all == views(paths@),
            unset_wanted(options@) == match first_fault(all) {
                Some(fault) => Err::<Seq<Seq<char>>, Refusal>(fault),
                None => Ok(all),
            },
            first_fault(all.take(i as int)) is None,
        decreases paths.len() - i,
    {
        proof {
            assert(all.take(i + 1).drop_last() =~= all.take(i as int));
            assert(all.take(i + 1).last() == paths@[i as int]@);
        }
        if let Err(error) = check_pointer(paths[i].as_str()) {
            proof {
                fault_stays(all, i + 1);
            }
            return Err(error);
        }
        i = i + 1;
    }
    assert(all.take(i as int) =~= all);
    Ok(paths)
}

// --- pairs ----------------------------------------------------------------------------------------

pub const PAIRS_SHAPE: &'static str = "`{}` is written as `<key>=<value>`";

pub const PAIRS_SHAPE_HELP: &'static str =
    "Write it more than once for more than one. A trailing `=` with nothing after it \
    removes the entry rather than setting it to the empty string.";

pub const NOT_A_PAIR: &'static str = "`{}` is not a `<key>=<value>` pair";

pub const NOT_A_PAIR_HELP: &'static str =
    "For example `--label tier=edge`. A trailing `=` with nothing after it \
    removes the entry.";

pub const NO_KEY: &'static str = "`{}` names no key";

pub const NO_KEY_HELP: &'static str =
    "A key is what the value is stored under, and an empty one is not a key.";

/// What one word says: a key and a value, the value behind the first `=`; an empty value is none.
pub open spec fn pair_of(word: Seq<char>) -> Result<(Seq<char>, Option<Seq<char>>), Refusal> {
    match cut_at(word, '=') {
        None => Err(refusal(Class::Unsupported, filled(NOT_A_PAIR@, seq![word]), NOT_A_PAIR_HELP@)),
        Some((key, value)) => if key.len() == 0 {
            Err(refusal(Class::Unsupported, filled(NO_KEY@, seq![word]), NO_KEY_HELP@))
        } else {
            Ok((key, nonempty(Some(value))))
        },
    }
}

/// What some words say, or what is wrong with the first that says nothing.
pub open spec fn pairs_of(words: Seq<Seq<char>>) -> Result<
    Seq<(Seq<char>, Option<Seq<char>>)>,
    Refusal,
>
    decreases words.len(),
{
    if words.len() == 0 {
        Ok(Seq::empty())
    } else {
        match pairs_of(words.drop_last()) {
            Err(fault) => Err(fault),
            Ok(pairs) => match pair_of(words.last()) {
                Err(fault) => Err(fault),
                Ok(pair) => Ok(pairs.push(pair)),
            },
        }
    }
}

/// The words a repeatable argument was written as.
pub open spec fn words_of(written: JsonView) -> Seq<Seq<char>> {
    match written {
        JsonView::Text(one) => seq![one],
        JsonView::Array(many) => texts_in(many),
        _ => Seq::empty(),
    }
}

/// What a repeatable `<key>=<value>` argument says.
pub open spec fn pairs_wanted(
    options: Seq<(Seq<char>, JsonView)>,
    name: Seq<char>,
) -> Result<Seq<(Seq<char>, Option<Seq<char>>)>, Refusal> {
    match member(options, name) {
        None => Ok(Seq::empty()),
        Some(written) => if words_of(written).len() == 0 {
            Err(
                refusal(
                    Class::Unsupported,
                    filled(PAIRS_SHAPE@, seq![name]),
                    PAIRS_SHAPE_HELP@,
                ),
            )
        } else {
            pairs_of(words_of(written))
        },
    }
}

/// What one word says.
fn pair(word: &str) -> (r: Result<(String, Option<String>), WireError>)
    ensures
        match r {
            Ok(pair) => pair_of(word@) == Ok::<(Seq<char>, Option<Seq<char>>), Refusal>(
                (pair.0@, text_view(pair.1)),
            ),
            Err(error) => pair_of(word@) == Err::<(Seq<char>, Option<Seq<char>>), Refusal>(error@),
        },
{
    match cut(word, '=') {
        None => Err(failure(Class::Unsupported, fill1(NOT_A_PAIR, word), NOT_A_PAIR_HELP)),
        Some((key, value)) => {
            if chars(key.as_str()).len() == 0 {
                return Err(failure(Class::Unsupported, fill1(NO_KEY, word), NO_KEY_HELP));
            }
            if chars(value.as_str()).len() == 0 {
                Ok((key, None))
            } else {
                Ok((key, Some(value)))
            }
        },
    }
}

/// A fault among the first of some words is the fault of all of them.
proof fn word_fault_stays(words: Seq<Seq<char>>, upto: int)
    requires
        0 <= upto <= words.len(),
        pairs_of(words.take(upto)) is Err,
    ensures
        pairs_of(words) == pairs_of(words.take(upto)),
    decreases words.len() - upto,
{
    if upto == words.len() {
        assert(words.take(upto) =~= words);
    } else {
        assert(words.take(upto + 1).drop_last() =~= words.take(upto));
        word_fault_stays(words, upto + 1);
    }
}

/// A repeatable `<key>=<value>` argument, where an empty value means removal.
///
/// # Errors
///
/// A refusal where the argument holds no words, or a word is no pair.
pub fn pairs(options: &Options, name: &str) -> (r: Result<
    Vec<(String, Option<String>)>,
    WireError,
>)
    ensures
        match r {
            Ok(pairs) => pairs_wanted(options@, name@) == Ok::<
                Seq<(Seq<char>, Option<Seq<char>>)>,
                Refusal,
            >(pair_views(pairs@)),
            Err(error) => pairs_wanted(options@, name@) == Err::<
                Seq<(Seq<char>, Option<Seq<char>>)>,
                Refusal,
            >(error@),
        },
{
    let mut out: Vec<(String, Option<String>)> = Vec::new();
    assert(pair_views(out@) =~= Seq::<(Seq<char>, Option<Seq<char>>)>::empty());
    let written: &Json = match options.get(name) {
        Some(written) => written,
        None => {
            return Ok(out);
        },
    };
    let words: Vec<String> = match written {
        Json::Text(one) => {
            let only: Vec<String> = vec![one.clone()];
            assert(views(only@) =~= seq![one@]);
            only
        },
        Json::Array(many) => collect(many),
        _ => {
            let none: Vec<String> = Vec::new();
            assert(views(none@) =~= Seq::<Seq<char>>::empty());
            none
        },
    };
    let ghost all = views(words@);
    assert(all == words_of(written@));
    if words.len() == 0 {
        return Err(failure(Class::Unsupported, fill1(PAIRS_SHAPE, name), PAIRS_SHAPE_HELP));
    }
    let mut i: usize = 0;
    while i < words.len()
        invariant
            i <= words.len(),
            all == views(words@),
            pairs_wanted(options@, name@) == pairs_of(all),
            pairs_of(all.take(i as int)) == Ok::<Seq<(Seq<char>, Option<Seq<char>>)>, Refusal>(
                pair_views(out@),
            ),
        decreases words.len() - i,
    {
        proof {
            assert(all.take(i + 1).drop_last() =~= all.take(i as int));
            assert(all.take(i + 1).last() == words@[i as int]@);
        }
        let ghost held = pair_views(out@);
        match pair(words[i].as_str()) {
            Ok(pair) => {
                out.push(pair);
                assert(pair_views(out@) =~= held.push((pair.0@, text_view(pair.1))));
            },
            Err(error) => {
                proof {
                    word_fault_stays(all, i + 1);
                }
                return Err(error);
            },
        }
        i = i + 1;
    }
    assert(all.take(i as int) =~= all);
    Ok(out)
}

// --- flags and numbers ----------------------------------------------------------------------------

/// The flag a value is or spells.
pub open spec fn spelled_flag(value: JsonView) -> Option<bool> {
    match value {
        JsonView::Bool(flag) => Some(flag),
        JsonView::Text(text) => if text == "true"@ {
            Some(true)
        } else if text == "false"@ {
            Some(false)
        } else {
            None
        },
        _ => None,
    }
}

/// The whole number a value is or spells, where an `i64` holds it.
pub open spec fn spelled_int(value: JsonView) -> Option<int> {
    match value {
        JsonView::Text(text) => match whole_number(text) {
            Some(n) => if i64::MIN <= n <= i64::MAX {
                Some(n)
            } else {
                None
            },
            None => None,
        },
        _ => int_of(Some(value)),
    }
}

/// The flag a value is or spells.
fn read_flag(value: &Json) -> (r: Option<bool>)
    ensures
        r == spelled_flag(value@),
{
    match value {
        Json::Bool(flag) => Some(*flag),
        Json::Text(text) => if same(text.as_str(), "true") {
            Some(true)
        } else if same(text.as_str(), "false") {
            Some(false)
        } else {
            None
        },
        _ => None,
    }
}

/// The whole number a value is or spells.
fn read_int(value: &Json) -> (r: Option<i64>)
    ensures
        match r {
            Some(n) => spelled_int(value@) == Some(n as int),
            None => spelled_int(value@) is None,
        },
{
    match value {
        Json::Text(text) => whole(text.as_str()),
        _ => value.as_i64(),
    }
}

/// Whether a boolean argument was written and is true.
pub open spec fn is_flagged(options: Seq<(Seq<char>, JsonView)>, name: Seq<char>) -> bool {
    match member(options, name) {
        Some(value) => spelled_flag(value) == Some(true),
        None => false,
    }
}

/// Whether a boolean argument was written and is true.
pub fn flag(options: &Options, name: &str) -> (r: bool)
    ensures
        r == is_flagged(options@, name@),
{
    match options.get(name) {
        Some(value) => match read_flag(value) {
            Some(flag) => flag,
            None => false,
        },
        None => false,
    }
}

pub const NOT_A_POLICY: &'static str = "`{}` is not a propagation policy";

pub const NOT_A_POLICY_HELP: &'static str =
    "§45.2's three: `Foreground` keeps the object until its dependents are gone, \
    `Background` removes it now and collects them afterwards, `Orphan` leaves them \
    behind owned by nothing.";

/// The propagation policy a deletion was asked for, in any case; the API server's own where it was
/// asked for none.
pub open spec fn policy_wanted(options: Seq<(Seq<char>, JsonView)>) -> Result<
    Propagation,
    Refusal,
> {
    match text_option(options, "propagation"@) {
        None => Ok(Propagation::Background),
        Some(chosen) => {
            let chosen = lowered(chosen);
            if chosen == "foreground"@ {
                Ok(Propagation::Foreground)
            } else if chosen == "background"@ {
                Ok(Propagation::Background)
            } else if chosen == "orphan"@ {
                Ok(Propagation::Orphan)
            } else {
                Err(
                    refusal(
                        Class::Unsupported,
                        filled(NOT_A_POLICY@, seq![chosen]),
                        NOT_A_POLICY_HELP@,
                    ),
                )
            }
        },
    }
}

/// The propagation policy a deletion was asked for, defaulting to the API server's own.
///
/// # Errors
///
/// A refusal where the word is none of the three.
pub fn propagation(options: &Options) -> (r: Result<Propagation, WireError>)
    ensures
        match r {
            Ok(policy) => policy_wanted(options@) == Ok::<Propagation, Refusal>(policy),
            Err(error) => policy_wanted(options@) == Err::<Propagation, Refusal>(error@),
        },
{
    let chosen: String = match options.text("propagation") {
        Some(chosen) => lower(chosen),
        None => {
            return Ok(Propagation::Background);
        },
    };
    if same(chosen.as_str(), "foreground") {
        Ok(Propagation::Foreground)
    } else if same(chosen.as_str(), "background") {
        Ok(Propagation::Background)
    } else if same(chosen.as_str(), "orphan") {
        Ok(Propagation::Orphan)
    } else {
        Err(
            failure(
                Class::Unsupported,
                fill1(NOT_A_POLICY, chosen.as_str()),
                NOT_A_POLICY_HELP,
            ),
        )
    }
}

// --- one action -----------------------------------------------------------------------------------

pub const REPLICAS_SHAPE: &'static str = "`replicas` is a whole number of replicas";

pub const REPLICAS_SHAPE_HELP: &'static str =
    "For example `--replicas 3`. §43.3's `scale workload`, which is a change to \
    `/spec/replicas`.";

pub const REPLICAS_NEGATIVE: &'static str = "`{}` is not a number of replicas";

pub const REPLICAS_NEGATIVE_HELP: &'static str =
    "A replica count is zero or more. Zero is a scale to nothing, which the plan \
    reports as stopping the pods that are running (§46.2).";

pub const NO_IMAGE: &'static str = "`{}` names a container and no image";

pub const NO_IMAGE_HELP: &'static str =
    "`--image <container>=<image>`, as in `--image web=registry.example/web:2`. \
    The container is named rather than numbered because server-side apply \
    merges list entries by key (§44.1).";

pub const SCHEDULABLE_SHAPE: &'static str = "`schedulable` is true or false";

pub const SCHEDULABLE_SHAPE_HELP: &'static str =
    "`--schedulable false` cordons the node and `--schedulable true` uncordons \
    it (§43.3). Neither moves a pod that is already running on it.";

pub const SEVERAL_ACTIONS: &'static str =
    "one change describes one action, and this one names {}";

pub const SEVERAL_ACTIONS_HELP: &'static str =
    "§46.3 gives one verification rule per action and §46.2 one set of effects, so a plan \
    that carried two transitions would have a rule belonging to one of them and effects \
    belonging to both. Make them one at a time.";

pub const NO_ACTION: &'static str = "the invocation named no change to make";

pub const NO_ACTION_HELP: &'static str =
    "§43.3's curated actions are `--replicas`, `--image`, `--restart_rollout`, \
    `--schedulable`, `--label` and `--annotation`. `--set` and `--unset` are §43.4's \
    low-level path, which names raw JSON pointers.";

/// What `replicas` asks for, where it was written.
pub open spec fn replicas_wanted(options: Seq<(Seq<char>, JsonView)>) -> Result<
    Option<WantedView>,
    Refusal,
> {
    match member(options, "replicas"@) {
        None => Ok(None),
        Some(value) => match spelled_int(value) {
            None => Err(refusal(Class::Unsupported, REPLICAS_SHAPE@, REPLICAS_SHAPE_HELP@)),
            Some(n) => if n < 0 {
                Err(
                    refusal(
                        Class::Unsupported,
                        filled(REPLICAS_NEGATIVE@, seq![signed_decimal(n)]),
                        REPLICAS_NEGATIVE_HELP@,
                    ),
                )
            } else {
                Ok(Some(WantedView::Scale { replicas: n }))
            },
        },
    }
}

/// The containers and images of some pairs, or the fault of the first that names no image.
pub open spec fn images_of(pairs: Seq<(Seq<char>, Option<Seq<char>>)>) -> Result<
    Seq<(Seq<char>, Seq<char>)>,
    Refusal,
>
    decreases pairs.len(),
{
    if pairs.len() == 0 {
        Ok(Seq::empty())
    } else {
        match images_of(pairs.drop_last()) {
            Err(fault) => Err(fault),
            Ok(images) => match pairs.last().1 {
                Some(image) => Ok(images.push((pairs.last().0, image))),
                None => Err(
                    refusal(
                        Class::Unsupported,
                        filled(NO_IMAGE@, seq![pairs.last().0]),
                        NO_IMAGE_HELP@,
                    ),
                ),
            },
        }
    }
}

/// What `image` asks for, where it was written.
pub open spec fn image_wanted(options: Seq<(Seq<char>, JsonView)>) -> Result<
    Option<WantedView>,
    Refusal,
> {
    match pairs_wanted(options, "image"@) {
        Err(fault) => Err(fault),
        Ok(pairs) => if pairs.len() == 0 {
            Ok(None)
        } else {
            match images_of(pairs) {
                Err(fault) => Err(fault),
                Ok(images) => Ok(Some(WantedView::SetImage { images })),
            }
        },
    }
}

/// What `restart_rollout` asks for, where it was written.
pub open spec fn restart_wanted(options: Seq<(Seq<char>, JsonView)>) -> Result<
    Option<WantedView>,
    Refusal,
> {
    Ok(
        if is_flagged(options, "restart_rollout"@) {
            Some(WantedView::RestartRollout)
        } else {
            None
        },
    )
}

/// What `schedulable` asks for, where it was written.
pub open spec fn schedulable_wanted(options: Seq<(Seq<char>, JsonView)>) -> Result<
    Option<WantedView>,
    Refusal,
> {
    match member(options, "schedulable"@) {
        None => Ok(None),
        Some(value) => match spelled_flag(value) {
            None => Err(refusal(Class::Unsupported, SCHEDULABLE_SHAPE@, SCHEDULABLE_SHAPE_HELP@)),
            Some(allowed) => Ok(Some(WantedView::Schedulable { allowed })),
        },
    }
}

/// What `label` or `annotation` asks for, where it was written.
pub open spec fn metadata_wanted(
    options: Seq<(Seq<char>, JsonView)>,
    name: Seq<char>,
    curation: Curated,
) -> Result<Option<WantedView>, Refusal> {
    match pairs_wanted(options, name) {
        Err(fault) => Err(fault),
        Ok(pairs) => if pairs.len() == 0 {
            Ok(None)
        } else {
            Ok(Some(WantedView::Metadata { curation, pairs }))
        },
    }
}

/// What `set` and `unset` ask for together, where either was written.
pub open spec fn apply_wanted(options: Seq<(Seq<char>, JsonView)>) -> Result<
    Option<WantedView>,
    Refusal,
> {
    match set_wanted(options) {
        Err(fault) => Err(fault),
        Ok(set) => match unset_wanted(options) {
            Err(fault) => Err(fault),
            Ok(unset) => if set.len() == 0 && unset.len() == 0 {
                Ok(None)
            } else {
                Ok(Some(WantedView::Apply { set, unset }))
            },
        },
    }
}

/// What has been asked for so far: each action under the argument that asks for it, or the fault
/// that was met first.
pub type Chosen = Result<Seq<(Seq<char>, WantedView)>, Refusal>;

/// What has been asked for once one more argument has been read.
pub open spec fn and_also(
    chosen: Chosen,
    name: Seq<char>,
    wanted: Result<Option<WantedView>, Refusal>,
) -> Chosen {
    match chosen {
        Err(fault) => Err(fault),
        Ok(actions) => match wanted {
            Err(fault) => Err(fault),
            Ok(None) => Ok(actions),
            Ok(Some(wanted)) => Ok(actions.push((name, wanted))),
        },
    }
}

/// Everything the arguments of a field-writing command ask for, read in order.
pub open spec fn all_wanted(options: Seq<(Seq<char>, JsonView)>) -> Chosen {
    let nothing: Chosen = Ok(Seq::empty());
    let replicas = and_also(nothing, "replicas"@, replicas_wanted(options));
    let image = and_also(replicas, "image"@, image_wanted(options));
    let restart = and_also(image, "restart_rollout"@, restart_wanted(options));
    let schedulable = and_also(restart, "schedulable"@, schedulable_wanted(options));
    let label = and_also(
        schedulable,
        "label"@,
        metadata_wanted(options, "label"@, Curated::Label),
    );
    let annotation = and_also(
        label,
        "annotation"@,
        metadata_wanted(options, "annotation"@, Curated::Annotate),
    );
    and_also(annotation, "set"@, apply_wanted(options))
}

/// The arguments that ask for something, each between back quotes.
pub open spec fn quoted_names(actions: Seq<(Seq<char>, WantedView)>) -> Seq<Seq<char>> {
    actions.map_values(|action: (Seq<char>, WantedView)| "`"@ + action.0 + "`"@)
}

/// The one action that was asked for; a refusal where it is none or more than one.
pub open spec fn settled(chosen: Chosen) -> Result<WantedView, Refusal> {
    match chosen {
        Err(fault) => Err(fault),
        Ok(actions) => if actions.len() > 1 {
            Err(
                refusal(
                    Class::Unsupported,
                    filled(SEVERAL_ACTIONS@, seq![joined(quoted_names(actions), " and "@)]),
                    SEVERAL_ACTIONS_HELP@,
                ),
            )
        } else if actions.len() == 1 {
            Ok(actions[0].1)
        } else {
            Err(refusal(Class::Unsupported, NO_ACTION@, NO_ACTION_HELP@))
        },
    }
}

/// What some chosen actions are.
pub open spec fn chosen_views(chosen: Seq<(&'static str, Wanted)>) -> Seq<(Seq<char>, WantedView)> {
    chosen.map_values(|action: (&'static str, Wanted)| (action.0@, action.1@))
}

/// What `replicas` asks for, where it was written.
fn replicas(options: &Options) -> (r: Result<Option<Wanted>, WireError>)
    ensures
        step_view(r) == replicas_wanted(options@),
{
    let value: &Json = match options.get("replicas") {
        Some(value) => value,
        None => {
            return Ok(None);
        },
    };
    match read_int(value) {
        None => Err(failure(Class::Unsupported, REPLICAS_SHAPE.to_owned(), REPLICAS_SHAPE_HELP)),
        Some(n) => if n < 0 {
            Err(
                failure(
                    Class::Unsupported,
                    fill1(REPLICAS_NEGATIVE, signed(n).as_str()),
                    REPLICAS_NEGATIVE_HELP,
                ),
            )
        } else {
            Ok(Some(Wanted::Scale { replicas: n }))
        },
    }
}

/// What one argument asks for.
pub open spec fn step_view(step: Result<Option<Wanted>, WireError>) -> Result<
    Option<WantedView>,
    Refusal,
> {
    match step {
        Ok(Some(wanted)) => Ok(Some(wanted@)),
        Ok(None) => Ok(None),
        Err(error) => Err(error@),
    }
}

/// A fault among the first of some pairs is the fault of all of them.
proof fn image_fault_stays(pairs: Seq<(Seq<char>, Option<Seq<char>>)>, upto: int)
    requires
        0 <= upto <= pairs.len(),
        images_of(pairs.take(upto)) is Err,
    ensures
        images_of(pairs) == images_of(pairs.take(upto)),
    decreases pairs.len() - upto,
{
    if upto == pairs.len() {
        assert(pairs.take(upto) =~= pairs);
    } else {
        assert(pairs.take(upto + 1).drop_last() =~= pairs.take(upto));
        image_fault_stays(pairs, upto + 1);
    }
}

/// What `image` asks for, where it was written.
fn image(options: &Options) -> (r: Result<Option<Wanted>, WireError>)
    ensures
        step_view(r) == image_wanted(options@),
{
    let named: Vec<(String, Option<String>)> = match pairs(options, "image") {
        Ok(named) => named,
        Err(error) => {
            return Err(error);
        },
    };
    let ghost all = pair_views(named@);
    assert(all.len() == named@.len());
    if named.len() == 0 {
        return Ok(None);
    }
    let mut images: Vec<(String, String)> = Vec::new();
    let mut i: usize = 0;
    assert(image_views(images@) =~= Seq::<(Seq<char>, Seq<char>)>::empty());
    while i < named.len()
        invariant
            i <= named.len(),
            all == pair_views(named@),
            image_wanted(options@) == match images_of(all) {
                Err(fault) => Err::<Option<WantedView>, Refusal>(fault),
                Ok(images) => Ok(Some(WantedView::SetImage { images })),
            },
            images_of(all.take(i as int)) == Ok::<Seq<(Seq<char>, Seq<char>)>, Refusal>(
                image_views(images@),
            ),
        decreases named.len() - i,
    {
        proof {
            assert(all.take(i + 1).drop_last() =~= all.take(i as int));
            assert(all.take(i + 1).last() == (named@[i as int].0@, text_view(named@[i as int].1)));
        }
        let ghost held = image_views(images@);
        match &named[i].1 {
            Some(image) => {
                images.push((named[i].0.clone(), image.clone()));
                assert(image_views(images@) =~= held.push((named@[i as int].0@, image@)));
            },
            None => {
                proof {
                    image_fault_stays(all, i + 1);
                }
                return Err(
                    failure(
                        Class::Unsupported,
                        fill1(NO_IMAGE, named[i].0.as_str()),
                        NO_IMAGE_HELP,
                    ),
                );
            },
        }
        i = i + 1;
    }
    assert(all.take(i as int) =~= all);
    Ok(Some(Wanted::SetImage { images }))
}

/// What `schedulable` asks for, where it was written.
fn schedulable(options: &Options) -> (r: Result<Option<Wanted>, WireError>)
    ensures
        step_view(r) == schedulable_wanted(options@),
{
    match options.get("schedulable") {
        None => Ok(None),
        Some(value) => match read_flag(value) {
            Some(allowed) => Ok(Some(Wanted::Schedulable { allowed })),
            None => Err(
                failure(Class::Unsupported, SCHEDULABLE_SHAPE.to_owned(), SCHEDULABLE_SHAPE_HELP),
            ),
        },
    }
}

/// What `label` or `annotation` asks for, where it was written.
fn metadata(options: &Options, name: &str, curation: Curated) -> (r: Result<
    Option<Wanted>,
    WireError,
>)
    ensures
        step_view(r) == metadata_wanted(options@, name@, curation),
{
    match pairs(options, name) {
        Err(error) => Err(error),
        Ok(pairs) => {
            assert(pair_views(pairs@).len() == pairs@.len());
            if pairs.len() == 0 {
                Ok(None)
            } else {
                Ok(Some(Wanted::Metadata { curation, pairs }))
            }
        },
    }
}

/// What `set` and `unset` ask for together, where either was written.
fn apply(options: &Options) -> (r: Result<Option<Wanted>, WireError>)
    ensures
        step_view(r) == apply_wanted(options@),
{
    broadcast use group_json;

    let set: Vec<(String, Json)> = match pointers(options) {
        Ok(set) => set,
        Err(error) => {
            return Err(error);
        },
    };
    let unset: Vec<String> = match unset(options) {
        Ok(unset) => unset,
        Err(error) => {
            return Err(error);
        },
    };
    assert(member_views(set@).len() == set@.len());
    assert(views(unset@).len() == unset@.len());
    if set.len() == 0 && unset.len() == 0 {
        Ok(None)
    } else {
        Ok(Some(Wanted::Apply { set, unset }))
    }
}

/// Adds what one argument asks for to what has been asked for.
fn note(
    chosen: &mut Vec<(&'static str, Wanted)>,
    name: &'static str,
    step: Result<Option<Wanted>, WireError>,
) -> (r: Result<(), WireError>)
    ensures
        and_also(Ok(chosen_views(old(chosen)@)), name@, step_view(step)) == match r {
            Ok(_) => Ok::<Seq<(Seq<char>, WantedView)>, Refusal>(chosen_views(final(chosen)@)),
            Err(error) => Err(error@),
        },
{
    match step {
        Ok(Some(wanted)) => {
            let ghost held = chosen_views(chosen@);
            chosen.push((name, wanted));
            assert(chosen_views(chosen@) =~= held.push((name@, wanted@)));
            Ok(())
        },
        Ok(None) => Ok(()),
        Err(error) => Err(error),
    }
}

/// The arguments that ask for something, each between back quotes.
fn quoted(chosen: &Vec<(&'static str, Wanted)>) -> (r: Vec<String>)
    ensures
        views(r@) == quoted_names(chosen_views(chosen@)),
{
    let ghost wanted = quoted_names(chosen_views(chosen@));
    let mut out: Vec<String> = Vec::new();
    let mut i: usize = 0;
    while i < chosen.len()
        invariant
            i <= chosen.len(),
            wanted == quoted_names(chosen_views(chosen@)),
            views(out@) == wanted.take(i as int),
        decreases chosen.len() - i,
    {
        broadcast use group_views;

        out.push(join3("`", chosen[i].0, "`"));
        i = i + 1;
        assert(wanted.take(i as int) =~= wanted.take(i - 1).push(wanted[i - 1]));
    }
    assert(wanted.take(i as int) =~= wanted);
    out
}

/// Which curated transition, or which low-level apply, the arguments of a field-writing command ask
/// for.
///
/// # Errors
///
/// The fault of the first argument that has one, in the order they are read; otherwise a refusal
/// where more than one action was asked for, naming each, or none.
pub fn fields_wanted(options: &Options) -> (r: Result<Wanted, WireError>)
    ensures
        match r {
            Ok(wanted) => settled(all_wanted(options@)) == Ok::<WantedView, Refusal>(wanted@),
            Err(error) => settled(all_wanted(options@)) == Err::<WantedView, Refusal>(error@),
        },
{
    let mut chosen: Vec<(&'static str, Wanted)> = Vec::new();
    assert(chosen_views(chosen@) =~= Seq::<(Seq<char>, WantedView)>::empty());
    if let Err(error) = note(&mut chosen, "replicas", replicas(options)) {
        return Err(error);
    }
    if let Err(error) = note(&mut chosen, "image", image(options)) {
        return Err(error);
    }
    let restart: Option<Wanted> = if flag(options, "restart_rollout") {
        Some(Wanted::RestartRollout)
    } else {
        None
    };
    if let Err(error) = note(&mut chosen, "restart_rollout", Ok(restart)) {
        return Err(error);
    }
    if let Err(error) = note(&mut chosen, "schedulable", schedulable(options)) {
        return Err(error);
    }
    if let Err(error) = note(&mut chosen, "label", metadata(options, "label", Curated::Label)) {
        return Err(error);
    }
    if let Err(error) = note(
        &mut chosen,
        "annotation",
        metadata(options, "annotation", Curated::Annotate),
    ) {
        return Err(error);
    }
    if let Err(error) = note(&mut chosen, "set", apply(options)) {
        return Err(error);
    }
    let ghost actions = chosen_views(chosen@);
    assert(all_wanted(options@) == Ok::<Seq<(Seq<char>, WantedView)>, Refusal>(actions));
    assert(actions.len() == chosen@.len());
    if chosen.len() > 1 {
        return Err(
            failure(
                Class::Unsupported,
                fill1(SEVERAL_ACTIONS, join(&quoted(&chosen), " and ").as_str()),
                SEVERAL_ACTIONS_HELP,
            ),
        );
    }
    match chosen.pop() {
        Some((_, wanted)) => Ok(wanted),
        None => Err(failure(Class::Unsupported, NO_ACTION.to_owned(), NO_ACTION_HELP)),
    }
}

// --- the intent -----------------------------------------------------------------------------------

/// What a plan or a mutation was asked to do.
#[derive(Debug, PartialEq)]
pub struct Intent {
    pub selector: Selector,
    pub name: String,
    pub wanted: Wanted,
}

/// What an intent says.
pub struct IntentView {
    pub selector: Selection,
    pub name: Seq<char>,
    pub wanted: WantedView,
}

impl View for Intent {
    type V = IntentView;

    open spec fn view(&self) -> IntentView {
        IntentView { selector: self.selector@, name: self.name@, wanted: self.wanted@ }
    }
}

pub const NO_NAME: &'static str = "the invocation named no object to change";

pub const NO_NAME_HELP: &'static str =
    "§21.3 of the generic provider contract: a change is resolved to one object \
    before it is made, so `name` is required. A change aimed at a collection is \
    not something this provider does.";

pub const NOT_PLANNED: &'static str = "`action {}` is not a change this provider plans";

pub const NOT_PLANNED_HELP: &'static str =
    "§43.3 keeps the action surface bounded: `apply` states a set of field changes, \
    `delete` removes the object. Every candidate action of that section reduces to \
    one of the two.";

/// What a kind of write is asked to do.
pub open spec fn write_wanted(
    options: Seq<(Seq<char>, JsonView)>,
    writes: Writes,
) -> Result<WantedView, Refusal> {
    match writes {
        Writes::Fields => settled(all_wanted(options)),
        Writes::Object => match policy_wanted(options) {
            Ok(propagation) => Ok(WantedView::Delete { propagation }),
            Err(fault) => Err(fault),
        },
    }
}

/// What the arguments ask for, where it is decided which kind of write it is.
pub open spec fn intended(options: Seq<(Seq<char>, JsonView)>, writes: Writes) -> Result<
    IntentView,
    Refusal,
> {
    match nonempty(text_option(options, "name"@)) {
        None => Err(refusal(Class::Unsupported, NO_NAME@, NO_NAME_HELP@)),
        Some(name) => match write_wanted(options, writes) {
            Ok(wanted) => Ok(IntentView { selector: selected(options), name, wanted }),
            Err(fault) => Err(fault),
        },
    }
}

/// What the arguments ask for, where they say which kind of write it is.
pub open spec fn planned(options: Seq<(Seq<char>, JsonView)>) -> Result<IntentView, Refusal> {
    match text_option(options, "action"@) {
        None => intended(options, Writes::Fields),
        Some(action) => if action == "apply"@ {
            intended(options, Writes::Fields)
        } else if action == "delete"@ {
            intended(options, Writes::Object)
        } else {
            Err(
                refusal(
                    Class::Unsupported,
                    filled(NOT_PLANNED@, seq![action]),
                    NOT_PLANNED_HELP@,
                ),
            )
        },
    }
}

/// What reading an intent came to.
pub open spec fn intent_view(intent: Result<Intent, WireError>) -> Result<IntentView, Refusal> {
    match intent {
        Ok(intent) => Ok(intent@),
        Err(error) => Err(error@),
    }
}

impl Intent {
    /// What the arguments ask for, where the caller may ask for either kind of write.
    ///
    /// # Errors
    ///
    /// A refusal naming what the arguments did not say.
    pub fn read(options: &Options) -> (r: Result<Intent, WireError>)
        ensures
            intent_view(r) == planned(options@),
    {
        match options.text("action") {
            None => Intent::of(options, Writes::Fields),
            Some(action) => if same(action, "apply") {
                Intent::of(options, Writes::Fields)
            } else if same(action, "delete") {
                Intent::of(options, Writes::Object)
            } else {
                Err(failure(Class::Unsupported, fill1(NOT_PLANNED, action), NOT_PLANNED_HELP))
            },
        }
    }

    /// What the arguments ask for, where the *command* already decided which kind of write it is.
    ///
    /// # Errors
    ///
    /// A refusal naming what the arguments did not say.
    pub fn of(options: &Options, writes: Writes) -> (r: Result<Intent, WireError>)
        ensures
            intent_view(r) == intended(options@, writes),
    {
        let name: String = match options.some_text("name") {
            Some(name) => name,
            None => {
                return Err(failure(Class::Unsupported, NO_NAME.to_owned(), NO_NAME_HELP));
            },
        };
        let wanted: Wanted = match writes {
            Writes::Fields => match fields_wanted(options) {
                Ok(wanted) => wanted,
                Err(error) => {
                    return Err(error);
                },
            },
            Writes::Object => match propagation(options) {
                Ok(propagation) => Wanted::Delete { propagation },
                Err(error) => {
                    return Err(error);
                },
            },
        };
        Ok(Intent { selector: Selector::from_options(options), name, wanted })
    }

    /// The verb the API server has to offer for this change to be possible at all.
    pub fn verb(&self) -> (r: crate::discovery::Verb)
        ensures
            r == verb_of(self@.wanted),
    {
        match &self.wanted {
            Wanted::Delete { .. } => crate::discovery::Verb::Delete,
            _ => crate::discovery::Verb::Patch,
        }
    }
}

/// The verb the API server has to offer for a change to be possible at all.
pub open spec fn verb_of(wanted: WantedView) -> crate::discovery::Verb {
    match wanted {
        WantedView::Delete { .. } => crate::discovery::Verb::Delete,
        _ => crate::discovery::Verb::Patch,
    }
}

// --- laws -----------------------------------------------------------------------------------------

/// Whether an argument was written and asks for an action.
pub open spec fn asks_for_something(wanted: Result<Option<WantedView>, Refusal>) -> bool {
    wanted is Ok && wanted->Ok_0 is Some
}

/// An action that was asked for stays asked for, whatever else is read after it.
proof fn asked_stays(
    chosen: Chosen,
    name: Seq<char>,
    wanted: Result<Option<WantedView>, Refusal>,
)
    ensures
        and_also(chosen, name, wanted) matches Ok(actions) ==> chosen matches Ok(before)
            && actions.len() >= before.len() && actions.len() <= before.len() + 1 && (
        asks_for_something(wanted) ==> actions.len() == before.len() + 1),
{
}

/// Two of the actions in one invocation are never carried out: where two arguments each ask for
/// one, the answer is a refusal.
pub proof fn one_change_is_one_action(options: Seq<(Seq<char>, JsonView)>)
    requires
        ({
            let asked = seq![
                replicas_wanted(options),
                image_wanted(options),
                restart_wanted(options),
                schedulable_wanted(options),
                metadata_wanted(options, "label"@, Curated::Label),
                metadata_wanted(options, "annotation"@, Curated::Annotate),
                apply_wanted(options),
            ];
            exists|i: int, j: int|
                0 <= i < j < asked.len() && asks_for_something(#[trigger] asked[i])
                    && asks_for_something(#[trigger] asked[j])
        }),
    ensures
        settled(all_wanted(options)) is Err,
{
    let nothing: Chosen = Ok(Seq::empty());
    let c1 = and_also(nothing, "replicas"@, replicas_wanted(options));
    let c2 = and_also(c1, "image"@, image_wanted(options));
    let c3 = and_also(c2, "restart_rollout"@, restart_wanted(options));
    let c4 = and_also(c3, "schedulable"@, schedulable_wanted(options));
    let c5 = and_also(c4, "label"@, metadata_wanted(options, "label"@, Curated::Label));
    let c6 = and_also(
        c5,
        "annotation"@,
        metadata_wanted(options, "annotation"@, Curated::Annotate),
    );
    asked_stays(nothing, "replicas"@, replicas_wanted(options));
    asked_stays(c1, "image"@, image_wanted(options));
    asked_stays(c2, "restart_rollout"@, restart_wanted(options));
    asked_stays(c3, "schedulable"@, schedulable_wanted(options));
    asked_stays(c4, "label"@, metadata_wanted(options, "label"@, Curated::Label));
    asked_stays(
        c5,
        "annotation"@,
        metadata_wanted(options, "annotation"@, Curated::Annotate),
    );
    asked_stays(c6, "set"@, apply_wanted(options));
}

/// No path without a fault reaches into observed state.
proof fn faultless_paths_stay_out_of_status(paths: Seq<Seq<char>>)
    requires
        first_fault(paths) is None,
    ensures
        forall|i: int| 0 <= i < paths.len() ==> !reaches_status(#[trigger] paths[i]),
    decreases paths.len(),
{
    if paths.len() > 0 {
        faultless_paths_stay_out_of_status(paths.drop_last());
        assert forall|i: int| 0 <= i < paths.len() implies !reaches_status(#[trigger] paths[i]) by {
            if i < paths.len() - 1 {
                assert(paths.drop_last()[i] == paths[i]);
            }
        }
    }
}

/// What the low-level path sets or removes never reaches into observed state: such an argument is
/// refused before a cluster is asked anything.
pub proof fn observed_state_is_never_wanted(options: Seq<(Seq<char>, JsonView)>)
    requires
        asks_for_something(apply_wanted(options)),
    ensures
        apply_wanted(options) matches Ok(Some(WantedView::Apply { set, unset })) && (forall|i: int|
            0 <= i < set.len() ==> !reaches_status((#[trigger] set[i]).0)) && (forall|i: int|
            0 <= i < unset.len() ==> !reaches_status(#[trigger] unset[i])),
{
    let set = set_wanted(options)->Ok_0;
    let unset = unset_wanted(options)->Ok_0;
    if set.len() > 0 {
        faultless_paths_stay_out_of_status(paths_of(set));
        assert forall|i: int| 0 <= i < set.len() implies !reaches_status((#[trigger] set[i]).0) by {
            assert(paths_of(set)[i] == set[i].0);
        }
    }
    if unset.len() > 0 {
        match member(options, "unset"@) {
            Some(JsonView::Array(many)) => {
                faultless_paths_stay_out_of_status(texts_in(many));
            },
            _ => {},
        }
    }
}

/// The two spellings of one mapping are one change: a record, and the text of a document that reads
/// as that mapping.
pub proof fn spellings_are_alike(
    spelled: Seq<(Seq<char>, JsonView)>,
    written: Seq<(Seq<char>, JsonView)>,
    document: Seq<char>,
    mapping: Seq<(Seq<char>, JsonView)>,
)
    requires
        member(spelled, "set"@) == Some(JsonView::Text(document)),
        parsed(document) == Some(JsonView::Object(mapping)),
        member(written, "set"@) == Some(JsonView::Object(mapping)),
    ensures
        set_wanted(spelled) == set_wanted(written),
        set_wanted(written) == pointers_of(mapping),
{
}

/// Paths have no fault exactly where each of them has none.
proof fn faultless_is_each(paths: Seq<Seq<char>>)
    ensures
        first_fault(paths) is None <==> forall|i: int|
            0 <= i < paths.len() ==> pointer_fault(#[trigger] paths[i]) is None,
    decreases paths.len(),
{
    if paths.len() > 0 {
        let rest = paths.drop_last();
        faultless_is_each(rest);
        if first_fault(rest) is None && pointer_fault(paths.last()) is None {
            assert forall|i: int| 0 <= i < paths.len() implies pointer_fault(
                #[trigger] paths[i],
            ) is None by {
                if i < rest.len() {
                    assert(rest[i] == paths[i]);
                }
            }
        } else if first_fault(rest) is Some {
            let i = choose|i: int|
                0 <= i < rest.len() && pointer_fault(#[trigger] rest[i]) is Some;
            assert(paths[i] == rest[i]);
        } else {
            assert(paths[paths.len() - 1] == paths.last());
        }
    }
}

/// A mapping is taken whole or not at all: it sets exactly its own entries, and it does so exactly
/// where every one of its paths may stand as one.
pub proof fn a_mapping_is_taken_whole(mapping: Seq<(Seq<char>, JsonView)>)
    ensures
        pointers_of(mapping) is Ok <==> forall|i: int|
            0 <= i < mapping.len() ==> pointer_fault((#[trigger] mapping[i]).0) is None,
        pointers_of(mapping) is Ok ==> pointers_of(mapping) == Ok::<
            Seq<(Seq<char>, JsonView)>,
            Refusal,
        >(mapping),
{
    let paths = paths_of(mapping);
    faultless_is_each(paths);
    if forall|i: int| 0 <= i < paths.len() ==> pointer_fault(#[trigger] paths[i]) is None {
        assert forall|i: int| 0 <= i < mapping.len() implies pointer_fault(
            (#[trigger] mapping[i]).0,
        ) is None by {
            assert(paths[i] == mapping[i].0);
        }
    } else {
        let i = choose|i: int| 0 <= i < paths.len() && pointer_fault(#[trigger] paths[i]) is Some;
        assert(mapping[i].0 == paths[i]);
    }
}

}
