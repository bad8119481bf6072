//! What is asked for is what is done: from the arguments of a write to the changes it makes.
//!
//! Each law here speaks of the arguments that were given, of the intent that was read from them and
//! of the action it came to against one object.

use vstd::prelude::*;
use vstd::string::*;

use crate::actions::{action_on, action_view, change_views, Action, FieldChange};
use crate::contributions::Writes;
use crate::digits::whole_number;
use crate::discovery::Verb;
use crate::dynamic::Selector;
use crate::failure::{Refusal, WireError};
use crate::intent::{
    all_wanted, apply_wanted, check_pointer, image_wanted, intended, metadata_wanted, policy_wanted,
    replicas_wanted, restart_wanted, schedulable_wanted, settled, Curated, Intent, IntentView,
    Propagation, WantedView,
};
use crate::json::{member, Json, JsonView};
use crate::objects::Object;
use crate::options::Options;
use crate::pointer::at;
use crate::text::lowered;

verus! {

// --- what was given -------------------------------------------------------------------------------

/// Whether the first argument of a name has this value.
pub open spec fn gives(
    options: Seq<(Seq<char>, JsonView)>,
    name: Seq<char>,
    value: JsonView,
) -> bool {
    exists|i: int|
        #![trigger options[i]]
        0 <= i < options.len() && options[i].0 == name && options[i].1 == value && forall|j: int|
            0 <= j < i ==> (#[trigger] options[j]).0 != name
}

/// Whether no argument has a name.
pub open spec fn gives_no(options: Seq<(Seq<char>, JsonView)>, name: Seq<char>) -> bool {
    forall|j: int| 0 <= j < options.len() ==> (#[trigger] options[j]).0 != name
}

/// What stands under a name among some members is the first of that name, and nothing stands there
/// exactly where none has it.
pub proof fn a_member_is_the_first_of_its_name(
    members: Seq<(Seq<char>, JsonView)>,
    name: Seq<char>,
)
    ensures
        forall|value: JsonView| gives(members, name, value) <==> member(members, name) == Some(value),
        gives_no(members, name) <==> member(members, name) is None,
    decreases members.len(),
{
    if members.len() > 0 {
        let rest = members.skip(1);
        a_member_is_the_first_of_its_name(rest, name);
        assert forall|value: JsonView|
            gives(members, name, value) <==> member(members, name) == Some(value) by {
            stands_first(members, name, value);
        }
        assert(rest.len() + 1 == members.len());
        if gives_no(rest, name) && members[0].0 != name {
            assert forall|j: int| 0 <= j < members.len() implies (#[trigger] members[j]).0 != name by {
                if j > 0 {
                    assert(rest[j - 1] == members[j]);
                }
            }
        }
        if gives_no(members, name) {
            assert(members[0].0 != name);
            assert forall|j: int| 0 <= j < rest.len() implies (#[trigger] rest[j]).0 != name by {
                assert(rest[j] == members[j + 1]);
            }
        }
    }
}

proof fn stands_first(members: Seq<(Seq<char>, JsonView)>, name: Seq<char>, value: JsonView)
    ensures
        gives(members, name, value) <==> member(members, name) == Some(value),
    decreases members.len(),
{
    if members.len() > 0 {
        let rest = members.skip(1);
        stands_first(rest, name, value);
        if members[0].0 == name {
            if members[0].1 == value {
                assert(gives(members, name, value));
            }
        } else {
            if gives(members, name, value) {
                let i = choose|i: int|
                    #![trigger members[i]]
                    0 <= i < members.len() && members[i].0 == name && members[i].1 == value
                        && forall|j: int| 0 <= j < i ==> (#[trigger] members[j]).0 != name;
                assert(rest[i - 1] == members[i]);
                assert forall|j: int| 0 <= j < i - 1 implies (#[trigger] rest[j]).0 != name by {
                    assert(rest[j] == members[j + 1]);
                }
                assert(gives(rest, name, value));
            }
            if gives(rest, name, value) {
                let i = choose|i: int|
                    #![trigger rest[i]]
                    0 <= i < rest.len() && rest[i].0 == name && rest[i].1 == value && forall|j: int|
                        0 <= j < i ==> (#[trigger] rest[j]).0 != name;
                assert(members[i + 1] == rest[i]);
                assert forall|j: int| 0 <= j < i + 1 implies (#[trigger] members[j]).0 != name by {
                    if j > 0 {
                        assert(rest[j - 1] == members[j]);
                    }
                }
                assert(gives(members, name, value));
            }
        }
    }
}

/// Whether an intent was read from the arguments of a kind of write, and came to an action against
/// an object.
pub open spec fn comes_to(
    options: Options,
    writes: Writes,
    object: Object,
    intent: Intent,
    action: Action,
) -> bool {
    &&& call_ensures(Intent::of, (&options, writes), Ok::<Intent, WireError>(intent))
    &&& call_ensures(Intent::action, (&intent, &object), Ok::<Action, WireError>(action))
}

/// What was read from the arguments is what they intend, and what it came to is what was wanted of
/// the object.
pub(crate) proof fn what_it_came_to(
    options: Options,
    writes: Writes,
    object: Object,
    intent: Intent,
    action: Action,
)
    requires
        comes_to(options, writes, object, intent, action),
    ensures
        intended(options@, writes) == Ok::<IntentView, Refusal>(intent@),
        action_on(intent@.wanted, object) == action_view(Ok::<Action, WireError>(action)),
{
}

/// What each argument of a field-writing command asks for, by its place among them.
pub(crate) open spec fn asked(options: Seq<(Seq<char>, JsonView)>, place: int) -> Result<
    Option<WantedView>,
    Refusal,
> {
    if place == 0 {
        replicas_wanted(options)
    } else if place == 1 {
        image_wanted(options)
    } else if place == 2 {
        restart_wanted(options)
    } else if place == 3 {
        schedulable_wanted(options)
    } else if place == 4 {
        metadata_wanted(options, "label"@, Curated::Label)
    } else if place == 5 {
        metadata_wanted(options, "annotation"@, Curated::Annotate)
    } else {
        apply_wanted(options)
    }
}

/// Where one argument asks for an action and something is settled on, that action is it; and none
/// of
/// the arguments is at fault.
pub(crate) proof fn the_one_that_asks(options: Seq<(Seq<char>, JsonView)>, place: int)
    requires
        0 <= place < 7,
        settled(all_wanted(options)) is Ok,
    ensures
        asked(options, place) is Ok,
        asked(options, place) matches Ok(Some(wanted)) ==> settled(all_wanted(options)) == Ok::<
            WantedView,
            Refusal,
        >(wanted),
{
}

// --- one change -----------------------------------------------------------------------------------

/// Whether a change sets the field at a pointer, against what a document holds there.
pub open spec fn sets(change: FieldChange, native: JsonView, path: Seq<char>) -> bool {
    &&& change.path@ == path
    &&& change.after is Some
    &&& match change.before {
        Some(held) => at(native, path) == Some(held@),
        None => at(native, path) is None,
    }
}

/// Whether a change sets the field at a pointer to a text.
pub open spec fn sets_text(
    change: FieldChange,
    native: JsonView,
    path: Seq<char>,
    text: Seq<char>,
) -> bool {
    sets(change, native, path) && (change.after matches Some(Json::Text(held)) && held@ == text)
}

/// Whether a change removes the field at a pointer, which the document holds.
pub open spec fn removes(change: FieldChange, native: JsonView, path: Seq<char>) -> bool {
    &&& change.path@ == path
    &&& change.after is None
    &&& change.before matches Some(held) && at(native, path) == Some(held@)
}

/// An action that shows one change makes that change.
proof fn one_change(action: Action)
    requires
        action@ is Curated,
        action@->Curated_changes.len() == 1,
    ensures
        action is Curated,
        action->Curated_curation == action@->Curated_curation,
        action->Curated_changes@.len() == 1,
        action->Curated_changes@[0]@ == action@->Curated_changes[0],
{
    let changes = action->Curated_changes@;
    assert(action@->Curated_changes == change_views(changes));
    assert(change_views(changes)[0] == changes[0]@);
}

/// A node asked not to be schedulable is marked unschedulable, and one asked to be schedulable is
/// marked not to be: one change, whatever the node holds.
pub proof fn a_cordon_marks_the_node(
    options: Options,
    object: Object,
    intent: Intent,
    action: Action,
    allowed: bool,
)
    requires
        comes_to(options, Writes::Fields, object, intent, action),
        gives(options@, "schedulable"@, JsonView::Bool(allowed)) || gives(
            options@,
            "schedulable"@,
            JsonView::Text(
                if allowed {
                    "true"@
                } else {
                    "false"@
                },
            ),
        ),
    ensures
        action matches Action::Curated { curation, changes } && {
            &&& curation == if allowed {
                Curated::Uncordon
            } else {
                Curated::Cordon
            }
            &&& changes@.len() == 1
            &&& sets(changes@[0], object.native@, "/spec/unschedulable"@)
            &&& changes@[0].after == Some(Json::Bool(!allowed))
        },
{
    what_it_came_to(options, Writes::Fields, object, intent, action);
    reveal_strlit("true");
    reveal_strlit("false");
    assert("true"@.len() == 4 && "false"@.len() == 5);
    a_member_is_the_first_of_its_name(options@, "schedulable"@);
    the_one_that_asks(options@, 3);
    assert(intent@.wanted == (WantedView::Schedulable { allowed }));
    one_change(action);
    let change = action->Curated_changes@[0];
    assert(sets(change, object.native@, "/spec/unschedulable"@));
    assert(change.after->0@ == JsonView::Bool(!allowed));
}

/// A workload asked for so many replicas is set to exactly so many: one change, whatever it holds.
pub proof fn a_scale_sets_the_count_asked_for(
    options: Options,
    object: Object,
    intent: Intent,
    action: Action,
    value: JsonView,
)
    requires
        comes_to(options, Writes::Fields, object, intent, action),
        gives(options@, "replicas"@, value),
    ensures
        action matches Action::Curated { curation, changes } && {
            &&& curation == Curated::Scale
            &&& changes@.len() == 1
            &&& sets(changes@[0], object.native@, "/spec/replicas"@)
            &&& changes@[0].after matches Some(Json::Integer(n)) && 0 <= n <= i64::MAX && (value
                == JsonView::Integer(n as int) || (value matches JsonView::Text(text)
                && whole_number(text) == Some(n as int)))
        },
{
    what_it_came_to(options, Writes::Fields, object, intent, action);
    a_member_is_the_first_of_its_name(options@, "replicas"@);
    the_one_that_asks(options@, 0);
    one_change(action);
    let change = action->Curated_changes@[0];
    assert(sets(change, object.native@, "/spec/replicas"@));
    assert(change.after->0@ is Integer);
}

/// A number of replicas below zero is refused, and so is what is no number.
pub proof fn a_count_below_zero_is_refused(
    options: Options,
    value: JsonView,
    read: Result<Intent, WireError>,
)
    requires
        call_ensures(Intent::of, (&options, Writes::Fields), read),
        gives(options@, "replicas"@, value),
        value matches JsonView::Integer(n) ==> n < 0 || n > i64::MAX,
        value matches JsonView::Text(text) ==> (whole_number(text) matches Some(n) ==> n < 0 || n
            > i64::MAX),
    ensures
        read is Err,
{
    a_member_is_the_first_of_its_name(options@, "replicas"@);
    if settled(all_wanted(options@)) is Ok {
        the_one_that_asks(options@, 0);
    }
}

/// A rollout asked for once more is marked with the version it was planned against, in the pod
/// template; an object without one is refused.
pub proof fn a_restart_marks_the_template(
    options: Options,
    object: Object,
    intent: Intent,
    made: Result<Action, WireError>,
)
    requires
        call_ensures(Intent::of, (&options, Writes::Fields), Ok::<Intent, WireError>(intent)),
        call_ensures(Intent::action, (&intent, &object), made),
        gives(options@, "restart_rollout"@, JsonView::Bool(true)) || gives(
            options@,
            "restart_rollout"@,
            JsonView::Text("true"@),
        ),
    ensures
        at(object.native@, "/spec/template"@) is None ==> made is Err,
        at(object.native@, "/spec/template"@) is Some ==> (made matches Ok(
            Action::Curated { curation, changes },
        ) && {
            &&& curation == Curated::RestartRollout
            &&& changes@.len() == 1
            &&& sets_text(
                changes@[0],
                object.native@,
                "/spec/template/metadata/annotations/ono-sendai.io~1restarted-from-resource-version"@,
                match object.resource_version {
                    Some(version) => version@,
                    None => "unknown"@,
                },
            )
        }),
{
    a_member_is_the_first_of_its_name(options@, "restart_rollout"@);
    the_one_that_asks(options@, 2);
    assert(intent@.wanted is RestartRollout);
    if at(object.native@, "/spec/template"@) is Some {
        let action = made->Ok_0;
        one_change(action);
        let change = action->Curated_changes@[0];
        assert(sets(change, object.native@, change.path@));
        assert(change.after->0@ is Text);
    }
}

// --- deletions, and what is aimed at --------------------------------------------------------------

/// A deletion is carried out under the policy that was named, in whatever case, and under the API
/// server's own where none was; any other word is refused.
pub proof fn a_deletion_follows_the_policy_named(
    options: Options,
    object: Object,
    intent: Intent,
    action: Action,
)
    requires
        comes_to(options, Writes::Object, object, intent, action),
    ensures
        action is Delete,
        gives_no(options@, "propagation"@) ==> action == (Action::Delete {
            propagation: Propagation::Background,
        }),
        forall|word: Seq<char>|
            #[trigger] gives(options@, "propagation"@, JsonView::Text(word)) ==> {
                ||| lowered(word) == "foreground"@ && action == (Action::Delete {
                    propagation: Propagation::Foreground,
                })
                ||| lowered(word) == "background"@ && action == (Action::Delete {
                    propagation: Propagation::Background,
                })
                ||| lowered(word) == "orphan"@ && action == (Action::Delete {
                    propagation: Propagation::Orphan,
                })
            },
{
    what_it_came_to(options, Writes::Object, object, intent, action);
    a_member_is_the_first_of_its_name(options@, "propagation"@);
    assert(policy_wanted(options@) is Ok);
}

/// A change is aimed at the object that was named, of the kind that was named; where no name was
/// given, or an empty one, it is refused.
pub proof fn a_change_is_aimed_at_what_was_named(
    options: Options,
    writes: Writes,
    read: Result<Intent, WireError>,
)
    requires
        call_ensures(Intent::of, (&options, writes), read),
    ensures
        read matches Ok(intent) ==> {
            &&& intent.name@.len() > 0
            &&& gives(options@, "name"@, JsonView::Text(intent.name@))
            &&& chosen_by(options@, "kind"@, intent.selector.kind)
            &&& chosen_by(options@, "resource"@, intent.selector.resource)
            &&& chosen_by(options@, "version"@, intent.selector.version)
            &&& match intent.selector.group {
                Some(group) => gives(options@, "group"@, JsonView::Text(group@)),
                None => forall|text: Seq<char>|
                    !#[trigger] gives(options@, "group"@, JsonView::Text(text)),
            }
        },
        gives_no(options@, "name"@) ==> read is Err,
{
    a_member_is_the_first_of_its_name(options@, "name"@);
    a_member_is_the_first_of_its_name(options@, "kind"@);
    a_member_is_the_first_of_its_name(options@, "resource"@);
    a_member_is_the_first_of_its_name(options@, "version"@);
    a_member_is_the_first_of_its_name(options@, "group"@);
}

/// A selector holds exactly what was given under each of its names; only a group may be empty.
pub proof fn what_was_selected(options: Options, selector: Selector)
    requires
        call_ensures(Selector::from_options, (&options,), selector),
    ensures
        chosen_by(options@, "kind"@, selector.kind),
        chosen_by(options@, "resource"@, selector.resource),
        chosen_by(options@, "version"@, selector.version),
        match selector.group {
            Some(group) => gives(options@, "group"@, JsonView::Text(group@)),
            None => forall|text: Seq<char>|
                !#[trigger] gives(options@, "group"@, JsonView::Text(text)),
        },
{
    a_member_is_the_first_of_its_name(options@, "kind"@);
    a_member_is_the_first_of_its_name(options@, "resource"@);
    a_member_is_the_first_of_its_name(options@, "version"@);
    a_member_is_the_first_of_its_name(options@, "group"@);
}

/// Whether a text is the one given under a name, or none that is not empty was given there.
pub open spec fn chosen_by(
    options: Seq<(Seq<char>, JsonView)>,
    name: Seq<char>,
    text: Option<String>,
) -> bool {
    match text {
        Some(text) => text@.len() > 0 && gives(options, name, JsonView::Text(text@)),
        None => forall|text: Seq<char>| #[trigger]
            gives(options, name, JsonView::Text(text)) ==> text.len() == 0,
    }
}

/// The word `delete` plans the deletion of the object and `apply`, or no word, a change of its
/// fields; any other word is refused. Only a deletion asks for the right to delete.
pub proof fn the_action_decides_what_is_written(
    options: Options,
    read: Result<Intent, WireError>,
    verb: Verb,
)
    requires
        call_ensures(Intent::read, (&options,), read),
        read matches Ok(intent) ==> call_ensures(Intent::verb, (&intent,), verb),
    ensures
        gives(options@, "action"@, JsonView::Text("delete"@)) ==> (read matches Ok(intent)
            ==> intent.wanted is Delete && verb == Verb::Delete),
        gives(options@, "action"@, JsonView::Text("apply"@)) || gives_no(options@, "action"@) ==> (
        read matches Ok(intent) ==> !(intent.wanted is Delete) && verb == Verb::Patch),
        forall|word: Seq<char>| #[trigger]
            gives(options@, "action"@, JsonView::Text(word)) && word != "apply"@ && word
                != "delete"@ ==> read is Err,
{
    a_member_is_the_first_of_its_name(options@, "action"@);
    reveal_strlit("apply");
    reveal_strlit("delete");
    assert("apply"@.len() == 5 && "delete"@.len() == 6);
}

/// Observed state is not written: `/status` and everything below it is refused, as is what is no
/// pointer; any other pointer that names something may stand.
pub proof fn observed_state_is_refused(path: &str, said: Result<(), WireError>, below: Seq<char>)
    requires
        call_ensures(check_pointer, (path,), said),
    ensures
        path@ == "/status"@ ==> said is Err,
        path@ == "/status/"@ + below ==> said is Err,
        path@.len() < 2 ==> said is Err,
        path@.len() > 0 && path@[0] != '/' ==> said is Err,
        path@.len() > 1 && path@[0] == '/' && path@ != "/status"@ && !(path@.len() >= 8
            && path@.take(8) == "/status/"@) ==> said is Ok,
        said is Err ==> said->Err_0.name@ == "provider.unsupported"@,
{
    reveal_strlit("/status");
    reveal_strlit("/status/");
    assert("/status"@.len() == 7 && "/status/"@.len() == 8);
    if path@ == "/status/"@ + below {
        assert(path@.take(8) =~= "/status/"@);
    }
}

/// A flag is raised where its argument is true, or spells that, and in no other case.
pub proof fn a_flag_is_raised_where_it_is_true(options: Options, name: &str, raised: bool)
    requires
        call_ensures(crate::intent::flag, (&options, name), raised),
    ensures
        raised <==> gives(options@, name@, JsonView::Bool(true)) || gives(
            options@,
            name@,
            JsonView::Text("true"@),
        ),
{
    reveal_strlit("true");
    reveal_strlit("false");
    assert("true"@.len() == 4 && "false"@.len() == 5);
    a_member_is_the_first_of_its_name(options@, name@);
}

/// The object a report is about is the one that was named, where one was.
pub proof fn a_report_is_about_what_was_named(options: Options, named: Option<String>)
    requires
        call_ensures(crate::conditions::named, (&options,), named),
    ensures
        chosen_by(options@, "name"@, named),
{
    a_member_is_the_first_of_its_name(options@, "name"@);
}

}
