//! What was asked for, expressed against what the object actually holds.
//!
//! A plan states the before as well as the after. A field that is not there cannot be removed, and
//! a container that is not in the pod template is a refusal rather than one this provider would add.

use vstd::prelude::*;
use vstd::string::*;

use crate::digits::{decimal, number};
use crate::failure::{failure, refusal, Class, Refusal, WireError};
use crate::fields::texts_under;
use crate::intent::{
    asks_for_something, intended, reaches_status, Curated, Intent, Propagation, Wanted, WantedView,
    STATUS_PREFIX,
};
use crate::json::{entry, group_json, items_of, json_views, member_views, text_of, Json, JsonView};
use crate::objects::Object;
use crate::pointer::{at, escape, escaped};
use crate::text::{
    begins, fill1, fill3, filled, group_views, join, join2, join3, joined, same, text_view, views,
};

verus! {

// --- changes --------------------------------------------------------------------------------------

/// One field change, stated against what the object holds now.
#[derive(Debug, PartialEq)]
pub struct FieldChange {
    pub path: String,
    /// What the field holds; `None` where it is not there.
    pub before: Option<Json>,
    /// What the field should hold; `None` for a removal.
    pub after: Option<Json>,
}

/// What a field change says.
pub struct ChangeView {
    pub path: Seq<char>,
    pub before: Option<JsonView>,
    pub after: Option<JsonView>,
}

/// What an owned value that may not be there is.
pub open spec fn held_view(json: Option<Json>) -> Option<JsonView> {
    match json {
        Some(json) => Some(json@),
        None => None,
    }
}

impl View for FieldChange {
    type V = ChangeView;

    open spec fn view(&self) -> ChangeView {
        ChangeView {
            path: self.path@,
            before: held_view(self.before),
            after: held_view(self.after),
        }
    }
}

/// What some changes say.
pub open spec fn change_views(changes: Seq<FieldChange>) -> Seq<ChangeView> {
    changes.map_values(|change: FieldChange| change@)
}

/// A change, made of field changes or of the object as a whole.
#[derive(Debug, PartialEq)]
pub enum Action {
    Apply { changes: Vec<FieldChange> },
    Curated { curation: Curated, changes: Vec<FieldChange> },
    Delete { propagation: Propagation },
}

/// What an action says.
pub enum ActionView {
    Apply { changes: Seq<ChangeView> },
    Curated { curation: Curated, changes: Seq<ChangeView> },
    Delete { propagation: Propagation },
}

impl View for Action {
    type V = ActionView;

    open spec fn view(&self) -> ActionView {
        match self {
            Action::Apply { changes } => ActionView::Apply { changes: change_views(changes@) },
            Action::Curated { curation, changes } => ActionView::Curated {
                curation: *curation,
                changes: change_views(changes@),
            },
            Action::Delete { propagation } => ActionView::Delete { propagation: *propagation },
        }
    }
}

impl ActionView {
    /// The field changes an action is made of.
    pub open spec fn changes(self) -> Seq<ChangeView> {
        match self {
            ActionView::Apply { changes } => changes,
            ActionView::Curated { changes, .. } => changes,
            ActionView::Delete { .. } => Seq::empty(),
        }
    }
}

/// A field set to a value, stated against what the object holds.
pub open spec fn change_to(native: JsonView, path: Seq<char>, wanted: JsonView) -> ChangeView {
    ChangeView { path, before: at(native, path), after: Some(wanted) }
}

/// A field removed; nothing where the object does not hold it.
pub open spec fn change_away(native: JsonView, path: Seq<char>) -> Seq<ChangeView> {
    match at(native, path) {
        Some(held) => seq![ChangeView { path, before: Some(held), after: None }],
        None => Seq::empty(),
    }
}

/// One field change, stated against what the object holds now.
fn against(object: &Object, path: &str, wanted: Json) -> (r: FieldChange)
    ensures
        r@ == change_to(object.native@, path@, wanted@),
{
    FieldChange {
        path: path.to_owned(),
        before: match object.native.field(path) {
            Some(held) => Some(held.clone()),
            None => None,
        },
        after: Some(wanted),
    }
}

/// Appends the removal of a field, where the object holds it.
fn remove(changes: &mut Vec<FieldChange>, object: &Object, path: &str)
    ensures
        change_views(final(changes)@) == change_views(old(changes)@) + change_away(
            object.native@,
            path@,
        ),
{
    let ghost before = change_views(changes@);
    match object.native.field(path) {
        Some(held) => {
            let change: FieldChange = FieldChange {
                path: path.to_owned(),
                before: Some(held.clone()),
                after: None,
            };
            changes.push(change);
            assert(change_views(changes@) =~= before + seq![change@]);
        },
        None => {
            assert(before + Seq::<ChangeView>::empty() =~= before);
        },
    }
}

/// Appends one field change.
fn add_change(changes: &mut Vec<FieldChange>, change: FieldChange)
    ensures
        change_views(final(changes)@) == change_views(old(changes)@).push(change@),
{
    let ghost before = change_views(changes@);
    changes.push(change);
    assert(change_views(changes@) =~= before.push(change@));
}

// --- the low-level path ---------------------------------------------------------------------------

/// Each pointer set to its value.
pub open spec fn settings(native: JsonView, set: Seq<(Seq<char>, JsonView)>) -> Seq<ChangeView> {
    set.map_values(|field: (Seq<char>, JsonView)| change_to(native, field.0, field.1))
}

/// Each pointer removed that the object holds.
pub open spec fn removals(native: JsonView, unset: Seq<Seq<char>>) -> Seq<ChangeView>
    decreases unset.len(),
{
    if unset.len() == 0 {
        Seq::empty()
    } else {
        removals(native, unset.drop_last()) + change_away(native, unset.last())
    }
}

/// The changes a low-level apply makes.
fn apply_changes(object: &Object, set: &Vec<(String, Json)>, unset: &Vec<String>) -> (r: Vec<
    FieldChange,
>)
    ensures
        change_views(r@) == settings(object.native@, member_views(set@)) + removals(
            object.native@,
            views(unset@),
        ),
{
    broadcast use group_json;

    let ghost native = object.native@;
    let ghost wanted = settings(native, member_views(set@));
    let mut changes: Vec<FieldChange> = Vec::new();
    let mut i: usize = 0;
    assert(change_views(changes@) =~= wanted.take(0));
    while i < set.len()
        invariant
            i <= set.len(),
            native == object.native@,
            wanted == settings(native, member_views(set@)),
            change_views(changes@) == wanted.take(i as int),
        decreases set.len() - i,
    {
        broadcast use group_json;

        let value: Json = set[i].1.clone();
        add_change(&mut changes, against(object, set[i].0.as_str(), value));
        i = i + 1;
        proof {
            assert(member_views(set@)[i - 1] == (set@[i - 1].0@, set@[i - 1].1@));
            assert(wanted.take(i as int) =~= wanted.take(i - 1).push(wanted[i - 1]));
        }
    }
    assert(wanted.take(i as int) =~= wanted);
    let ghost all = views(unset@);
    let mut k: usize = 0;
    assert(wanted + removals(native, all.take(0)) =~= wanted);
    while k < unset.len()
        invariant
            k <= unset.len(),
            native == object.native@,
            all == views(unset@),
            change_views(changes@) == wanted + removals(native, all.take(k as int)),
        decreases unset.len() - k,
    {
        remove(&mut changes, object, unset[k].as_str());
        k = k + 1;
        proof {
            assert(all.take(k as int).drop_last() =~= all.take(k - 1));
            assert(all.take(k as int).last() == unset@[k - 1]@);
            assert((wanted + removals(native, all.take(k - 1))) + change_away(
                native,
                unset@[k - 1]@,
            ) =~= wanted + removals(native, all.take(k as int)));
        }
    }
    assert(all.take(k as int) =~= all);
    changes
}

// --- containers -----------------------------------------------------------------------------------

pub const TEMPLATE_CONTAINERS: &'static str = "/spec/template/spec/containers";

pub const POD_CONTAINERS: &'static str = "/spec/containers";

pub const NO_CONTAINERS: &'static str =
    "`{}` carries no container list, so there is no image to set on it";

pub const NO_CONTAINERS_HELP: &'static str =
    "§43.3's `set image` is a change to a container, and this provider finds containers at \
    `/spec/template/spec/containers` for a workload and `/spec/containers` for a Pod. A \
    custom resource that keeps its containers elsewhere is reachable through the low-level \
    `--set` path, which names the pointer explicitly (§43.4).";

pub const NO_SUCH_CONTAINER: &'static str = "`{}` has no container named `{}`; it has {}";

pub const NO_SUCH_CONTAINER_HELP: &'static str =
    "A container is named rather than numbered because server-side apply merges list \
    entries by key rather than by position (§44.1). A name that matches nothing \
    would otherwise become a container this change adds.";

pub const NONE_READABLE: &'static str = "none this provider could read";

/// Where an object's containers live: a pod template for a controller, the spec itself for a Pod.
pub open spec fn containers_at(object: Object) -> Result<Seq<char>, Refusal> {
    if at(object.native@, TEMPLATE_CONTAINERS@) is Some {
        Ok(TEMPLATE_CONTAINERS@)
    } else if at(object.native@, POD_CONTAINERS@) is Some {
        Ok(POD_CONTAINERS@)
    } else {
        Err(
            refusal(
                Class::Unsupported,
                filled(NO_CONTAINERS@, seq![object.gvk.shown@]),
                NO_CONTAINERS_HELP@,
            ),
        )
    }
}

/// The names of the containers an object lists.
pub open spec fn container_names(native: JsonView, base: Seq<char>) -> Seq<Seq<char>> {
    match items_of(at(native, base)) {
        Some(items) => texts_under(items, "name"@),
        None => Seq::empty(),
    }
}

/// The entries of the container list.
pub open spec fn containers(native: JsonView, base: Seq<char>) -> Seq<JsonView> {
    match items_of(at(native, base)) {
        Some(items) => items,
        None => Seq::empty(),
    }
}

/// Whether an entry of the container list carries a name.
pub open spec fn carries(item: JsonView, name: Seq<char>) -> bool {
    text_of(entry(item, "name"@)) == Some(name)
}

/// The first place of a list whose entry carries a name, or the length of the list where none does.
pub open spec fn first_carrying(items: Seq<JsonView>, name: Seq<char>) -> int
    decreases items.len(),
{
    if items.len() == 0 || carries(items[0], name) {
        0
    } else {
        1 + first_carrying(items.skip(1), name)
    }
}

/// The names in one line, or the words for none.
pub open spec fn names_shown(names: Seq<Seq<char>>) -> Seq<char> {
    if names.len() == 0 {
        NONE_READABLE@
    } else {
        joined(names, ", "@)
    }
}

/// Which entry of the container list carries a name: its place in the list, entries without a name
/// counted too.
pub open spec fn container_at(object: Object, base: Seq<char>, container: Seq<char>) -> Result<
    int,
    Refusal,
> {
    let items = containers(object.native@, base);
    if exists|i: int| 0 <= i < items.len() && carries(#[trigger] items[i], container) {
        Ok(first_carrying(items, container))
    } else {
        Err(
            refusal(
                Class::Unsupported,
                filled(
                    NO_SUCH_CONTAINER@,
                    seq![
                        object.name@,
                        container,
                        names_shown(container_names(object.native@, base)),
                    ],
                ),
                NO_SUCH_CONTAINER_HELP@,
            ),
        )
    }
}

/// Where an object's containers live.
fn container_base(object: &Object) -> (r: Result<&'static str, WireError>)
    ensures
        match r {
            Ok(base) => containers_at(*object) == Ok::<Seq<char>, Refusal>(base@),
            Err(error) => containers_at(*object) == Err::<Seq<char>, Refusal>(error@),
        },
{
    if object.native.field(TEMPLATE_CONTAINERS).is_some() {
        return Ok(TEMPLATE_CONTAINERS);
    }
    if object.native.field(POD_CONTAINERS).is_some() {
        return Ok(POD_CONTAINERS);
    }
    Err(
        failure(
            Class::Unsupported,
            fill1(NO_CONTAINERS, object.gvk.shown.as_str()),
            NO_CONTAINERS_HELP,
        ),
    )
}

/// The names of the containers an object lists.
fn named_containers(object: &Object, base: &str) -> (r: Vec<String>)
    ensures
        views(r@) == container_names(object.native@, base@),
{
    broadcast use group_views;

    match object.native.field(base) {
        Some(json) => match json.as_array() {
            Some(items) => crate::fields::collect_texts(items, "name"),
            None => Vec::new(),
        },
        None => Vec::new(),
    }
}

/// The first entry that carries a name is found where it stands.
proof fn first_carrying_is(items: Seq<JsonView>, name: Seq<char>, place: int)
    requires
        0 <= place < items.len(),
        carries(items[place], name),
        forall|j: int| 0 <= j < place ==> !carries(#[trigger] items[j], name),
    ensures
        first_carrying(items, name) == place,
    decreases place,
{
    if place > 0 {
        assert(!carries(items[0], name));
        assert forall|j: int| 0 <= j < place - 1 implies !carries(
            #[trigger] items.skip(1)[j],
            name,
        ) by {
            assert(items.skip(1)[j] == items[j + 1]);
        }
        first_carrying_is(items.skip(1), name, place - 1);
    }
}

/// The place of the entry of a list that carries a name, where one does.
fn place_carrying(items: &Vec<Json>, name: &str) -> (r: Option<usize>)
    ensures
        match r {
            Some(place) => place < items@.len() && carries(json_views(items@)[place as int], name@)
                && first_carrying(json_views(items@), name@) == place,
            None => forall|j: int|
                0 <= j < json_views(items@).len() ==> !carries(
                    #[trigger] json_views(items@)[j],
                    name@,
                ),
        },
{
    broadcast use group_json;

    let ghost all = json_views(items@);
    let mut i: usize = 0;
    while i < items.len()
        invariant
            i <= items.len(),
            all == json_views(items@),
            forall|j: int| 0 <= j < i ==> !carries(#[trigger] all[j], name@),
        decreases items.len() - i,
    {
        broadcast use group_json;

        assert(all[i as int] == items@[i as int]@);
        let held: Option<&str> = match items[i].get("name") {
            Some(json) => json.as_str(),
            None => None,
        };
        if let Some(text) = held {
            if same(text, name) {
                proof {
                    first_carrying_is(all, name@, i as int);
                }
                return Some(i);
            }
        }
        i = i + 1;
    }
    None
}

/// Which entry of the container list carries this name.
fn container_index(object: &Object, base: &str, container: &str) -> (r: Result<usize, WireError>)
    ensures
        match r {
            Ok(place) => container_at(*object, base@, container@) == Ok::<int, Refusal>(
                place as int,
            ),
            Err(error) => container_at(*object, base@, container@) == Err::<int, Refusal>(error@),
        },
{
    broadcast use group_json;

    let listed: Option<&Vec<Json>> = match object.native.field(base) {
        Some(json) => json.as_array(),
        None => None,
    };
    if let Some(items) = listed {
        if let Some(place) = place_carrying(items, container) {
            assert(carries(containers(object.native@, base@)[place as int], container@));
            return Ok(place);
        }
    }
    let named: Vec<String> = named_containers(object, base);
    let shown: String = if named.len() == 0 {
        NONE_READABLE.to_owned()
    } else {
        join(&named, ", ")
    };
    Err(
        failure(
            Class::Unsupported,
            fill3(NO_SUCH_CONTAINER, object.name.as_str(), container, shown.as_str()),
            NO_SUCH_CONTAINER_HELP,
        ),
    )
}

/// The two changes an image is: the key that list entries are merged by, and the image.
pub open spec fn image_changes(
    native: JsonView,
    base: Seq<char>,
    place: int,
    image: (Seq<char>, Seq<char>),
) -> Seq<ChangeView> {
    let here = base + "/"@ + decimal(place as nat);
    seq![
        change_to(native, here + "/name"@, JsonView::Text(image.0)),
        change_to(native, here + "/image"@, JsonView::Text(image.1)),
    ]
}

/// The changes some images are, or the refusal of the first container that is not there.
pub open spec fn images_changes(
    object: Object,
    base: Seq<char>,
    images: Seq<(Seq<char>, Seq<char>)>,
) -> Result<Seq<ChangeView>, Refusal>
    decreases images.len(),
{
    if images.len() == 0 {
        Ok(Seq::empty())
    } else {
        match images_changes(object, base, images.drop_last()) {
            Err(fault) => Err(fault),
            Ok(changes) => match container_at(object, base, images.last().0) {
                Err(fault) => Err(fault),
                Ok(place) => Ok(
                    changes + image_changes(object.native@, base, place, images.last()),
                ),
            },
        }
    }
}

/// A refusal among the first of some images is that of all of them.
proof fn image_refusal_stays(
    object: Object,
    base: Seq<char>,
    images: Seq<(Seq<char>, Seq<char>)>,
    upto: int,
)
    requires
        0 <= upto <= images.len(),
        images_changes(object, base, images.take(upto)) is Err,
    ensures
        images_changes(object, base, images) == images_changes(object, base, images.take(upto)),
    decreases images.len() - upto,
{
    if upto == images.len() {
        assert(images.take(upto) =~= images);
    } else {
        assert(images.take(upto + 1).drop_last() =~= images.take(upto));
        image_refusal_stays(object, base, images, upto + 1);
    }
}

/// The changes some images are.
fn set_images(object: &Object, base: &str, images: &Vec<(String, String)>) -> (r: Result<
    Vec<FieldChange>,
    WireError,
>)
    ensures
        match r {
            Ok(changes) => images_changes(
                *object,
                base@,
                crate::intent::image_views(images@),
            ) == Ok::<Seq<ChangeView>, Refusal>(change_views(changes@)),
            Err(error) => images_changes(
                *object,
                base@,
                crate::intent::image_views(images@),
            ) == Err::<Seq<ChangeView>, Refusal>(error@),
        },
{
    let ghost all = crate::intent::image_views(images@);
    let ghost native = object.native@;
    let mut changes: Vec<FieldChange> = Vec::new();
    let mut i: usize = 0;
    assert(change_views(changes@) =~= Seq::<ChangeView>::empty());
    while i < images.len()
        invariant
            i <= images.len(),
            all == crate::intent::image_views(images@),
            native == object.native@,
            images_changes(*object, base@, all.take(i as int)) == Ok::<Seq<ChangeView>, Refusal>(
                change_views(changes@),
            ),
        decreases images.len() - i,
    {
        let (container, image): (&String, &String) = (&images[i].0, &images[i].1);
        proof {
            assert(all.take(i + 1).drop_last() =~= all.take(i as int));
            assert(all.take(i + 1).last() == (container@, image@));
        }
        let place: usize = match container_index(object, base, container.as_str()) {
            Ok(place) => place,
            Err(error) => {
                proof {
                    image_refusal_stays(*object, base@, all, i + 1);
                }
                return Err(error);
            },
        };
        let ghost before = change_views(changes@);
        let here: String = join3(base, "/", number(place as u128).as_str());
        let name_at: String = join2(here.as_str(), "/name");
        let image_at: String = join2(here.as_str(), "/image");
        add_change(
            &mut changes,
            against(object, name_at.as_str(), Json::Text(container.clone())),
        );
        add_change(&mut changes, against(object, image_at.as_str(), Json::Text(image.clone())));
        i = i + 1;
        assert(change_views(changes@) =~= before + image_changes(
            native,
            base@,
            place as int,
            (container@, image@),
        ));
    }
    assert(all.take(i as int) =~= all);
    Ok(changes)
}

// --- labels and annotations -----------------------------------------------------------------------

pub const LABELS: &'static str = "/metadata/labels";

pub const ANNOTATIONS: &'static str = "/metadata/annotations";

/// Where the entries of a metadata transition live.
pub open spec fn metadata_at(curation: Curated) -> Seq<char> {
    if curation == Curated::Label {
        LABELS@
    } else {
        ANNOTATIONS@
    }
}

/// The change one pair is: an entry set, or one removed that the object holds.
pub open spec fn pair_change(
    native: JsonView,
    field: Seq<char>,
    pair: (Seq<char>, Option<Seq<char>>),
) -> Seq<ChangeView> {
    let path = field + "/"@ + escaped(pair.0);
    match pair.1 {
        Some(value) => seq![change_to(native, path, JsonView::Text(value))],
        None => change_away(native, path),
    }
}

/// The changes some pairs are.
pub open spec fn pairs_changes(
    native: JsonView,
    field: Seq<char>,
    pairs: Seq<(Seq<char>, Option<Seq<char>>)>,
) -> Seq<ChangeView>
    decreases pairs.len(),
{
    if pairs.len() == 0 {
        Seq::empty()
    } else {
        pairs_changes(native, field, pairs.drop_last()) + pair_change(native, field, pairs.last())
    }
}

/// The changes some pairs are.
fn metadata_changes(object: &Object, field: &str, pairs: &Vec<(String, Option<String>)>) -> (r: Vec<
    FieldChange,
>)
    ensures
        change_views(r@) == pairs_changes(
            object.native@,
            field@,
            crate::intent::pair_views(pairs@),
        ),
{
    let ghost all = crate::intent::pair_views(pairs@);
    let ghost native = object.native@;
    let mut changes: Vec<FieldChange> = Vec::new();
    let mut i: usize = 0;
    assert(change_views(changes@) =~= pairs_changes(native, field@, all.take(0)));
    while i < pairs.len()
        invariant
            i <= pairs.len(),
            all == crate::intent::pair_views(pairs@),
            native == object.native@,
            change_views(changes@) == pairs_changes(native, field@, all.take(i as int)),
        decreases pairs.len() - i,
    {
        let ghost before = change_views(changes@);
        let ghost pair = (pairs@[i as int].0@, text_view(pairs@[i as int].1));
        let path: String = join3(field, "/", escape(pairs[i].0.as_str()).as_str());
        match &pairs[i].1 {
            Some(value) => {
                add_change(
                    &mut changes,
                    against(object, path.as_str(), Json::Text(value.clone())),
                );
            },
            None => {
                remove(&mut changes, object, path.as_str());
            },
        }
        i = i + 1;
        proof {
            assert(all.take(i as int).drop_last() =~= all.take(i - 1));
            assert(all.take(i as int).last() == pair);
            assert(change_views(changes@) =~= before + pair_change(native, field@, pair));
        }
    }
    assert(all.take(i as int) =~= all);
    changes
}

// --- the action -----------------------------------------------------------------------------------

pub const REPLICAS: &'static str = "/spec/replicas";

pub const UNSCHEDULABLE: &'static str = "/spec/unschedulable";

pub const TEMPLATE: &'static str = "/spec/template";

/// The annotation a restarted rollout carries, as a JSON pointer.
pub const RESTART_MARKER: &'static str =
    "/spec/template/metadata/annotations/ono-sendai.io~1restarted-from-resource-version";

pub const UNKNOWN_TOKEN: &'static str = "unknown";

pub const NO_TEMPLATE: &'static str =
    "`{}` carries no pod template, so there is no rollout to restart";

pub const NO_TEMPLATE_HELP: &'static str =
    "§43.3 asks for a restart through an explicit supported mechanism, and \
    the mechanism is the pod template: changing it is what makes a \
    controller replace its pods. An object without one has no rollout, and \
    deleting its pods would be a second mechanism this provider invented.";

/// The version a restart was planned against, as an opaque token and never as a time.
pub open spec fn restart_token(object: Object) -> Seq<char> {
    match object.resource_version {
        Some(version) => version@,
        None => UNKNOWN_TOKEN@,
    }
}

/// What was asked for, expressed against what the object holds.
pub open spec fn action_on(wanted: WantedView, object: Object) -> Result<ActionView, Refusal> {
    let native = object.native@;
    match wanted {
        WantedView::Delete { propagation } => Ok(ActionView::Delete { propagation }),
        WantedView::Apply { set, unset } => Ok(
            ActionView::Apply { changes: settings(native, set) + removals(native, unset) },
        ),
        WantedView::Scale { replicas } => Ok(
            ActionView::Curated {
                curation: Curated::Scale,
                changes: seq![change_to(native, REPLICAS@, JsonView::Integer(replicas))],
            },
        ),
        WantedView::SetImage { images } => match containers_at(object) {
            Err(fault) => Err(fault),
            Ok(base) => match images_changes(object, base, images) {
                Err(fault) => Err(fault),
                Ok(changes) => Ok(ActionView::Curated { curation: Curated::SetImage, changes }),
            },
        },
        WantedView::RestartRollout => if at(native, TEMPLATE@) is None {
            Err(
                refusal(
                    Class::Unsupported,
                    filled(NO_TEMPLATE@, seq![object.gvk.shown@]),
                    NO_TEMPLATE_HELP@,
                ),
            )
        } else {
            Ok(
                ActionView::Curated {
                    curation: Curated::RestartRollout,
                    changes: seq![
                        change_to(native, RESTART_MARKER@, JsonView::Text(restart_token(object))),
                    ],
                },
            )
        },
        WantedView::Schedulable { allowed } => Ok(
            ActionView::Curated {
                curation: if allowed {
                    Curated::Uncordon
                } else {
                    Curated::Cordon
                },
                changes: seq![change_to(native, UNSCHEDULABLE@, JsonView::Bool(!allowed))],
            },
        ),
        WantedView::Metadata { curation, pairs } => Ok(
            ActionView::Curated {
                curation,
                changes: pairs_changes(native, metadata_at(curation), pairs),
            },
        ),
    }
}

/// What expressing a change came to.
pub open spec fn action_view(action: Result<Action, WireError>) -> Result<ActionView, Refusal> {
    match action {
        Ok(action) => Ok(action@),
        Err(error) => Err(error@),
    }
}

/// One change, as a list.
fn single(change: FieldChange) -> (r: Vec<FieldChange>)
    ensures
        change_views(r@) == seq![change@],
{
    let changes: Vec<FieldChange> = vec![change];
    assert(change_views(changes@) =~= seq![change@]);
    changes
}

impl Intent {
    /// The action, expressed against what the object actually holds.
    ///
    /// # Errors
    ///
    /// A refusal where the curated transition names something the object does not have: a container
    /// that is not in the pod template, a container list or a template that is not there.
    pub fn action(&self, object: &Object) -> (r: Result<Action, WireError>)
        ensures
            action_view(r) == action_on(self@.wanted, *object),
    {
        match &self.wanted {
            Wanted::Delete { propagation } => Ok(Action::Delete { propagation: *propagation }),
            Wanted::Apply { set, unset } => Ok(
                Action::Apply { changes: apply_changes(object, set, unset) },
            ),
            Wanted::Scale { replicas } => Ok(
                Action::Curated {
                    curation: Curated::Scale,
                    changes: single(against(object, REPLICAS, Json::Integer(*replicas as i128))),
                },
            ),
            Wanted::SetImage { images } => {
                let base: &'static str = match container_base(object) {
                    Ok(base) => base,
                    Err(error) => {
                        return Err(error);
                    },
                };
                match set_images(object, base, images) {
                    Ok(changes) => Ok(Action::Curated { curation: Curated::SetImage, changes }),
                    Err(error) => Err(error),
                }
            },
            Wanted::RestartRollout => {
                if object.native.field(TEMPLATE).is_none() {
                    return Err(
                        failure(
                            Class::Unsupported,
                            fill1(NO_TEMPLATE, object.gvk.shown.as_str()),
                            NO_TEMPLATE_HELP,
                        ),
                    );
                }
                let token: String = match &object.resource_version {
                    Some(version) => version.clone(),
                    None => UNKNOWN_TOKEN.to_owned(),
                };
                Ok(
                    Action::Curated {
                        curation: Curated::RestartRollout,
                        changes: single(against(object, RESTART_MARKER, Json::Text(token))),
                    },
                )
            },
            Wanted::Schedulable { allowed } => Ok(
                Action::Curated {
                    curation: if *allowed {
                        Curated::Uncordon
                    } else {
                        Curated::Cordon
                    },
                    changes: single(against(object, UNSCHEDULABLE, Json::Bool(!*allowed))),
                },
            ),
            Wanted::Metadata { curation, pairs } => {
                let field: &'static str = match curation {
                    Curated::Label => LABELS,
                    _ => ANNOTATIONS,
                };
                Ok(
                    Action::Curated {
                        curation: *curation,
                        changes: metadata_changes(object, field, pairs),
                    },
                )
            },
        }
    }
}

// --- laws -----------------------------------------------------------------------------------------

/// An image is written to the container that carries the name: the entry of the list at the place
/// found has it, and no entry before it does.
pub proof fn an_image_goes_to_its_container(object: Object, base: Seq<char>, container: Seq<char>)
    requires
        container_at(object, base, container) is Ok,
    ensures
        ({
            let items = containers(object.native@, base);
            let place = container_at(object, base, container)->Ok_0;
            &&& 0 <= place < items.len()
            &&& carries(items[place], container)
            &&& forall|j: int| 0 <= j < place ==> !carries(#[trigger] items[j], container)
        }),
{
    let items = containers(object.native@, base);
    let found = choose|i: int| 0 <= i < items.len() && carries(#[trigger] items[i], container);
    first_carrying_bounds(items, container, found);
}

/// The first place lies at or before any place that carries the name, and carries it itself.
proof fn first_carrying_bounds(items: Seq<JsonView>, name: Seq<char>, found: int)
    requires
        0 <= found < items.len(),
        carries(items[found], name),
    ensures
        0 <= first_carrying(items, name) <= found,
        carries(items[first_carrying(items, name)], name),
        forall|j: int|
            0 <= j < first_carrying(items, name) ==> !carries(#[trigger] items[j], name),
    decreases items.len(),
{
    if !carries(items[0], name) {
        let rest = items.skip(1);
        assert(rest[found - 1] == items[found]);
        first_carrying_bounds(rest, name, found - 1);
        let place = first_carrying(rest, name);
        assert(rest[place] == items[place + 1]);
        assert forall|j: int| 0 <= j < first_carrying(items, name) implies !carries(
            #[trigger] items[j],
            name,
        ) by {
            if j > 0 {
                assert(rest[j - 1] == items[j]);
            }
        }
    }
}

/// Whether a change states exactly what a document holds where it is aimed, and removes only what
/// is there.
pub open spec fn states_what_is_held(native: JsonView, change: ChangeView) -> bool {
    &&& change.before == at(native, change.path)
    &&& change.after is None ==> change.before is Some
}

proof fn removals_state_what_is_held(native: JsonView, unset: Seq<Seq<char>>)
    ensures
        forall|i: int|
            0 <= i < removals(native, unset).len() ==> states_what_is_held(
                native,
                #[trigger] removals(native, unset)[i],
            ),
    decreases unset.len(),
{
    if unset.len() > 0 {
        removals_state_what_is_held(native, unset.drop_last());
        let before = removals(native, unset.drop_last());
        let all = removals(native, unset);
        assert forall|i: int| 0 <= i < all.len() implies states_what_is_held(
            native,
            #[trigger] all[i],
        ) by {
            if i < before.len() {
                assert(all[i] == before[i]);
            }
        }
    }
}

proof fn pairs_state_what_is_held(
    native: JsonView,
    field: Seq<char>,
    pairs: Seq<(Seq<char>, Option<Seq<char>>)>,
)
    ensures
        forall|i: int|
            0 <= i < pairs_changes(native, field, pairs).len() ==> states_what_is_held(
                native,
                #[trigger] pairs_changes(native, field, pairs)[i],
            ),
    decreases pairs.len(),
{
    if pairs.len() > 0 {
        pairs_state_what_is_held(native, field, pairs.drop_last());
        let before = pairs_changes(native, field, pairs.drop_last());
        let all = pairs_changes(native, field, pairs);
        assert forall|i: int| 0 <= i < all.len() implies states_what_is_held(
            native,
            #[trigger] all[i],
        ) by {
            if i < before.len() {
                assert(all[i] == before[i]);
            }
        }
    }
}

proof fn images_state_what_is_held(
    object: Object,
    base: Seq<char>,
    images: Seq<(Seq<char>, Seq<char>)>,
)
    ensures
        images_changes(object, base, images) matches Ok(changes) ==> forall|i: int|
            0 <= i < changes.len() ==> states_what_is_held(object.native@, #[trigger] changes[i]),
    decreases images.len(),
{
    if images.len() > 0 {
        images_state_what_is_held(object, base, images.drop_last());
    }
}

/// A change is expressed against what the object holds: whatever was asked for, every field change
/// of the action states as its before exactly what stands at its pointer, and removes nothing that
/// is not there.
pub proof fn every_change_states_what_is_held(wanted: WantedView, object: Object)
    requires
        action_on(wanted, object) is Ok,
    ensures
        forall|i: int|
            0 <= i < (action_on(wanted, object)->Ok_0).changes().len() ==> states_what_is_held(
                object.native@,
                #[trigger] (action_on(wanted, object)->Ok_0).changes()[i],
            ),
{
    let native = object.native@;
    match wanted {
        WantedView::Apply { set, unset } => {
            removals_state_what_is_held(native, unset);
        },
        WantedView::SetImage { images } => {
            images_state_what_is_held(object, containers_at(object)->Ok_0, images);
        },
        WantedView::Metadata { curation, pairs } => {
            pairs_state_what_is_held(native, metadata_at(curation), pairs);
        },
        _ => {},
    }
}

/// A pointer whose third character is not that of `/status` reaches no observed state.
proof fn not_status(path: Seq<char>)
    requires
        path.len() > 2,
        path[2] != 't',
    ensures
        !reaches_status(path),
{
    reveal_strlit("/status");
    reveal_strlit("/status/");
    if begins(path, STATUS_PREFIX@) {
        assert(path.take(STATUS_PREFIX@.len() as int)[2] == STATUS_PREFIX@[2]);
    }
}

proof fn removals_stay_out(native: JsonView, unset: Seq<Seq<char>>)
    requires
        forall|i: int| 0 <= i < unset.len() ==> !reaches_status(#[trigger] unset[i]),
    ensures
        forall|i: int|
            0 <= i < removals(native, unset).len() ==> !reaches_status(
                (#[trigger] removals(native, unset)[i]).path,
            ),
    decreases unset.len(),
{
    if unset.len() > 0 {
        assert forall|i: int| 0 <= i < unset.drop_last().len() implies !reaches_status(
            #[trigger] unset.drop_last()[i],
        ) by {
            assert(unset.drop_last()[i] == unset[i]);
        }
        removals_stay_out(native, unset.drop_last());
        assert(!reaches_status(unset[unset.len() - 1]));
    }
}

proof fn pairs_stay_out(
    native: JsonView,
    field: Seq<char>,
    pairs: Seq<(Seq<char>, Option<Seq<char>>)>,
)
    requires
        field.len() > 2,
        field[2] != 't',
    ensures
        forall|i: int|
            0 <= i < pairs_changes(native, field, pairs).len() ==> !reaches_status(
                (#[trigger] pairs_changes(native, field, pairs)[i]).path,
            ),
    decreases pairs.len(),
{
    if pairs.len() > 0 {
        pairs_stay_out(native, field, pairs.drop_last());
        let path = field + "/"@ + escaped(pairs.last().0);
        assert(path[2] == field[2]);
        not_status(path);
    }
}

proof fn images_stay_out(object: Object, base: Seq<char>, images: Seq<(Seq<char>, Seq<char>)>)
    requires
        base.len() > 2,
        base[2] != 't',
    ensures
        images_changes(object, base, images) matches Ok(changes) ==> forall|i: int|
            0 <= i < changes.len() ==> !reaches_status((#[trigger] changes[i]).path),
    decreases images.len(),
{
    if images.len() > 0 {
        images_stay_out(object, base, images.drop_last());
        if let Ok(place) = container_at(object, base, images.last().0) {
            let here = base + "/"@ + decimal(place as nat);
            let name_at = here + "/name"@;
            let image_at = here + "/image"@;
            assert(name_at[2] == base[2]);
            assert(image_at[2] == base[2]);
            not_status(name_at);
            not_status(image_at);
        }
    }
}

/// Whatever the arguments of a write are, and whatever object it is aimed at, no field change of
/// the action reaches into observed state.
pub proof fn no_change_writes_observed_state(
    options: Seq<(Seq<char>, JsonView)>,
    writes: crate::contributions::Writes,
    object: Object,
)
    requires
        intended(options, writes) is Ok,
        action_on((intended(options, writes)->Ok_0).wanted, object) is Ok,
    ensures
        ({
            let action = action_on((intended(options, writes)->Ok_0).wanted, object)->Ok_0;
            forall|i: int|
                0 <= i < action.changes().len() ==> !reaches_status(
                    (#[trigger] action.changes()[i]).path,
                )
        }),
{
    let wanted = (intended(options, writes)->Ok_0).wanted;
    let native = object.native@;
    reveal_strlit("/spec/replicas");
    reveal_strlit("/spec/unschedulable");
    reveal_strlit("/metadata/labels");
    reveal_strlit("/metadata/annotations");
    reveal_strlit("/spec/template/spec/containers");
    reveal_strlit("/spec/containers");
    reveal_strlit(
        "/spec/template/metadata/annotations/ono-sendai.io~1restarted-from-resource-version",
    );
    match wanted {
        WantedView::Apply { set, unset } => {
            if let crate::contributions::Writes::Fields = writes {
                applied_alone(options);
                crate::intent::observed_state_is_never_wanted(options);
                removals_stay_out(native, unset);
                let changes = settings(native, set) + removals(native, unset);
                assert forall|i: int| 0 <= i < changes.len() implies !reaches_status(
                    (#[trigger] changes[i]).path,
                ) by {
                    if i < set.len() {
                        assert(changes[i].path == set[i].0);
                    }
                }
            }
        },
        WantedView::SetImage { images } => {
            images_stay_out(object, containers_at(object)->Ok_0, images);
        },
        WantedView::Metadata { curation, pairs } => {
            pairs_stay_out(native, metadata_at(curation), pairs);
        },
        _ => {
            not_status(REPLICAS@);
            not_status(UNSCHEDULABLE@);
            not_status(RESTART_MARKER@);
        },
    }
}

/// Where the one action asked for is a low-level apply, it is the one the low-level arguments ask
/// for.
proof fn applied_alone(options: Seq<(Seq<char>, JsonView)>)
    requires
        crate::intent::settled(crate::intent::all_wanted(options)) matches Ok(wanted) && wanted
            is Apply,
    ensures
        asks_for_something(crate::intent::apply_wanted(options)),
        crate::intent::settled(crate::intent::all_wanted(options)) == Ok::<WantedView, Refusal>(
            (crate::intent::apply_wanted(options)->Ok_0)->0,
        ),
{
}

}
