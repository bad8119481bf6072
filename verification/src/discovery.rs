//! What a cluster serves, as its discovery documents stated it.

use vstd::prelude::*;

use crate::text::{join3, same, str_view, text_view, views};

verus! {

/// Whether the objects of a resource live in namespaces.
#[derive(Debug, Clone, Copy, PartialEq, Eq, Structural)]
pub enum Scope {
    Namespaced,
    Cluster,
}

/// What the API server may offer on a resource.
#[derive(Debug, Clone, Copy, PartialEq, Eq, Structural)]
pub enum Verb {
    Get,
    List,
    Watch,
    Create,
    Update,
    Patch,
    Delete,
}

/// One REST collection the cluster serves.
#[derive(Debug, PartialEq, Eq)]
pub struct Resource {
    /// The API group; empty for the core group.
    pub group: String,
    pub version: String,
    pub kind: String,
    /// The name of the collection.
    pub plural: String,
    /// The collection in one line, as it is shown to a reader.
    pub gvr: String,
    pub scope: Scope,
    pub verbs: Vec<Verb>,
    pub short_names: Vec<String>,
    pub subresources: Vec<String>,
}

/// One API group, and which of its versions the server prefers.
#[derive(Debug, PartialEq, Eq)]
pub struct Group {
    pub name: String,
    pub preferred: Option<String>,
    pub versions: Vec<String>,
}

/// A snapshot of what a cluster serves.
#[derive(Debug, PartialEq, Eq)]
pub struct Discovery {
    pub groups: Vec<Group>,
    pub resources: Vec<Resource>,
}

/// `group/version`, or the bare version for the core group.
pub open spec fn group_version(group: Seq<char>, version: Seq<char>) -> Seq<char> {
    if group.len() == 0 {
        version
    } else {
        group + "/"@ + version
    }
}

/// `group/version`, or the bare version for the core group.
pub fn group_version_of(group: &str, version: &str) -> (r: String)
    ensures
        r@ == group_version(group@, version@),
{
    if crate::text::chars(group).len() == 0 {
        version.to_owned()
    } else {
        join3(group, "/", version)
    }
}

impl Resource {
    /// Whether the server offers a verb on this resource.
    pub open spec fn offers(self, verb: Verb) -> bool {
        self.verbs@.contains(verb)
    }

    /// Whether the server offers a verb on this resource.
    pub fn supports(&self, verb: Verb) -> (r: bool)
        ensures
            r == self.offers(verb),
    {
        let mut i: usize = 0;
        while i < self.verbs.len()
            invariant
                i <= self.verbs.len(),
                forall|j: int| 0 <= j < i ==> self.verbs@[j] != verb,
            decreases self.verbs.len() - i,
        {
            if self.verbs[i] == verb {
                return true;
            }
            i = i + 1;
        }
        false
    }

    /// Whether this resource is the one of a group-version that has a kind.
    pub open spec fn serves(self, group_version: Seq<char>, kind: Seq<char>) -> bool {
        crate::discovery::group_version(self.group@, self.version@) == group_version && self.kind@
            == kind
    }
}

/// The group of a name, where it is served.
pub open spec fn group_named(groups: Seq<Group>, name: Seq<char>) -> Option<Group>
    decreases groups.len(),
{
    if groups.len() == 0 {
        None
    } else if groups[0].name@ == name {
        Some(groups[0])
    } else {
        group_named(groups.skip(1), name)
    }
}

/// The first resource of a group-version that has a kind.
pub open spec fn resource_of(
    resources: Seq<Resource>,
    group_version: Seq<char>,
    kind: Seq<char>,
) -> Option<Resource>
    decreases resources.len(),
{
    if resources.len() == 0 {
        None
    } else if resources[0].serves(group_version, kind) {
        Some(resources[0])
    } else {
        resource_of(resources.skip(1), group_version, kind)
    }
}

impl Discovery {
    /// The version of a group the server prefers, where it serves the group.
    pub open spec fn preferred(self, group: Seq<char>) -> Option<Seq<char>> {
        match group_named(self.groups@, group) {
            Some(group) => text_view(group.preferred),
            None => None,
        }
    }

    /// The versions of a group the server serves.
    pub open spec fn versions(self, group: Seq<char>) -> Seq<Seq<char>> {
        match group_named(self.groups@, group) {
            Some(group) => views(group.versions@),
            None => Seq::empty(),
        }
    }

    /// The group of a name, where it is served.
    fn group(&self, name: &str) -> (r: Option<&Group>)
        ensures
            match r {
                Some(group) => group_named(self.groups@, name@) == Some(*group),
                None => group_named(self.groups@, name@) is None,
            },
    {
        let mut i: usize = 0;
        assert(self.groups@.skip(0) =~= self.groups@);
        while i < self.groups.len()
            invariant
                i <= self.groups.len(),
                group_named(self.groups@.skip(i as int), name@) == group_named(
                    self.groups@,
                    name@,
                ),
            decreases self.groups.len() - i,
        {
            if same(self.groups[i].name.as_str(), name) {
                return Some(&self.groups[i]);
            }
            assert(self.groups@.skip(i as int).skip(1) =~= self.groups@.skip(i + 1));
            i = i + 1;
        }
        None
    }

    /// The version of a group the server prefers, where it serves the group.
    pub fn preferred_version(&self, group: &str) -> (r: Option<&str>)
        ensures
            str_view(r) == self.preferred(group@),
    {
        match self.group(group) {
            Some(group) => match &group.preferred {
                Some(version) => Some(version.as_str()),
                None => None,
            },
            None => None,
        }
    }

    /// The versions of a group the server serves.
    pub fn versions_of(&self, group: &str) -> (r: Vec<String>)
        ensures
            views(r@) == self.versions(group@),
    {
        broadcast use crate::text::group_views;

        match self.group(group) {
            Some(group) => crate::text::copied(&group.versions),
            None => Vec::new(),
        }
    }

    /// The resource of a group-version that has a kind, where there is one.
    pub fn by_kind(&self, group_version: &str, kind: &str) -> (r: Option<&Resource>)
        ensures
            match r {
                Some(resource) => resource_of(self.resources@, group_version@, kind@) == Some(
                    *resource,
                ),
                None => resource_of(self.resources@, group_version@, kind@) is None,
            },
    {
        let mut i: usize = 0;
        assert(self.resources@.skip(0) =~= self.resources@);
        while i < self.resources.len()
            invariant
                i <= self.resources.len(),
                resource_of(self.resources@.skip(i as int), group_version@, kind@) == resource_of(
                    self.resources@,
                    group_version@,
                    kind@,
                ),
            decreases self.resources.len() - i,
        {
            let resource: &Resource = &self.resources[i];
            let served: String = group_version_of(
                resource.group.as_str(),
                resource.version.as_str(),
            );
            if same(served.as_str(), group_version) && same(resource.kind.as_str(), kind) {
                return Some(resource);
            }
            assert(self.resources@.skip(i as int).skip(1) =~= self.resources@.skip(i + 1));
            i = i + 1;
        }
        None
    }
}

}
