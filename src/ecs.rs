use vstd::prelude::*;

use crate::level::{entry_views, Entry, EntryView};
use crate::text::{is_last_segment, last_segment};

verus! {

/// The levels of the container hierarchy: cluster, service, task, container.
#[derive(Debug, Clone, Copy, PartialEq, Eq)]
pub enum Page {
    Cluster,
    Services,
    Tasks,
    Container,
}

/// Number of levels of the container hierarchy.
pub const DEPTH: usize = 4;

impl Page {
    /// The depth of this level, from 0 at the cluster.
    pub open spec fn ordinal(self) -> int {
        match self {
            Page::Cluster => 0,
            Page::Services => 1,
            Page::Tasks => 2,
            Page::Container => 3,
        }
    }

    pub open spec fn title_spec(self) -> Seq<char> {
        match self {
            Page::Cluster => "Clusters"@,
            Page::Services => "Services"@,
            Page::Tasks => "Tasks"@,
            Page::Container => "Containers"@,
        }
    }

    /// The next deeper level; the container level is the deepest.
    pub fn next(self) -> (r: Self)
        ensures
            r.ordinal() == (if self.ordinal() < 3 { self.ordinal() + 1 } else { 3 }),
    {
        match self {
            Page::Cluster => Page::Services,
            Page::Services => Page::Tasks,
            Page::Tasks => Page::Container,
            Page::Container => Page::Container,
        }
    }

    /// The next shallower level; the cluster level is the base.
    pub fn prev(self) -> (r: Self)
        ensures
            r.ordinal() == (if self.ordinal() > 0 { self.ordinal() - 1 } else { 0 }),
    {
        match self {
            Page::Cluster => Page::Cluster,
            Page::Services => Page::Cluster,
            Page::Tasks => Page::Services,
            Page::Container => Page::Tasks,
        }
    }

    pub fn title(&self) -> (r: &'static str)
        ensures
            r@ == self.title_spec(),
    {
        match self {
            Page::Cluster => "Clusters",
            Page::Services => "Services",
            Page::Tasks => "Tasks",
            Page::Container => "Containers",
        }
    }

    /// The level at depth `d`, if the hierarchy has one.
    pub fn at_depth(d: usize) -> (r: Option<Page>)
        ensures
            r is Some <==> d < DEPTH,
            r matches Some(p) ==> p.ordinal() == d,
    {
        if d == 0 {
            Some(Page::Cluster)
        } else if d == 1 {
            Some(Page::Services)
        } else if d == 2 {
            Some(Page::Tasks)
        } else if d == 3 {
            Some(Page::Container)
        } else {
            None
        }
    }
}

/// The titles of the container hierarchy's levels, from the cluster down.
pub fn titles() -> (r: Vec<String>)
    ensures
        r.len() == DEPTH,
        r@[0]@ == Page::Cluster.title_spec(),
        r@[1]@ == Page::Services.title_spec(),
        r@[2]@ == Page::Tasks.title_spec(),
        r@[3]@ == Page::Container.title_spec(),
{
    let mut r: Vec<String> = Vec::new();
    r.push(Page::Cluster.title().to_owned());
    r.push(Page::Services.title().to_owned());
    r.push(Page::Tasks.title().to_owned());
    r.push(Page::Container.title().to_owned());
    r
}

/// A cluster, service or task: its ARN and its short name.
pub struct AwsResource {
    pub arn: String,
    pub name: String,
}

impl AwsResource {
    /// The resource with the given ARN, named by the ARN's last `/` segment.
    pub fn from_arn(arn: String) -> (r: AwsResource)
        ensures
            r.arn@ == arn@,
            is_last_segment(arn@, r.name@),
    {
        let name = last_segment(arn.as_str());
        AwsResource { arn, name }
    }

    /// The navigator entry for this resource: shown by name, identified by ARN.
    pub fn entry(&self) -> (r: Entry)
        ensures
            r@ == (EntryView { name: self.name@, id: self.arn@, aux: None }),
    {
        Entry { name: self.name.clone(), id: self.arn.clone(), aux: None }
    }
}

/// A container of a task: its name and its runtime id.
pub struct ECSContainer {
    pub name: String,
    pub runtime_id: String,
}

impl ECSContainer {
    /// The navigator entry for this container: shown and identified by
    /// name, with the runtime id as auxiliary field.
    pub fn entry(&self) -> (r: Entry)
        ensures
            r@ == (EntryView { name: self.name@, id: self.name@, aux: Some(self.runtime_id@) }),
    {
        Entry { name: self.name.clone(), id: self.name.clone(), aux: Some(self.runtime_id.clone()) }
    }
}

/// The entries of a list of resources, in order.
pub fn resource_entries(resources: &Vec<AwsResource>) -> (r: Vec<Entry>)
    ensures
        r.len() == resources.len(),
        forall|i: int|
            0 <= i < r.len() ==> (#[trigger] r@[i])@ == (EntryView {
                name: resources@[i].name@,
                id: resources@[i].arn@,
                aux: None,
            }),
{
    let mut r: Vec<Entry> = Vec::new();
    let mut i: usize = 0;
    while i < resources.len()
        invariant
            i <= resources.len(),
            r.len() == i,
            forall|j: int|
                0 <= j < i ==> (#[trigger] r@[j])@ == (EntryView {
                    name: resources@[j].name@,
                    id: resources@[j].arn@,
                    aux: None,
                }),
        decreases resources.len() - i,
    {
        r.push(resources[i].entry());
        i = i + 1;
    }
    r
}

/// The entries of a list of containers, in order.
pub fn container_entries(containers: &Vec<ECSContainer>) -> (r: Vec<Entry>)
    ensures
        r.len() == containers.len(),
        forall|i: int|
            0 <= i < r.len() ==> (#[trigger] r@[i])@ == (EntryView {
                name: containers@[i].name@,
                id: containers@[i].name@,
                aux: Some(containers@[i].runtime_id@),
            }),
{
    let mut r: Vec<Entry> = Vec::new();
    let mut i: usize = 0;
    while i < containers.len()
        invariant
            i <= containers.len(),
            r.len() == i,
            forall|j: int|
                0 <= j < i ==> (#[trigger] r@[j])@ == (EntryView {
                    name: containers@[j].name@,
                    id: containers@[j].name@,
                    aux: Some(containers@[j].runtime_id@),
                }),
        decreases containers.len() - i,
    {
        r.push(containers[i].entry());
        i = i + 1;
    }
    r
}

/// Where an interactive shell is opened: cluster, task and container names.
pub struct ExecTarget {
    pub cluster: String,
    pub task: String,
    pub container: String,
}

/// A resolved path names a shell target when it has one entry per level and
/// the cluster, task and container names are all non-empty.
pub open spec fn names_exec_target(path: Seq<EntryView>) -> bool {
    &&& path.len() == DEPTH
    &&& path[0].name.len() > 0
    &&& path[2].name.len() > 0
    &&& path[3].name.len() > 0
}

/// The shell target of a resolved path, or `None` when a name is missing.
pub fn exec_target(path: &Vec<Entry>) -> (r: Option<ExecTarget>)
    ensures
        r is Some <==> names_exec_target(entry_views(path@)),
        r matches Some(t) ==> {
            &&& t.cluster@ == path@[0].name@
            &&& t.task@ == path@[2].name@
            &&& t.container@ == path@[3].name@
        },
{
    if path.len() != DEPTH {
        return None;
    }
    let cluster = &path[0].name;
    let task = &path[2].name;
    let container = &path[3].name;
    if cluster.as_str().is_empty() || task.as_str().is_empty() || container.as_str().is_empty() {
        return None;
    }
    Some(ExecTarget { cluster: cluster.clone(), task: task.clone(), container: container.clone() })
}

/// A resolved path names a port-forward target when it has one entry per
/// level, the cluster and task names are non-empty, and the container has a
/// non-empty runtime id.
pub open spec fn names_forward_target(path: Seq<EntryView>) -> bool {
    &&& path.len() == DEPTH
    &&& path[0].name.len() > 0
    &&& path[2].name.len() > 0
    &&& path[3].aux matches Some(rid) && rid.len() > 0
}

/// The session target `ecs:<cluster>_<task>_<runtime id>` of a resolved
/// path, or `None` when a part is missing.
pub fn port_forward_target(path: &Vec<Entry>) -> (r: Option<String>)
    ensures
        r is Some <==> names_forward_target(entry_views(path@)),
        r matches Some(t) ==> t@ == "ecs:"@ + path@[0].name@ + "_"@ + path@[2].name@ + "_"@
            + path@[3]@.aux->0,
{
    if path.len() != DEPTH {
        return None;
    }
    let cluster = &path[0].name;
    let task = &path[2].name;
    let rid = match &path[3].aux {
        Some(rid) => rid,
        None => {
            return None;
        },
    };
    if cluster.as_str().is_empty() || task.as_str().is_empty() || rid.as_str().is_empty() {
        return None;
    }
    let mut t = "ecs:".to_owned();
    t.append(cluster.as_str());
    t.append("_");
    t.append(task.as_str());
    t.append("_");
    t.append(rid.as_str());
    Some(t)
}

} // verus!
