use vstd::prelude::*;

use crate::level::{Entry, EntryView};

verus! {

/// The single level of the instance list.
#[derive(Debug, Clone, Copy, PartialEq, Eq)]
pub enum Page {
    Instance,
}

impl Page {
    /// The next deeper level; the instance list has only one.
    pub fn next(self) -> (r: Self)
        ensures
            r == Page::Instance,
    {
        match self {
            Page::Instance => Page::Instance,
        }
    }

    /// The next shallower level; the instance list has only one.
    pub fn prev(self) -> (r: Self)
        ensures
            r == Page::Instance,
    {
        match self {
            Page::Instance => Page::Instance,
        }
    }

    pub fn title(&self) -> (r: &'static str)
        ensures
            r@ == "Instances"@,
    {
        match self {
            Page::Instance => "Instances",
        }
    }
}

/// The titles of the instance list's levels.
pub fn titles() -> (r: Vec<String>)
    ensures
        r.len() == 1,
        r@[0]@ == "Instances"@,
{
    let mut r: Vec<String> = Vec::new();
    r.push(Page::Instance.title().to_owned());
    r
}

/// A running instance: its id and its display name.
#[derive(Debug)]
pub struct EC2Instance {
    pub instance_id: String,
    pub name: String,
}

impl EC2Instance {
    /// The navigator entry for this instance: shown by display name,
    /// identified by instance id.
    pub fn entry(&self) -> (r: Entry)
        ensures
            r@ == (EntryView { name: self.name@, id: self.instance_id@, aux: None }),
    {
        Entry { name: self.name.clone(), id: self.instance_id.clone(), aux: None }
    }
}

/// A key/value tag of an instance, either part possibly absent.
pub struct Tag {
    pub key: Option<String>,
    pub value: Option<String>,
}

/// The value of the first tag whose key is `Name`, when that tag has one.
pub open spec fn name_tag_spec(tags: Seq<Tag>) -> Option<Seq<char>> {
    if exists|i: int| 0 <= i < tags.len() && is_name_key(#[trigger] tags[i]) {
        let i = choose|i: int|
            0 <= i < tags.len() && is_name_key(#[trigger] tags[i]) && forall|j: int|
                0 <= j < i ==> !is_name_key(#[trigger] tags[j]);
        match tags[i].value {
            Some(v) => Some(v@),
            None => None,
        }
    } else {
        None
    }
}

pub open spec fn is_name_key(t: Tag) -> bool {
    t.key matches Some(k) && k@ == "Name"@
}

/// The value of the first tag keyed `Name`, if it has one.
pub fn name_tag(tags: &Vec<Tag>) -> (r: Option<String>)
    ensures
        r matches Some(v) ==> name_tag_spec(tags@) == Some(v@),
        r is None ==> name_tag_spec(tags@) is None,
{
    let key = "Name".to_owned();
    let mut i: usize = 0;
    while i < tags.len()
        invariant
            key@ == "Name"@,
            i <= tags.len(),
            forall|j: int| 0 <= j < i ==> !is_name_key(#[trigger] tags@[j]),
        decreases tags.len() - i,
    {
        let hit = match &tags[i].key {
            Some(k) => *k == key,
            None => false,
        };
        if hit {
            proof {
                let c = choose|c: int|
                    0 <= c < tags@.len() && is_name_key(#[trigger] tags@[c]) && forall|j: int|
                        0 <= j < c ==> !is_name_key(#[trigger] tags@[j]);
                assert(0 <= i < tags@.len() && is_name_key(tags@[i as int]) && forall|j: int|
                    0 <= j < i ==> !is_name_key(#[trigger] tags@[j]));
                if c < i {
                    assert(!is_name_key(tags@[c]));
                } else if c > i {
                    assert(!is_name_key(tags@[i as int]));
                }
            }
            return match &tags[i].value {
                Some(v) => Some(v.clone()),
                None => None,
            };
        }
        i = i + 1;
    }
    None
}

/// The display name of an instance: `<name> (<id>)`.
pub open spec fn display_name_spec(name: Seq<char>, id: Seq<char>) -> Seq<char> {
    name + " ("@ + id + ")"@
}

pub fn display_name(name: &str, id: &str) -> (r: String)
    ensures
        r@ == display_name_spec(name@, id@),
{
    let mut r = name.to_owned();
    r.append(" (");
    r.append(id);
    r.append(")");
    r
}

/// The instance listed with state `state`, id `instance_id` and tags
/// `tags`, when it is running and carries a name tag with a value; named
/// by that value and its id.
pub fn instance_from_listing(state: &String, instance_id: String, tags: &Vec<Tag>) -> (r: Option<
    EC2Instance,
>)
    ensures
        r is Some <==> (state@ == "running"@ && name_tag_spec(tags@) is Some),
        r matches Some(inst) ==> {
            &&& inst.instance_id@ == instance_id@
            &&& inst.name@ == display_name_spec(name_tag_spec(tags@)->0, instance_id@)
        },
{
    let running = "running".to_owned();
    if *state != running {
        return None;
    }
    match name_tag(tags) {
        Some(tag) => {
            let name = display_name(tag.as_str(), instance_id.as_str());
            Some(EC2Instance { instance_id, name })
        },
        None => None,
    }
}

/// The entries of a list of instances, in order.
pub fn instance_entries(instances: &Vec<EC2Instance>) -> (r: Vec<Entry>)
    ensures
        r.len() == instances.len(),
        forall|i: int|
            0 <= i < r.len() ==> (#[trigger] r@[i])@ == (EntryView {
                name: instances@[i].name@,
                id: instances@[i].instance_id@,
                aux: None,
            }),
{
    let mut r: Vec<Entry> = Vec::new();
    let mut i: usize = 0;
    while i < instances.len()
        invariant
            i <= instances.len(),
            r.len() == i,
            forall|j: int|
                0 <= j < i ==> (#[trigger] r@[j])@ == (EntryView {
                    name: instances@[j].name@,
                    id: instances@[j].instance_id@,
                    aux: None,
                }),
        decreases instances.len() - i,
    {
        r.push(instances[i].entry());
        i = i + 1;
    }
    r
}

} // verus!
