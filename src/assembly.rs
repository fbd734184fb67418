//! Identifier allocation and assembly of the build graph: the leaf objects,
//! the group object with one component per leaf, and the single build item.
use vstd::prelude::*;
use crate::model::{Component, Item, Mesh, Object, ObjectData};
use crate::naming::{group_label, group_name, join_plus, opt_view, present_names};

verus! {

/// A named input mesh: the name it came under and its mesh.
pub type NamedMesh<V> = (String, Mesh<V>);

/// The leaf object that the input at position `i` becomes: its id is `i`, and
/// its display name and part number are both the input's name.
pub open spec fn leaf_object<V>(i: int, entry: NamedMesh<V>) -> Object<V> {
    Object {
        id: i as usize,
        name: Some(entry.0),
        partnumber: Some(entry.0),
        object: ObjectData::Mesh(entry.1),
    }
}

/// The ids of the objects, in order.
pub open spec fn ids_of<V>(objects: Seq<Object<V>>) -> Seq<usize> {
    objects.map_values(|o: Object<V>| o.id)
}

/// One component for each object, referencing its id, in order.
pub open spec fn components_for(ids: Seq<usize>) -> Seq<Component> {
    ids.map_values(|id: usize| Component { objectid: id })
}

/// `o` is a group object with id `id`, whose components reference `ids` in
/// order, and whose display name and part number are both `label`.
pub open spec fn is_group_object<V>(o: Object<V>, id: usize, ids: Seq<usize>, label: Seq<char>) -> bool {
    &&& o.id == id
    &&& o.name is Some
    &&& o.name->0@ == label
    &&& o.partnumber == o.name
    &&& match o.object {
        ObjectData::Components(cs) => cs@ == components_for(ids),
        ObjectData::Mesh(_) => false,
    }
}

/// The leaf objects made from `meshes`, in order.
pub open spec fn leaves_of<V>(meshes: Seq<NamedMesh<V>>) -> Seq<Object<V>> {
    Seq::new(meshes.len(), |i: int| leaf_object(i, meshes[i]))
}

/// `objects` and `item` are what the meshes assemble into, under the explicit
/// group name `explicit` if there is one: the leaves in input order with ids
/// from 0, then the group object with the next id, referencing every leaf, and
/// one build item referencing the group.
pub open spec fn is_assembly<V>(
    meshes: Seq<NamedMesh<V>>,
    explicit: Option<Seq<char>>,
    objects: Seq<Object<V>>,
    item: Item,
) -> bool {
    let n = meshes.len();
    let leaves = leaves_of(meshes);
    &&& objects.len() == n + 1
    &&& objects.subrange(0, n as int) == leaves
    &&& is_group_object(objects[n as int], n as usize, ids_of(leaves), group_label(explicit, leaves))
    &&& item.objectid == n as usize
}

/// Makes one leaf object of each input mesh, in order, with ids counted from 0.
pub fn leaf_objects<V>(meshes: Vec<NamedMesh<V>>) -> (objects: Vec<Object<V>>)
    ensures
        objects@ == leaves_of(meshes@),
{
    let ghost input = meshes@;
    let mut objects: Vec<Object<V>> = Vec::with_capacity(meshes.len());
    let mut id: usize = 0;
    for entry in it: meshes.into_iter()
        invariant
            it.seq() == input,
            input.len() <= usize::MAX,
            id as int == it.index(),
            objects@ == leaves_of(input.subrange(0, id as int)),
    {
        assert(id < input.len());
        let (name, mesh) = entry;
        objects.push(Object {
            id,
            name: Some(name.clone()),
            partnumber: Some(name),
            object: ObjectData::Mesh(mesh),
        });
        id = id + 1;
        assert(objects@ =~= leaves_of(input.subrange(0, id as int)));
    }
    assert(input.subrange(0, id as int) =~= input);
    objects
}

/// The largest id among the objects.
pub fn max_object_id<V>(objects: &Vec<Object<V>>) -> (m: usize)
    requires
        objects.len() > 0,
    ensures
        forall|i: int| 0 <= i < objects.len() ==> objects@[i].id <= m,
        exists|i: int| 0 <= i < objects.len() && objects@[i].id == m,
{
    let mut m = objects[0].id;
    let ghost mut at: int = 0;
    let n = objects.len();
    let mut i: usize = 1;
    while i < n
        invariant
            n == objects.len(),
            1 <= i <= n,
            0 <= at < i,
            objects@[at].id == m,
            forall|j: int| 0 <= j < i ==> objects@[j].id <= m,
        decreases n - i,
    {
        if objects[i].id > m {
            m = objects[i].id;
            proof {
                at = i as int;
            }
        }
        i = i + 1;
    }
    m
}

/// One component for each object, referencing its id, in order, with no
/// transform.
pub fn group_components<V>(objects: &Vec<Object<V>>) -> (cs: Vec<Component>)
    ensures
        cs@ == components_for(ids_of(objects@)),
{
    let mut cs: Vec<Component> = Vec::with_capacity(objects.len());
    let n = objects.len();
    let mut i: usize = 0;
    while i < n
        invariant
            n == objects.len(),
            i <= n,
            cs@ == components_for(ids_of(objects@.subrange(0, i as int))),
        decreases n - i,
    {
        cs.push(Component { objectid: objects[i].id });
        i = i + 1;
        assert(cs@ =~= components_for(ids_of(objects@.subrange(0, i as int))));
    }
    assert(objects@.subrange(0, n as int) =~= objects@);
    cs
}

/// Turns the input meshes into the resource collection and its build item.
/// Each mesh becomes a leaf object, its id its position in the input. The
/// group object takes the largest leaf id plus one, references every leaf in
/// order, and is named `explicit` if given, else by the leaves' names joined
/// with `+`. It stands last, after the leaves. The single build item
/// references the group object.
pub fn assemble_resources<V>(meshes: Vec<NamedMesh<V>>, explicit: Option<String>) -> (r: (
    Vec<Object<V>>,
    Item,
))
    requires
        meshes.len() > 0,
    ensures
        is_assembly(meshes@, opt_view(explicit), r.0@, r.1),
{
    let ghost input = meshes@;
    let ghost label = opt_view(explicit);
    let mut objects = leaf_objects(meshes);
    let highest = max_object_id(&objects);
    proof {
        let last = objects@.len() - 1;
        assert(objects@[last].id == last);
        let i = choose|i: int| 0 <= i < objects.len() && objects@[i].id == highest;
        assert(objects@[i].id == i);
    }
    let group_id = highest + 1;
    let components = group_components(&objects);
    let name = group_name(explicit, &objects);
    let ghost leaves = objects@;
    objects.push(Object {
        id: group_id,
        name: Some(name.clone()),
        partnumber: Some(name),
        object: ObjectData::Components(components),
    });
    assert(objects@.subrange(0, input.len() as int) =~= leaves);
    (objects, Item { objectid: group_id })
}

/// The names of the inputs, in order.
pub open spec fn names_of<V>(meshes: Seq<NamedMesh<V>>) -> Seq<Seq<char>> {
    meshes.map_values(|e: NamedMesh<V>| e.0@)
}

/// Every leaf carries its input's name, so the leaves' names are the inputs'
/// names in input order.
pub proof fn lemma_leaf_names<V>(meshes: Seq<NamedMesh<V>>)
    ensures
        present_names(leaves_of(meshes)) == names_of(meshes),
    decreases meshes.len(),
{
    if meshes.len() > 0 {
        let rest = meshes.drop_last();
        lemma_leaf_names(rest);
        assert(leaves_of(meshes).drop_last() =~= leaves_of(rest));
        assert(names_of(meshes) =~= names_of(rest).push(meshes.last().0@));
    } else {
        assert(names_of(meshes) =~= Seq::empty());
    }
}

/// In an assembly of N meshes there are N + 1 objects: the leaves carry ids
/// 0 to N - 1 in input order, the group object carries id N, and all ids are
/// pairwise distinct.
pub proof fn law_object_ids<V>(
    meshes: Seq<NamedMesh<V>>,
    explicit: Option<Seq<char>>,
    objects: Seq<Object<V>>,
    item: Item,
)
    requires
        0 < meshes.len() <= usize::MAX,
        is_assembly(meshes, explicit, objects, item),
    ensures
        objects.len() == meshes.len() + 1,
        forall|i: int| 0 <= i < objects.len() ==> objects[i].id == i,
        forall|i: int, j: int|
            0 <= i < objects.len() && 0 <= j < objects.len() && i != j ==> objects[i].id
                != objects[j].id,
{
    let n = meshes.len() as int;
    assert forall|i: int| 0 <= i < objects.len() implies objects[i].id == i by {
        if i < n {
            assert(objects[i] == objects.subrange(0, n)[i]);
        }
    }
}

/// The group object of an assembly of N meshes holds one component per leaf,
/// in input order: the i-th references id i. So they reference distinct ids,
/// each of them the id of a leaf object.
pub proof fn law_group_components<V>(
    meshes: Seq<NamedMesh<V>>,
    explicit: Option<Seq<char>>,
    objects: Seq<Object<V>>,
    item: Item,
)
    requires
        0 < meshes.len() <= usize::MAX,
        is_assembly(meshes, explicit, objects, item),
    ensures
        match objects.last().object {
            ObjectData::Components(cs) => {
                &&& cs@.len() == meshes.len()
                &&& forall|i: int| 0 <= i < cs@.len() ==> cs@[i].objectid == i
                &&& forall|i: int| 0 <= i < cs@.len() ==> objects[cs@[i].objectid as int].object is Mesh
            },
            ObjectData::Mesh(_) => false,
        },
{
    let n = meshes.len() as int;
    let leaves = leaves_of(meshes);
    assert forall|i: int| 0 <= i < n implies objects[i] == leaf_object(i, meshes[i]) by {
        assert(objects[i] == objects.subrange(0, n)[i]);
    }
    if let ObjectData::Components(cs) = objects.last().object {
        assert(cs@ == components_for(ids_of(leaves)));
        assert forall|i: int| 0 <= i < cs@.len() implies cs@[i].objectid == i by {
            assert(cs@[i] == Component { objectid: leaves[i].id });
        }
        assert forall|i: int| 0 <= i < cs@.len() implies objects[cs@[i].objectid as int].object is Mesh by {
            assert(cs@[i].objectid == i);
        }
    }
}

/// The build item of an assembly references the group object, the last one.
pub proof fn law_item_references_group<V>(
    meshes: Seq<NamedMesh<V>>,
    explicit: Option<Seq<char>>,
    objects: Seq<Object<V>>,
    item: Item,
)
    requires
        is_assembly(meshes, explicit, objects, item),
    ensures
        item.objectid == objects.last().id,
        objects.last().object is Components,
{
}

/// The group object is named by the explicit name when one is given, and
/// otherwise by the inputs' names joined with `+` in input order; its part
/// number is the same string.
pub proof fn law_group_name<V>(
    meshes: Seq<NamedMesh<V>>,
    explicit: Option<Seq<char>>,
    objects: Seq<Object<V>>,
    item: Item,
)
    requires
        is_assembly(meshes, explicit, objects, item),
    ensures
        objects.last().name is Some,
        objects.last().partnumber == objects.last().name,
        objects.last().name->0@ == match explicit {
            Some(x) => x,
            None => join_plus(names_of(meshes)),
        },
{
    lemma_leaf_names(meshes);
}

} // verus!
