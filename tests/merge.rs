use stlto3mf::assembly::{assemble_resources, group_components, leaf_objects, max_object_id};
use stlto3mf::convert::stl_to_mesh;
use stlto3mf::document::{merge_meshes, MergeError, APPLICATION_NAME, CORE_NAMESPACE};
use stlto3mf::model::{Component, Mesh, Object, ObjectData, Triangle, Unit};
use stlto3mf::naming::{group_name, joined_names};

type V = [f64; 3];

fn tetra() -> Mesh<V> {
    let vertices = vec![
        [0.0, 0.0, 0.0],
        [1.0, 0.0, 0.0],
        [0.0, 1.0, 0.0],
        [0.0, 0.0, 1.0],
    ];
    let faces = vec![(0, 2, 1), (0, 1, 3), (0, 3, 2), (1, 2, 3)];
    stl_to_mesh(vertices, &faces)
}

fn named(names: &[&str]) -> Vec<(String, Mesh<V>)> {
    names.iter().map(|n| (n.to_string(), tetra())).collect()
}

fn group_of(objects: &[Object<V>]) -> &Object<V> {
    objects.last().unwrap()
}

#[test]
fn converter_keeps_vertices_and_faces_in_order() {
    let vertices: Vec<V> = vec![[1.5, 2.0, -3.25], [4.0, 5.0, 6.0], [7.0, 8.0, 9.0]];
    let faces = vec![(2, 0, 1), (1, 2, 0)];
    let mesh = stl_to_mesh(vertices.clone(), &faces);
    assert_eq!(mesh.vertices, vertices);
    assert_eq!(
        mesh.triangles,
        vec![Triangle { v1: 2, v2: 0, v3: 1 }, Triangle { v1: 1, v2: 2, v3: 0 }]
    );
    assert_eq!(mesh.faces(), faces);
    assert_eq!(mesh.vertices.len(), 3);
    assert_eq!(mesh.triangles.len(), 2);
}

#[test]
fn converter_with_no_faces_keeps_vertices() {
    let vertices: Vec<V> = vec![[0.0, 0.0, 0.0], [1.0, 1.0, 1.0]];
    let mesh = stl_to_mesh(vertices.clone(), &Vec::new());
    assert_eq!(mesh.triangles.len(), 0);
    assert_eq!(mesh.vertices, vertices);
    let empty: Mesh<V> = stl_to_mesh(Vec::new(), &Vec::new());
    assert_eq!(empty.vertices.len(), 0);
    assert_eq!(empty.triangles.len(), 0);
}

#[test]
fn leaves_get_sequential_ids_and_file_names() {
    let objects = leaf_objects(named(&["x.stl", "dir/y.stl", "x.stl"]));
    assert_eq!(objects.len(), 3);
    for (i, o) in objects.iter().enumerate() {
        assert_eq!(o.id, i);
        assert_eq!(o.name, o.partnumber);
        assert!(matches!(o.object, ObjectData::Mesh(_)));
    }
    assert_eq!(objects[1].name.as_deref(), Some("dir/y.stl"));
    assert_eq!(max_object_id(&objects), 2);
    assert_eq!(
        group_components(&objects),
        vec![Component { objectid: 0 }, Component { objectid: 1 }, Component { objectid: 2 }]
    );
}

#[test]
fn group_id_is_one_past_the_largest_id() {
    let mut objects = leaf_objects(named(&["a", "b"]));
    objects[0].id = 7;
    assert_eq!(max_object_id(&objects), 7);
}

#[test]
fn assembly_of_three_meshes() {
    let (objects, item) = assemble_resources(named(&["a", "b", "c"]), None);
    assert_eq!(objects.len(), 4);
    for i in 0..3 {
        assert_eq!(objects[i].id, i);
    }
    let group = group_of(&objects);
    assert_eq!(group.id, 3);
    assert_eq!(item.objectid, 3);
    match &group.object {
        ObjectData::Components(cs) => {
            let ids: Vec<usize> = cs.iter().map(|c| c.objectid).collect();
            assert_eq!(ids, vec![0, 1, 2]);
        }
        ObjectData::Mesh(_) => panic!("group object holds a mesh"),
    }
}

#[test]
fn default_group_name_joins_leaf_names() {
    let (objects, _) = assemble_resources(named(&["a.mesh", "b.mesh"]), None);
    let group = group_of(&objects);
    assert_eq!(group.name.as_deref(), Some("a.mesh+b.mesh"));
    assert_eq!(group.partnumber.as_deref(), Some("a.mesh+b.mesh"));
}

#[test]
fn explicit_group_name_wins() {
    let (objects, _) = assemble_resources(named(&["a.mesh", "b.mesh"]), Some("combined".to_string()));
    let group = group_of(&objects);
    assert_eq!(group.name.as_deref(), Some("combined"));
    assert_eq!(group.partnumber.as_deref(), Some("combined"));
}

#[test]
fn joined_names_skips_unnamed_and_keeps_repeats() {
    let mut objects = leaf_objects(named(&["p", "q", "p", "r"]));
    objects[1].name = None;
    assert_eq!(joined_names(&objects), "p+p+r");
    assert_eq!(group_name(None, &objects), "p+p+r");
    assert_eq!(group_name(Some("g".to_string()), &objects), "g");
    objects[0].name = None;
    objects[2].name = None;
    objects[3].name = None;
    assert_eq!(joined_names(&objects), "");
}

#[test]
fn empty_input_is_a_usage_error() {
    let r = merge_meshes::<V>(Vec::new(), None);
    assert_eq!(r.unwrap_err(), MergeError::NoInput);
    assert_eq!(MergeError::NoInput.message(), "No STL files provided.");
}

#[test]
fn single_input_gives_two_objects_and_one_item() {
    let m = merge_meshes(named(&["only.stl"]), None).unwrap();
    assert_eq!(m.resources.len(), 2);
    assert!(matches!(m.resources[0].object, ObjectData::Mesh(_)));
    match &m.resources[1].object {
        ObjectData::Components(cs) => assert_eq!(cs, &vec![Component { objectid: 0 }]),
        ObjectData::Mesh(_) => panic!("group object holds a mesh"),
    }
    assert_eq!(m.build.len(), 1);
    assert_eq!(m.build[0].objectid, 1);
    assert_eq!(m.resources[1].name.as_deref(), Some("only.stl"));
}

#[test]
fn merged_document_has_standard_header() {
    let m = merge_meshes(named(&["a", "b"]), None).unwrap();
    assert_eq!(m.xmlns, CORE_NAMESPACE);
    assert_eq!(m.xmlns, "http://schemas.microsoft.com/3dmanufacturing/core/2015/02");
    assert_eq!(m.unit, Unit::Millimeter);
    assert_eq!(m.metadata.len(), 1);
    assert_eq!(m.metadata[0].name, "Application");
    assert_eq!(m.metadata[0].value.as_deref(), Some(APPLICATION_NAME));
    assert_eq!(m.build.len(), 1);
    assert_eq!(m.build[0].objectid, 2);
}
