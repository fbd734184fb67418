//! Composition of the final document around the assembled resources.
use vstd::prelude::*;
use crate::assembly::{assemble_resources, is_assembly, NamedMesh};
use crate::model::{Item, Metadata, Model, Object, Unit};
use crate::naming::opt_view;

verus! {

/// The schema namespace of the document's core vocabulary.
pub const CORE_NAMESPACE: &'static str = "http://schemas.microsoft.com/3dmanufacturing/core/2015/02";

/// The metadata name under which the producing application is recorded.
pub const APPLICATION_KEY: &'static str = "Application";

/// The producing application, as recorded in the document's metadata.
pub const APPLICATION_NAME: &'static str = "stlto3mf";

/// Why no document could be made.
#[derive(Clone, Copy, Debug, PartialEq, Eq, Structural)]
pub enum MergeError {
    /// No input mesh was given.
    NoInput,
}

impl MergeError {
    /// A message for the user.
    pub fn message(&self) -> (r: String)
        ensures
            r@ == "No STL files provided."@,
    {
        match self {
            MergeError::NoInput => String::from_str("No STL files provided."),
        }
    }
}

/// `m` has the fixed header: the core namespace, millimeter units, and one
/// metadata entry naming the producing application.
pub open spec fn has_standard_header<V>(m: Model<V>) -> bool {
    &&& m.xmlns@ == CORE_NAMESPACE@
    &&& m.unit == Unit::Millimeter
    &&& m.metadata@.len() == 1
    &&& m.metadata@[0].name@ == APPLICATION_KEY@
    &&& m.metadata@[0].value is Some
    &&& m.metadata@[0].value->0@ == APPLICATION_NAME@
}

/// `m` is the document that the meshes merge into, under the explicit group
/// name `explicit` if there is one.
pub open spec fn is_merged<V>(meshes: Seq<NamedMesh<V>>, explicit: Option<Seq<char>>, m: Model<V>) -> bool {
    &&& has_standard_header(m)
    &&& m.build@.len() == 1
    &&& is_assembly(meshes, explicit, m.resources@, m.build@[0])
}

/// Wraps the resources and the build item into a document with the standard
/// header.
pub fn compose_model<V>(objects: Vec<Object<V>>, item: Item) -> (m: Model<V>)
    ensures
        has_standard_header(m),
        m.resources@ == objects@,
        m.build@ == seq![item],
{
    let metadata = vec![
        Metadata {
            name: String::from_str(APPLICATION_KEY),
            value: Some(String::from_str(APPLICATION_NAME)),
        },
    ];
    let m = Model {
        xmlns: String::from_str(CORE_NAMESPACE),
        metadata,
        resources: objects,
        build: vec![item],
        unit: Unit::Millimeter,
    };
    assert(m.build@ =~= seq![item]);
    m
}

/// Merges the named meshes into one document: a leaf object per mesh, a group
/// object referencing all of them, named `explicit` if given, and one build
/// item for the group. Fails when no mesh is given.
pub fn merge_meshes<V>(meshes: Vec<NamedMesh<V>>, explicit: Option<String>) -> (r: Result<
    Model<V>,
    MergeError,
>)
    ensures
        r is Err <==> meshes@.len() == 0,
        match r {
            Ok(m) => is_merged(meshes@, opt_view(explicit), m),
            Err(e) => e == MergeError::NoInput,
        },
{
    if meshes.len() == 0 {
        return Err(MergeError::NoInput);
    }
    let (objects, item) = assemble_resources(meshes, explicit);
    Ok(compose_model(objects, item))
}

/// A merged document has exactly one build item, and it references the group
/// object, which is the last resource.
pub proof fn law_single_build_item<V>(meshes: Seq<NamedMesh<V>>, explicit: Option<Seq<char>>, m: Model<V>)
    requires
        is_merged(meshes, explicit, m),
    ensures
        m.build@.len() == 1,
        m.build@[0].objectid == m.resources@.last().id,
        m.resources@.last().object is Components,
{
}

} // verus!
