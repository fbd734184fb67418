//! The model graph: meshes, objects, components, build items and the document.
//!
//! The graph is generic over the vertex representation `V`. The library never
//! inspects a vertex: it only keeps the vertex list in order, so the coordinate
//! type is left to the caller.
use vstd::prelude::*;

verus! {

/// A triangle of a mesh: three positions in the owning mesh's vertex list.
#[derive(Clone, Copy, Debug, PartialEq, Eq, Structural)]
pub struct Triangle {
    pub v1: usize,
    pub v2: usize,
    pub v3: usize,
}

/// A triangle mesh: an ordered vertex list and an ordered triangle list that
/// indexes into it.
#[derive(Debug)]
pub struct Mesh<V> {
    pub vertices: Vec<V>,
    pub triangles: Vec<Triangle>,
}

/// A reference from a composite object to a child object. It carries no
/// transform: the child is placed as it is.
#[derive(Clone, Copy, Debug, PartialEq, Eq, Structural)]
pub struct Component {
    pub objectid: usize,
}

/// What an object holds: leaf geometry, or references to other objects.
#[derive(Debug)]
pub enum ObjectData<V> {
    Mesh(Mesh<V>),
    Components(Vec<Component>),
}

/// A named, identified resource of the document.
#[derive(Debug)]
pub struct Object<V> {
    pub id: usize,
    pub name: Option<String>,
    pub partnumber: Option<String>,
    pub object: ObjectData<V>,
}

/// An entry of the build list: the object it references is part of the
/// printed scene. It carries no transform and no part number.
#[derive(Clone, Copy, Debug, PartialEq, Eq, Structural)]
pub struct Item {
    pub objectid: usize,
}

/// A name/value pair attached to the document.
#[derive(Debug)]
pub struct Metadata {
    pub name: String,
    pub value: Option<String>,
}

/// Unit of measurement of the document's coordinates.
#[derive(Clone, Copy, Debug, PartialEq, Eq, Structural)]
pub enum Unit {
    Micron,
    Millimeter,
    Centimeter,
    Inch,
    Foot,
    Meter,
}

/// The whole document: schema namespace, metadata, resources and build list.
#[derive(Debug)]
pub struct Model<V> {
    pub xmlns: String,
    pub metadata: Vec<Metadata>,
    pub resources: Vec<Object<V>>,
    pub build: Vec<Item>,
    pub unit: Unit,
}

} // verus!
