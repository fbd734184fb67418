//! Conversion of an indexed mesh (vertex list and faces of three indices) into
//! the model graph's mesh, and reading its faces back.
use vstd::prelude::*;
use crate::model::{Mesh, Triangle};

verus! {

/// A face of an indexed mesh: three positions in its vertex list.
pub type Face = (usize, usize, usize);

/// The triangle that a face becomes, its indices in the same order.
pub open spec fn triangle_of(f: Face) -> Triangle {
    Triangle { v1: f.0, v2: f.1, v3: f.2 }
}

/// The face that a triangle is read back as.
pub open spec fn face_of(t: Triangle) -> Face {
    (t.v1, t.v2, t.v3)
}

/// The triangles that a face list becomes, in the same order.
pub open spec fn triangles_of(faces: Seq<Face>) -> Seq<Triangle> {
    faces.map_values(|f: Face| triangle_of(f))
}

/// The faces that a triangle list is read back as, in the same order.
pub open spec fn faces_of(triangles: Seq<Triangle>) -> Seq<Face> {
    triangles.map_values(|t: Triangle| face_of(t))
}

/// Turns an indexed mesh into a model mesh: the vertex list is kept as it is,
/// and each face becomes one triangle, in order.
pub fn stl_to_mesh<V>(vertices: Vec<V>, faces: &Vec<Face>) -> (m: Mesh<V>)
    ensures
        m.vertices@ == vertices@,
        m.triangles@ == triangles_of(faces@),
{
    let mut triangles: Vec<Triangle> = Vec::with_capacity(faces.len());
    let n = faces.len();
    let mut i: usize = 0;
    while i < n
        invariant
            n == faces.len(),
            i <= n,
            triangles@ == triangles_of(faces@.subrange(0, i as int)),
        decreases n - i,
    {
        let f = faces[i];
        triangles.push(Triangle { v1: f.0, v2: f.1, v3: f.2 });
        i = i + 1;
        assert(triangles@ =~= triangles_of(faces@.subrange(0, i as int)));
    }
    assert(faces@.subrange(0, n as int) =~= faces@);
    Mesh { vertices, triangles }
}

impl<V> Mesh<V> {
    /// The faces of this mesh, one for each triangle, in order.
    pub fn faces(&self) -> (r: Vec<Face>)
        ensures
            r@ == faces_of(self.triangles@),
    {
        let mut r: Vec<Face> = Vec::with_capacity(self.triangles.len());
        let n = self.triangles.len();
        let mut i: usize = 0;
        while i < n
            invariant
                n == self.triangles.len(),
                i <= n,
                r@ == faces_of(self.triangles@.subrange(0, i as int)),
            decreases n - i,
        {
            let t = self.triangles[i];
            r.push((t.v1, t.v2, t.v3));
            i = i + 1;
            assert(r@ =~= faces_of(self.triangles@.subrange(0, i as int)));
        }
        assert(self.triangles@.subrange(0, n as int) =~= self.triangles@);
        r
    }
}

/// Converting a face list to triangles and reading the triangles back gives
/// the same faces, in the same order and with the same indices.
pub proof fn lemma_faces_round_trip(faces: Seq<Face>)
    ensures
        faces_of(triangles_of(faces)) == faces,
{
    assert(faces_of(triangles_of(faces)) =~= faces);
}

/// A mesh converted from an indexed mesh reads back as that indexed mesh: the
/// same vertex list and the same faces. In particular a face list that is
/// empty stays empty and the vertex count is kept.
pub proof fn lemma_mesh_round_trip<V>(vertices: Seq<V>, faces: Seq<Face>, m: Mesh<V>)
    requires
        m.vertices@ == vertices,
        m.triangles@ == triangles_of(faces),
    ensures
        m.vertices@ == vertices,
        faces_of(m.triangles@) == faces,
        m.triangles@.len() == faces.len(),
        m.vertices@.len() == vertices.len(),
{
    lemma_faces_round_trip(faces);
}

} // verus!
