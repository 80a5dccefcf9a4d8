//! Reading the vertices of a mesh out of a flat list of coordinates.

use crate::kinematics::{Real, Vec3};
use vstd::prelude::*;

verus! {

/// The vertices that a flat list of coordinates holds: every three
/// coordinates in a row are the x, y and z of one vertex. Coordinates left
/// over at the end belong to no vertex.
pub open spec fn vertices_of(positions: Seq<Real>) -> Seq<Vec3> {
    Seq::new(
        (positions.len() / 3) as nat,
        |i: int| Vec3 { x: positions[3 * i], y: positions[3 * i + 1], z: positions[3 * i + 2] },
    )
}

/// A copy of a list of indices.
pub fn duplicate_indices(indices: &Vec<u32>) -> (copy: Vec<u32>)
    ensures
        copy@ == indices@,
{
    let mut copy: Vec<u32> = Vec::new();
    let mut i: usize = 0;
    while i < indices.len()
        invariant
            i <= indices.len(),
            copy@ == indices@.subrange(0, i as int),
        decreases indices.len() - i,
    {
        copy.push(indices[i]);
        assert(copy@ =~= indices@.subrange(0, i + 1));
        i = i + 1;
    }
    assert(copy@ =~= indices@);
    copy
}

/// The vertices and the triangle indices of a mesh, as a collision shape
/// takes them.
pub fn grab_trimesh_data(positions: &Vec<Real>, indices: &Vec<u32>) -> (mesh: (Vec<Vec3>, Vec<u32>))
    ensures
        mesh.0@ == vertices_of(positions@),
        mesh.1@ == indices@,
{
    let count = positions.len() / 3;
    let mut vertices: Vec<Vec3> = Vec::new();
    let mut i: usize = 0;
    while i < count
        invariant
            i <= count,
            count == positions.len() / 3,
            vertices.len() == i,
            forall|k: int| 0 <= k < i ==> vertices[k] == vertices_of(positions@)[k],
        decreases count - i,
    {
        let vertex = Vec3 {
            x: positions[3 * i],
            y: positions[3 * i + 1],
            z: positions[3 * i + 2],
        };
        vertices.push(vertex);
        i = i + 1;
    }
    assert(vertices@ =~= vertices_of(positions@));
    (vertices, duplicate_indices(indices))
}

} // verus!
