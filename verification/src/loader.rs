//! Turning the flat vertex arrays of a loaded OBJ model into mesh vertices.

use vstd::prelude::*;

verus! {

/// One vertex of a loaded model: its position, its normal when the model
/// provides normals, and its texture coordinates when the model provides them
/// for this vertex.
#[derive(Debug, PartialEq)]
pub struct ObjVertex<T> {
    pub position: (T, T, T),
    pub normal: Option<(T, T, T)>,
    pub uv: Option<(T, T)>,
}

/// Vertex `i` of a model given by flat arrays: three position components per
/// vertex, three normal components per vertex when there are normals at all,
/// and two texture coordinates per vertex for the vertices that they reach.
pub open spec fn spec_obj_vertex<T>(positions: Seq<T>, normals: Seq<T>, texcoords: Seq<T>, i: int) -> ObjVertex<T> {
    ObjVertex {
        position: (positions[3 * i], positions[3 * i + 1], positions[3 * i + 2]),
        normal: if normals.len() > 0 {
            Some((normals[3 * i], normals[3 * i + 1], normals[3 * i + 2]))
        } else {
            None
        },
        uv: if texcoords.len() > 0 && 2 * i + 1 < texcoords.len() {
            Some((texcoords[2 * i], texcoords[2 * i + 1]))
        } else {
            None
        },
    }
}

/// The vertices of a model from its flat position, normal and texture
/// coordinate arrays: one vertex per full triple of positions.
pub fn obj_vertices<T: Copy>(positions: &[T], normals: &[T], texcoords: &[T]) -> (r: Vec<ObjVertex<T>>)
    requires
        normals@.len() == 0 || normals@.len() >= 3 * (positions@.len() / 3),
    ensures
        r@.len() == positions@.len() / 3,
        forall|i: int|
            0 <= i < r@.len() ==> #[trigger] r@[i] == spec_obj_vertex(positions@, normals@, texcoords@, i),
{
    let plen = positions.len();
    let count = plen / 3;
    assert(3 * count <= plen);
    let has_normals = normals.len() != 0;
    let mut vertices: Vec<ObjVertex<T>> = Vec::new();
    let mut i: usize = 0;
    while i < count
        invariant
            count == positions@.len() / 3,
            plen == positions@.len(),
            3 * count <= plen,
            has_normals == (normals@.len() > 0),
            normals@.len() == 0 || normals@.len() >= 3 * count,
            i <= count,
            vertices@.len() == i,
            forall|j: int|
                0 <= j < i ==> #[trigger] vertices@[j] == spec_obj_vertex(
                    positions@,
                    normals@,
                    texcoords@,
                    j,
                ),
        decreases count - i,
    {
        let position = (positions[3 * i], positions[3 * i + 1], positions[3 * i + 2]);
        let normal = if has_normals {
            Some((normals[3 * i], normals[3 * i + 1], normals[3 * i + 2]))
        } else {
            None
        };
        let uv = if texcoords.len() != 0 && i * 2 + 1 < texcoords.len() {
            Some((texcoords[i * 2], texcoords[i * 2 + 1]))
        } else {
            None
        };
        vertices.push(ObjVertex { position, normal, uv });
        i = i + 1;
    }
    vertices
}

/// The triangles of an index list: each full run of three indices, in order;
/// indices left over after the last full run belong to no triangle.
pub fn face_triangles(indices: &[u32]) -> (r: Vec<(usize, usize, usize)>)
    ensures
        r@.len() == indices@.len() / 3,
        forall|k: int|
            0 <= k < r@.len() ==> #[trigger] r@[k] == (
                indices@[3 * k] as usize,
                indices@[3 * k + 1] as usize,
                indices@[3 * k + 2] as usize,
            ),
{
    let ilen = indices.len();
    let count = ilen / 3;
    assert(3 * count <= ilen);
    let mut triangles: Vec<(usize, usize, usize)> = Vec::new();
    let mut k: usize = 0;
    while k < count
        invariant
            count == indices@.len() / 3,
            ilen == indices@.len(),
            3 * count <= ilen,
            k <= count,
            triangles@.len() == k,
            forall|j: int|
                0 <= j < k ==> #[trigger] triangles@[j] == (
                    indices@[3 * j] as usize,
                    indices@[3 * j + 1] as usize,
                    indices@[3 * j + 2] as usize,
                ),
        decreases count - k,
    {
        triangles.push((indices[3 * k] as usize, indices[3 * k + 1] as usize, indices[3 * k + 2] as usize));
        k = k + 1;
    }
    triangles
}

/// Component `j` (0, 1 or 2) of a triple.
pub open spec fn component<T>(t: (T, T, T), j: int) -> T {
    if j == 0 {
        t.0
    } else if j == 1 {
        t.1
    } else {
        t.2
    }
}

/// Flattening the vertices' positions gives back the position array, but for
/// the components after the last whole triple; the same holds of normals when
/// the model has any, and every vertex has a normal exactly when the model has
/// normals and texture coordinates exactly when both of its coordinates exist.
pub proof fn law_obj_vertices_flatten_back<T>(positions: Seq<T>, normals: Seq<T>, texcoords: Seq<T>, j: int, i: int)
    requires
        0 <= j < 3 * (positions.len() / 3),
        0 <= i < positions.len() / 3,
    ensures
        component(spec_obj_vertex(positions, normals, texcoords, j / 3).position, j % 3) == positions[j],
        normals.len() > 0 ==> component(spec_obj_vertex(positions, normals, texcoords, j / 3).normal->0, j % 3)
            == normals[j],
        spec_obj_vertex(positions, normals, texcoords, i).normal is Some <==> normals.len() > 0,
        spec_obj_vertex(positions, normals, texcoords, i).uv is Some <==> 2 * i + 1 < texcoords.len(),
        spec_obj_vertex(positions, normals, texcoords, i).uv matches Some(uv) ==> uv.0 == texcoords[2 * i]
            && uv.1 == texcoords[2 * i + 1],
{
    assert(j == 3 * (j / 3) + j % 3);
}

/// Flattening the triangles gives back the index list, but for the indices
/// after the last whole run of three.
pub proof fn law_face_triangles_flatten_back(indices: Seq<u32>, tris: Seq<(usize, usize, usize)>, j: int)
    requires
        tris.len() == indices.len() / 3,
        forall|k: int|
            0 <= k < tris.len() ==> #[trigger] tris[k] == (
                indices[3 * k] as usize,
                indices[3 * k + 1] as usize,
                indices[3 * k + 2] as usize,
            ),
        0 <= j < 3 * tris.len(),
    ensures
        component(tris[j / 3], j % 3) == indices[j] as usize,
{
    assert(j == 3 * (j / 3) + j % 3);
    assert(tris[j / 3] == (
        indices[3 * (j / 3)] as usize,
        indices[3 * (j / 3) + 1] as usize,
        indices[3 * (j / 3) + 2] as usize,
    ));
}

} // verus!
