//! The mesh adapter: converts an indexed triangle mesh from the parser's
//! representation into the buffers the renderer expects, narrowing each
//! vertex reference to the renderer's 16-bit index type and failing — rather
//! than truncating — when a reference does not fit.

use vstd::prelude::*;

verus! {

/// Three scalar components of a vector, each held as the raw bit pattern of a
/// 32-bit float. The adapter never interprets coordinates or normals, it only
/// copies them, so carrying the bits keeps the copy exact.
#[derive(Clone, Copy, PartialEq, Eq, Structural, Debug)]
pub struct Vec3Bits {
    pub x: u32,
    pub y: u32,
    pub z: u32,
}

/// A triangular face of the parsed mesh: three references into the vertex
/// list, and the face's normal vector.
#[derive(Clone, Copy, PartialEq, Eq, Structural, Debug)]
pub struct SourceFace {
    pub v0: usize,
    pub v1: usize,
    pub v2: usize,
    pub normal: Vec3Bits,
}

/// An indexed triangle mesh as the STL parser hands it over.
#[derive(Debug)]
pub struct SourceMesh {
    pub vertices: Vec<Vec3Bits>,
    pub faces: Vec<SourceFace>,
}

/// A face of the converted mesh: the same three vertex references, narrowed
/// to the renderer's index type.
#[derive(Clone, Copy, PartialEq, Eq, Structural, Debug)]
pub struct RenderFace {
    pub v0: u16,
    pub v1: u16,
    pub v2: u16,
}

/// The buffers the renderer consumes: positions, index triples and normals in
/// parallel order, plus the two fixed layout flags.
#[derive(Debug)]
pub struct RenderMesh {
    pub positions: Vec<Vec3Bits>,
    pub faces: Vec<RenderFace>,
    pub normals: Vec<Vec3Bits>,
    /// The normals are one per face, not one per vertex.
    pub per_face_normals: bool,
    /// Whether the mesh carries texture coordinates or material groups; the
    /// adapter never produces any.
    pub textured: bool,
}

/// Why a conversion failed.
#[derive(Clone, Copy, PartialEq, Eq, Structural, Debug)]
pub enum ConversionError {
    /// A face referenced a vertex by an index the output index type cannot
    /// hold. `face_index` is the first such face, `vertex_index` the value of
    /// its first oversized reference, and `max_value` the largest
    /// representable output index.
    IndexOverflow { face_index: usize, vertex_index: usize, max_value: u16 },
}

/// The largest vertex index the renderer's index type can hold.
pub const MAX_RENDER_INDEX: u16 = 65535;

/// All three vertex references of a face fit the output index type.
pub open spec fn face_fits(f: SourceFace) -> bool {
    f.v0 <= MAX_RENDER_INDEX && f.v1 <= MAX_RENDER_INDEX && f.v2 <= MAX_RENDER_INDEX
}

/// Every face of the mesh fits the output index type.
pub open spec fn mesh_fits(m: SourceMesh) -> bool {
    forall|j: int| 0 <= j < m.faces@.len() ==> face_fits(#[trigger] m.faces@[j])
}

/// The face's vertex references, narrowed.
pub open spec fn narrow_face(f: SourceFace) -> RenderFace {
    RenderFace { v0: f.v0 as u16, v1: f.v1 as u16, v2: f.v2 as u16 }
}

/// The value of the first vertex reference of `f` that does not fit.
pub open spec fn first_oversized(f: SourceFace) -> usize
    recommends
        !face_fits(f),
{
    if f.v0 > MAX_RENDER_INDEX {
        f.v0
    } else if f.v1 > MAX_RENDER_INDEX {
        f.v1
    } else {
        f.v2
    }
}

/// `j` is the first face of `m` that does not fit.
pub open spec fn is_first_unfit(m: SourceMesh, j: int) -> bool {
    &&& 0 <= j < m.faces@.len()
    &&& !face_fits(m.faces@[j])
    &&& forall|k: int| 0 <= k < j ==> face_fits(#[trigger] m.faces@[k])
}

/// The error `convert` reports when face `j` is the first that does not fit.
pub open spec fn overflow_error(m: SourceMesh, j: int) -> ConversionError {
    ConversionError::IndexOverflow {
        face_index: j as usize,
        vertex_index: first_oversized(m.faces@[j]),
        max_value: MAX_RENDER_INDEX,
    }
}

/// Every vertex reference of the source mesh names an existing vertex.
pub open spec fn source_in_bounds(m: SourceMesh) -> bool {
    forall|j: int| 0 <= j < m.faces@.len() ==> {
        let f = #[trigger] m.faces@[j];
        f.v0 < m.vertices@.len() && f.v1 < m.vertices@.len() && f.v2 < m.vertices@.len()
    }
}

/// Every index triple of the converted mesh names an existing position.
pub open spec fn render_in_bounds(r: RenderMesh) -> bool {
    forall|j: int| 0 <= j < r.faces@.len() ==> {
        let f = #[trigger] r.faces@[j];
        f.v0 < r.positions@.len() && f.v1 < r.positions@.len() && f.v2 < r.positions@.len()
    }
}

impl RenderMesh {
    /// The normal buffer runs parallel to the face buffer, and the fixed
    /// flags are set as the renderer expects.
    pub open spec fn wf(self) -> bool {
        &&& self.normals@.len() == self.faces@.len()
        &&& self.per_face_normals
        &&& !self.textured
    }
}

/// Convert a parsed mesh into the renderer's buffers: positions copied in
/// order, vertex references narrowed, normals copied face by face. The whole
/// mesh converts, or the call fails on the first face whose reference exceeds
/// the output index type's maximum — no partial output.
pub fn convert(mesh: &SourceMesh) -> (r: Result<RenderMesh, ConversionError>)
    ensures
        match r {
            Ok(out) => {
                &&& mesh_fits(*mesh)
                &&& out.wf()
                &&& out.positions@ == mesh.vertices@
                &&& out.faces@.len() == mesh.faces@.len()
                &&& forall|j: int|
                    0 <= j < mesh.faces@.len() ==> #[trigger] out.faces@[j] == narrow_face(
                        mesh.faces@[j],
                    )
                &&& forall|j: int|
                    0 <= j < mesh.faces@.len() ==> #[trigger] out.normals@[j]
                        == mesh.faces@[j].normal
                &&& (source_in_bounds(*mesh) ==> render_in_bounds(out))
            },
            Err(e) => {
                &&& !mesh_fits(*mesh)
                &&& exists|j: int| is_first_unfit(*mesh, j) && e == overflow_error(*mesh, j)
            },
        },
{
    let mut positions: Vec<Vec3Bits> = Vec::new();
    let mut i: usize = 0;
    while i < mesh.vertices.len()
        invariant
            i <= mesh.vertices@.len(),
            positions@.len() == i,
            forall|k: int| 0 <= k < i ==> #[trigger] positions@[k] == mesh.vertices@[k],
        decreases mesh.vertices@.len() - i,
    {
        positions.push(mesh.vertices[i]);
        i += 1;
    }
    proof {
        assert(positions@ =~= mesh.vertices@);
    }

    let mut faces: Vec<RenderFace> = Vec::new();
    let mut normals: Vec<Vec3Bits> = Vec::new();
    let mut j: usize = 0;
    while j < mesh.faces.len()
        invariant
            j <= mesh.faces@.len(),
            faces@.len() == j,
            normals@.len() == j,
            forall|k: int| 0 <= k < j ==> face_fits(#[trigger] mesh.faces@[k]),
            forall|k: int| 0 <= k < j ==> #[trigger] faces@[k] == narrow_face(mesh.faces@[k]),
            forall|k: int| 0 <= k < j ==> #[trigger] normals@[k] == mesh.faces@[k].normal,
        decreases mesh.faces@.len() - j,
    {
        let face = mesh.faces[j];
        if face.v0 > MAX_RENDER_INDEX as usize || face.v1 > MAX_RENDER_INDEX as usize || face.v2
            > MAX_RENDER_INDEX as usize {
            let vertex_index: usize = if face.v0 > MAX_RENDER_INDEX as usize {
                face.v0
            } else if face.v1 > MAX_RENDER_INDEX as usize {
                face.v1
            } else {
                face.v2
            };
            proof {
                assert(is_first_unfit(*mesh, j as int));
            }
            return Err(
                ConversionError::IndexOverflow {
                    face_index: j,
                    vertex_index,
                    max_value: MAX_RENDER_INDEX,
                },
            );
        }
        faces.push(RenderFace { v0: face.v0 as u16, v1: face.v1 as u16, v2: face.v2 as u16 });
        normals.push(face.normal);
        j += 1;
    }

    let out = RenderMesh { positions, faces, normals, per_face_normals: true, textured: false };
    proof {
        if source_in_bounds(*mesh) {
            assert forall|k: int| 0 <= k < out.faces@.len() implies {
                let f = #[trigger] out.faces@[k];
                f.v0 < out.positions@.len() && f.v1 < out.positions@.len() && f.v2
                    < out.positions@.len()
            } by {
                assert(face_fits(mesh.faces@[k]));
                assert(out.faces@[k] == narrow_face(mesh.faces@[k]));
            }
        }
    }
    Ok(out)
}

} // verus!
