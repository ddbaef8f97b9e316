use bad_stl::mesh::convert;
use bad_stl::mesh::ConversionError;
use bad_stl::mesh::RenderFace;
use bad_stl::mesh::SourceFace;
use bad_stl::mesh::SourceMesh;
use bad_stl::mesh::Vec3Bits;

fn bits(x: f32, y: f32, z: f32) -> Vec3Bits {
    Vec3Bits { x: x.to_bits(), y: y.to_bits(), z: z.to_bits() }
}

/// A closed cube: 8 corner vertices, 12 triangular faces (two per side),
/// each face carrying the side's outward unit axis-aligned normal.
fn cube() -> SourceMesh {
    let vertices = vec![
        bits(0.0, 0.0, 0.0),
        bits(1.0, 0.0, 0.0),
        bits(1.0, 1.0, 0.0),
        bits(0.0, 1.0, 0.0),
        bits(0.0, 0.0, 1.0),
        bits(1.0, 0.0, 1.0),
        bits(1.0, 1.0, 1.0),
        bits(0.0, 1.0, 1.0),
    ];
    let face = |v0: usize, v1: usize, v2: usize, normal: Vec3Bits| SourceFace {
        v0,
        v1,
        v2,
        normal,
    };
    let faces = vec![
        face(0, 2, 1, bits(0.0, 0.0, -1.0)),
        face(0, 3, 2, bits(0.0, 0.0, -1.0)),
        face(4, 5, 6, bits(0.0, 0.0, 1.0)),
        face(4, 6, 7, bits(0.0, 0.0, 1.0)),
        face(0, 1, 5, bits(0.0, -1.0, 0.0)),
        face(0, 5, 4, bits(0.0, -1.0, 0.0)),
        face(2, 3, 7, bits(0.0, 1.0, 0.0)),
        face(2, 7, 6, bits(0.0, 1.0, 0.0)),
        face(1, 2, 6, bits(1.0, 0.0, 0.0)),
        face(1, 6, 5, bits(1.0, 0.0, 0.0)),
        face(0, 4, 7, bits(-1.0, 0.0, 0.0)),
        face(0, 7, 3, bits(-1.0, 0.0, 0.0)),
    ];
    SourceMesh { vertices, faces }
}

#[test]
fn cube_converts_whole() {
    let mesh = cube();
    let out = convert(&mesh).expect("a cube indexes only 8 vertices");
    assert_eq!(out.positions.len(), 8);
    assert_eq!(out.faces.len(), 12);
    assert_eq!(out.normals.len(), 12);
    for f in &out.faces {
        assert!(f.v0 <= 7 && f.v1 <= 7 && f.v2 <= 7);
    }
    assert!(out.per_face_normals);
    assert!(!out.textured);
}

#[test]
fn vertex_order_is_preserved() {
    let mesh = cube();
    let out = convert(&mesh).unwrap();
    for i in 0..mesh.vertices.len() {
        assert_eq!(out.positions[i], mesh.vertices[i]);
    }
}

#[test]
fn face_indices_are_narrowed_faithfully() {
    let mesh = cube();
    let out = convert(&mesh).unwrap();
    for j in 0..mesh.faces.len() {
        let f = &mesh.faces[j];
        assert_eq!(out.faces[j], RenderFace {
            v0: f.v0 as u16,
            v1: f.v1 as u16,
            v2: f.v2 as u16,
        });
    }
}

#[test]
fn normals_pass_through_unchanged() {
    let mesh = cube();
    let out = convert(&mesh).unwrap();
    for j in 0..mesh.faces.len() {
        assert_eq!(out.normals[j], mesh.faces[j].normal);
    }
}

#[test]
fn largest_representable_index_converts() {
    let normal = bits(0.0, 0.0, 1.0);
    let mesh = SourceMesh {
        vertices: vec![bits(0.0, 0.0, 0.0)],
        faces: vec![SourceFace { v0: 65535, v1: 0, v2: 65535, normal }],
    };
    let out = convert(&mesh).unwrap();
    assert_eq!(out.faces[0], RenderFace { v0: 65535, v1: 0, v2: 65535 });
}

#[test]
fn oversized_index_is_rejected() {
    let mut mesh = cube();
    mesh.faces[5].v1 = 70000;
    let err = convert(&mesh).unwrap_err();
    assert_eq!(err, ConversionError::IndexOverflow {
        face_index: 5,
        vertex_index: 70000,
        max_value: 65535,
    });
}

#[test]
fn first_offending_face_and_reference_are_reported() {
    let normal = bits(1.0, 0.0, 0.0);
    let mesh = SourceMesh {
        vertices: vec![bits(0.0, 0.0, 0.0)],
        faces: vec![
            SourceFace { v0: 0, v1: 0, v2: 0, normal },
            SourceFace { v0: 0, v1: 65536, v2: 90000, normal },
            SourceFace { v0: 80000, v1: 0, v2: 0, normal },
        ],
    };
    let err = convert(&mesh).unwrap_err();
    assert_eq!(err, ConversionError::IndexOverflow {
        face_index: 1,
        vertex_index: 65536,
        max_value: 65535,
    });
}

#[test]
fn empty_mesh_converts() {
    let mesh = SourceMesh { vertices: vec![], faces: vec![] };
    let out = convert(&mesh).unwrap();
    assert_eq!(out.positions.len(), 0);
    assert_eq!(out.faces.len(), 0);
    assert_eq!(out.normals.len(), 0);
    assert!(out.per_face_normals);
    assert!(!out.textured);
}
