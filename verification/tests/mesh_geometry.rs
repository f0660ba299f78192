use skybox::mesh::CubeMesh;

#[test]
fn cube_mesh_has_eight_vertices_and_twelve_triangles() {
    let mesh = CubeMesh::new();
    assert_eq!(mesh.vertices.len(), 8);
    assert_eq!(mesh.indices.len(), 36);
    assert_eq!(mesh.index_count(), 36);
}

#[test]
fn cube_indices_stay_in_range() {
    let mesh = CubeMesh::new();
    assert!(mesh.indices.iter().all(|&i| i < 8));
}

#[test]
fn cube_faces_are_planar() {
    let mesh = CubeMesh::new();
    // Outward unit normal of each run of six indices, in index-list order.
    let normals = [
        (0i64, 0i64, 1i64),
        (0, 0, -1),
        (-1, 0, 0),
        (1, 0, 0),
        (0, 1, 0),
        (0, -1, 0),
    ];
    for (j, (nx, ny, nz)) in normals.iter().enumerate() {
        for t in 0..6 {
            let v = mesh.vertices[mesh.indices[6 * j + t] as usize];
            assert_eq!(v.x * nx + v.y * ny + v.z * nz, 1, "face {j} corner {t}");
        }
    }
}

#[test]
fn cube_corners_alternate_signs() {
    let mesh = CubeMesh::new();
    for v in &mesh.vertices {
        assert!(v.x.abs() == 1 && v.y.abs() == 1 && v.z.abs() == 1);
    }
}

#[test]
fn cube_triangles_face_the_interior_camera() {
    let mesh = CubeMesh::new();
    let outward = [
        (0i64, 0i64, 1i64),
        (0, 0, -1),
        (-1, 0, 0),
        (1, 0, 0),
        (0, 1, 0),
        (0, -1, 0),
    ];
    for t in 0..12 {
        let v = |k: usize| mesh.vertices[mesh.indices[3 * t + k] as usize];
        let (v0, v1, v2) = (v(0), v(1), v(2));
        let e1 = (v1.x - v0.x, v1.y - v0.y, v1.z - v0.z);
        let e2 = (v2.x - v0.x, v2.y - v0.y, v2.z - v0.z);
        let n = (
            e1.1 * e2.2 - e1.2 * e2.1,
            e1.2 * e2.0 - e1.0 * e2.2,
            e1.0 * e2.1 - e1.1 * e2.0,
        );
        let (ox, oy, oz) = outward[t / 2];
        assert_eq!(n.0 * ox + n.1 * oy + n.2 * oz, -4, "triangle {t}");
    }
}
