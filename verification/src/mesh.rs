use crate::faces::{spec_is_cross, IVec3};
use vstd::prelude::*;

verus! {

/// The unit cube's eight corners, in half-unit coordinates: each component
/// is -1 or 1, and the renderer scales by one half when staging vertices.
pub open spec fn spec_cube_vertices() -> Seq<IVec3> {
    seq![
        IVec3 { x: -1i64, y: -1i64, z: -1i64 },
        IVec3 { x: 1i64, y: -1i64, z: -1i64 },
        IVec3 { x: 1i64, y: 1i64, z: -1i64 },
        IVec3 { x: -1i64, y: 1i64, z: -1i64 },
        IVec3 { x: -1i64, y: -1i64, z: 1i64 },
        IVec3 { x: 1i64, y: -1i64, z: 1i64 },
        IVec3 { x: 1i64, y: 1i64, z: 1i64 },
        IVec3 { x: -1i64, y: 1i64, z: 1i64 },
    ]
}

/// The cube's index list: twelve triangles, two per face, in the order
/// +Z, -Z, -X, +X, +Y, -Y.
pub open spec fn spec_cube_indices() -> Seq<u16> {
    seq![
        6u16, 5u16, 4u16, 4u16, 7u16, 6u16,
        2u16, 3u16, 0u16, 0u16, 1u16, 2u16,
        7u16, 4u16, 0u16, 0u16, 3u16, 7u16,
        6u16, 2u16, 1u16, 1u16, 5u16, 6u16,
        6u16, 7u16, 3u16, 3u16, 2u16, 6u16,
        5u16, 1u16, 0u16, 0u16, 4u16, 5u16,
    ]
}

/// The outward unit normal of mesh face `j`, in the order the index list
/// lays its faces out.
pub open spec fn spec_mesh_face_normal(j: int) -> IVec3 {
    if j == 0 {
        IVec3 { x: 0i64, y: 0i64, z: 1i64 }
    } else if j == 1 {
        IVec3 { x: 0i64, y: 0i64, z: -1i64 }
    } else if j == 2 {
        IVec3 { x: -1i64, y: 0i64, z: 0i64 }
    } else if j == 3 {
        IVec3 { x: 1i64, y: 0i64, z: 0i64 }
    } else if j == 4 {
        IVec3 { x: 0i64, y: 1i64, z: 0i64 }
    } else {
        IVec3 { x: 0i64, y: -1i64, z: 0i64 }
    }
}

/// The single cube mesh shared by every bake pass and by skybox display:
/// eight vertices and thirty-six indices, staged to the GPU once.
pub struct CubeMesh {
    pub vertices: Vec<IVec3>,
    pub indices: Vec<u16>,
}

impl CubeMesh {
    pub open spec fn wf(self) -> bool {
        &&& self.vertices@ == spec_cube_vertices()
        &&& self.indices@ == spec_cube_indices()
    }

    pub fn new() -> (r: CubeMesh)
        ensures
            r.wf(),
            r.vertices@.len() == 8,
            r.indices@.len() == 36,
    {
        let vertices: Vec<IVec3> = vec![
            IVec3 { x: -1, y: -1, z: -1 },
            IVec3 { x: 1, y: -1, z: -1 },
            IVec3 { x: 1, y: 1, z: -1 },
            IVec3 { x: -1, y: 1, z: -1 },
            IVec3 { x: -1, y: -1, z: 1 },
            IVec3 { x: 1, y: -1, z: 1 },
            IVec3 { x: 1, y: 1, z: 1 },
            IVec3 { x: -1, y: 1, z: 1 },
        ];
        let indices: Vec<u16> = vec![
            6, 5, 4, 4, 7, 6,
            2, 3, 0, 0, 1, 2,
            7, 4, 0, 0, 3, 7,
            6, 2, 1, 1, 5, 6,
            6, 7, 3, 3, 2, 6,
            5, 1, 0, 0, 4, 5,
        ];
        proof {
            assert(vertices@ =~= spec_cube_vertices());
            assert(indices@ =~= spec_cube_indices());
        }
        CubeMesh { vertices, indices }
    }

    /// The number of indices the skybox draw submits.
    pub fn index_count(&self) -> (r: u32)
        requires
            self.wf(),
        ensures
            r == 36,
    {
        proof {
            assert(self.indices@.len() == 36);
        }
        self.indices.len() as u32
    }
}

/// Every index of the cube mesh addresses one of its eight vertices, so the
/// indexed draw can never read out of bounds.
pub proof fn lemma_cube_indices_in_range(k: int)
    requires
        0 <= k < 36,
    ensures
        spec_cube_indices()[k] < 8,
{
}

/// Triangle corner `t` of mesh face `j` lies in that face's plane: its dot
/// product with the outward unit normal is one, the plane's offset.
pub proof fn lemma_cube_face_planar(j: int, t: int)
    requires
        0 <= j < 6,
        0 <= t < 6,
    ensures
        ({
            let v = spec_cube_vertices()[spec_cube_indices()[6 * j + t] as int];
            let n = spec_mesh_face_normal(j);
            v.x * n.x + v.y * n.y + v.z * n.z == 1
        }),
{
    assert(1int * 1int == 1 && (-1int) * (-1int) == 1 && 1int * 0int == 0 && 0int * 1int == 0
        && 0int * 0int == 0 && (-1int) * 0int == 0 && 0int * (-1int) == 0 && (-1int) * 1int == -1
        && 1int * (-1int) == -1) by (nonlinear_arith);
}

/// Every triangle of the index list winds the same way: its geometric
/// normal points into the cube, toward the bake camera at the center, so
/// the rasterizer sees all twelve interior faces front on.
pub proof fn lemma_cube_triangles_face_inward(t: int)
    requires
        0 <= t < 12,
    ensures
        ({
            let v0 = spec_cube_vertices()[spec_cube_indices()[3 * t] as int];
            let v1 = spec_cube_vertices()[spec_cube_indices()[3 * t + 1] as int];
            let v2 = spec_cube_vertices()[spec_cube_indices()[3 * t + 2] as int];
            let n = (
                (v1.y - v0.y) * (v2.z - v0.z) - (v1.z - v0.z) * (v2.y - v0.y),
                (v1.z - v0.z) * (v2.x - v0.x) - (v1.x - v0.x) * (v2.z - v0.z),
                (v1.x - v0.x) * (v2.y - v0.y) - (v1.y - v0.y) * (v2.x - v0.x),
            );
            let outward = spec_mesh_face_normal(t / 2);
            n.0 * outward.x + n.1 * outward.y + n.2 * outward.z == -4
        }),
{
    assert(2int * 2int == 4 && (-2int) * (-2int) == 4 && 2int * (-2int) == -4 && (-2int) * 2int
        == -4 && 2int * 0int == 0 && (-2int) * 0int == 0 && 0int * 2int == 0 && 0int * (-2int)
        == 0 && 0int * 0int == 0 && 4int * 1int == 4 && (-4int) * 1int == -4 && 4int * (-1int)
        == -4 && (-4int) * (-1int) == 4 && 4int * 0int == 0 && (-4int) * 0int == 0 && 0int * 1int
        == 0 && 0int * (-1int) == 0) by (nonlinear_arith);
    if t == 0 {
        assert(spec_cube_indices()[3 * t] == 6u16);
        assert(spec_cube_indices()[3 * t + 1] == 5u16);
        assert(spec_cube_indices()[3 * t + 2] == 4u16);
        assert(spec_cube_vertices()[6] == IVec3 { x: 1i64, y: 1i64, z: 1i64 });
        assert(spec_cube_vertices()[5] == IVec3 { x: 1i64, y: -1i64, z: 1i64 });
        assert(spec_cube_vertices()[4] == IVec3 { x: -1i64, y: -1i64, z: 1i64 });
    } else if t == 1 {
        assert(spec_cube_indices()[3 * t] == 4u16);
        assert(spec_cube_indices()[3 * t + 1] == 7u16);
        assert(spec_cube_indices()[3 * t + 2] == 6u16);
        assert(spec_cube_vertices()[4] == IVec3 { x: -1i64, y: -1i64, z: 1i64 });
        assert(spec_cube_vertices()[7] == IVec3 { x: -1i64, y: 1i64, z: 1i64 });
        assert(spec_cube_vertices()[6] == IVec3 { x: 1i64, y: 1i64, z: 1i64 });
    } else if t == 2 {
        assert(spec_cube_indices()[3 * t] == 2u16);
        assert(spec_cube_indices()[3 * t + 1] == 3u16);
        assert(spec_cube_indices()[3 * t + 2] == 0u16);
        assert(spec_cube_vertices()[2] == IVec3 { x: 1i64, y: 1i64, z: -1i64 });
        assert(spec_cube_vertices()[3] == IVec3 { x: -1i64, y: 1i64, z: -1i64 });
        assert(spec_cube_vertices()[0] == IVec3 { x: -1i64, y: -1i64, z: -1i64 });
    } else if t == 3 {
        assert(spec_cube_indices()[3 * t] == 0u16);
        assert(spec_cube_indices()[3 * t + 1] == 1u16);
        assert(spec_cube_indices()[3 * t + 2] == 2u16);
        assert(spec_cube_vertices()[0] == IVec3 { x: -1i64, y: -1i64, z: -1i64 });
        assert(spec_cube_vertices()[1] == IVec3 { x: 1i64, y: -1i64, z: -1i64 });
        assert(spec_cube_vertices()[2] == IVec3 { x: 1i64, y: 1i64, z: -1i64 });
    } else if t == 4 {
        assert(spec_cube_indices()[3 * t] == 7u16);
        assert(spec_cube_indices()[3 * t + 1] == 4u16);
        assert(spec_cube_indices()[3 * t + 2] == 0u16);
        assert(spec_cube_vertices()[7] == IVec3 { x: -1i64, y: 1i64, z: 1i64 });
        assert(spec_cube_vertices()[4] == IVec3 { x: -1i64, y: -1i64, z: 1i64 });
        assert(spec_cube_vertices()[0] == IVec3 { x: -1i64, y: -1i64, z: -1i64 });
    } else if t == 5 {
        assert(spec_cube_indices()[3 * t] == 0u16);
        assert(spec_cube_indices()[3 * t + 1] == 3u16);
        assert(spec_cube_indices()[3 * t + 2] == 7u16);
        assert(spec_cube_vertices()[0] == IVec3 { x: -1i64, y: -1i64, z: -1i64 });
        assert(spec_cube_vertices()[3] == IVec3 { x: -1i64, y: 1i64, z: -1i64 });
        assert(spec_cube_vertices()[7] == IVec3 { x: -1i64, y: 1i64, z: 1i64 });
    } else if t == 6 {
        assert(spec_cube_indices()[3 * t] == 6u16);
        assert(spec_cube_indices()[3 * t + 1] == 2u16);
        assert(spec_cube_indices()[3 * t + 2] == 1u16);
        assert(spec_cube_vertices()[6] == IVec3 { x: 1i64, y: 1i64, z: 1i64 });
        assert(spec_cube_vertices()[2] == IVec3 { x: 1i64, y: 1i64, z: -1i64 });
        assert(spec_cube_vertices()[1] == IVec3 { x: 1i64, y: -1i64, z: -1i64 });
    } else if t == 7 {
        assert(spec_cube_indices()[3 * t] == 1u16);
        assert(spec_cube_indices()[3 * t + 1] == 5u16);
        assert(spec_cube_indices()[3 * t + 2] == 6u16);
        assert(spec_cube_vertices()[1] == IVec3 { x: 1i64, y: -1i64, z: -1i64 });
        assert(spec_cube_vertices()[5] == IVec3 { x: 1i64, y: -1i64, z: 1i64 });
        assert(spec_cube_vertices()[6] == IVec3 { x: 1i64, y: 1i64, z: 1i64 });
    } else if t == 8 {
        assert(spec_cube_indices()[3 * t] == 6u16);
        assert(spec_cube_indices()[3 * t + 1] == 7u16);
        assert(spec_cube_indices()[3 * t + 2] == 3u16);
        assert(spec_cube_vertices()[6] == IVec3 { x: 1i64, y: 1i64, z: 1i64 });
        assert(spec_cube_vertices()[7] == IVec3 { x: -1i64, y: 1i64, z: 1i64 });
        assert(spec_cube_vertices()[3] == IVec3 { x: -1i64, y: 1i64, z: -1i64 });
    } else if t == 9 {
        assert(spec_cube_indices()[3 * t] == 3u16);
        assert(spec_cube_indices()[3 * t + 1] == 2u16);
        assert(spec_cube_indices()[3 * t + 2] == 6u16);
        assert(spec_cube_vertices()[3] == IVec3 { x: -1i64, y: 1i64, z: -1i64 });
        assert(spec_cube_vertices()[2] == IVec3 { x: 1i64, y: 1i64, z: -1i64 });
        assert(spec_cube_vertices()[6] == IVec3 { x: 1i64, y: 1i64, z: 1i64 });
    } else if t == 10 {
        assert(spec_cube_indices()[3 * t] == 5u16);
        assert(spec_cube_indices()[3 * t + 1] == 1u16);
        assert(spec_cube_indices()[3 * t + 2] == 0u16);
        assert(spec_cube_vertices()[5] == IVec3 { x: 1i64, y: -1i64, z: 1i64 });
        assert(spec_cube_vertices()[1] == IVec3 { x: 1i64, y: -1i64, z: -1i64 });
        assert(spec_cube_vertices()[0] == IVec3 { x: -1i64, y: -1i64, z: -1i64 });
} else {
        assert(spec_cube_indices()[3 * t] == 0u16);
        assert(spec_cube_indices()[3 * t + 1] == 4u16);
        assert(spec_cube_indices()[3 * t + 2] == 5u16);
        assert(spec_cube_vertices()[0] == IVec3 { x: -1i64, y: -1i64, z: -1i64 });
        assert(spec_cube_vertices()[4] == IVec3 { x: -1i64, y: -1i64, z: 1i64 });
        assert(spec_cube_vertices()[5] == IVec3 { x: 1i64, y: -1i64, z: 1i64 });
    }
}

} // verus!
