use vstd::arithmetic::div_mod::lemma_div_multiples_vanish;
use vstd::math::abs;
use vstd::prelude::*;

verus! {

/// An integer 3-vector. Cube-face bases have components in {-1, 0, 1};
/// texel directions scale them by the face extent, so `i64` is ample.
#[derive(Debug, Clone, Copy, PartialEq, Eq, Structural)]
pub struct IVec3 {
    pub x: i64,
    pub y: i64,
    pub z: i64,
}

pub open spec fn spec_dot(a: IVec3, b: IVec3) -> int {
    a.x * b.x + a.y * b.y + a.z * b.z
}

/// Whether `c` is the cross product `a` x `b`.
pub open spec fn spec_is_cross(c: IVec3, a: IVec3, b: IVec3) -> bool {
    &&& c.x == a.y * b.z - a.z * b.y
    &&& c.y == a.z * b.x - a.x * b.z
    &&& c.z == a.x * b.y - a.y * b.x
}

/// The view direction of the camera of face `f`. Faces are ordered +X, -X,
/// +Y, -Y, +Z, -Z, the layer order of a cube image.
pub open spec fn spec_face_forward(f: int) -> IVec3 {
    if f == 0 {
        IVec3 { x: 1i64, y: 0i64, z: 0i64 }
    } else if f == 1 {
        IVec3 { x: -1i64, y: 0i64, z: 0i64 }
    } else if f == 2 {
        IVec3 { x: 0i64, y: 1i64, z: 0i64 }
    } else if f == 3 {
        IVec3 { x: 0i64, y: -1i64, z: 0i64 }
    } else if f == 4 {
        IVec3 { x: 0i64, y: 0i64, z: 1i64 }
    } else {
        IVec3 { x: 0i64, y: 0i64, z: -1i64 }
    }
}

/// The `up` vector handed to the look-at of face `f`'s camera. It equals the
/// direction in which the sampler's `t` coordinate grows on that face, so a
/// rendered face comes out in exactly the orientation the sampler reads.
pub open spec fn spec_face_up(f: int) -> IVec3 {
    if f == 2 {
        IVec3 { x: 0i64, y: 0i64, z: 1i64 }
    } else if f == 3 {
        IVec3 { x: 0i64, y: 0i64, z: -1i64 }
    } else {
        IVec3 { x: 0i64, y: -1i64, z: 0i64 }
    }
}

/// The direction in which the sampler's `s` coordinate grows on face `f`;
/// for a right-handed look-at this is `forward` x `up`.
pub open spec fn spec_face_right(f: int) -> IVec3 {
    if f == 0 {
        IVec3 { x: 0i64, y: 0i64, z: -1i64 }
    } else if f == 1 {
        IVec3 { x: 0i64, y: 0i64, z: 1i64 }
    } else if f == 5 {
        IVec3 { x: -1i64, y: 0i64, z: 0i64 }
    } else {
        IVec3 { x: 1i64, y: 0i64, z: 0i64 }
    }
}

/// The camera of one cube face: a fixed look-at frame at the cube's center.
#[derive(Debug, Clone, Copy, PartialEq, Eq, Structural)]
pub struct FaceCamera {
    pub forward: IVec3,
    pub up: IVec3,
}

pub open spec fn spec_face_camera(f: int) -> FaceCamera {
    FaceCamera { forward: spec_face_forward(f), up: spec_face_up(f) }
}

/// The six fixed face cameras, created once and shared by every pass that
/// writes into a cube image.
pub struct FaceCameraSet {
    pub cameras: Vec<FaceCamera>,
}

impl FaceCameraSet {
    pub open spec fn wf(self) -> bool {
        &&& self.cameras@.len() == 6
        &&& forall|f: int| 0 <= f < 6 ==> self.cameras@[f] == spec_face_camera(f)
    }

    pub fn new() -> (r: FaceCameraSet)
        ensures
            r.wf(),
    {
        let mut cameras: Vec<FaceCamera> = Vec::new();
        let mut f: u32 = 0;
        while f < 6
            invariant
                f <= 6,
                cameras@.len() == f,
                forall|i: int| 0 <= i < f ==> cameras@[i] == spec_face_camera(i),
            decreases 6 - f,
        {
            cameras.push(FaceCamera { forward: face_forward(f), up: face_up(f) });
            f = f + 1;
        }
        FaceCameraSet { cameras }
    }

    pub fn camera(&self, f: u32) -> (r: FaceCamera)
        requires
            self.wf(),
            f < 6,
        ensures
            r == spec_face_camera(f as int),
    {
        self.cameras[f as usize]
    }
}

pub fn face_forward(f: u32) -> (r: IVec3)
    requires
        f < 6,
    ensures
        r == spec_face_forward(f as int),
{
    match f {
        0 => IVec3 { x: 1, y: 0, z: 0 },
        1 => IVec3 { x: -1, y: 0, z: 0 },
        2 => IVec3 { x: 0, y: 1, z: 0 },
        3 => IVec3 { x: 0, y: -1, z: 0 },
        4 => IVec3 { x: 0, y: 0, z: 1 },
        _ => IVec3 { x: 0, y: 0, z: -1 },
    }
}

pub fn face_up(f: u32) -> (r: IVec3)
    requires
        f < 6,
    ensures
        r == spec_face_up(f as int),
{
    match f {
        2 => IVec3 { x: 0, y: 0, z: 1 },
        3 => IVec3 { x: 0, y: 0, z: -1 },
        _ => IVec3 { x: 0, y: -1, z: 0 },
    }
}

pub fn face_right(f: u32) -> (r: IVec3)
    requires
        f < 6,
    ensures
        r == spec_face_right(f as int),
{
    match f {
        0 => IVec3 { x: 0, y: 0, z: -1 },
        1 => IVec3 { x: 0, y: 0, z: 1 },
        5 => IVec3 { x: -1, y: 0, z: 0 },
        _ => IVec3 { x: 1, y: 0, z: 0 },
    }
}

/// Each face camera is an orthonormal right-handed frame, and its `right`
/// axis really is `forward` x `up`.
pub proof fn lemma_face_basis_orthonormal(f: int)
    requires
        0 <= f < 6,
    ensures
        spec_dot(spec_face_forward(f), spec_face_forward(f)) == 1,
        spec_dot(spec_face_up(f), spec_face_up(f)) == 1,
        spec_dot(spec_face_right(f), spec_face_right(f)) == 1,
        spec_dot(spec_face_forward(f), spec_face_up(f)) == 0,
        spec_dot(spec_face_forward(f), spec_face_right(f)) == 0,
        spec_dot(spec_face_up(f), spec_face_right(f)) == 0,
        spec_is_cross(spec_face_right(f), spec_face_forward(f), spec_face_up(f)),
{
    assert(1int * 1int == 1 && (-1int) * (-1int) == 1 && 1int * 0int == 0 && 0int * 1int == 0
        && 0int * 0int == 0 && (-1int) * 0int == 0 && 0int * (-1int) == 0 && (-1int) * 1int == -1
        && 1int * (-1int) == -1) by (nonlinear_arith);
    if f == 0 {
        assert(spec_face_forward(f) == IVec3 { x: 1i64, y: 0i64, z: 0i64 });
        assert(spec_face_up(f) == IVec3 { x: 0i64, y: -1i64, z: 0i64 });
        assert(spec_face_right(f) == IVec3 { x: 0i64, y: 0i64, z: -1i64 });
    } else if f == 1 {
        assert(spec_face_forward(f) == IVec3 { x: -1i64, y: 0i64, z: 0i64 });
        assert(spec_face_up(f) == IVec3 { x: 0i64, y: -1i64, z: 0i64 });
        assert(spec_face_right(f) == IVec3 { x: 0i64, y: 0i64, z: 1i64 });
    } else if f == 2 {
        assert(spec_face_forward(f) == IVec3 { x: 0i64, y: 1i64, z: 0i64 });
        assert(spec_face_up(f) == IVec3 { x: 0i64, y: 0i64, z: 1i64 });
        assert(spec_face_right(f) == IVec3 { x: 1i64, y: 0i64, z: 0i64 });
    } else if f == 3 {
        assert(spec_face_forward(f) == IVec3 { x: 0i64, y: -1i64, z: 0i64 });
        assert(spec_face_up(f) == IVec3 { x: 0i64, y: 0i64, z: -1i64 });
        assert(spec_face_right(f) == IVec3 { x: 1i64, y: 0i64, z: 0i64 });
    } else if f == 4 {
        assert(spec_face_forward(f) == IVec3 { x: 0i64, y: 0i64, z: 1i64 });
        assert(spec_face_up(f) == IVec3 { x: 0i64, y: -1i64, z: 0i64 });
        assert(spec_face_right(f) == IVec3 { x: 1i64, y: 0i64, z: 0i64 });
    } else {
        assert(spec_face_forward(f) == IVec3 { x: 0i64, y: 0i64, z: -1i64 });
        assert(spec_face_up(f) == IVec3 { x: 0i64, y: -1i64, z: 0i64 });
        assert(spec_face_right(f) == IVec3 { x: -1i64, y: 0i64, z: 0i64 });
    }
}

/// The world-space direction through the center of texel `(x, y)` of face
/// `f` rendered at the given extent: the face camera's forward axis plus the
/// in-face offsets, all scaled to the common denominator `size`.
pub open spec fn spec_texel_direction(f: int, x: int, y: int, size: int) -> (int, int, int) {
    let a = 2 * x + 1 - size;
    let b = 2 * y + 1 - size;
    let w = spec_face_forward(f);
    let r = spec_face_right(f);
    let u = spec_face_up(f);
    (
        size * w.x + a * r.x + b * u.x,
        size * w.y + a * r.y + b * u.y,
        size * w.z + a * r.z + b * u.z,
    )
}

/// The cube-sampling convention: which face a direction reads, and the
/// `(sc, tc, ma)` triple whose quotients give the in-face coordinates.
pub open spec fn spec_face_of_direction(d: (int, int, int)) -> (int, int, int, int) {
    let x = d.0;
    let y = d.1;
    let z = d.2;
    if abs(x) >= abs(y) && abs(x) >= abs(z) {
        if x >= 0 {
            (0, -z, -y, x)
        } else {
            (1, z, -y, -x)
        }
    } else if abs(y) >= abs(z) {
        if y >= 0 {
            (2, x, z, y)
        } else {
            (3, x, -z, -y)
        }
    } else {
        if z >= 0 {
            (4, x, -y, z)
        } else {
            (5, -x, -y, -z)
        }
    }
}

/// Rendering through the face cameras lands every texel exactly where the
/// sampler convention reads it back: the direction through texel `(x, y)` of
/// face `f` is classified to face `f`, and the recovered coordinates are
/// `(x, y)` again. A per-face uniquely colored test image therefore
/// reproduces the faces in this fixed order and orientation.
pub proof fn lemma_face_convention(f: int, x: int, y: int, size: int)
    requires
        0 <= f < 6,
        1 <= size,
        0 <= x < size,
        0 <= y < size,
    ensures
        ({
            let c = spec_face_of_direction(spec_texel_direction(f, x, y, size));
            c.0 == f && c.1 == 2 * x + 1 - size && c.2 == 2 * y + 1 - size && c.3 == size
                && (c.1 + c.3 - 1) / 2 == x && (c.2 + c.3 - 1) / 2 == y
        }),
{
    let a = 2 * x + 1 - size;
    let b = 2 * y + 1 - size;
    let d = spec_texel_direction(f, x, y, size);
    assert(-size < a < size);
    assert(-size < b < size);
    assert(size * 1int == size && size * 0int == 0 && size * (-1int) == -size && a * 1int == a
        && a * 0int == 0 && a * (-1int) == -a && b * 1int == b && b * 0int == 0 && b * (-1int)
        == -b) by (nonlinear_arith);
    if f == 0 {
        assert(d == (size, -b, -a));
    } else if f == 1 {
        assert(d == (-size, -b, a));
    } else if f == 2 {
        assert(d == (a, size, b));
    } else if f == 3 {
        assert(d == (a, -size, -b));
    } else if f == 4 {
        assert(d == (a, -b, size));
    } else {
        assert(d == (-a, -b, -size));
    }
    let c = spec_face_of_direction(d);
    assert(c.1 == a && c.2 == b && c.3 == size);
    assert(a + size - 1 == 2 * x);
    assert(b + size - 1 == 2 * y);
    lemma_div_multiples_vanish(x, 2);
    lemma_div_multiples_vanish(y, 2);
}

/// The forward axis of each face camera samples that same face.
pub proof fn lemma_forward_hits_own_face(f: int)
    requires
        0 <= f < 6,
    ensures
        ({
            let w = spec_face_forward(f);
            spec_face_of_direction((w.x as int, w.y as int, w.z as int)).0 == f
        }),
{
}

/// Computes the texel-center direction in integer arithmetic.
pub fn texel_direction(f: u32, x: u32, y: u32, size: u32) -> (r: IVec3)
    requires
        f < 6,
        1 <= size,
        x < size,
        y < size,
    ensures
        (r.x as int, r.y as int, r.z as int) == spec_texel_direction(
            f as int,
            x as int,
            y as int,
            size as int,
        ),
{
    let a: i64 = 2 * (x as i64) + 1 - (size as i64);
    let b: i64 = 2 * (y as i64) + 1 - (size as i64);
    let s: i64 = size as i64;
    proof {
        let szi = size as int;
        let ai = a as int;
        let bi = b as int;
        assert(szi * 1int == szi && szi * 0int == 0 && szi * (-1int) == -szi && ai * 1int == ai
            && ai * 0int == 0 && ai * (-1int) == -ai && bi * 1int == bi && bi * 0int == 0
            && bi * (-1int) == -bi) by (nonlinear_arith);
    }
    match f {
        0 => IVec3 { x: s, y: -b, z: -a },
        1 => IVec3 { x: -s, y: -b, z: a },
        2 => IVec3 { x: a, y: s, z: b },
        3 => IVec3 { x: a, y: -s, z: -b },
        4 => IVec3 { x: a, y: -b, z: s },
        _ => IVec3 { x: -a, y: -b, z: -s },
    }
}

fn abs_i64(v: i64) -> (r: i64)
    requires
        v != i64::MIN,
    ensures
        r == abs(v as int),
{
    if v < 0 {
        -v
    } else {
        v
    }
}

/// Classifies a direction by the cube-sampling convention. The direction
/// must not be the zero vector.
pub fn face_of_direction(d: IVec3) -> (r: (u32, i64, i64, i64))
    requires
        -0x4000_0000_0000_0000 < d.x < 0x4000_0000_0000_0000,
        -0x4000_0000_0000_0000 < d.y < 0x4000_0000_0000_0000,
        -0x4000_0000_0000_0000 < d.z < 0x4000_0000_0000_0000,
        !(d.x == 0 && d.y == 0 && d.z == 0),
    ensures
        (r.0 as int, r.1 as int, r.2 as int, r.3 as int) == spec_face_of_direction(
            (d.x as int, d.y as int, d.z as int),
        ),
{
    let ax = abs_i64(d.x);
    let ay = abs_i64(d.y);
    let az = abs_i64(d.z);
    if ax >= ay && ax >= az {
        if d.x >= 0 {
            (0, -d.z, -d.y, d.x)
        } else {
            (1, d.z, -d.y, -d.x)
        }
    } else if ay >= az {
        if d.y >= 0 {
            (2, d.x, d.z, d.y)
        } else {
            (3, d.x, -d.z, -d.y)
        }
    } else {
        if d.z >= 0 {
            (4, d.x, -d.y, d.z)
        } else {
            (5, -d.x, -d.y, -d.z)
        }
    }
}

} // verus!

