//! Per-instance transforms and their wire format.
//!
//! An [`InstanceRaw`] is the fixed-layout record one instance occupies in
//! the per-instance vertex stream: a 4x4 model matrix followed by a 3x3
//! normal matrix, column by column, 100 bytes in all. It is derived from
//! a logical transform — a position and a rotation — by placing the
//! rotation's columns and the position into the matrix; no scalar
//! arithmetic is involved, so the derivation is exact over bit patterns.
//! (Turning a quaternion into its rotation matrix is floating-point work
//! and stays outside this crate; the transform carries the matrix form.)

use crate::bits::le_words;
use crate::bits::lemma_le_words_subrange;
use crate::bits::Mat3Bits;
use crate::bits::Mat4Bits;
use crate::bits::Vec3Bits;
use crate::bits::Vec4Bits;
use crate::bits::F32_ONE_BITS;
use crate::bits::F32_ZERO_BITS;
use crate::layout::instance_layout;
use crate::layout::Vertex;
use crate::layout::VertexAttribute;
use crate::layout::VertexBufferLayout;
use crate::layout::VertexFormat;
use crate::layout::VertexStepMode;
use vstd::prelude::*;

verus! {

/// One instance as uploaded to the GPU: the model matrix and the normal
/// matrix, both as scalar bit patterns.
#[derive(Clone, Copy, PartialEq, Eq, Structural, Debug)]
pub struct InstanceRaw {
    pub model: Mat4Bits,
    pub normal: Mat3Bits,
}

/// The logical transform of one instance: a position and a rotation,
/// the rotation in its 3x3 matrix form.
#[derive(Clone, Copy, PartialEq, Eq, Structural, Debug)]
pub struct InstanceTransform {
    pub position: Vec3Bits,
    pub rotation: Mat3Bits,
}

/// The 3x3 identity rotation, as bit patterns.
pub open spec fn identity_mat3() -> Mat3Bits {
    Mat3Bits {
        c0: Vec3Bits { x: F32_ONE_BITS, y: F32_ZERO_BITS, z: F32_ZERO_BITS },
        c1: Vec3Bits { x: F32_ZERO_BITS, y: F32_ONE_BITS, z: F32_ZERO_BITS },
        c2: Vec3Bits { x: F32_ZERO_BITS, y: F32_ZERO_BITS, z: F32_ONE_BITS },
    }
}

/// The 3x3 identity rotation, as bit patterns.
pub fn identity_rotation() -> (m: Mat3Bits)
    ensures
        m == identity_mat3(),
{
    Mat3Bits {
        c0: Vec3Bits { x: F32_ONE_BITS, y: F32_ZERO_BITS, z: F32_ZERO_BITS },
        c1: Vec3Bits { x: F32_ZERO_BITS, y: F32_ONE_BITS, z: F32_ZERO_BITS },
        c2: Vec3Bits { x: F32_ZERO_BITS, y: F32_ZERO_BITS, z: F32_ONE_BITS },
    }
}

/// The instance record a transform derives: the model matrix composes the
/// translation with the rotation — the rotation's columns extended by a
/// zero, and the position as the fourth column with unit weight — and the
/// normal matrix is the rotation's linear part itself.
pub open spec fn raw_of_transform(t: InstanceTransform) -> InstanceRaw {
    InstanceRaw {
        model: Mat4Bits {
            c0: Vec4Bits {
                x: t.rotation.c0.x,
                y: t.rotation.c0.y,
                z: t.rotation.c0.z,
                w: F32_ZERO_BITS,
            },
            c1: Vec4Bits {
                x: t.rotation.c1.x,
                y: t.rotation.c1.y,
                z: t.rotation.c1.z,
                w: F32_ZERO_BITS,
            },
            c2: Vec4Bits {
                x: t.rotation.c2.x,
                y: t.rotation.c2.y,
                z: t.rotation.c2.z,
                w: F32_ZERO_BITS,
            },
            c3: Vec4Bits {
                x: t.position.x,
                y: t.position.y,
                z: t.position.z,
                w: F32_ONE_BITS,
            },
        },
        normal: t.rotation,
    }
}

impl InstanceTransform {
    /// Derive the uploadable instance record from this transform.
    pub fn to_raw(&self) -> (r: InstanceRaw)
        ensures
            r == raw_of_transform(*self),
    {
        InstanceRaw {
            model: Mat4Bits {
                c0: Vec4Bits {
                    x: self.rotation.c0.x,
                    y: self.rotation.c0.y,
                    z: self.rotation.c0.z,
                    w: F32_ZERO_BITS,
                },
                c1: Vec4Bits {
                    x: self.rotation.c1.x,
                    y: self.rotation.c1.y,
                    z: self.rotation.c1.z,
                    w: F32_ZERO_BITS,
                },
                c2: Vec4Bits {
                    x: self.rotation.c2.x,
                    y: self.rotation.c2.y,
                    z: self.rotation.c2.z,
                    w: F32_ZERO_BITS,
                },
                c3: Vec4Bits {
                    x: self.position.x,
                    y: self.position.y,
                    z: self.position.z,
                    w: F32_ONE_BITS,
                },
            },
            normal: self.rotation,
        }
    }
}

/// The transform round trip: under the identity rotation, the derived
/// model matrix is the pure translation — its fourth column carries the
/// position with unit weight — and the derived normal matrix is the 3x3
/// identity.
pub proof fn lemma_transform_round_trip(position: Vec3Bits)
    ensures
        raw_of_transform(
            InstanceTransform { position, rotation: identity_mat3() },
        ).model.c3 == (Vec4Bits { x: position.x, y: position.y, z: position.z, w: F32_ONE_BITS }),
        raw_of_transform(InstanceTransform { position, rotation: identity_mat3() }).normal
            == identity_mat3(),
{
}

impl Vertex for InstanceRaw {
    fn desc() -> (layout: VertexBufferLayout)
        ensures
            layout@ == instance_layout(),
    {
        let attributes = vec![
            VertexAttribute { offset: 0, shader_location: 5, format: VertexFormat::Float32x4 },
            VertexAttribute { offset: 16, shader_location: 6, format: VertexFormat::Float32x4 },
            VertexAttribute { offset: 32, shader_location: 7, format: VertexFormat::Float32x4 },
            VertexAttribute { offset: 48, shader_location: 8, format: VertexFormat::Float32x4 },
            VertexAttribute { offset: 64, shader_location: 9, format: VertexFormat::Float32x3 },
            VertexAttribute { offset: 76, shader_location: 10, format: VertexFormat::Float32x3 },
            VertexAttribute { offset: 88, shader_location: 11, format: VertexFormat::Float32x3 },
        ];
        VertexBufferLayout { array_stride: 100, step_mode: VertexStepMode::Instance, attributes }
    }
}

/// The words of one four-component column in wire order.
pub open spec fn vec4_words(v: Vec4Bits) -> Seq<u32> {
    seq![v.x, v.y, v.z, v.w]
}

/// The words of one three-component column in wire order.
pub open spec fn vec3_words(v: Vec3Bits) -> Seq<u32> {
    seq![v.x, v.y, v.z]
}

/// The words of one instance record in wire order: the four model-matrix
/// columns, then the three normal-matrix columns.
pub open spec fn instance_words(r: InstanceRaw) -> Seq<u32> {
    vec4_words(r.model.c0) + vec4_words(r.model.c1) + vec4_words(r.model.c2) + vec4_words(
        r.model.c3,
    ) + vec3_words(r.normal.c0) + vec3_words(r.normal.c1) + vec3_words(r.normal.c2)
}

/// The words of a whole instance buffer in wire order.
pub open spec fn instances_words(rs: Seq<InstanceRaw>) -> Seq<u32>
    decreases rs.len(),
{
    if rs.len() == 0 {
        Seq::empty()
    } else {
        instances_words(rs.drop_last()) + instance_words(rs.last())
    }
}

/// An instance buffer's words count 25 per record.
pub proof fn lemma_instances_words_len(rs: Seq<InstanceRaw>)
    ensures
        instances_words(rs).len() == 25 * rs.len(),
    decreases rs.len(),
{
    if rs.len() > 0 {
        lemma_instances_words_len(rs.drop_last());
    }
}

/// Record `i` of a buffer contributes words `25*i .. 25*i + 25`.
pub proof fn lemma_instances_words_index(rs: Seq<InstanceRaw>, i: int)
    requires
        0 <= i < rs.len(),
    ensures
        instances_words(rs).len() == 25 * rs.len(),
        instances_words(rs).subrange(25 * i, 25 * i + 25) == instance_words(rs[i]),
    decreases rs.len(),
{
    lemma_instances_words_len(rs);
    lemma_instances_words_len(rs.drop_last());
    if i == rs.len() - 1 {
        assert(instances_words(rs).subrange(25 * i, 25 * i + 25) =~= instance_words(rs[i]));
    } else {
        lemma_instances_words_index(rs.drop_last(), i);
        assert(rs.drop_last()[i] == rs[i]);
        assert(instances_words(rs).subrange(25 * i, 25 * i + 25) =~= instances_words(
            rs.drop_last(),
        ).subrange(25 * i, 25 * i + 25));
    }
}

/// The per-instance stream's stride: record `i` of a packed buffer
/// occupies exactly bytes `100*i .. 100*i + 100`, holding its own wire
/// bytes.
pub proof fn lemma_instance_stride(rs: Seq<InstanceRaw>, i: int)
    requires
        0 <= i < rs.len(),
    ensures
        le_words(instances_words(rs)).len() == 100 * rs.len(),
        le_words(instances_words(rs)).subrange(100 * i, 100 * i + 100) == le_words(
            instance_words(rs[i]),
        ),
{
    lemma_instances_words_index(rs, i);
    lemma_le_words_subrange(instances_words(rs), 25 * i, 25 * i + 25);
}

/// The wire format of one instance record: each matrix column's bytes sit
/// at the byte offset the instance stream layout declares for it — the
/// model-matrix columns at 0, 16, 32 and 48, the normal-matrix columns at
/// 64, 76 and 88 — in a 100-byte record.
pub proof fn lemma_instance_wire_format(r: InstanceRaw)
    ensures
        le_words(instance_words(r)).len() == 100,
        le_words(instance_words(r)).subrange(0, 16) == le_words(vec4_words(r.model.c0)),
        le_words(instance_words(r)).subrange(16, 32) == le_words(vec4_words(r.model.c1)),
        le_words(instance_words(r)).subrange(32, 48) == le_words(vec4_words(r.model.c2)),
        le_words(instance_words(r)).subrange(48, 64) == le_words(vec4_words(r.model.c3)),
        le_words(instance_words(r)).subrange(64, 76) == le_words(vec3_words(r.normal.c0)),
        le_words(instance_words(r)).subrange(76, 88) == le_words(vec3_words(r.normal.c1)),
        le_words(instance_words(r)).subrange(88, 100) == le_words(vec3_words(r.normal.c2)),
{
    let ws = instance_words(r);
    lemma_le_words_subrange(ws, 0, 4);
    lemma_le_words_subrange(ws, 4, 8);
    lemma_le_words_subrange(ws, 8, 12);
    lemma_le_words_subrange(ws, 12, 16);
    lemma_le_words_subrange(ws, 16, 19);
    lemma_le_words_subrange(ws, 19, 22);
    lemma_le_words_subrange(ws, 22, 25);
    assert(ws.subrange(0, 4) =~= vec4_words(r.model.c0));
    assert(ws.subrange(4, 8) =~= vec4_words(r.model.c1));
    assert(ws.subrange(8, 12) =~= vec4_words(r.model.c2));
    assert(ws.subrange(12, 16) =~= vec4_words(r.model.c3));
    assert(ws.subrange(16, 19) =~= vec3_words(r.normal.c0));
    assert(ws.subrange(19, 22) =~= vec3_words(r.normal.c1));
    assert(ws.subrange(22, 25) =~= vec3_words(r.normal.c2));
}

/// Lay an instance buffer out as its wire words: 25 per record, columns
/// in stream order.
#[verifier::rlimit(60)]
pub fn instance_words_vec(data: &Vec<InstanceRaw>) -> (r: Vec<u32>)
    ensures
        r@ == instances_words(data@),
        r@.len() == 25 * data@.len(),
{
    let mut r: Vec<u32> = Vec::new();
    let mut i: usize = 0;
    while i < data.len()
        invariant
            0 <= i <= data@.len(),
            r@ == instances_words(data@.take(i as int)),
        decreases data@.len() - i,
    {
        let v = data[i];
        r.push(v.model.c0.x);
        r.push(v.model.c0.y);
        r.push(v.model.c0.z);
        r.push(v.model.c0.w);
        r.push(v.model.c1.x);
        r.push(v.model.c1.y);
        r.push(v.model.c1.z);
        r.push(v.model.c1.w);
        r.push(v.model.c2.x);
        r.push(v.model.c2.y);
        r.push(v.model.c2.z);
        r.push(v.model.c2.w);
        r.push(v.model.c3.x);
        r.push(v.model.c3.y);
        r.push(v.model.c3.z);
        r.push(v.model.c3.w);
        r.push(v.normal.c0.x);
        r.push(v.normal.c0.y);
        r.push(v.normal.c0.z);
        r.push(v.normal.c1.x);
        r.push(v.normal.c1.y);
        r.push(v.normal.c1.z);
        r.push(v.normal.c2.x);
        r.push(v.normal.c2.y);
        r.push(v.normal.c2.z);
        proof {
            let t = data@.take(i + 1 as int);
            assert(t.drop_last() =~= data@.take(i as int));
            assert(t.last() == data@[i as int]);
            assert(r@ =~= instances_words(t));
        }
        i = i + 1;
    }
    proof {
        assert(data@.take(data@.len() as int) =~= data@);
        lemma_instances_words_len(data@);
    }
    r
}

/// Pack an instance buffer into its wire bytes: 25 little-endian words —
/// 100 bytes — per record, in buffer order.
pub fn instance_bytes(data: &Vec<InstanceRaw>) -> (r: Vec<u8>)
    ensures
        r@ == le_words(instances_words(data@)),
        r@.len() == 100 * data@.len(),
{
    let words = instance_words_vec(data);
    let r = crate::bits::words_to_le_bytes(&words);
    proof {
        lemma_instances_words_len(data@);
    }
    r
}

} // verus!
