//! The per-vertex record and its wire format.
//!
//! A [`ModelVertex`] is the fixed-layout record one vertex occupies in the
//! vertex buffer: position, texture coordinates and normal, in that order.
//! Its byte layout — position at offset 0, texture coordinates at 12,
//! normal at 20, 32 bytes in all — must match the shader's attribute
//! offsets exactly, so the packing into bytes is specified field by field.

use crate::bits::le4;
use crate::bits::le_words;
use crate::bits::lemma_le_words_concat;
use crate::bits::push_u32_le;
use crate::bits::Vec2Bits;
use crate::bits::Vec3Bits;
use crate::layout::model_vertex_layout;
use crate::layout::Vertex;
use crate::layout::VertexAttribute;
use crate::layout::VertexBufferLayout;
use crate::layout::VertexFormat;
use crate::layout::VertexStepMode;
use vstd::prelude::*;

verus! {

/// One vertex as uploaded to the GPU: position, texture coordinates and
/// normal, each a vector of scalar bit patterns.
#[derive(Clone, Copy, PartialEq, Eq, Structural, Debug)]
pub struct ModelVertex {
    pub position: Vec3Bits,
    pub tex_coords: Vec2Bits,
    pub normal: Vec3Bits,
}

impl Vertex for ModelVertex {
    fn desc() -> (layout: VertexBufferLayout)
        ensures
            layout@ == model_vertex_layout(),
    {
        let attributes = vec![
            VertexAttribute { offset: 0, shader_location: 0, format: VertexFormat::Float32x3 },
            VertexAttribute { offset: 12, shader_location: 1, format: VertexFormat::Float32x2 },
            VertexAttribute { offset: 20, shader_location: 2, format: VertexFormat::Float32x3 },
        ];
        VertexBufferLayout { array_stride: 32, step_mode: VertexStepMode::Vertex, attributes }
    }
}

/// The vertex a mesh's decoded attribute arrays describe at index `i`:
/// three consecutive position scalars, two texture scalars and three
/// normal scalars.
pub open spec fn interleaved_vertex(
    positions: Seq<u32>,
    texcoords: Seq<u32>,
    normals: Seq<u32>,
    i: int,
) -> ModelVertex {
    ModelVertex {
        position: Vec3Bits { x: positions[3 * i], y: positions[3 * i + 1], z: positions[3 * i + 2] },
        tex_coords: Vec2Bits { x: texcoords[2 * i], y: texcoords[2 * i + 1] },
        normal: Vec3Bits { x: normals[3 * i], y: normals[3 * i + 1], z: normals[3 * i + 2] },
    }
}

/// All vertices a mesh's decoded attribute arrays describe, in order.
pub open spec fn interleaved_vertices(
    positions: Seq<u32>,
    texcoords: Seq<u32>,
    normals: Seq<u32>,
) -> Seq<ModelVertex> {
    Seq::new((positions.len() / 3) as nat, |i: int| interleaved_vertex(positions, texcoords, normals, i))
}

/// Interleave a mesh's decoded attribute arrays into vertex records, one
/// vertex per three position scalars.
pub fn build_vertices(positions: &Vec<u32>, texcoords: &Vec<u32>, normals: &Vec<u32>) -> (r: Vec<
    ModelVertex,
>)
    requires
        positions@.len() % 3 == 0,
        texcoords@.len() == 2 * (positions@.len() / 3),
        normals@.len() == positions@.len(),
    ensures
        r@ == interleaved_vertices(positions@, texcoords@, normals@),
        r@.len() == positions@.len() / 3,
{
    let n: usize = positions.len() / 3;
    let mut r: Vec<ModelVertex> = Vec::new();
    let mut i: usize = 0;
    while i < n
        invariant
            0 <= i <= n,
            n == positions@.len() / 3,
            positions@.len() == 3 * n,
            positions@.len() <= usize::MAX,
            texcoords@.len() == 2 * n,
            normals@.len() == 3 * n,
            r@ =~= interleaved_vertices(positions@, texcoords@, normals@).take(i as int),
        decreases n - i,
    {
        proof {
            assert(3 * i + 2 < positions@.len());
            assert(2 * i + 1 < texcoords@.len());
            assert(3 * i + 2 < normals@.len());
        }
        let v = ModelVertex {
            position: Vec3Bits {
                x: positions[3 * i],
                y: positions[3 * i + 1],
                z: positions[3 * i + 2],
            },
            tex_coords: Vec2Bits { x: texcoords[2 * i], y: texcoords[2 * i + 1] },
            normal: Vec3Bits { x: normals[3 * i], y: normals[3 * i + 1], z: normals[3 * i + 2] },
        };
        r.push(v);
        i = i + 1;
    }
    proof {
        assert(r@ =~= interleaved_vertices(positions@, texcoords@, normals@));
    }
    r
}

/// The words of one vertex in wire order: position, texture coordinates,
/// normal.
pub open spec fn vertex_words(v: ModelVertex) -> Seq<u32> {
    seq![
        v.position.x,
        v.position.y,
        v.position.z,
        v.tex_coords.x,
        v.tex_coords.y,
        v.normal.x,
        v.normal.y,
        v.normal.z,
    ]
}

/// The words of a whole vertex buffer in wire order.
pub open spec fn vertices_words(vs: Seq<ModelVertex>) -> Seq<u32>
    decreases vs.len(),
{
    if vs.len() == 0 {
        Seq::empty()
    } else {
        vertices_words(vs.drop_last()) + vertex_words(vs.last())
    }
}

/// A vertex buffer's words count eight per vertex.
pub proof fn lemma_vertices_words_len(vs: Seq<ModelVertex>)
    ensures
        vertices_words(vs).len() == 8 * vs.len(),
    decreases vs.len(),
{
    if vs.len() > 0 {
        lemma_vertices_words_len(vs.drop_last());
    }
}

/// The words of one vertex encode as its eight fields' bytes, in order.
pub proof fn lemma_vertex_words_unfold(v: ModelVertex)
    ensures
        le_words(vertex_words(v)) == le4(v.position.x) + le4(v.position.y) + le4(v.position.z)
            + le4(v.tex_coords.x) + le4(v.tex_coords.y) + le4(v.normal.x) + le4(v.normal.y) + le4(
            v.normal.z,
        ),
{
    let s0 = Seq::<u32>::empty();
    let s1 = s0.push(v.position.x);
    let s2 = s1.push(v.position.y);
    let s3 = s2.push(v.position.z);
    let s4 = s3.push(v.tex_coords.x);
    let s5 = s4.push(v.tex_coords.y);
    let s6 = s5.push(v.normal.x);
    let s7 = s6.push(v.normal.y);
    let s8 = s7.push(v.normal.z);
    assert(vertex_words(v) =~= s8);
    assert(le_words(s0) == Seq::<u8>::empty());
    crate::bits::lemma_le_words_push(s0, v.position.x);
    crate::bits::lemma_le_words_push(s1, v.position.y);
    crate::bits::lemma_le_words_push(s2, v.position.z);
    crate::bits::lemma_le_words_push(s3, v.tex_coords.x);
    crate::bits::lemma_le_words_push(s4, v.tex_coords.y);
    crate::bits::lemma_le_words_push(s5, v.normal.x);
    crate::bits::lemma_le_words_push(s6, v.normal.y);
    crate::bits::lemma_le_words_push(s7, v.normal.z);
    assert(le_words(vertex_words(v)) =~= le4(v.position.x) + le4(v.position.y) + le4(v.position.z)
        + le4(v.tex_coords.x) + le4(v.tex_coords.y) + le4(v.normal.x) + le4(v.normal.y) + le4(
        v.normal.z,
    ));
}

/// Vertex `i` of a buffer contributes words `8*i .. 8*i + 8`.
pub proof fn lemma_vertices_words_index(vs: Seq<ModelVertex>, i: int)
    requires
        0 <= i < vs.len(),
    ensures
        vertices_words(vs).len() == 8 * vs.len(),
        vertices_words(vs).subrange(8 * i, 8 * i + 8) == vertex_words(vs[i]),
    decreases vs.len(),
{
    lemma_vertices_words_len(vs);
    lemma_vertices_words_len(vs.drop_last());
    if i == vs.len() - 1 {
        assert(vertices_words(vs).subrange(8 * i, 8 * i + 8) =~= vertex_words(vs[i]));
    } else {
        lemma_vertices_words_index(vs.drop_last(), i);
        assert(vs.drop_last()[i] == vs[i]);
        assert(vertices_words(vs).subrange(8 * i, 8 * i + 8) =~= vertices_words(
            vs.drop_last(),
        ).subrange(8 * i, 8 * i + 8));
    }
}

/// The per-vertex stream's stride: vertex `i` of a packed buffer
/// occupies exactly bytes `32*i .. 32*i + 32`, holding its own wire
/// bytes.
pub proof fn lemma_vertex_stride(vs: Seq<ModelVertex>, i: int)
    requires
        0 <= i < vs.len(),
    ensures
        le_words(vertices_words(vs)).len() == 32 * vs.len(),
        le_words(vertices_words(vs)).subrange(32 * i, 32 * i + 32) == le_words(vertex_words(vs[i])),
{
    lemma_vertices_words_index(vs, i);
    crate::bits::lemma_le_words_subrange(vertices_words(vs), 8 * i, 8 * i + 8);
}

/// The wire format of one vertex: each field's bytes sit at the byte
/// offset the vertex stream layout declares for it — position at 0,
/// texture coordinates at 12, normal at 20 — in a 32-byte record.
pub proof fn lemma_vertex_wire_format(v: ModelVertex)
    ensures
        le_words(vertex_words(v)).len() == 32,
        le_words(vertex_words(v)).subrange(0, 12) == le4(v.position.x) + le4(v.position.y) + le4(
            v.position.z,
        ),
        le_words(vertex_words(v)).subrange(12, 20) == le4(v.tex_coords.x) + le4(v.tex_coords.y),
        le_words(vertex_words(v)).subrange(20, 32) == le4(v.normal.x) + le4(v.normal.y) + le4(
            v.normal.z,
        ),
{
    lemma_vertex_words_unfold(v);
    assert(le_words(vertex_words(v)).subrange(0, 12) =~= le4(v.position.x) + le4(v.position.y)
        + le4(v.position.z));
    assert(le_words(vertex_words(v)).subrange(12, 20) =~= le4(v.tex_coords.x) + le4(
        v.tex_coords.y,
    ));
    assert(le_words(vertex_words(v)).subrange(20, 32) =~= le4(v.normal.x) + le4(v.normal.y) + le4(
        v.normal.z,
    ));
}

/// Pack a vertex buffer into its wire bytes: eight little-endian words
/// per vertex, 32 bytes each, in buffer order.
pub fn vertex_bytes(vertices: &Vec<ModelVertex>) -> (r: Vec<u8>)
    ensures
        r@ == le_words(vertices_words(vertices@)),
        r@.len() == 32 * vertices@.len(),
{
    let mut r: Vec<u8> = Vec::new();
    let mut i: usize = 0;
    while i < vertices.len()
        invariant
            0 <= i <= vertices@.len(),
            r@ == le_words(vertices_words(vertices@.take(i as int))),
        decreases vertices@.len() - i,
    {
        let v = vertices[i];
        push_u32_le(&mut r, v.position.x);
        push_u32_le(&mut r, v.position.y);
        push_u32_le(&mut r, v.position.z);
        push_u32_le(&mut r, v.tex_coords.x);
        push_u32_le(&mut r, v.tex_coords.y);
        push_u32_le(&mut r, v.normal.x);
        push_u32_le(&mut r, v.normal.y);
        push_u32_le(&mut r, v.normal.z);
        proof {
            let t = vertices@.take(i + 1 as int);
            assert(t.drop_last() =~= vertices@.take(i as int));
            assert(t.last() == vertices@[i as int]);
            lemma_le_words_concat(vertices_words(t.drop_last()), vertex_words(t.last()));
            lemma_vertex_words_unfold(v);
            assert(r@ =~= le_words(vertices_words(t)));
        }
        i = i + 1;
    }
    proof {
        assert(vertices@.take(vertices@.len() as int) =~= vertices@);
        lemma_vertices_words_len(vertices@);
        crate::bits::lemma_le_words_len(vertices_words(vertices@));
    }
    r
}

} // verus!
