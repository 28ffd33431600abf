//! Models, meshes and materials, and their assembly from decoded assets.
//!
//! A [`Model`] is an ordered collection of meshes, each holding its own
//! geometry and an optional index into the model's material list. The
//! material list and the material binding layout stand or fall together,
//! so both live in one tagged variant: an untextured model has neither, a
//! textured model has both. Assembly validates the decoded arrays and
//! fails fast on malformed geometry — a half-built GPU buffer is worse
//! than none.

use crate::vertex::build_vertices;
use crate::vertex::interleaved_vertices;
use crate::vertex::ModelVertex;
use vstd::prelude::*;

verus! {

/// Vertex and index data for one mesh partition, ready for upload.
#[derive(Debug)]
pub struct Geometry {
    pub name: String,
    pub vertices: Vec<ModelVertex>,
    pub indices: Vec<u32>,
    /// The number of indices drawn for this geometry.
    pub num_elements: u32,
}

impl Geometry {
    /// A geometry is well formed when its element count is its index
    /// count and every index points at one of its vertices.
    pub open spec fn wf(self) -> bool {
        &&& self.num_elements == self.indices@.len()
        &&& forall|k: int|
            0 <= k < self.indices@.len() ==> (self.indices@[k] as int) < self.vertices@.len()
    }
}

/// A named diffuse material. The decoded image and its GPU binding are
/// held by the shell that talks to the device; the model records the
/// material's identity and order.
#[derive(PartialEq, Eq, Debug)]
pub struct Material {
    pub name: String,
}

/// The material side of a model: either no materials and no material
/// binding layout, or a material list together with one shared layout.
/// Holding both in one variant makes "both present or both absent" a
/// fact of the type rather than a convention.
#[derive(Debug)]
pub enum Materials {
    Untextured,
    Textured { materials: Vec<Material> },
}

/// One mesh of a model: its geometry and, when the model is textured,
/// the index of the material it is drawn with.
#[derive(Debug)]
pub struct Mesh {
    pub geometry: Geometry,
    pub material_id: Option<usize>,
}

/// An ordered collection of meshes with their shared material list.
#[derive(Debug)]
pub struct Model {
    pub meshes: Vec<Mesh>,
    pub materials: Materials,
}

impl Model {
    /// Whether this model carries materials, and with them a material
    /// binding layout.
    pub open spec fn has_materials(self) -> bool {
        self.materials is Textured
    }

    /// How many materials this model carries.
    pub open spec fn material_count(self) -> int {
        match self.materials {
            Materials::Untextured => 0,
            Materials::Textured { materials } => materials@.len() as int,
        }
    }

    /// A model is well formed when every geometry is, and every mesh's
    /// material reference agrees with the model's material side: absent
    /// when the model is untextured, present and in range when textured.
    pub open spec fn wf(self) -> bool {
        forall|j: int|
            0 <= j < self.meshes@.len() ==> {
                &&& (#[trigger] self.meshes@[j]).geometry.wf()
                &&& match self.materials {
                    Materials::Untextured => self.meshes@[j].material_id is None,
                    Materials::Textured { materials } => {
                        &&& self.meshes@[j].material_id is Some
                        &&& (self.meshes@[j].material_id->0 as int) < materials@.len()
                    },
                }
            }
    }
}

/// The decoded arrays of one mesh, as an asset decoder hands them over:
/// flat position, texture-coordinate and normal scalars, triangle
/// indices, and the face material index when the source names one.
#[derive(Debug)]
pub struct MeshData {
    pub name: String,
    pub positions: Vec<u32>,
    pub texcoords: Vec<u32>,
    pub normals: Vec<u32>,
    pub indices: Vec<u32>,
    pub material_id: Option<usize>,
}

impl MeshData {
    /// The attribute arrays describe whole vertices: three position
    /// scalars, two texture scalars and three normal scalars per vertex.
    pub open spec fn lengths_ok(self) -> bool {
        &&& self.positions@.len() % 3 == 0
        &&& self.texcoords@.len() == 2 * (self.positions@.len() / 3)
        &&& self.normals@.len() == self.positions@.len()
    }

    /// The index count fits the 32-bit element count of a draw call.
    pub open spec fn count_ok(self) -> bool {
        self.indices@.len() <= u32::MAX
    }

    /// Every index points at one of the described vertices.
    pub open spec fn indices_ok(self) -> bool {
        forall|k: int|
            0 <= k < self.indices@.len() ==> (self.indices@[k] as int) < self.positions@.len() / 3
    }

    /// The material a textured model draws this mesh with: the source's
    /// face material index, defaulting to the first material.
    pub open spec fn assigned_material(self) -> int {
        match self.material_id {
            Some(i) => i as int,
            None => 0,
        }
    }
}

/// A defect in decoded asset data. Each variant names the mesh at fault.
#[derive(Clone, Copy, PartialEq, Eq, Structural, Debug)]
pub enum AssetError {
    /// The attribute arrays do not describe the same number of vertices.
    MismatchedAttributeLengths { mesh: usize },
    /// The mesh has more indices than a draw call can count.
    OversizedMesh { mesh: usize },
    /// An index points past the mesh's vertices.
    IndexOutOfRange { mesh: usize },
    /// The mesh names a material the model does not have.
    MaterialIdOutOfRange { mesh: usize },
}

/// The first defect of one mesh, checked in assembly order; `None` when
/// the mesh is sound. `has_mats` and `n_mats` describe the material list
/// the model is being built with.
pub open spec fn mesh_defect(d: MeshData, has_mats: bool, n_mats: int, j: usize) -> Option<
    AssetError,
> {
    if !d.lengths_ok() {
        Some(AssetError::MismatchedAttributeLengths { mesh: j })
    } else if !d.count_ok() {
        Some(AssetError::OversizedMesh { mesh: j })
    } else if !d.indices_ok() {
        Some(AssetError::IndexOutOfRange { mesh: j })
    } else if has_mats && d.assigned_material() >= n_mats {
        Some(AssetError::MaterialIdOutOfRange { mesh: j })
    } else {
        None
    }
}

/// The first defect among the meshes from position `j` on; `None` when
/// they are all sound.
pub open spec fn first_defect_from(
    ds: Seq<MeshData>,
    has_mats: bool,
    n_mats: int,
    j: int,
) -> Option<AssetError>
    decreases ds.len() - j,
{
    if j < 0 || j >= ds.len() {
        None
    } else if mesh_defect(ds[j], has_mats, n_mats, j as usize) is Some {
        mesh_defect(ds[j], has_mats, n_mats, j as usize)
    } else {
        first_defect_from(ds, has_mats, n_mats, j + 1)
    }
}

/// The first defect among all the meshes; `None` when the data is sound.
pub open spec fn first_defect(ds: Seq<MeshData>, has_mats: bool, n_mats: int) -> Option<
    AssetError,
> {
    first_defect_from(ds, has_mats, n_mats, 0)
}

/// Copy a word buffer.
fn copy_words(v: &Vec<u32>) -> (r: Vec<u32>)
    ensures
        r@ == v@,
{
    let mut r: Vec<u32> = Vec::new();
    let mut i: usize = 0;
    while i < v.len()
        invariant
            0 <= i <= v@.len(),
            r@ == v@.take(i as int),
        decreases v@.len() - i,
    {
        r.push(v[i]);
        proof {
            assert(r@ =~= v@.take(i + 1 as int));
        }
        i = i + 1;
    }
    proof {
        assert(v@.take(v@.len() as int) =~= v@);
    }
    r
}

/// Whether every index in the buffer is below `bound`.
fn indices_below(indices: &Vec<u32>, bound: usize) -> (ok: bool)
    ensures
        ok <==> forall|k: int| 0 <= k < indices@.len() ==> (indices@[k] as int) < bound,
{
    let mut k: usize = 0;
    while k < indices.len()
        invariant
            0 <= k <= indices@.len(),
            forall|t: int| 0 <= t < k ==> (indices@[t] as int) < bound,
        decreases indices@.len() - k,
    {
        if indices[k] as usize >= bound {
            return false;
        }
        k = k + 1;
    }
    true
}

impl Model {
    /// Assemble a model from decoded mesh data and an optional material
    /// list.
    ///
    /// With no materials, the model is untextured and every mesh's
    /// material reference is absent. With a material list, the model
    /// keeps it in input order and every mesh is assigned its source's
    /// face material index, defaulting to the first material; an
    /// assignment past the list is a defect. Each mesh's vertex records
    /// are interleaved from its attribute arrays, and its index buffer
    /// and element count are taken as decoded. Malformed data fails with
    /// the first defect in assembly order, and no model is produced.
    pub fn load(meshes: Vec<MeshData>, materials: Option<Vec<Material>>) -> (r: Result<
        Model,
        AssetError,
    >)
        ensures
            r is Ok <==> first_defect(
                meshes@,
                materials is Some,
                match materials {
                    Some(ms) => ms@.len() as int,
                    None => 0,
                },
            ) is None,
            r matches Err(e) ==> Some(e) == first_defect(
                meshes@,
                materials is Some,
                match materials {
                    Some(ms) => ms@.len() as int,
                    None => 0,
                },
            ),
            r matches Ok(m) ==> {
                &&& m.wf()
                &&& m.meshes@.len() == meshes@.len()
                &&& (match materials {
                    Some(ms) => m.materials == (Materials::Textured { materials: ms }),
                    None => m.materials is Untextured,
                })
                &&& forall|j: int|
                    0 <= j < meshes@.len() ==> {
                        let d = meshes@[j];
                        let g = (#[trigger] m.meshes@[j]).geometry;
                        &&& g.name@ == d.name@
                        &&& g.vertices@ == interleaved_vertices(
                            d.positions@,
                            d.texcoords@,
                            d.normals@,
                        )
                        &&& g.indices@ == d.indices@
                        &&& g.num_elements == d.indices@.len()
                        &&& m.meshes@[j].material_id == (if materials is Some {
                            Some(d.assigned_material() as usize)
                        } else {
                            Option::<usize>::None
                        })
                    }
            },
    {
        let ghost ds = meshes@;
        let ghost has_mats = materials is Some;
        let ghost n_mats: int = match &materials {
            Some(ms) => ms@.len() as int,
            None => 0,
        };
        let mut out: Vec<Mesh> = Vec::new();
        let mut j: usize = 0;
        while j < meshes.len()
            invariant
                0 <= j <= ds.len(),
                meshes@ == ds,
                has_mats == (materials is Some),
                n_mats == (match materials {
                    Some(ms) => ms@.len() as int,
                    None => 0,
                }),
                first_defect(ds, has_mats, n_mats) == first_defect_from(ds, has_mats, n_mats, j as int),
                out@.len() == j,
                forall|t: int|
                    0 <= t < j ==> {
                        let d = ds[t];
                        let g = (#[trigger] out@[t]).geometry;
                        &&& g.wf()
                        &&& g.name@ == d.name@
                        &&& g.vertices@ == interleaved_vertices(
                            d.positions@,
                            d.texcoords@,
                            d.normals@,
                        )
                        &&& g.indices@ == d.indices@
                        &&& g.num_elements == d.indices@.len()
                        &&& out@[t].material_id == (if has_mats {
                            Some(ds[t].assigned_material() as usize)
                        } else {
                            Option::<usize>::None
                        })
                        &&& (has_mats ==> ds[t].assigned_material() < n_mats)
                    },
            decreases ds.len() - j,
        {
            let d = &meshes[j];
            let num_vertices: usize = d.positions.len() / 3;
            if !(d.positions.len() == 3 * num_vertices && d.texcoords.len() == 2 * num_vertices
                && d.normals.len() == d.positions.len()) {
                proof {
                    assert(!ds[j as int].lengths_ok());
                }
                return Err(AssetError::MismatchedAttributeLengths { mesh: j });
            }
            if d.indices.len() > u32::MAX as usize {
                return Err(AssetError::OversizedMesh { mesh: j });
            }
            if !indices_below(&d.indices, num_vertices) {
                return Err(AssetError::IndexOutOfRange { mesh: j });
            }
            let material_id: Option<usize> = match &materials {
                Some(mats) => {
                    let assigned: usize = match d.material_id {
                        Some(i) => i,
                        None => 0,
                    };
                    if assigned >= mats.len() {
                        return Err(AssetError::MaterialIdOutOfRange { mesh: j });
                    }
                    Some(assigned)
                },
                None => None,
            };
            let vertices = build_vertices(&d.positions, &d.texcoords, &d.normals);
            let indices = copy_words(&d.indices);
            let num_elements: u32 = indices.len() as u32;
            let geometry = Geometry { name: d.name.clone(), vertices, indices, num_elements };
            out.push(Mesh { geometry, material_id });
            proof {
                assert(mesh_defect(ds[j as int], has_mats, n_mats, j) is None);
            }
            j = j + 1;
        }
        let model_materials = match materials {
            Some(ms) => Materials::Textured { materials: ms },
            None => Materials::Untextured,
        };
        Ok(Model { meshes: out, materials: model_materials })
    }
}

/// Every mesh of a well-formed untextured model has no material
/// reference.
pub proof fn lemma_untextured_meshes(m: Model)
    requires
        m.wf(),
        !m.has_materials(),
    ensures
        forall|j: int| 0 <= j < m.meshes@.len() ==> (#[trigger] m.meshes@[j]).material_id is None,
{
}

/// Every mesh of a well-formed textured model names a material within
/// the model's material list.
pub proof fn lemma_material_ids_in_range(m: Model)
    requires
        m.wf(),
        m.has_materials(),
    ensures
        forall|j: int|
            0 <= j < m.meshes@.len() ==> {
                &&& (#[trigger] m.meshes@[j]).material_id is Some
                &&& (m.meshes@[j].material_id->0 as int) < m.material_count()
            },
{
}

} // verus!
