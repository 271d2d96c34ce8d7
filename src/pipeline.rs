//! Specialization of the material's render pipeline for a mesh.
use vstd::prelude::*;
use crate::bind_group::TriplanarMaterialKey;
use crate::material::{Face, TriplanarMaterial};

verus! {

/// Identifier of the standard vertex position attribute.
pub const ATTRIBUTE_POSITION_ID: u64 = 0;

/// Identifier of the standard vertex normal attribute.
pub const ATTRIBUTE_NORMAL_ID: u64 = 1;

/// Identifier of the packed material-weights attribute (one `u32` per vertex,
/// see the weights module).
pub const ATTRIBUTE_MATERIAL_WEIGHTS_ID: u64 = 582540667;

/// Shader define that turns on normal-map sampling in the fragment stage.
pub const NORMAL_MAP_SHADER_DEF: &'static str = "STANDARDMATERIAL_NORMAL_MAP";

/// A mesh attribute bound to a vertex shader input.
#[derive(Clone, Copy, Debug, PartialEq, Eq, Structural)]
pub struct VertexAttributeBinding {
    pub id: u64,
    pub shader_location: u32,
}

/// What the material sets in a render pipeline for one key and mesh.
#[derive(Clone, Debug)]
pub struct PipelineConfig {
    /// The mesh attributes the vertex stage reads, in buffer order.
    pub vertex_attributes: Vec<VertexAttributeBinding>,
    /// Defines added to the fragment stage.
    pub shader_defs: Vec<&'static str>,
    /// Faces culled by the rasterizer; `None` culls nothing.
    pub cull_mode: Option<Face>,
}

/// Why a pipeline could not be specialized.
#[derive(Clone, Copy, Debug, PartialEq, Eq, Structural)]
pub enum SpecializeError {
    /// The mesh lacks a vertex attribute that the shader reads.
    MissingVertexAttribute { id: u64 },
}

/// The attributes the vertex shader reads: position at location 0, normal at
/// 1 and the packed material weights at 2.
pub open spec fn required_attributes() -> Seq<VertexAttributeBinding> {
    seq![
        VertexAttributeBinding { id: ATTRIBUTE_POSITION_ID, shader_location: 0 },
        VertexAttributeBinding { id: ATTRIBUTE_NORMAL_ID, shader_location: 1 },
        VertexAttributeBinding { id: ATTRIBUTE_MATERIAL_WEIGHTS_ID, shader_location: 2 },
    ]
}

/// The first required attribute, in shader-location order, that a mesh with
/// attributes `attrs` lacks.
pub open spec fn first_missing_attribute(attrs: Seq<u64>) -> Option<u64> {
    if !attrs.contains(ATTRIBUTE_POSITION_ID) {
        Some(ATTRIBUTE_POSITION_ID)
    } else if !attrs.contains(ATTRIBUTE_NORMAL_ID) {
        Some(ATTRIBUTE_NORMAL_ID)
    } else if !attrs.contains(ATTRIBUTE_MATERIAL_WEIGHTS_ID) {
        Some(ATTRIBUTE_MATERIAL_WEIGHTS_ID)
    } else {
        None
    }
}

/// The fragment-stage defines for a key.
pub open spec fn shader_defs_for(key: TriplanarMaterialKey) -> Seq<&'static str> {
    if key.normal_map {
        seq![NORMAL_MAP_SHADER_DEF]
    } else {
        seq![]
    }
}

fn has_attribute(attrs: &Vec<u64>, id: u64) -> (r: bool)
    ensures
        r == attrs@.contains(id),
{
    let mut i: usize = 0;
    while i < attrs.len()
        invariant
            i <= attrs@.len(),
            forall|j: int| 0 <= j < i ==> attrs@[j] != id,
        decreases attrs@.len() - i,
    {
        if attrs[i] == id {
            return true;
        }
        i += 1;
    }
    false
}

impl TriplanarMaterial {
    /// The pipeline configuration for material key `key` and a mesh that
    /// provides the vertex attributes `mesh_attributes`, or the first required
    /// attribute that the mesh lacks.
    pub fn specialize(key: &TriplanarMaterialKey, mesh_attributes: &Vec<u64>) -> (r: Result<
        PipelineConfig,
        SpecializeError,
    >)
        ensures
            match first_missing_attribute(mesh_attributes@) {
                Some(id) => r == Err::<PipelineConfig, SpecializeError>(
                    SpecializeError::MissingVertexAttribute { id },
                ),
                None => r is Ok && r->Ok_0.vertex_attributes@ == required_attributes()
                    && r->Ok_0.shader_defs@ == shader_defs_for(*key) && r->Ok_0.cull_mode
                    == key.cull_mode,
            },
    {
        if !has_attribute(mesh_attributes, ATTRIBUTE_POSITION_ID) {
            return Err(SpecializeError::MissingVertexAttribute { id: ATTRIBUTE_POSITION_ID });
        }
        if !has_attribute(mesh_attributes, ATTRIBUTE_NORMAL_ID) {
            return Err(SpecializeError::MissingVertexAttribute { id: ATTRIBUTE_NORMAL_ID });
        }
        if !has_attribute(mesh_attributes, ATTRIBUTE_MATERIAL_WEIGHTS_ID) {
            return Err(
                SpecializeError::MissingVertexAttribute { id: ATTRIBUTE_MATERIAL_WEIGHTS_ID },
            );
        }
        let vertex_attributes = vec![
            VertexAttributeBinding { id: ATTRIBUTE_POSITION_ID, shader_location: 0 },
            VertexAttributeBinding { id: ATTRIBUTE_NORMAL_ID, shader_location: 1 },
            VertexAttributeBinding { id: ATTRIBUTE_MATERIAL_WEIGHTS_ID, shader_location: 2 },
        ];
        let mut shader_defs: Vec<&'static str> = Vec::new();
        if key.normal_map {
            shader_defs.push(NORMAL_MAP_SHADER_DEF);
        }
        proof {
            assert(vertex_attributes@ =~= required_attributes());
            assert(shader_defs@ =~= shader_defs_for(*key));
        }
        Ok(PipelineConfig { vertex_attributes, shader_defs, cull_mode: key.cull_mode })
    }
}

} // verus!
