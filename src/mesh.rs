use vstd::prelude::*;

use crate::errors::InvalidStormworksShaderType;
use crate::format::MAX_NAME_LENGTH_BYTES;

verus! {

/// Rendering mode of a sub-mesh.
#[derive(Debug, Clone, Copy, PartialEq, Eq, Structural)]
pub enum StormworksShaderType {
    Opaque,
    Transparent,
    Emissive,
    Lava,
}

/// The shader type that a raw value denotes, if any.
pub open spec fn shader_of(raw: u16) -> Option<StormworksShaderType> {
    if raw == 0 {
        Some(StormworksShaderType::Opaque)
    } else if raw == 1 {
        Some(StormworksShaderType::Transparent)
    } else if raw == 2 {
        Some(StormworksShaderType::Emissive)
    } else if raw == 3 {
        Some(StormworksShaderType::Lava)
    } else {
        None
    }
}

impl StormworksShaderType {
    /// The raw value of this shader type in the file format.
    pub open spec fn raw(self) -> u16 {
        match self {
            StormworksShaderType::Opaque => 0,
            StormworksShaderType::Transparent => 1,
            StormworksShaderType::Emissive => 2,
            StormworksShaderType::Lava => 3,
        }
    }

    /// Decodes a raw shader value; only 0 to 3 are known.
    pub fn from_u16(i: u16) -> (r: Result<Self, InvalidStormworksShaderType>)
        ensures
            match r {
                Ok(t) => i < 4 && shader_of(i) == Some(t) && t.raw() == i,
                Err(e) => i >= 4 && e == InvalidStormworksShaderType(i),
            },
    {
        match i {
            0 => Ok(StormworksShaderType::Opaque),
            1 => Ok(StormworksShaderType::Transparent),
            2 => Ok(StormworksShaderType::Emissive),
            3 => Ok(StormworksShaderType::Lava),
            _ => Err(InvalidStormworksShaderType(i)),
        }
    }
}

/// Three IEEE-754 single-precision values, each kept as its bit pattern.
#[derive(Debug, Clone, Copy, PartialEq, Eq, Structural)]
pub struct Vec3Bits {
    pub x: u32,
    pub y: u32,
    pub z: u32,
}

/// An 8-bit-per-channel RGBA colour.
#[derive(Debug, Clone, Copy, PartialEq, Eq, Structural)]
pub struct Rgba8 {
    pub r: u8,
    pub g: u8,
    pub b: u8,
    pub a: u8,
}

/// One vertex: position and normal as raw `f32` bit patterns, and a colour.
#[derive(Debug, Clone, Copy, PartialEq, Eq, Structural)]
pub struct StormworksMeshVertexRecord {
    pub position: Vec3Bits,
    pub color: Rgba8,
    pub normal: Vec3Bits,
}

/// A named, shaded range over the mesh's index buffer.
#[derive(Debug, Clone, PartialEq, Eq)]
pub struct StormworksSubMesh {
    pub index_buffer_start: u32,
    pub index_buffer_length: u32,
    pub shader_id: StormworksShaderType,
    pub name_length_bytes: u16,
    pub name: String,
}

/// The mathematical value of a [`StormworksSubMesh`].
pub struct SubMeshView {
    pub index_buffer_start: u32,
    pub index_buffer_length: u32,
    pub shader_id: StormworksShaderType,
    pub name_length_bytes: u16,
    pub name: Seq<char>,
}

impl View for StormworksSubMesh {
    type V = SubMeshView;

    open spec fn view(&self) -> SubMeshView {
        SubMeshView {
            index_buffer_start: self.index_buffer_start,
            index_buffer_length: self.index_buffer_length,
            shader_id: self.shader_id,
            name_length_bytes: self.name_length_bytes,
            name: self.name@,
        }
    }
}

/// A decoded mesh: vertices, triangle indices and sub-meshes.
#[derive(Debug, Clone, PartialEq, Eq)]
pub struct StormworksMesh {
    pub vertex_count: u32,
    pub vertices: Vec<StormworksMeshVertexRecord>,
    pub index_count: u32,
    pub indices: Vec<u32>,
    pub sub_mesh_count: u32,
    pub sub_meshes: Vec<StormworksSubMesh>,
}

/// The mathematical value of a [`StormworksMesh`].
pub struct MeshView {
    pub vertex_count: u32,
    pub vertices: Seq<StormworksMeshVertexRecord>,
    pub index_count: u32,
    pub indices: Seq<u32>,
    pub sub_mesh_count: u32,
    pub sub_meshes: Seq<SubMeshView>,
}

impl View for StormworksMesh {
    type V = MeshView;

    open spec fn view(&self) -> MeshView {
        MeshView {
            vertex_count: self.vertex_count,
            vertices: self.vertices@,
            index_count: self.index_count,
            indices: self.indices@,
            sub_mesh_count: self.sub_mesh_count,
            sub_meshes: self.sub_meshes@.map_values(|m: StormworksSubMesh| m@),
        }
    }
}

impl SubMeshView {
    /// The range `[start, start + length)` lies within an index buffer of
    /// `index_count` entries.
    pub open spec fn in_bounds(self, index_count: u32) -> bool {
        &&& self.index_buffer_start <= index_count
        &&& self.index_buffer_start + self.index_buffer_length <= index_count
    }
}

impl MeshView {
    /// The invariants of every decoded mesh: each count matches its sequence,
    /// every index names a vertex, every sub-mesh range lies inside the index
    /// buffer, and every name respects the length cap.
    pub open spec fn well_formed(self) -> bool {
        &&& self.vertices.len() == self.vertex_count
        &&& self.indices.len() == self.index_count
        &&& self.sub_meshes.len() == self.sub_mesh_count
        &&& self.vertex_count <= u16::MAX
        &&& self.sub_mesh_count <= u16::MAX
        &&& forall|i: int| 0 <= i < self.indices.len() ==> self.indices[i] < self.vertex_count
        &&& forall|k: int|
            0 <= k < self.sub_meshes.len() ==> #[trigger] self.sub_meshes[k].in_bounds(
                self.index_count,
            )
        &&& forall|k: int|
            0 <= k < self.sub_meshes.len() ==> #[trigger] self.sub_meshes[k].name_length_bytes
                <= MAX_NAME_LENGTH_BYTES
    }
}

} // verus!
