//! Decoder for the Stormworks binary mesh format (magic bytes `mesh`).
//!
//! The whole format is modelled by spec functions in `format`; the
//! executable decoder in `decode` is proved to compute exactly that model.
mod decode;
mod errors;
mod format;
mod laws;
mod mesh;
mod stream;

pub use errors::{
    IndexIndexOutOfBounds, InvalidStormworksShaderType, SpecificError, StormworksParserError,
    SubMeshIndexOutOfBounds, TooBigNameLength,
};
pub use mesh::{
    shader_of, MeshView, Rgba8, StormworksMesh, StormworksMeshVertexRecord, StormworksShaderType,
    StormworksSubMesh, SubMeshView, Vec3Bits,
};
pub use stream::{le_u16, le_u32, u16_at, u32_at, MeshStream};
pub use format::{
    indices_at, mesh_magic, mesh_of, sub_mesh_at, sub_mesh_range_error, sub_meshes_at, utf8_text,
    vertex_at, vertices_at, MAX_NAME_LENGTH_BYTES, VERTEX_RECORD_BYTES,
};
pub use decode::build_stormworks_mesh;
pub use laws::{
    lemma_decoded_counts_match, lemma_decoded_indices_in_range, lemma_decoded_mesh_well_formed,
    lemma_decoded_sub_meshes_in_bounds, lemma_magic_required, lemma_shader_must_be_known,
    lemma_unknown_shader_fails_list,
};
