use vstd::prelude::*;

verus! {

/// A sub-mesh whose index range starts or ends past the global index count.
#[derive(Debug, Clone, Copy, PartialEq, Eq, Structural)]
pub struct SubMeshIndexOutOfBounds {
    /// Ordinal of the offending sub-mesh.
    pub submesh_id: u32,
    /// The offending value: the range start, or start plus length.
    pub index: u64,
    /// The global index count that was exceeded.
    pub relevant_bound: u32,
}

/// A triangle index that is not below the vertex count.
#[derive(Debug, Clone, Copy, PartialEq, Eq, Structural)]
pub struct IndexIndexOutOfBounds {
    /// Position (0-based) of the offending entry within the index buffer.
    pub index: u32,
    /// The vertex count it had to stay below.
    pub vertex_count: u32,
}

/// A sub-mesh name length above the sanity cap.
#[derive(Debug, Clone, Copy, PartialEq, Eq, Structural)]
pub struct TooBigNameLength;

/// A raw shader value outside the known enumeration.
#[derive(Debug, Clone, Copy, PartialEq, Eq, Structural)]
pub struct InvalidStormworksShaderType(pub u16);

/// The specific structural or stream failure behind a corrupt file.
#[derive(Debug, Clone, Copy, PartialEq, Eq, Structural)]
pub enum SpecificError {
    /// The input ended before a read or a skip could be completed.
    StreamFailure,
    /// A sub-mesh name was not valid UTF-8.
    TextDecodeFailure,
    SubMeshIndexOutOfBounds(SubMeshIndexOutOfBounds),
    IndexIndexOutOfBounds(IndexIndexOutOfBounds),
    TooBigNameLength(TooBigNameLength),
    InvalidStormworksShaderType(InvalidStormworksShaderType),
}

/// Outward error: either the input is not a mesh at all, or it claims to be
/// one and is malformed.
#[derive(Debug, Clone, Copy, PartialEq, Eq, Structural)]
pub enum StormworksParserError {
    NotMesh,
    CorruptFile(SpecificError),
}

} // verus!
