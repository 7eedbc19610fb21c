//! The file format, stated as spec functions over the input bytes.
//!
//! Each function describes one part of the layout starting at byte offset
//! `p`, and what a decoder reading that part in order must produce: the
//! value, or the first failure it meets.
use vstd::prelude::*;

use crate::errors::{
    IndexIndexOutOfBounds, InvalidStormworksShaderType, SpecificError, StormworksParserError,
    SubMeshIndexOutOfBounds, TooBigNameLength,
};
use crate::mesh::{
    shader_of, MeshView, Rgba8, StormworksMeshVertexRecord, SubMeshView, Vec3Bits,
};
use crate::stream::{le_u16, le_u32};

verus! {

/// Size of one vertex record: three `f32`, four colour bytes, three `f32`.
pub const VERTEX_RECORD_BYTES: usize = 28;

/// Largest accepted sub-mesh name length, a guard against absurd allocations.
pub const MAX_NAME_LENGTH_BYTES: u16 = 1000;

/// The text that a byte sequence encodes as UTF-8, or `None` where it is not
/// valid UTF-8.
pub uninterp spec fn utf8_text(bytes: Seq<u8>) -> Option<Seq<char>>;

/// The four magic bytes `m`, `e`, `s`, `h` that open every mesh file.
pub open spec fn mesh_magic() -> Seq<u8> {
    seq![0x6Du8, 0x65u8, 0x73u8, 0x68u8]
}

/// The vertex record stored at offset `p`.
pub open spec fn vertex_at(b: Seq<u8>, p: int) -> StormworksMeshVertexRecord {
    StormworksMeshVertexRecord {
        position: Vec3Bits { x: le_u32(b, p), y: le_u32(b, p + 4), z: le_u32(b, p + 8) },
        color: Rgba8 { r: b[p + 12], g: b[p + 13], b: b[p + 14], a: b[p + 15] },
        normal: Vec3Bits { x: le_u32(b, p + 16), y: le_u32(b, p + 20), z: le_u32(b, p + 24) },
    }
}

/// `n` consecutive vertex records starting at `p`.
pub open spec fn vertices_at(b: Seq<u8>, p: int, n: nat) -> Result<
    Seq<StormworksMeshVertexRecord>,
    SpecificError,
> {
    if p + 28 * n <= b.len() {
        Ok(Seq::new(n, |i: int| vertex_at(b, p + 28 * i)))
    } else {
        Err(SpecificError::StreamFailure)
    }
}

/// The first `n` entries of an index buffer starting at `p`, each a `u16`
/// that must be below `vertex_count`.
pub open spec fn indices_at(b: Seq<u8>, p: int, n: nat, vertex_count: u32) -> Result<
    Seq<u32>,
    SpecificError,
>
    decreases n,
{
    if n == 0 {
        Ok(Seq::empty())
    } else {
        match indices_at(b, p, (n - 1) as nat, vertex_count) {
            Err(e) => Err(e),
            Ok(s) => {
                let q = p + 2 * (n - 1);
                if q + 2 > b.len() {
                    Err(SpecificError::StreamFailure)
                } else if le_u16(b, q) as u32 >= vertex_count {
                    Err(
                        SpecificError::IndexIndexOutOfBounds(
                            IndexIndexOutOfBounds { index: (n - 1) as u32, vertex_count },
                        ),
                    )
                } else {
                    Ok(s.push(le_u16(b, q) as u32))
                }
            },
        }
    }
}

/// The sub-mesh record at `p`, and the offset just past it.
///
/// Layout: `u32` start, `u32` length, 2 reserved bytes, `u16` shader, 26
/// reserved bytes, `u16` name length, the name, 12 reserved bytes.
pub open spec fn sub_mesh_at(b: Seq<u8>, p: int) -> Result<(SubMeshView, int), SpecificError> {
    if p + 12 > b.len() {
        Err(SpecificError::StreamFailure)
    } else if shader_of(le_u16(b, p + 10)) is None {
        Err(
            SpecificError::InvalidStormworksShaderType(
                InvalidStormworksShaderType(le_u16(b, p + 10)),
            ),
        )
    } else if p + 40 > b.len() {
        Err(SpecificError::StreamFailure)
    } else {
        let n = le_u16(b, p + 38);
        if n > MAX_NAME_LENGTH_BYTES {
            Err(SpecificError::TooBigNameLength(TooBigNameLength))
        } else if p + 40 + n > b.len() {
            Err(SpecificError::StreamFailure)
        } else {
            match utf8_text(b.subrange(p + 40, p + 40 + n)) {
                None => Err(SpecificError::TextDecodeFailure),
                Some(name) => {
                    if p + 52 + n > b.len() {
                        Err(SpecificError::StreamFailure)
                    } else {
                        Ok(
                            (
                                SubMeshView {
                                    index_buffer_start: le_u32(b, p),
                                    index_buffer_length: le_u32(b, p + 4),
                                    shader_id: shader_of(le_u16(b, p + 10))->Some_0,
                                    name_length_bytes: n,
                                    name,
                                },
                                p + 52 + n,
                            ),
                        )
                    }
                },
            }
        }
    }
}

/// The error for sub-mesh `k` whose range does not fit `index_count`
/// entries, if any: first the start is checked, then the end.
pub open spec fn sub_mesh_range_error(m: SubMeshView, k: nat, index_count: u32) -> Option<
    SpecificError,
> {
    if m.index_buffer_start > index_count {
        Some(
            SpecificError::SubMeshIndexOutOfBounds(
                SubMeshIndexOutOfBounds {
                    submesh_id: k as u32,
                    index: m.index_buffer_start as u64,
                    relevant_bound: index_count,
                },
            ),
        )
    } else if m.index_buffer_start + m.index_buffer_length > index_count {
        Some(
            SpecificError::SubMeshIndexOutOfBounds(
                SubMeshIndexOutOfBounds {
                    submesh_id: k as u32,
                    index: (m.index_buffer_start + m.index_buffer_length) as u64,
                    relevant_bound: index_count,
                },
            ),
        )
    } else {
        None
    }
}

/// The first `n` sub-mesh records starting at `p`, each checked against an
/// index buffer of `index_count` entries, and the offset just past them.
pub open spec fn sub_meshes_at(b: Seq<u8>, p: int, n: nat, index_count: u32) -> Result<
    (Seq<SubMeshView>, int),
    SpecificError,
>
    decreases n,
{
    if n == 0 {
        Ok((Seq::empty(), p))
    } else {
        match sub_meshes_at(b, p, (n - 1) as nat, index_count) {
            Err(e) => Err(e),
            Ok((s, q)) => match sub_mesh_at(b, q) {
                Err(e) => Err(e),
                Ok((m, q2)) => match sub_mesh_range_error(m, (n - 1) as nat, index_count) {
                    Some(e) => Err(e),
                    None => Ok((s.push(m), q2)),
                },
            },
        }
    }
}

/// The mesh that a whole input decodes to, or the error that decoding it
/// ends in. Bytes after the last sub-mesh record are ignored.
///
/// Header: the magic bytes, 4 reserved bytes, the `u16` vertex count and 4
/// reserved bytes; then the vertices, the `u32` index count, the indices,
/// the `u16` sub-mesh count and the sub-mesh records.
pub open spec fn mesh_of(b: Seq<u8>) -> Result<MeshView, StormworksParserError> {
    if b.len() < 4 {
        Err(StormworksParserError::CorruptFile(SpecificError::StreamFailure))
    } else if b.subrange(0, 4) != mesh_magic() {
        Err(StormworksParserError::NotMesh)
    } else if b.len() < 14 {
        Err(StormworksParserError::CorruptFile(SpecificError::StreamFailure))
    } else {
        let vertex_count = le_u16(b, 8) as u32;
        match vertices_at(b, 14, vertex_count as nat) {
            Err(e) => Err(StormworksParserError::CorruptFile(e)),
            Ok(vertices) => {
                let q = 14 + 28 * vertex_count;
                if q + 4 > b.len() {
                    Err(StormworksParserError::CorruptFile(SpecificError::StreamFailure))
                } else {
                    let index_count = le_u32(b, q);
                    match indices_at(b, q + 4, index_count as nat, vertex_count) {
                        Err(e) => Err(StormworksParserError::CorruptFile(e)),
                        Ok(indices) => {
                            let r = q + 4 + 2 * index_count;
                            if r + 2 > b.len() {
                                Err(
                                    StormworksParserError::CorruptFile(
                                        SpecificError::StreamFailure,
                                    ),
                                )
                            } else {
                                let sub_mesh_count = le_u16(b, r) as u32;
                                match sub_meshes_at(
                                    b,
                                    r + 2,
                                    sub_mesh_count as nat,
                                    index_count,
                                ) {
                                    Err(e) => Err(StormworksParserError::CorruptFile(e)),
                                    Ok((sub_meshes, _)) => Ok(
                                        MeshView {
                                            vertex_count,
                                            vertices,
                                            index_count,
                                            indices,
                                            sub_mesh_count,
                                            sub_meshes,
                                        },
                                    ),
                                }
                            }
                        },
                    }
                }
            },
        }
    }
}

/// Once the first `k` indices fail, every longer prefix fails the same way.
pub proof fn lemma_indices_error_persists(b: Seq<u8>, p: int, k: nat, n: nat, vertex_count: u32)
    requires
        k <= n,
        indices_at(b, p, k, vertex_count) is Err,
    ensures
        indices_at(b, p, n, vertex_count) == indices_at(b, p, k, vertex_count),
    decreases n,
{
    if n > k {
        lemma_indices_error_persists(b, p, k, (n - 1) as nat, vertex_count);
    }
}

/// Once the first `k` sub-meshes fail, every longer prefix fails the same way.
pub proof fn lemma_sub_meshes_error_persists(
    b: Seq<u8>,
    p: int,
    k: nat,
    n: nat,
    index_count: u32,
)
    requires
        k <= n,
        sub_meshes_at(b, p, k, index_count) is Err,
    ensures
        sub_meshes_at(b, p, n, index_count) == sub_meshes_at(b, p, k, index_count),
    decreases n,
{
    if n > k {
        lemma_sub_meshes_error_persists(b, p, k, (n - 1) as nat, index_count);
    }
}

} // verus!
