//! The executable decoder, proved against the model in `format`.
use vstd::prelude::*;

use crate::errors::{
    IndexIndexOutOfBounds, SpecificError, StormworksParserError, SubMeshIndexOutOfBounds,
    TooBigNameLength,
};
use crate::format::{
    indices_at, lemma_indices_error_persists, lemma_sub_meshes_error_persists, mesh_magic,
    mesh_of, sub_mesh_at, sub_meshes_at, utf8_text, vertex_at, vertices_at,
    MAX_NAME_LENGTH_BYTES, VERTEX_RECORD_BYTES,
};
use crate::laws::lemma_decoded_mesh_well_formed;
use crate::mesh::{
    MeshView, Rgba8, StormworksMesh, StormworksMeshVertexRecord, StormworksShaderType,
    StormworksSubMesh, SubMeshView, Vec3Bits,
};
use crate::stream::{u32_at, MeshStream};

verus! {

/// Relies on `String::from_utf8`: it succeeds exactly when the bytes are
/// valid UTF-8, and then holds the text they encode.
#[verifier::external_body]
fn decode_utf8(bytes: Vec<u8>) -> (r: Option<String>)
    ensures
        match r {
            Some(s) => utf8_text(bytes@) == Some(s@),
            None => utf8_text(bytes@) is None,
        },
{
    String::from_utf8(bytes).ok()
}

/// Decodes one vertex record, read from the stream as a single block.
fn build_vertex_record(s: &mut MeshStream) -> (r: Result<
    StormworksMeshVertexRecord,
    SpecificError,
>)
    requires
        old(s).well_formed(),
    ensures
        match r {
            Ok(v) => {
                &&& old(s).has(28)
                &&& v == vertex_at(old(s).bytes(), old(s).cursor())
                &&& final(s).advanced_from(old(s), 28)
            },
            Err(e) => {
                &&& !old(s).has(28)
                &&& e == SpecificError::StreamFailure
                &&& final(s).advanced_from(old(s), 0)
            },
        },
{
    let ghost b = s.bytes();
    let ghost c = s.cursor();
    let buf = match s.read_exact(VERTEX_RECORD_BYTES) {
        Ok(buf) => buf,
        Err(e) => return Err(e),
    };
    let block = buf.as_slice();
    let position = Vec3Bits { x: u32_at(block, 0), y: u32_at(block, 4), z: u32_at(block, 8) };
    let color = Rgba8 { r: block[12], g: block[13], b: block[14], a: block[15] };
    let normal = Vec3Bits { x: u32_at(block, 16), y: u32_at(block, 20), z: u32_at(block, 24) };
    let v = StormworksMeshVertexRecord { position, color, normal };
    assert(v == vertex_at(b, c));
    Ok(v)
}

/// Decodes `vertex_count` consecutive vertex records.
fn build_vertices(s: &mut MeshStream, vertex_count: u32) -> (r: Result<
    Vec<StormworksMeshVertexRecord>,
    SpecificError,
>)
    requires
        old(s).well_formed(),
    ensures
        final(s).well_formed(),
        final(s).bytes() == old(s).bytes(),
        match r {
            Ok(v) => {
                &&& vertices_at(old(s).bytes(), old(s).cursor(), vertex_count as nat)
                    == Ok::<_, SpecificError>(v@)
                &&& final(s).cursor() == old(s).cursor() + 28 * vertex_count
            },
            Err(e) => vertices_at(old(s).bytes(), old(s).cursor(), vertex_count as nat)
                == Err::<Seq<StormworksMeshVertexRecord>, _>(e),
        },
{
    let ghost b = s.bytes();
    let ghost c = s.cursor();
    let mut vertices: Vec<StormworksMeshVertexRecord> = Vec::new();
    for i in 0..vertex_count
        invariant
            b == old(s).bytes(),
            c == old(s).cursor(),
            s.well_formed(),
            s.bytes() == b,
            s.cursor() == c + 28 * i,
            c + 28 * i <= b.len(),
            vertices@ == Seq::new(i as nat, |j: int| vertex_at(b, c + 28 * j)),
    {
        match build_vertex_record(s) {
            Ok(v) => vertices.push(v),
            Err(e) => return Err(e),
        }
        assert(vertices@ =~= Seq::new((i + 1) as nat, |j: int| vertex_at(b, c + 28 * j)));
    }
    Ok(vertices)
}

/// Decodes `index_count` triangle indices, each of which must be below
/// `vertex_count`.
fn build_indices(s: &mut MeshStream, index_count: u32, vertex_count: u32) -> (r: Result<
    Vec<u32>,
    SpecificError,
>)
    requires
        old(s).well_formed(),
    ensures
        final(s).well_formed(),
        final(s).bytes() == old(s).bytes(),
        match r {
            Ok(v) => {
                &&& indices_at(old(s).bytes(), old(s).cursor(), index_count as nat, vertex_count)
                    == Ok::<_, SpecificError>(v@)
                &&& final(s).cursor() == old(s).cursor() + 2 * index_count
            },
            Err(e) => indices_at(old(s).bytes(), old(s).cursor(), index_count as nat, vertex_count)
                == Err::<Seq<u32>, _>(e),
        },
{
    let ghost b = s.bytes();
    let ghost c = s.cursor();
    let mut indices: Vec<u32> = Vec::new();
    for i in 0..index_count
        invariant
            b == old(s).bytes(),
            c == old(s).cursor(),
            s.well_formed(),
            s.bytes() == b,
            s.cursor() == c + 2 * i,
            indices_at(b, c, i as nat, vertex_count) == Ok::<_, SpecificError>(indices@),
    {
        let index = match s.read_u16_le() {
            Ok(v) => v as u32,
            Err(e) => {
                proof {
                    lemma_indices_error_persists(
                        b,
                        c,
                        (i + 1) as nat,
                        index_count as nat,
                        vertex_count,
                    );
                }
                return Err(e);
            },
        };
        if index >= vertex_count {
            proof {
                lemma_indices_error_persists(
                    b,
                    c,
                    (i + 1) as nat,
                    index_count as nat,
                    vertex_count,
                );
            }
            return Err(
                SpecificError::IndexIndexOutOfBounds(IndexIndexOutOfBounds { index: i, vertex_count }),
            );
        }
        indices.push(index);
    }
    Ok(indices)
}

/// Decodes one sub-mesh record: index range, shader, name and the reserved
/// regions around them.
fn build_sub_mesh(s: &mut MeshStream) -> (r: Result<StormworksSubMesh, SpecificError>)
    requires
        old(s).well_formed(),
    ensures
        final(s).well_formed(),
        final(s).bytes() == old(s).bytes(),
        match r {
            Ok(m) => sub_mesh_at(old(s).bytes(), old(s).cursor()) == Ok::<_, SpecificError>(
                (m@, final(s).cursor()),
            ),
            Err(e) => sub_mesh_at(old(s).bytes(), old(s).cursor()) == Err::<(SubMeshView, int), _>(
                e,
            ),
        },
{
    let ghost b = s.bytes();
    let ghost c = s.cursor();
    let index_buffer_start = match s.read_u32_le() {
        Ok(v) => v,
        Err(e) => return Err(e),
    };
    let index_buffer_length = match s.read_u32_le() {
        Ok(v) => v,
        Err(e) => return Err(e),
    };
    match s.skip_forward(2) {
        Ok(_) => {},
        Err(e) => return Err(e),
    }
    let raw_shader = match s.read_u16_le() {
        Ok(v) => v,
        Err(e) => return Err(e),
    };
    let shader_id = match StormworksShaderType::from_u16(raw_shader) {
        Ok(t) => t,
        Err(e) => return Err(SpecificError::InvalidStormworksShaderType(e)),
    };
    // bounding box and transform data that this decoder does not need
    match s.skip_forward(26) {
        Ok(_) => {},
        Err(e) => return Err(e),
    }
    let name_length_bytes = match s.read_u16_le() {
        Ok(v) => v,
        Err(e) => return Err(e),
    };
    if name_length_bytes > MAX_NAME_LENGTH_BYTES {
        return Err(SpecificError::TooBigNameLength(TooBigNameLength));
    }
    let name_buf = match s.read_exact(name_length_bytes as usize) {
        Ok(v) => v,
        Err(e) => return Err(e),
    };
    let name = match decode_utf8(name_buf) {
        Some(name) => name,
        None => return Err(SpecificError::TextDecodeFailure),
    };
    match s.skip_forward(12) {
        Ok(_) => {},
        Err(e) => return Err(e),
    }
    Ok(StormworksSubMesh {
        index_buffer_start,
        index_buffer_length,
        shader_id,
        name_length_bytes,
        name,
    })
}

/// Decodes `sub_mesh_count` sub-mesh records, checking after each one that
/// its index range lies within `index_count` entries.
fn build_sub_meshes(s: &mut MeshStream, sub_mesh_count: u32, index_count: u32) -> (r: Result<
    Vec<StormworksSubMesh>,
    SpecificError,
>)
    requires
        old(s).well_formed(),
    ensures
        final(s).well_formed(),
        final(s).bytes() == old(s).bytes(),
        match r {
            Ok(v) => sub_meshes_at(
                old(s).bytes(),
                old(s).cursor(),
                sub_mesh_count as nat,
                index_count,
            ) == Ok::<_, SpecificError>(
                (v@.map_values(|m: StormworksSubMesh| m@), final(s).cursor()),
            ),
            Err(e) => sub_meshes_at(
                old(s).bytes(),
                old(s).cursor(),
                sub_mesh_count as nat,
                index_count,
            ) == Err::<(Seq<SubMeshView>, int), _>(e),
        },
{
    let ghost b = s.bytes();
    let ghost c = s.cursor();
    let mut sub_meshes: Vec<StormworksSubMesh> = Vec::with_capacity(sub_mesh_count as usize);
    assert(sub_meshes@.map_values(|m: StormworksSubMesh| m@) =~= Seq::<SubMeshView>::empty());
    for i in 0..sub_mesh_count
        invariant
            b == old(s).bytes(),
            c == old(s).cursor(),
            s.well_formed(),
            s.bytes() == b,
            sub_meshes_at(b, c, i as nat, index_count) == Ok::<_, SpecificError>(
                (sub_meshes@.map_values(|m: StormworksSubMesh| m@), s.cursor()),
            ),
    {
        let ghost done = sub_meshes@.map_values(|m: StormworksSubMesh| m@);
        let sub_mesh = match build_sub_mesh(s) {
            Ok(m) => m,
            Err(e) => {
                proof {
                    lemma_sub_meshes_error_persists(
                        b,
                        c,
                        (i + 1) as nat,
                        sub_mesh_count as nat,
                        index_count,
                    );
                }
                return Err(e);
            },
        };
        if sub_mesh.index_buffer_start > index_count {
            proof {
                lemma_sub_meshes_error_persists(
                    b,
                    c,
                    (i + 1) as nat,
                    sub_mesh_count as nat,
                    index_count,
                );
            }
            return Err(
                SpecificError::SubMeshIndexOutOfBounds(
                    SubMeshIndexOutOfBounds {
                        submesh_id: i,
                        index: sub_mesh.index_buffer_start as u64,
                        relevant_bound: index_count,
                    },
                ),
            );
        }
        let end = sub_mesh.index_buffer_start as u64 + sub_mesh.index_buffer_length as u64;
        if end > index_count as u64 {
            proof {
                lemma_sub_meshes_error_persists(
                    b,
                    c,
                    (i + 1) as nat,
                    sub_mesh_count as nat,
                    index_count,
                );
            }
            return Err(
                SpecificError::SubMeshIndexOutOfBounds(
                    SubMeshIndexOutOfBounds {
                        submesh_id: i,
                        index: end,
                        relevant_bound: index_count,
                    },
                ),
            );
        }
        sub_meshes.push(sub_mesh);
        assert(sub_meshes@.map_values(|m: StormworksSubMesh| m@) =~= done.push(sub_mesh@));
    }
    Ok(sub_meshes)
}

/// Decodes a whole mesh file held in `bytes`.
///
/// The result is exactly [`mesh_of`]: the mesh, `NotMesh` when the first
/// four bytes are not `mesh`, or `CorruptFile` with the first failure met.
pub fn build_stormworks_mesh(bytes: &[u8]) -> (r: Result<StormworksMesh, StormworksParserError>)
    ensures
        match r {
            Ok(m) => mesh_of(bytes@) == Ok::<_, StormworksParserError>(m@),
            Err(e) => mesh_of(bytes@) == Err::<MeshView, _>(e),
        },
        r is Ok ==> r->Ok_0@.well_formed(),
{
    let ghost b = bytes@;
    let mut s = MeshStream::new(bytes);
    let magic = match s.read_exact(4) {
        Ok(v) => v,
        Err(e) => return Err(StormworksParserError::CorruptFile(e)),
    };
    if !(magic[0] == 0x6D && magic[1] == 0x65 && magic[2] == 0x73 && magic[3] == 0x68) {
        proof {
            if b.subrange(0, 4) == mesh_magic() {
                assert(magic@[0] == mesh_magic()[0]);
                assert(magic@[1] == mesh_magic()[1]);
                assert(magic@[2] == mesh_magic()[2]);
                assert(magic@[3] == mesh_magic()[3]);
            }
        }
        return Err(StormworksParserError::NotMesh);
    }
    assert(b.subrange(0, 4) =~= mesh_magic());
    // two reserved header fields
    match s.skip_forward(4) {
        Ok(_) => {},
        Err(e) => return Err(StormworksParserError::CorruptFile(e)),
    }
    let vertex_count = match s.read_u16_le() {
        Ok(v) => v as u32,
        Err(e) => return Err(StormworksParserError::CorruptFile(e)),
    };
    // two more reserved header fields
    match s.skip_forward(4) {
        Ok(_) => {},
        Err(e) => return Err(StormworksParserError::CorruptFile(e)),
    }
    let vertices = match build_vertices(&mut s, vertex_count) {
        Ok(v) => v,
        Err(e) => return Err(StormworksParserError::CorruptFile(e)),
    };
    let index_count = match s.read_u32_le() {
        Ok(v) => v,
        Err(e) => return Err(StormworksParserError::CorruptFile(e)),
    };
    let indices = match build_indices(&mut s, index_count, vertex_count) {
        Ok(v) => v,
        Err(e) => return Err(StormworksParserError::CorruptFile(e)),
    };
    let sub_mesh_count = match s.read_u16_le() {
        Ok(v) => v as u32,
        Err(e) => return Err(StormworksParserError::CorruptFile(e)),
    };
    let sub_meshes = match build_sub_meshes(&mut s, sub_mesh_count, index_count) {
        Ok(v) => v,
        Err(e) => return Err(StormworksParserError::CorruptFile(e)),
    };
    let mesh = StormworksMesh {
        vertex_count,
        vertices,
        index_count,
        indices,
        sub_mesh_count,
        sub_meshes,
    };
    proof {
        lemma_decoded_mesh_well_formed(b);
    }
    Ok(mesh)
}

} // verus!
