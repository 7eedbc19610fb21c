//! Properties of the format model that hold of every input.
use vstd::prelude::*;

use crate::errors::{InvalidStormworksShaderType, SpecificError, StormworksParserError};
use crate::format::{
    indices_at, lemma_sub_meshes_error_persists, mesh_magic, mesh_of, sub_mesh_at, sub_meshes_at,
    MAX_NAME_LENGTH_BYTES,
};
use crate::mesh::{shader_of, MeshView, SubMeshView};
use crate::stream::{le_u16, le_u32};

verus! {

/// A decoded index prefix has one entry per requested index, and each entry
/// is below the vertex count.
proof fn lemma_indices_ok(b: Seq<u8>, p: int, n: nat, vertex_count: u32)
    requires
        indices_at(b, p, n, vertex_count) is Ok,
    ensures
        indices_at(b, p, n, vertex_count)->Ok_0.len() == n,
        forall|i: int|
            0 <= i < n ==> #[trigger] indices_at(b, p, n, vertex_count)->Ok_0[i] < vertex_count,
    decreases n,
{
    if n > 0 {
        lemma_indices_ok(b, p, (n - 1) as nat, vertex_count);
    }
}

/// A decoded sub-mesh prefix has one entry per requested record, each range
/// within the index buffer and each name within the length cap.
proof fn lemma_sub_meshes_ok(b: Seq<u8>, p: int, n: nat, index_count: u32)
    requires
        sub_meshes_at(b, p, n, index_count) is Ok,
    ensures
        sub_meshes_at(b, p, n, index_count)->Ok_0.0.len() == n,
        forall|k: int|
            0 <= k < n ==> (#[trigger] sub_meshes_at(b, p, n, index_count)->Ok_0.0[k]).in_bounds(
                index_count,
            ),
        forall|k: int|
            0 <= k < n ==> (#[trigger] sub_meshes_at(b, p, n, index_count)->Ok_0.0[k]).name_length_bytes
                <= MAX_NAME_LENGTH_BYTES,
    decreases n,
{
    if n > 0 {
        lemma_sub_meshes_ok(b, p, (n - 1) as nat, index_count);
    }
}

/// Every decoded mesh is well formed: the counts match the sequences, the
/// indices name vertices, the sub-mesh ranges lie in the index buffer and
/// the names respect the cap.
pub proof fn lemma_decoded_mesh_well_formed(b: Seq<u8>)
    requires
        mesh_of(b) is Ok,
    ensures
        mesh_of(b)->Ok_0.well_formed(),
{
    let vertex_count = le_u16(b, 8) as u32;
    let q = 14 + 28 * vertex_count;
    let index_count = le_u32(b, q);
    lemma_indices_ok(b, q + 4, index_count as nat, vertex_count);
    let r = q + 4 + 2 * index_count;
    let sub_mesh_count = le_u16(b, r) as u32;
    lemma_sub_meshes_ok(b, r + 2, sub_mesh_count as nat, index_count);
}

/// A decoded mesh has exactly as many vertices, indices and sub-meshes as
/// its header counts say.
pub proof fn lemma_decoded_counts_match(b: Seq<u8>)
    requires
        mesh_of(b) is Ok,
    ensures
        mesh_of(b)->Ok_0.vertices.len() == mesh_of(b)->Ok_0.vertex_count,
        mesh_of(b)->Ok_0.indices.len() == mesh_of(b)->Ok_0.index_count,
        mesh_of(b)->Ok_0.sub_meshes.len() == mesh_of(b)->Ok_0.sub_mesh_count,
{
    lemma_decoded_mesh_well_formed(b);
}

/// Every index of a decoded mesh is below its vertex count.
pub proof fn lemma_decoded_indices_in_range(b: Seq<u8>)
    requires
        mesh_of(b) is Ok,
    ensures
        forall|i: int|
            0 <= i < mesh_of(b)->Ok_0.indices.len() ==> #[trigger] mesh_of(b)->Ok_0.indices[i]
                < mesh_of(b)->Ok_0.vertex_count,
{
    lemma_decoded_mesh_well_formed(b);
}

/// Every sub-mesh of a decoded mesh has `start <= index_count` and
/// `start + length <= index_count`.
pub proof fn lemma_decoded_sub_meshes_in_bounds(b: Seq<u8>)
    requires
        mesh_of(b) is Ok,
    ensures
        forall|k: int|
            0 <= k < mesh_of(b)->Ok_0.sub_meshes.len() ==> (
            #[trigger] mesh_of(b)->Ok_0.sub_meshes[k]).in_bounds(mesh_of(b)->Ok_0.index_count),
{
    lemma_decoded_mesh_well_formed(b);
}

/// A sub-mesh record decodes only when its raw shader value is one of the
/// four known ones, and then to the shader type that value denotes; a record
/// whose raw value is unknown fails with exactly that value.
pub proof fn lemma_shader_must_be_known(b: Seq<u8>, p: int)
    ensures
        sub_mesh_at(b, p) is Ok ==> le_u16(b, p + 10) < 4 && shader_of(le_u16(b, p + 10))
            == Some(sub_mesh_at(b, p)->Ok_0.0.shader_id),
        p + 12 <= b.len() && le_u16(b, p + 10) >= 4 ==> sub_mesh_at(b, p) == Err::<
            (SubMeshView, int),
            _,
        >(SpecificError::InvalidStormworksShaderType(InvalidStormworksShaderType(le_u16(b, p + 10)))),
{
}

/// A sub-mesh list whose next record holds an unknown raw shader value never
/// decodes: the list fails with that value, however many records follow.
pub proof fn lemma_unknown_shader_fails_list(
    b: Seq<u8>,
    p: int,
    k: nat,
    n: nat,
    index_count: u32,
)
    requires
        k < n,
        sub_meshes_at(b, p, k, index_count) is Ok,
        sub_meshes_at(b, p, k, index_count)->Ok_0.1 + 12 <= b.len(),
        le_u16(b, sub_meshes_at(b, p, k, index_count)->Ok_0.1 + 10) >= 4,
    ensures
        sub_meshes_at(b, p, n, index_count) == Err::<(Seq<SubMeshView>, int), _>(
            SpecificError::InvalidStormworksShaderType(
                InvalidStormworksShaderType(
                    le_u16(b, sub_meshes_at(b, p, k, index_count)->Ok_0.1 + 10),
                ),
            ),
        ),
{
    lemma_sub_meshes_error_persists(b, p, (k + 1) as nat, n, index_count);
}

/// An input decodes to `NotMesh` exactly when it has at least four bytes and
/// they are not `m`, `e`, `s`, `h`, whatever follows them.
pub proof fn lemma_magic_required(b: Seq<u8>)
    ensures
        (mesh_of(b) == Err::<MeshView, _>(StormworksParserError::NotMesh)) <==> (b.len() >= 4
            && b.subrange(0, 4) != mesh_magic()),
{
}

} // verus!
