use vstd::prelude::*;
use crate::textures::TextureCache;

verus! {

/// One tessellated primitive of a frame, reduced to what the verified core
/// decides about: which texture a mesh samples and its index list. Vertex
/// data stays with the shell. A callback primitive is unsupported and must
/// halt before drawing.
#[derive(Clone, PartialEq, Eq, Debug)]
pub enum MeshPrim {
    Mesh { texture_id: u64, indices: Vec<u32> },
    Callback,
}

/// Whether a primitive list is drawable (free of callback primitives).
pub open spec fn no_callbacks(prims: Seq<MeshPrim>) -> bool {
    forall|i: int| 0 <= i < prims.len() ==> (#[trigger] prims[i]) is Mesh
}

/// One native draw call: the resolved native texture handle (`None` draws
/// untextured) and the index list in the native integer width, for the
/// primitive at the same position of the pending list.
#[derive(Clone, PartialEq, Eq, Debug)]
pub struct MeshCmd {
    pub texture: Option<u64>,
    pub indices: Vec<i32>,
}

/// An index list converted to the native signed width.
pub open spec fn indices_as_i32(s: Seq<u32>) -> Seq<i32> {
    s.map_values(|v: u32| v as i32)
}

pub fn convert_indices(v: &Vec<u32>) -> (r: Vec<i32>)
    ensures
        r@ == indices_as_i32(v@),
{
    let mut r: Vec<i32> = Vec::new();
    let mut i: usize = 0;
    while i < v.len()
        invariant
            i <= v@.len(),
            r@ == indices_as_i32(v@.take(i as int)),
        decreases v@.len() - i,
    {
        r.push(#[verifier::truncate] (v[i] as i32));
        proof {
            assert(indices_as_i32(v@.take(i + 1 as int)) =~= indices_as_i32(
                v@.take(i as int),
            ).push(v@[i as int] as i32));
        }
        i = i + 1;
    }
    proof {
        assert(v@.take(v@.len() as int) =~= v@);
    }
    r
}

/// How a draw call must relate to its primitive under the cache model `m`:
/// the mesh's texture identifier resolved to its live handle, or to no
/// texture when the identifier is not cached, and the indices converted
/// value for value.
pub open spec fn mesh_resolved(cmd: MeshCmd, prim: MeshPrim, m: Map<u64, u64>) -> bool {
    match prim {
        MeshPrim::Mesh { texture_id, indices } => {
            &&& cmd.texture == (if m.dom().contains(texture_id) {
                Some(m[texture_id])
            } else {
                None::<u64>
            })
            &&& cmd.indices@ == indices_as_i32(indices@)
        },
        MeshPrim::Callback => false,
    }
}

/// Resolve every pending primitive to its native draw call, in the pending
/// list's order, which is the paint order and must be preserved exactly.
pub fn resolve_meshes(cache: &TextureCache, prims: &Vec<MeshPrim>) -> (r: Vec<MeshCmd>)
    requires
        no_callbacks(prims@),
    ensures
        r@.len() == prims@.len(),
        forall|i: int| 0 <= i < prims@.len() ==> mesh_resolved(#[trigger] r@[i], prims@[i], cache@),
{
    let mut r: Vec<MeshCmd> = Vec::new();
    let mut i: usize = 0;
    while i < prims.len()
        invariant
            i <= prims@.len(),
            no_callbacks(prims@),
            r@.len() == i,
            forall|j: int| 0 <= j < i ==> mesh_resolved(#[trigger] r@[j], prims@[j], cache@),
        decreases prims@.len() - i,
    {
        match &prims[i] {
            MeshPrim::Mesh { texture_id, indices } => {
                let texture = cache.lookup(*texture_id);
                let converted = convert_indices(indices);
                r.push(MeshCmd { texture, indices: converted });
            },
            MeshPrim::Callback => {
                proof {
                    assert(prims@[i as int] is Mesh);
                }
                r.push(MeshCmd { texture: None, indices: Vec::new() });
            },
        }
        i = i + 1;
    }
    r
}

} // verus!
