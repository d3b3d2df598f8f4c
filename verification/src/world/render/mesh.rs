use vstd::prelude::*;

use crate::world::render::model::{
    spec_block_world_pos, spec_built_cell, spec_updated_cell, lemma_build_deterministic,
};
use crate::world::render::render_cube_byte::{lemma_mask_bit_consts, mask_bit};
use crate::world::render::{
    spec_face_quad, BlockModel, BlockSide, ChunkModel, Quad, WorldPos, CHUNK_POS_MARGIN, POS_LIMIT,
};
use crate::world::Chunk;

verus! {

/// The quads face `i` of a model cell contributes: one when the face is a
/// render candidate and has a texture, none otherwise.
pub open spec fn spec_face_contrib(cell: BlockModel, block_pos: WorldPos, i: int) -> Seq<Quad> {
    if mask_bit(cell.render_byte@, i as usize) && cell.textures.spec_face(i) is Some {
        seq![
            spec_face_quad(
                cell.textures.spec_face(i)->0,
                block_pos,
                BlockSide::spec_from_position(i),
            ),
        ]
    } else {
        Seq::empty()
    }
}

/// The quads of the first `n` faces of a model cell, in face order.
pub open spec fn spec_side_quads_up_to(cell: BlockModel, block_pos: WorldPos, n: int) -> Seq<Quad>
    decreases n,
{
    if n <= 0 {
        Seq::empty()
    } else {
        spec_side_quads_up_to(cell, block_pos, n - 1) + spec_face_contrib(cell, block_pos, n - 1)
    }
}

/// All quads of one model cell: one per textured render-candidate face.
pub open spec fn spec_cell_quads(cell: BlockModel, block_pos: WorldPos) -> Seq<Quad> {
    spec_side_quads_up_to(cell, block_pos, 6)
}

/// A cell whose render mask is empty emits nothing.
pub proof fn lemma_cell_quads_nothing(cell: BlockModel, block_pos: WorldPos)
    requires
        cell.render_byte@ == 0,
    ensures
        spec_cell_quads(cell, block_pos) == Seq::<Quad>::empty(),
{
    lemma_mask_bit_consts();
    lemma_side_quads_nothing(cell, block_pos, 6);
}

proof fn lemma_side_quads_nothing(cell: BlockModel, block_pos: WorldPos, n: int)
    requires
        cell.render_byte@ == 0,
        0 <= n <= 6,
    ensures
        spec_side_quads_up_to(cell, block_pos, n) == Seq::<Quad>::empty(),
    decreases n,
{
    lemma_mask_bit_consts();
    if n > 0 {
        lemma_side_quads_nothing(cell, block_pos, n - 1);
        assert(spec_side_quads_up_to(cell, block_pos, n) =~= Seq::<Quad>::empty());
    }
}

/// The quads of the cells `(x, y, 0)` to `(x, y, nz - 1)` of one row.
pub open spec fn spec_row_quads_up_to(
    model: ChunkModel,
    chunk_pos: WorldPos,
    y: int,
    x: int,
    nz: int,
) -> Seq<Quad>
    decreases nz,
{
    if nz <= 0 {
        Seq::empty()
    } else {
        spec_row_quads_up_to(model, chunk_pos, y, x, nz - 1) + spec_cell_quads(
            model.spec_cell(x, y, nz - 1),
            spec_block_world_pos(chunk_pos, x, y, nz - 1),
        )
    }
}

/// The quads of the rows `(y, 0)` to `(y, nx - 1)` of one layer.
pub open spec fn spec_plane_quads_up_to(
    model: ChunkModel,
    chunk_pos: WorldPos,
    y: int,
    nx: int,
) -> Seq<Quad>
    decreases nx,
{
    if nx <= 0 {
        Seq::empty()
    } else {
        spec_plane_quads_up_to(model, chunk_pos, y, nx - 1) + spec_row_quads_up_to(
            model,
            chunk_pos,
            y,
            nx - 1,
            16,
        )
    }
}

/// The quads of the layers `0` to `ny - 1` of a chunk model.
pub open spec fn spec_chunk_quads_up_to(model: ChunkModel, chunk_pos: WorldPos, ny: int) -> Seq<
    Quad,
>
    decreases ny,
{
    if ny <= 0 {
        Seq::empty()
    } else {
        spec_chunk_quads_up_to(model, chunk_pos, ny - 1) + spec_plane_quads_up_to(
            model,
            chunk_pos,
            ny - 1,
            16,
        )
    }
}

/// Every quad of a chunk model, in cell order y, then x, then z, and face
/// order within each cell. The order is the insertion order of the builder
/// and carries no meaning beyond it.
pub open spec fn spec_chunk_quads(model: ChunkModel, chunk_pos: WorldPos) -> Seq<Quad> {
    spec_chunk_quads_up_to(model, chunk_pos, 16)
}

impl BlockModel {
    /// The quads of this cell's textured render-candidate faces, at world
    /// position `block_pos`.
    pub fn get_meshes(&self, block_pos: WorldPos) -> (r: Vec<Quad>)
        requires
            self.wf(),
            block_pos.bounded(POS_LIMIT as int + CHUNK_POS_MARGIN as int),
        ensures
            r@ == spec_cell_quads(*self, block_pos),
    {
        let mut ans: Vec<Quad> = Vec::new();
        let mut side_idx: usize = 0;
        while side_idx < 6
            invariant
                self.wf(),
                block_pos.bounded(POS_LIMIT as int + CHUNK_POS_MARGIN as int),
                side_idx <= 6,
                ans@ == spec_side_quads_up_to(*self, block_pos, side_idx as int),
            decreases 6 - side_idx,
        {
            if self.render_byte.bool_in_pos(side_idx) {
                match self.textures.face(side_idx) {
                    Some(uv_texture) => {
                        let side = BlockSide::from_position(side_idx);
                        let quad = uv_texture.get_vertices(block_pos, side);
                        ans.push(quad);
                    },
                    None => {
                    },
                }
            }
            side_idx += 1;
            proof {
                assert(ans@ =~= spec_side_quads_up_to(*self, block_pos, side_idx as int));
            }
        }
        ans
    }
}

/// Walks a chunk model and emits one quad per textured render-candidate
/// face of every cell, each at its block's world position. A pure function
/// of the model and the chunk position: same cells in, same quads out.
pub fn build_model_meshes(model: &ChunkModel, chunk_pos: WorldPos) -> (r: Vec<Quad>)
    requires
        model.wf(),
        chunk_pos.wf(),
    ensures
        r@ == spec_chunk_quads(*model, chunk_pos),
{
    let mut ans: Vec<Quad> = Vec::new();
    let mut y: usize = 0;
    while y < 16
        invariant
            model.wf(),
            chunk_pos.wf(),
            y <= 16,
            ans@ == spec_chunk_quads_up_to(*model, chunk_pos, y as int),
        decreases 16 - y,
    {
        let mut x: usize = 0;
        while x < 16
            invariant
                model.wf(),
                chunk_pos.wf(),
                y < 16,
                x <= 16,
                ans@ == spec_chunk_quads_up_to(*model, chunk_pos, y as int)
                    + spec_plane_quads_up_to(*model, chunk_pos, y as int, x as int),
            decreases 16 - x,
        {
            let mut z: usize = 0;
            while z < 16
                invariant
                    model.wf(),
                    chunk_pos.wf(),
                    y < 16,
                    x < 16,
                    z <= 16,
                    ans@ == spec_chunk_quads_up_to(*model, chunk_pos, y as int)
                        + spec_plane_quads_up_to(*model, chunk_pos, y as int, x as int)
                        + spec_row_quads_up_to(*model, chunk_pos, y as int, x as int, z as int),
                decreases 16 - z,
            {
                let cell = model.get_cell(x, y, z);
                let block_pos = WorldPos::new(
                    chunk_pos.x + x as i64,
                    chunk_pos.y + y as i64,
                    chunk_pos.z + z as i64,
                );
                if !cell.render_byte.is_nothing() {
                    let mut block_meshes = cell.get_meshes(block_pos);
                    ans.append(&mut block_meshes);
                } else {
                    proof {
                        lemma_cell_quads_nothing(cell, block_pos);
                    }
                }
                z += 1;
                proof {
                    assert(ans@ =~= spec_chunk_quads_up_to(*model, chunk_pos, y as int)
                        + spec_plane_quads_up_to(*model, chunk_pos, y as int, x as int)
                        + spec_row_quads_up_to(*model, chunk_pos, y as int, x as int, z as int));
                }
            }
            x += 1;
            proof {
                assert(ans@ =~= spec_chunk_quads_up_to(*model, chunk_pos, y as int)
                    + spec_plane_quads_up_to(*model, chunk_pos, y as int, x as int));
            }
        }
        y += 1;
        proof {
            assert(ans@ =~= spec_chunk_quads_up_to(*model, chunk_pos, y as int));
        }
    }
    ans
}

proof fn lemma_row_quads_pure(m1: ChunkModel, m2: ChunkModel, pos: WorldPos, y: int, x: int, nz: int)
    requires
        0 <= nz <= 16,
        forall|x2: int, y2: int, z2: int|
            0 <= x2 < 16 && 0 <= y2 < 16 && 0 <= z2 < 16 ==> m1.spec_cell(x2, y2, z2)
                == m2.spec_cell(x2, y2, z2),
        0 <= y < 16,
        0 <= x < 16,
    ensures
        spec_row_quads_up_to(m1, pos, y, x, nz) == spec_row_quads_up_to(m2, pos, y, x, nz),
    decreases nz,
{
    if nz > 0 {
        lemma_row_quads_pure(m1, m2, pos, y, x, nz - 1);
    }
}

proof fn lemma_plane_quads_pure(m1: ChunkModel, m2: ChunkModel, pos: WorldPos, y: int, nx: int)
    requires
        0 <= nx <= 16,
        forall|x2: int, y2: int, z2: int|
            0 <= x2 < 16 && 0 <= y2 < 16 && 0 <= z2 < 16 ==> m1.spec_cell(x2, y2, z2)
                == m2.spec_cell(x2, y2, z2),
        0 <= y < 16,
    ensures
        spec_plane_quads_up_to(m1, pos, y, nx) == spec_plane_quads_up_to(m2, pos, y, nx),
    decreases nx,
{
    if nx > 0 {
        lemma_plane_quads_pure(m1, m2, pos, y, nx - 1);
        lemma_row_quads_pure(m1, m2, pos, y, nx - 1, 16);
    }
}

proof fn lemma_chunk_quads_pure_up_to(m1: ChunkModel, m2: ChunkModel, pos: WorldPos, ny: int)
    requires
        0 <= ny <= 16,
        forall|x2: int, y2: int, z2: int|
            0 <= x2 < 16 && 0 <= y2 < 16 && 0 <= z2 < 16 ==> m1.spec_cell(x2, y2, z2)
                == m2.spec_cell(x2, y2, z2),
    ensures
        spec_chunk_quads_up_to(m1, pos, ny) == spec_chunk_quads_up_to(m2, pos, ny),
    decreases ny,
{
    if ny > 0 {
        lemma_chunk_quads_pure_up_to(m1, m2, pos, ny - 1);
        lemma_plane_quads_pure(m1, m2, pos, ny - 1, 16);
    }
}

/// Emission has no hidden state: two models holding the same cells emit the
/// same quads at the same position, whatever their representations.
pub proof fn lemma_emission_pure(m1: ChunkModel, m2: ChunkModel, pos: WorldPos)
    requires
        forall|x2: int, y2: int, z2: int|
            0 <= x2 < 16 && 0 <= y2 < 16 && 0 <= z2 < 16 ==> m1.spec_cell(x2, y2, z2)
                == m2.spec_cell(x2, y2, z2),
    ensures
        spec_chunk_quads(m1, pos) == spec_chunk_quads(m2, pos),
{
    lemma_chunk_quads_pure_up_to(m1, m2, pos, 16);
}

/// The round trip of the pipeline is deterministic: two chunks with the
/// same blocks and the same position, each built, camera-reduced with the
/// same camera, and emitted, hold the same cells and emit the same quads.
pub proof fn lemma_round_trip(
    c1: Chunk,
    c2: Chunk,
    player_pos: WorldPos,
    m1: ChunkModel,
    m2: ChunkModel,
)
    requires
        c1.pos == c2.pos,
        forall|x2: int, y2: int, z2: int|
            0 <= x2 < 16 && 0 <= y2 < 16 && 0 <= z2 < 16 ==> c1.spec_block_at(x2, y2, z2)
                == c2.spec_block_at(x2, y2, z2),
        forall|x2: int, y2: int, z2: int|
            0 <= x2 < 16 && 0 <= y2 < 16 && 0 <= z2 < 16 ==> m1.spec_cell(x2, y2, z2)
                == spec_updated_cell(
                spec_built_cell(c1, x2, y2, z2),
                spec_block_world_pos(c1.pos, x2, y2, z2),
                player_pos,
            ),
        forall|x2: int, y2: int, z2: int|
            0 <= x2 < 16 && 0 <= y2 < 16 && 0 <= z2 < 16 ==> m2.spec_cell(x2, y2, z2)
                == spec_updated_cell(
                spec_built_cell(c2, x2, y2, z2),
                spec_block_world_pos(c2.pos, x2, y2, z2),
                player_pos,
            ),
    ensures
        forall|x2: int, y2: int, z2: int|
            0 <= x2 < 16 && 0 <= y2 < 16 && 0 <= z2 < 16 ==> m1.spec_cell(x2, y2, z2)
                == m2.spec_cell(x2, y2, z2),
        spec_chunk_quads(m1, c1.pos) == spec_chunk_quads(m2, c2.pos),
{
    assert forall|x2: int, y2: int, z2: int|
        0 <= x2 < 16 && 0 <= y2 < 16 && 0 <= z2 < 16 implies m1.spec_cell(x2, y2, z2)
        == m2.spec_cell(x2, y2, z2) by {
        lemma_build_deterministic(c1, c2, x2, y2, z2);
    }
    lemma_emission_pure(m1, m2, c1.pos);
}

} // verus!
