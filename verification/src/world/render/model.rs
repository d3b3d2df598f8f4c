use vstd::prelude::*;

use crate::world::render::render_cube_byte::{
    from_value, lemma_from_value, lemma_mask_bit_consts, mask_bit, RenderCubeByte,
};
use crate::world::render::{BlockModel, ChunkModel, WorldPos};
use crate::world::{spec_texture_set, spec_visible_sides, Chunk, ConnectedChunks};

verus! {

/// The render-candidate mask a build pass leaves at `(x, y, z)`: every face
/// bit, minus the faces whose neighbor occludes them.
pub open spec fn spec_built_mask(c: Chunk, x: int, y: int, z: int) -> u8 {
    0x3fu8 & (!c.spec_neighbour_mask(x, y, z) & 0x3fu8)
}

/// The model cell a build pass leaves at `(x, y, z)`: nothing for an empty
/// block or a fully occluded one, otherwise the neighbor-reduced mask
/// (doubling as the initial render mask) and the block's textures.
pub open spec fn spec_built_cell(c: Chunk, x: int, y: int, z: int) -> BlockModel {
    if c.spec_block_at(x, y, z).spec_is_empty() {
        BlockModel::spec_empty()
    } else {
        let m = spec_built_mask(c, x, y, z);
        if m == 0 {
            BlockModel::spec_empty()
        } else {
            BlockModel {
                neighbor_byte: from_value(m),
                render_byte: from_value(m),
                textures: spec_texture_set(c.spec_block_at(x, y, z).block_type),
            }
        }
    }
}

/// The world position of the block at local `(x, y, z)` of a chunk standing
/// at `chunk_pos`.
pub open spec fn spec_block_world_pos(chunk_pos: WorldPos, x: int, y: int, z: int) -> WorldPos {
    WorldPos {
        x: (chunk_pos.x + x) as i64,
        y: (chunk_pos.y + y) as i64,
        z: (chunk_pos.z + z) as i64,
    }
}

/// What a camera pass leaves of a model cell: the stored neighbor-occlusion
/// mask is kept, and the render mask is re-derived from it by keeping only
/// the faces of the camera's octant.
pub open spec fn spec_updated_cell(
    cell: BlockModel,
    block_pos: WorldPos,
    player_pos: WorldPos,
) -> BlockModel {
    BlockModel {
        neighbor_byte: cell.neighbor_byte,
        render_byte: from_value(cell.neighbor_byte@ & spec_visible_sides(block_pos, player_pos)),
        textures: cell.textures,
    }
}

/// The camera pass leaves an empty cell empty, whatever the camera.
pub proof fn lemma_update_empty(block_pos: WorldPos, player_pos: WorldPos)
    ensures
        spec_updated_cell(BlockModel::spec_empty(), block_pos, player_pos)
            == BlockModel::spec_empty(),
{
    let v = spec_visible_sides(block_pos, player_pos);
    lemma_from_value(0);
    assert(0u8 & v == 0u8) by (bit_vector);
}

/// Which cells a build pass in (y, x, z) iteration order has already
/// visited, the current cell excluded.
spec fn cell_done(x: int, y: int, z: int, cy: int, cx: int, cz: int) -> bool {
    y < cy || (y == cy && (x < cx || (x == cx && z < cz)))
}

/// Rebuilds the cached model of `chunk` from its blocks: per cell, the full
/// candidate mask of a solid block reduced by neighbor occlusion, stored
/// only where some face survives. The camera plays no part here; a
/// following `update_chunk_model` reduces the render masks per camera.
pub fn build_chunk_model(chunk: &mut Chunk)
    requires
        old(chunk).wf(),
    ensures
        final(chunk).wf(),
        forall|x: int, y: int, z: int|
            0 <= x < 16 && 0 <= y < 16 && 0 <= z < 16 ==> final(chunk).model.spec_cell(x, y, z)
                == spec_built_cell(*old(chunk), x, y, z),
        final(chunk).biome == old(chunk).biome,
        final(chunk).blocks == old(chunk).blocks,
        final(chunk).pos == old(chunk).pos,
        final(chunk).is_visible == old(chunk).is_visible,
{
    let mut this_chunk_model = ChunkModel::new_empty();
    let mut y: usize = 0;
    while y < 16
        invariant
            *chunk == *old(chunk),
            chunk.wf(),
            this_chunk_model.wf(),
            y <= 16,
            forall|x2: int, y2: int, z2: int|
                0 <= x2 < 16 && 0 <= y2 < 16 && 0 <= z2 < 16 ==> this_chunk_model.spec_cell(
                    x2,
                    y2,
                    z2,
                ) == (if cell_done(x2, y2, z2, y as int, 0, 0) {
                    spec_built_cell(*chunk, x2, y2, z2)
                } else {
                    BlockModel::spec_empty()
                }),
        decreases 16 - y,
    {
        let mut x: usize = 0;
        while x < 16
            invariant
                *chunk == *old(chunk),
                chunk.wf(),
                this_chunk_model.wf(),
                y < 16,
                x <= 16,
                forall|x2: int, y2: int, z2: int|
                    0 <= x2 < 16 && 0 <= y2 < 16 && 0 <= z2 < 16 ==> this_chunk_model.spec_cell(
                        x2,
                        y2,
                        z2,
                    ) == (if cell_done(x2, y2, z2, y as int, x as int, 0) {
                        spec_built_cell(*chunk, x2, y2, z2)
                    } else {
                        BlockModel::spec_empty()
                    }),
            decreases 16 - x,
        {
            let mut z: usize = 0;
            while z < 16
                invariant
                    *chunk == *old(chunk),
                    chunk.wf(),
                    this_chunk_model.wf(),
                    y < 16,
                    x < 16,
                    z <= 16,
                    forall|x2: int, y2: int, z2: int|
                        0 <= x2 < 16 && 0 <= y2 < 16 && 0 <= z2 < 16 ==> this_chunk_model.spec_cell(
                            x2,
                            y2,
                            z2,
                        ) == (if cell_done(x2, y2, z2, y as int, x as int, z as int) {
                            spec_built_cell(*chunk, x2, y2, z2)
                        } else {
                            BlockModel::spec_empty()
                        }),
                decreases 16 - z,
            {
                let block_type = chunk.get(x, y, z).block_type;
                let mut render_byte = RenderCubeByte::from_block_type(&block_type);
                if !render_byte.is_nothing() {
                    if !chunk.is_isolated(x as isize, y as isize, z as isize) {
                        let neighbours = chunk.get_neighbours(
                            x as isize,
                            y as isize,
                            z as isize,
                        );
                        render_byte.apply_other_negative(neighbours);
                    } else {
                        proof {
                            assert(chunk.spec_neighbour_mask(x as int, y as int, z as int) == 0);
                            assert(0x3fu8 & (!0u8 & 0x3fu8) == 0x3fu8) by (bit_vector);
                        }
                    }
                    if !render_byte.is_nothing() {
                        let block_model = BlockModel {
                            neighbor_byte: render_byte,
                            render_byte,
                            textures: block_type.get_textures(),
                        };
                        this_chunk_model.set(x, y, z, block_model);
                        proof {
                            lemma_from_value(render_byte@);
                            crate::world::render::render_cube_byte::lemma_rcb_eq(
                                render_byte,
                                from_value(render_byte@),
                            );
                        }
                    }
                }
                z += 1;
            }
            x += 1;
        }
        y += 1;
    }
    chunk.model = this_chunk_model;
}


/// The render-candidate mask a cross-chunk build pass leaves at
/// `(x, y, z)`: as `spec_built_mask`, but neighbors beyond a chunk edge are
/// read from the boundary layers instead of counting as empty.
pub open spec fn spec_built_mask_connected(
    c: Chunk,
    conn: ConnectedChunks,
    x: int,
    y: int,
    z: int,
) -> u8 {
    0x3fu8 & (!conn.spec_neighbour_mask_connected(c, x, y, z) & 0x3fu8)
}

/// The model cell a cross-chunk build pass leaves at `(x, y, z)`.
pub open spec fn spec_built_cell_connected(
    c: Chunk,
    conn: ConnectedChunks,
    x: int,
    y: int,
    z: int,
) -> BlockModel {
    if c.spec_block_at(x, y, z).spec_is_empty() {
        BlockModel::spec_empty()
    } else {
        let m = spec_built_mask_connected(c, conn, x, y, z);
        if m == 0 {
            BlockModel::spec_empty()
        } else {
            BlockModel {
                neighbor_byte: from_value(m),
                render_byte: from_value(m),
                textures: spec_texture_set(c.spec_block_at(x, y, z).block_type),
            }
        }
    }
}

/// Rebuilds the cached model of `chunk` under the cross-chunk neighbor
/// policy: neighbors beyond an edge come from the boundary layers of the
/// adjacent chunks, so faces against a solid neighbor chunk are culled
/// where the edge-as-empty policy would keep them.
pub fn build_chunk_model_connected(chunk: &mut Chunk, conn: &ConnectedChunks)
    requires
        old(chunk).wf(),
        conn.wf(),
    ensures
        final(chunk).wf(),
        forall|x: int, y: int, z: int|
            0 <= x < 16 && 0 <= y < 16 && 0 <= z < 16 ==> final(chunk).model.spec_cell(x, y, z)
                == spec_built_cell_connected(*old(chunk), *conn, x, y, z),
        final(chunk).biome == old(chunk).biome,
        final(chunk).blocks == old(chunk).blocks,
        final(chunk).pos == old(chunk).pos,
        final(chunk).is_visible == old(chunk).is_visible,
{
    let mut this_chunk_model = ChunkModel::new_empty();
    let mut y: usize = 0;
    while y < 16
        invariant
            *chunk == *old(chunk),
            chunk.wf(),
            conn.wf(),
            this_chunk_model.wf(),
            y <= 16,
            forall|x2: int, y2: int, z2: int|
                0 <= x2 < 16 && 0 <= y2 < 16 && 0 <= z2 < 16 ==> this_chunk_model.spec_cell(
                    x2,
                    y2,
                    z2,
                ) == (if cell_done(x2, y2, z2, y as int, 0, 0) {
                    spec_built_cell_connected(*chunk, *conn, x2, y2, z2)
                } else {
                    BlockModel::spec_empty()
                }),
        decreases 16 - y,
    {
        let mut x: usize = 0;
        while x < 16
            invariant
                *chunk == *old(chunk),
                chunk.wf(),
                conn.wf(),
                this_chunk_model.wf(),
                y < 16,
                x <= 16,
                forall|x2: int, y2: int, z2: int|
                    0 <= x2 < 16 && 0 <= y2 < 16 && 0 <= z2 < 16 ==> this_chunk_model.spec_cell(
                        x2,
                        y2,
                        z2,
                    ) == (if cell_done(x2, y2, z2, y as int, x as int, 0) {
                        spec_built_cell_connected(*chunk, *conn, x2, y2, z2)
                    } else {
                        BlockModel::spec_empty()
                    }),
            decreases 16 - x,
        {
            let mut z: usize = 0;
            while z < 16
                invariant
                    *chunk == *old(chunk),
                    chunk.wf(),
                    conn.wf(),
                    this_chunk_model.wf(),
                    y < 16,
                    x < 16,
                    z <= 16,
                    forall|x2: int, y2: int, z2: int|
                        0 <= x2 < 16 && 0 <= y2 < 16 && 0 <= z2 < 16 ==> this_chunk_model.spec_cell(
                            x2,
                            y2,
                            z2,
                        ) == (if cell_done(x2, y2, z2, y as int, x as int, z as int) {
                            spec_built_cell_connected(*chunk, *conn, x2, y2, z2)
                        } else {
                            BlockModel::spec_empty()
                        }),
                decreases 16 - z,
            {
                let block_type = chunk.get(x, y, z).block_type;
                let mut render_byte = RenderCubeByte::from_block_type(&block_type);
                if !render_byte.is_nothing() {
                    let neighbours = conn.get_neighbours_connected(chunk, x, y, z);
                    render_byte.apply_other_negative(neighbours);
                    if !render_byte.is_nothing() {
                        let block_model = BlockModel {
                            neighbor_byte: render_byte,
                            render_byte,
                            textures: block_type.get_textures(),
                        };
                        this_chunk_model.set(x, y, z, block_model);
                        proof {
                            lemma_from_value(render_byte@);
                            crate::world::render::render_cube_byte::lemma_rcb_eq(
                                render_byte,
                                from_value(render_byte@),
                            );
                        }
                    }
                }
                z += 1;
            }
            x += 1;
        }
        y += 1;
    }
    chunk.model = this_chunk_model;
}

/// Re-derives every render mask of the cached model for the given camera
/// position: each stored cell keeps its neighbor-occlusion mask and gets
/// `neighbor mask AND camera octant` as its fresh render mask, exactly as a
/// full rebuild followed by this pass would. The chunk's blocks are not
/// consulted.
pub fn update_chunk_model(chunk: &mut Chunk, player_pos: WorldPos)
    requires
        old(chunk).wf(),
    ensures
        final(chunk).wf(),
        forall|x: int, y: int, z: int|
            0 <= x < 16 && 0 <= y < 16 && 0 <= z < 16 ==> final(chunk).model.spec_cell(x, y, z)
                == spec_updated_cell(
                old(chunk).model.spec_cell(x, y, z),
                spec_block_world_pos(old(chunk).pos, x, y, z),
                player_pos,
            ),
        final(chunk).biome == old(chunk).biome,
        final(chunk).blocks == old(chunk).blocks,
        final(chunk).pos == old(chunk).pos,
        final(chunk).is_visible == old(chunk).is_visible,
{
    let chunk_pos: WorldPos = chunk.get_pos();
    let mut y: usize = 0;
    while y < 16
        invariant
            chunk.wf(),
            chunk.biome == old(chunk).biome,
            chunk.blocks == old(chunk).blocks,
            chunk.pos == old(chunk).pos,
            chunk.is_visible == old(chunk).is_visible,
            chunk_pos == old(chunk).pos,
            y <= 16,
            forall|x2: int, y2: int, z2: int|
                0 <= x2 < 16 && 0 <= y2 < 16 && 0 <= z2 < 16 ==> chunk.model.spec_cell(x2, y2, z2)
                    == (if y2 < y {
                    spec_updated_cell(
                        old(chunk).model.spec_cell(x2, y2, z2),
                        spec_block_world_pos(old(chunk).pos, x2, y2, z2),
                        player_pos,
                    )
                } else {
                    old(chunk).model.spec_cell(x2, y2, z2)
                }),
        decreases 16 - y,
    {
        let mut x: usize = 0;
        while x < 16
            invariant
                chunk.wf(),
                chunk.biome == old(chunk).biome,
                chunk.blocks == old(chunk).blocks,
                chunk.pos == old(chunk).pos,
                chunk.is_visible == old(chunk).is_visible,
                chunk_pos == old(chunk).pos,
                y < 16,
                x <= 16,
                forall|x2: int, y2: int, z2: int|
                    0 <= x2 < 16 && 0 <= y2 < 16 && 0 <= z2 < 16 ==> chunk.model.spec_cell(
                        x2,
                        y2,
                        z2,
                    ) == (if y2 < y || (y2 == y && x2 < x) {
                        spec_updated_cell(
                            old(chunk).model.spec_cell(x2, y2, z2),
                            spec_block_world_pos(old(chunk).pos, x2, y2, z2),
                            player_pos,
                        )
                    } else {
                        old(chunk).model.spec_cell(x2, y2, z2)
                    }),
            decreases 16 - x,
        {
            let mut z: usize = 0;
            while z < 16
                invariant
                    chunk.wf(),
                    chunk.biome == old(chunk).biome,
                    chunk.blocks == old(chunk).blocks,
                    chunk.pos == old(chunk).pos,
                    chunk.is_visible == old(chunk).is_visible,
                    chunk_pos == old(chunk).pos,
                    y < 16,
                    x < 16,
                    z <= 16,
                    forall|x2: int, y2: int, z2: int|
                        0 <= x2 < 16 && 0 <= y2 < 16 && 0 <= z2 < 16 ==> chunk.model.spec_cell(
                            x2,
                            y2,
                            z2,
                        ) == (if y2 < y || (y2 == y && (x2 < x || (x2 == x && z2 < z))) {
                            spec_updated_cell(
                                old(chunk).model.spec_cell(x2, y2, z2),
                                spec_block_world_pos(old(chunk).pos, x2, y2, z2),
                                player_pos,
                            )
                        } else {
                            old(chunk).model.spec_cell(x2, y2, z2)
                        }),
                decreases 16 - z,
            {
                let cell = chunk.model.get_cell(x, y, z);
                let block_pos = WorldPos::new(
                    chunk_pos.x + x as i64,
                    chunk_pos.y + y as i64,
                    chunk_pos.z + z as i64,
                );
                if !cell.is_empty_cell() {
                    let mut render_byte = cell.neighbor_byte;
                    let visible = Chunk::get_block_visible_sides(block_pos, player_pos);
                    render_byte.apply_other(visible);
                    let updated = BlockModel {
                        neighbor_byte: cell.neighbor_byte,
                        render_byte,
                        textures: cell.textures,
                    };
                    chunk.model.set(x, y, z, updated);
                    proof {
                        lemma_from_value(render_byte@);
                        crate::world::render::render_cube_byte::lemma_rcb_eq(
                            render_byte,
                            from_value(render_byte@),
                        );
                    }
                } else {
                    proof {
                        lemma_update_empty(block_pos, player_pos);
                    }
                }
                z += 1;
            }
            x += 1;
        }
        y += 1;
    }
}

/// Face bits of a built mask: a face survives the build exactly when it is
/// one of the six faces and its neighbor-occlusion bit is clear.
pub proof fn lemma_built_mask_bits(n: u8)
    by (bit_vector)
    ensures
        forall|i: usize|
            i < 8 ==> #[trigger] mask_bit(0x3fu8 & (!n & 0x3fu8), i) == (i < 6 && !mask_bit(n, i)),
{
}

/// Face flags of the packed encoding: bit `i` of the packed byte is flag
/// `i`, and the two high bits are clear.
pub proof fn lemma_pack_faces_bits(b0: bool, b1: bool, b2: bool, b3: bool, b4: bool, b5: bool)
    by (bit_vector)
    ensures
        mask_bit(crate::world::pack_faces(b0, b1, b2, b3, b4, b5), 0) == b0,
        mask_bit(crate::world::pack_faces(b0, b1, b2, b3, b4, b5), 1) == b1,
        mask_bit(crate::world::pack_faces(b0, b1, b2, b3, b4, b5), 2) == b2,
        mask_bit(crate::world::pack_faces(b0, b1, b2, b3, b4, b5), 3) == b3,
        mask_bit(crate::world::pack_faces(b0, b1, b2, b3, b4, b5), 4) == b4,
        mask_bit(crate::world::pack_faces(b0, b1, b2, b3, b4, b5), 5) == b5,
{
}

/// A solid block surrounded by occluding neighbors on all six faces keeps
/// no render candidate: its model cell is empty after a build, and stays
/// empty under the camera reduction for every camera position.
pub proof fn lemma_enclosed_block_culled(
    c: Chunk,
    x: int,
    y: int,
    z: int,
    block_pos: WorldPos,
    player_pos: WorldPos,
)
    requires
        c.wf(),
        0 <= x < 16,
        0 <= y < 16,
        0 <= z < 16,
        !c.spec_block_at(x, y, z).spec_is_empty(),
        forall|face: int| 0 <= face < 6 ==> c.spec_neighbor_solid(x, y, z, face),
    ensures
        spec_built_cell(c, x, y, z) == BlockModel::spec_empty(),
        spec_updated_cell(spec_built_cell(c, x, y, z), block_pos, player_pos)
            == BlockModel::spec_empty(),
{
    assert(c.spec_neighbor_solid(x, y, z, 0));
    assert(c.spec_neighbor_solid(x, y, z, 1));
    assert(c.spec_neighbor_solid(x, y, z, 2));
    assert(c.spec_neighbor_solid(x, y, z, 3));
    assert(c.spec_neighbor_solid(x, y, z, 4));
    assert(c.spec_neighbor_solid(x, y, z, 5));
    assert(c.spec_neighbour_mask(x, y, z) == 63);
    assert(0x3fu8 & (!63u8 & 0x3fu8) == 0u8) by (bit_vector);
    lemma_update_empty(block_pos, player_pos);
}

/// A solid block whose neighbors are all empty or out of range keeps every
/// face as a render candidate after a build, and its final render mask
/// after the camera pass is exactly the three-bit camera-octant mask.
pub proof fn lemma_exposed_block_mask(
    c: Chunk,
    x: int,
    y: int,
    z: int,
    block_pos: WorldPos,
    player_pos: WorldPos,
)
    requires
        c.wf(),
        0 <= x < 16,
        0 <= y < 16,
        0 <= z < 16,
        !c.spec_block_at(x, y, z).spec_is_empty(),
        c.spec_isolated(x, y, z),
    ensures
        spec_built_cell(c, x, y, z).neighbor_byte@ == 0x3f,
        spec_updated_cell(spec_built_cell(c, x, y, z), block_pos, player_pos).render_byte@
            == spec_visible_sides(block_pos, player_pos),
{
    assert(!c.spec_neighbor_solid(x, y, z, 0));
    assert(!c.spec_neighbor_solid(x, y, z, 1));
    assert(!c.spec_neighbor_solid(x, y, z, 2));
    assert(!c.spec_neighbor_solid(x, y, z, 3));
    assert(!c.spec_neighbor_solid(x, y, z, 4));
    assert(!c.spec_neighbor_solid(x, y, z, 5));
    assert(c.spec_neighbour_mask(x, y, z) == 0);
    assert(0x3fu8 & (!0u8 & 0x3fu8) == 0x3fu8) by (bit_vector);
    lemma_from_value(0x3f);
    let v = spec_visible_sides(block_pos, player_pos);
    assert(v < 64);
    assert(0x3fu8 & v == v) by (bit_vector)
        requires
            v < 64,
    ;
    lemma_from_value(0x3fu8 & v);
}

/// Re-running the camera pass with the same camera changes nothing: the
/// render mask is a function of the stored neighbor mask and the camera
/// alone.
pub proof fn lemma_update_idempotent(cell: BlockModel, block_pos: WorldPos, player_pos: WorldPos)
    ensures
        spec_updated_cell(spec_updated_cell(cell, block_pos, player_pos), block_pos, player_pos)
            == spec_updated_cell(cell, block_pos, player_pos),
{
}

/// Moving the camera without crossing any of the three axis planes of a
/// block leaves that block's camera-reduced cell unchanged: the reduction
/// depends only on the three sign comparisons.
pub proof fn lemma_update_same_octant(
    cell: BlockModel,
    block_pos: WorldPos,
    p1: WorldPos,
    p2: WorldPos,
)
    requires
        (p1.x > block_pos.x) == (p2.x > block_pos.x),
        (p1.y > block_pos.y) == (p2.y > block_pos.y),
        (p1.z > block_pos.z) == (p2.z > block_pos.z),
    ensures
        spec_updated_cell(cell, block_pos, p1) == spec_updated_cell(cell, block_pos, p2),
{
}

/// Two adjacent solid blocks never offer their shared faces: after a build,
/// the +X face of the left block and the -X face of the right block are no
/// render candidates, and stay out under the camera pass for every camera.
pub proof fn lemma_shared_faces_culled(
    c: Chunk,
    x: int,
    y: int,
    z: int,
    bp1: WorldPos,
    bp2: WorldPos,
    player_pos: WorldPos,
)
    requires
        c.wf(),
        0 <= x < 15,
        0 <= y < 16,
        0 <= z < 16,
        !c.spec_block_at(x, y, z).spec_is_empty(),
        !c.spec_block_at(x + 1, y, z).spec_is_empty(),
    ensures
        !mask_bit(spec_built_cell(c, x, y, z).render_byte@, 3),
        !mask_bit(spec_built_cell(c, x + 1, y, z).render_byte@, 2),
        !mask_bit(spec_updated_cell(spec_built_cell(c, x, y, z), bp1, player_pos).render_byte@, 3),
        !mask_bit(
            spec_updated_cell(spec_built_cell(c, x + 1, y, z), bp2, player_pos).render_byte@,
            2,
        ),
{
    lemma_mask_bit_consts();
    lemma_from_value(0);
    assert(c.spec_neighbor_solid(x, y, z, 3));
    assert(c.spec_neighbor_solid(x + 1, y, z, 2));
    let n1 = c.spec_neighbour_mask(x, y, z);
    let n2 = c.spec_neighbour_mask(x + 1, y, z);
    lemma_pack_faces_bits(
        c.spec_neighbor_solid(x, y, z, 0),
        c.spec_neighbor_solid(x, y, z, 1),
        c.spec_neighbor_solid(x, y, z, 2),
        c.spec_neighbor_solid(x, y, z, 3),
        c.spec_neighbor_solid(x, y, z, 4),
        c.spec_neighbor_solid(x, y, z, 5),
    );
    lemma_pack_faces_bits(
        c.spec_neighbor_solid(x + 1, y, z, 0),
        c.spec_neighbor_solid(x + 1, y, z, 1),
        c.spec_neighbor_solid(x + 1, y, z, 2),
        c.spec_neighbor_solid(x + 1, y, z, 3),
        c.spec_neighbor_solid(x + 1, y, z, 4),
        c.spec_neighbor_solid(x + 1, y, z, 5),
    );
    lemma_built_mask_bits(n1);
    lemma_built_mask_bits(n2);
    let m1 = spec_built_mask(c, x, y, z);
    let m2 = spec_built_mask(c, x + 1, y, z);
    if m1 != 0 {
        lemma_from_value(m1);
    }
    if m2 != 0 {
        lemma_from_value(m2);
    }
    let v1 = spec_visible_sides(bp1, player_pos);
    let v2 = spec_visible_sides(bp2, player_pos);
    let nb1 = spec_built_cell(c, x, y, z).neighbor_byte@;
    let nb2 = spec_built_cell(c, x + 1, y, z).neighbor_byte@;
    assert(!mask_bit(nb1 & v1, 3)) by (bit_vector)
        requires
            !mask_bit(nb1, 3),
    ;
    assert(!mask_bit(nb2 & v2, 2)) by (bit_vector)
        requires
            !mask_bit(nb2, 2),
    ;
    lemma_from_value(nb1 & v1);
    lemma_from_value(nb2 & v2);
}

/// Building from the same blocks gives the same cells: the built model is a
/// function of the chunk contents alone.
pub proof fn lemma_build_deterministic(c1: Chunk, c2: Chunk, x: int, y: int, z: int)
    requires
        0 <= x < 16,
        0 <= y < 16,
        0 <= z < 16,
        forall|x2: int, y2: int, z2: int|
            0 <= x2 < 16 && 0 <= y2 < 16 && 0 <= z2 < 16 ==> c1.spec_block_at(x2, y2, z2)
                == c2.spec_block_at(x2, y2, z2),
    ensures
        spec_built_cell(c1, x, y, z) == spec_built_cell(c2, x, y, z),
{
    assert forall|face: int| 0 <= face < 6 implies c1.spec_neighbor_solid(x, y, z, face)
        == c2.spec_neighbor_solid(x, y, z, face) by {
        if face == 0 {
        } else if face == 1 {
        } else if face == 2 {
        } else if face == 3 {
        } else if face == 4 {
        } else {
        }
    }
    assert(c1.spec_neighbor_solid(x, y, z, 0) == c2.spec_neighbor_solid(x, y, z, 0));
    assert(c1.spec_neighbor_solid(x, y, z, 1) == c2.spec_neighbor_solid(x, y, z, 1));
    assert(c1.spec_neighbor_solid(x, y, z, 2) == c2.spec_neighbor_solid(x, y, z, 2));
    assert(c1.spec_neighbor_solid(x, y, z, 3) == c2.spec_neighbor_solid(x, y, z, 3));
    assert(c1.spec_neighbor_solid(x, y, z, 4) == c2.spec_neighbor_solid(x, y, z, 4));
    assert(c1.spec_neighbor_solid(x, y, z, 5) == c2.spec_neighbor_solid(x, y, z, 5));
}

} // verus!
