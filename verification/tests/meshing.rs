use voxelmesh::world::render::mesh::build_model_meshes;
use voxelmesh::world::render::model::{build_chunk_model, build_chunk_model_connected, update_chunk_model};
use voxelmesh::world::render::render_cube_byte::RenderCubeByte;
use voxelmesh::world::render::{
    plane_indices, BlockModel, BlockSide, ChunkModel, Quad, TextureSet, UvTexture, Vertex,
    WorldPos,
};
use voxelmesh::world::{BlockState, BlockType, Chunk, ChunkLayer, ConnectedChunks};

fn pos(x: i64, y: i64, z: i64) -> WorldPos {
    WorldPos::new(x, y, z)
}

fn vertex(x: i64, y: i64, z: i64, u: i64, v: i64) -> Vertex {
    Vertex { x, y, z, u, v }
}

#[test]
fn texture_sets_per_block_kind() {
    let air = BlockType::Air.get_textures();
    assert!(air.nz.is_none() && air.py.is_none());
    let dirt = BlockType::Dirt.get_textures();
    assert_eq!(dirt.py, Some(UvTexture::dirt()));
    assert_eq!(dirt.nz, Some(UvTexture::dirt()));
    let grass = BlockType::Grass.get_textures();
    assert_eq!(grass.py, Some(UvTexture::grass_top()));
    assert_eq!(grass.ny, Some(UvTexture::dirt()));
    assert_eq!(grass.nx, Some(UvTexture::grass_side()));
    let tile = BlockType::Tile.get_textures();
    assert_eq!(tile.py, Some(UvTexture::sand()));
    assert!(tile.nz.is_none() && tile.ny.is_none() && tile.px.is_none());
    let stone = BlockType::Stone.get_textures();
    assert_eq!(stone.pz, Some(UvTexture::stone()));
}

#[test]
fn uv_texture_corners() {
    let sand = UvTexture::from_n(4);
    assert_eq!((sand.up_left().u, sand.up_left().v), (0, 4));
    assert_eq!((sand.up_right().u, sand.up_right().v), (100, 4));
    assert_eq!((sand.low_left().u, sand.low_left().v), (0, 5));
    assert_eq!((sand.low_right().u, sand.low_right().v), (100, 5));
}

#[test]
fn plane_index_pattern() {
    assert_eq!(plane_indices(), [0, 1, 2, 0, 3, 2]);
}

#[test]
fn side_from_position_order() {
    assert!(matches!(BlockSide::from_position(5), BlockSide::Py));
    assert!(matches!(BlockSide::from_position(4), BlockSide::Ny));
    assert!(matches!(BlockSide::from_position(3), BlockSide::Px));
    assert!(matches!(BlockSide::from_position(2), BlockSide::Nx));
    assert!(matches!(BlockSide::from_position(1), BlockSide::Pz));
    assert!(matches!(BlockSide::from_position(0), BlockSide::Nz));
    assert!(matches!(BlockSide::from_position(17), BlockSide::Nz));
}

#[test]
fn empty_chunk_emits_nothing() {
    let mut chunk = Chunk::empty();
    build_chunk_model(&mut chunk);
    assert!(chunk.model.is_empty());
    let quads = build_model_meshes(&chunk.model, chunk.get_pos());
    assert!(quads.is_empty());
}

#[test]
fn single_tile_block_emits_one_top_quad() {
    // one tile block at the chunk origin; the camera stands high above the
    // chunk looking straight down, inside the distance and angle bounds
    let mut chunk = Chunk::empty();
    chunk.set(0, 0, 0, BlockState::tile());
    let player = pos(8, 12, 8);
    let front = pos(0, -1000, 0);
    chunk.check_visibility(player, front);
    assert!(chunk.is_visible);
    build_chunk_model(&mut chunk);
    update_chunk_model(&mut chunk, player);
    let quads = build_model_meshes(&chunk.model, chunk.get_pos());
    // the camera-above octant selects +Y, +X, +Z; only +Y has a texture
    assert_eq!(quads.len(), 1);
    let expected = Quad {
        v0: vertex(0, 1, 0, 0, 5),
        v1: vertex(1, 1, 0, 100, 5),
        v2: vertex(1, 1, 1, 100, 4),
        v3: vertex(0, 1, 1, 100, 5),
    };
    assert_eq!(quads[0], expected);
}

#[test]
fn adjacent_blocks_hide_their_shared_faces() {
    // whatever the camera, the +X face of the left block and the -X face
    // of the right block never show up
    let cameras = [
        pos(50, 50, 50),
        pos(-50, -50, -50),
        pos(0, 0, 0),
        pos(1, 0, 0),
        pos(2, 900, -3),
    ];
    for player in cameras {
        let mut chunk = Chunk::empty();
        chunk.set(0, 0, 0, BlockState::stone());
        chunk.set(1, 0, 0, BlockState::stone());
        build_chunk_model(&mut chunk);
        update_chunk_model(&mut chunk, player);
        let left = chunk.model.get_cell(0, 0, 0);
        let right = chunk.model.get_cell(1, 0, 0);
        assert!(!left.render_byte.bool_in_pos(3));
        assert!(!right.render_byte.bool_in_pos(2));
        // no emitted quad lies in the shared plane between the two blocks
        let quads = build_model_meshes(&chunk.model, chunk.get_pos());
        for quad in &quads {
            let in_shared_plane = quad.v0.x == 1
                && quad.v1.x == 1
                && quad.v2.x == 1
                && quad.v3.x == 1;
            assert!(!in_shared_plane);
        }
    }
}

#[test]
fn enclosed_block_keeps_no_faces() {
    // a 3 by 3 by 3 solid cube: the center block is fully occluded
    let mut chunk = Chunk::empty();
    for x in 4..7 {
        for y in 4..7 {
            for z in 4..7 {
                chunk.set(x, y, z, BlockState::stone());
            }
        }
    }
    build_chunk_model(&mut chunk);
    let center = chunk.model.get_cell(5, 5, 5);
    assert!(center.render_byte.is_nothing());
    assert!(center.neighbor_byte.is_nothing());
    // and it stays empty whatever the camera
    for player in [pos(100, 100, 100), pos(-7, 3, 5)] {
        update_chunk_model(&mut chunk, player);
        assert!(chunk.model.get_cell(5, 5, 5).render_byte.is_nothing());
    }
}

#[test]
fn exposed_block_mask_is_camera_octant() {
    // a lone block is unconstrained by neighbors: full candidate mask after
    // the build, exactly the camera octant after the camera pass
    let mut chunk = Chunk::empty();
    chunk.set(3, 3, 3, BlockState::dirt());
    build_chunk_model(&mut chunk);
    let built = chunk.model.get_cell(3, 3, 3);
    assert_eq!(built.neighbor_byte.get_value(), 0b0011_1111);
    assert_eq!(built.render_byte.get_value(), 0b0011_1111);
    let player = pos(-10, 50, -10);
    update_chunk_model(&mut chunk, player);
    let updated = chunk.model.get_cell(3, 3, 3);
    let octant = Chunk::get_block_visible_sides(pos(3, 3, 3), player);
    assert_eq!(updated.render_byte, octant);
    assert_eq!(updated.render_byte.get_value(), 32 + 4 + 1);
}

#[test]
fn rebuild_from_same_inputs_is_identical() {
    let build = || {
        let mut chunk = Chunk::from_fn(|x, y, z| {
            if (x + 2 * y + 3 * z) % 5 == 0 {
                BlockState::grass()
            } else {
                BlockState::air()
            }
        });
        chunk.set_pos(-32, 16, 64);
        let player = pos(-30, 25, 70);
        build_chunk_model(&mut chunk);
        update_chunk_model(&mut chunk, player);
        let quads = build_model_meshes(&chunk.model, chunk.get_pos());
        (chunk, quads)
    };
    let (chunk1, quads1) = build();
    let (chunk2, quads2) = build();
    assert_eq!(chunk1.model, chunk2.model);
    assert_eq!(quads1, quads2);
    assert!(!quads1.is_empty());
    // masks agree bit for bit, cell by cell
    for x in 0..16 {
        for y in 0..16 {
            for z in 0..16 {
                let c1 = chunk1.model.get_cell(x, y, z);
                let c2 = chunk2.model.get_cell(x, y, z);
                assert_eq!(c1.render_byte, c2.render_byte);
                assert_eq!(c1.neighbor_byte, c2.neighbor_byte);
            }
        }
    }
}

#[test]
fn update_twice_with_same_camera_changes_nothing() {
    let mut chunk = Chunk::empty();
    chunk.set(2, 2, 2, BlockState::sand());
    chunk.set(3, 2, 2, BlockState::sand());
    build_chunk_model(&mut chunk);
    let player = pos(9, 9, 9);
    update_chunk_model(&mut chunk, player);
    let once = chunk.model.clone();
    update_chunk_model(&mut chunk, player);
    assert_eq!(chunk.model, once);
}

#[test]
fn camera_move_within_octant_keeps_masks() {
    let mut chunk = Chunk::empty();
    chunk.set(2, 2, 2, BlockState::stone());
    build_chunk_model(&mut chunk);
    update_chunk_model(&mut chunk, pos(5, 5, 5));
    let near = chunk.model.get_cell(2, 2, 2).render_byte;
    update_chunk_model(&mut chunk, pos(400, 6, 300));
    let far = chunk.model.get_cell(2, 2, 2).render_byte;
    assert_eq!(near, far);
}

#[test]
fn model_set_and_is_empty() {
    let mut model = ChunkModel::new_empty();
    assert!(model.is_empty());
    let mut mask = RenderCubeByte::nothing();
    mask.set_bit(5, true);
    let cell = BlockModel {
        neighbor_byte: mask,
        render_byte: mask,
        textures: BlockType::Sand.get_textures(),
    };
    model.set(1, 2, 3, cell);
    assert!(!model.is_empty());
    let read_back = model.get_cell(1, 2, 3);
    assert_eq!(read_back.render_byte.get_value(), 32);
    assert!(model.get_cell(0, 0, 0).render_byte.is_nothing());
}

#[test]
fn stone_block_quads_carry_stone_uv_rows() {
    let mut chunk = Chunk::empty();
    chunk.set(0, 0, 0, BlockState::stone());
    build_chunk_model(&mut chunk);
    let quads = build_model_meshes(&chunk.model, chunk.get_pos());
    // all six faces are candidates and textured before any camera pass
    assert_eq!(quads.len(), 6);
    for quad in &quads {
        // stone is atlas row 3: every v coordinate is 3 or 4
        for v in [quad.v0.v, quad.v1.v, quad.v2.v, quad.v3.v] {
            assert!(v == 3 || v == 4);
        }
    }
}

#[test]
fn emission_uses_chunk_position_offset() {
    let mut chunk = Chunk::empty();
    chunk.set(2, 0, 1, BlockState::tile());
    chunk.set_pos(160, -32, 320);
    build_chunk_model(&mut chunk);
    let quads = build_model_meshes(&chunk.model, chunk.get_pos());
    assert_eq!(quads.len(), 1);
    // the top face of the block at local (2, 0, 1) of a chunk at
    // (160, -32, 320): corners offset from world (162, -31, 321)
    assert_eq!(quads[0].v0, vertex(162, -31, 321, 0, 5));
    assert_eq!(quads[0].v2, vertex(163, -31, 322, 100, 4));
}

#[test]
fn texture_set_uniform_and_none() {
    let none = TextureSet::none_set();
    assert!(none.nz.is_none() && none.py.is_none());
    let all_stone = TextureSet::uniform(UvTexture::stone());
    assert_eq!(all_stone.face(0), Some(UvTexture::stone()));
    assert_eq!(all_stone.face(5), Some(UvTexture::stone()));
}

#[test]
fn neighbor_policies_differ_at_chunk_edges() {
    // the edge-as-empty policy keeps a face against a solid neighbor
    // chunk, leaving a hidden quad at the seam; the cross-chunk policy
    // culls it when boundary data says the neighbor is solid
    let mut chunk = Chunk::empty();
    chunk.set(15, 5, 5, BlockState::stone());
    build_chunk_model(&mut chunk);
    let edge_empty_cell = chunk.model.get_cell(15, 5, 5);
    assert!(edge_empty_cell.render_byte.bool_in_pos(3));

    let mut px = ChunkLayer::empty();
    px.set(15, 5, BlockState::stone());
    let conn = ConnectedChunks::new(
        ChunkLayer::empty(),
        ChunkLayer::empty(),
        px,
        ChunkLayer::empty(),
        ChunkLayer::empty(),
        ChunkLayer::empty(),
    );
    build_chunk_model_connected(&mut chunk, &conn);
    let connected_cell = chunk.model.get_cell(15, 5, 5);
    assert!(!connected_cell.render_byte.bool_in_pos(3));
    // the other faces agree between the two policies
    for i in [0usize, 1, 2, 4, 5] {
        assert_eq!(
            edge_empty_cell.render_byte.bool_in_pos(i),
            connected_cell.render_byte.bool_in_pos(i)
        );
    }
}

#[test]
fn connected_build_matches_plain_build_inside() {
    // away from every edge the two policies see the same neighbors
    let mut chunk1 = Chunk::empty();
    chunk1.set(7, 7, 7, BlockState::grass());
    chunk1.set(8, 7, 7, BlockState::grass());
    let mut chunk2 = chunk1.clone();
    build_chunk_model(&mut chunk1);
    build_chunk_model_connected(&mut chunk2, &ConnectedChunks::empty());
    for x in 0..16 {
        for y in 0..16 {
            for z in 0..16 {
                assert_eq!(
                    chunk1.model.get_cell(x, y, z),
                    chunk2.model.get_cell(x, y, z)
                );
            }
        }
    }
}
