use voxelmesh::world::{
    BlockState, BlockType, Biome, Chunk, ChunkLayer, ConnectedChunks, CHUNK_SIZE_16,
};

#[test]
fn chunk_size_is_sixteen() {
    assert_eq!(CHUNK_SIZE_16, 16);
}

#[test]
fn block_state_emptiness() {
    assert!(BlockState::air().is_empty());
    assert!(BlockState::empty().is_empty());
    assert!(!BlockState::stone().is_empty());
    assert!(!BlockState::dirt().is_empty());
    assert!(!BlockState::grass().is_empty());
    assert!(!BlockState::sand().is_empty());
    assert!(!BlockState::tile().is_empty());
    assert!(BlockType::Air.is_empty());
    assert!(!BlockType::Stone.is_empty());
    assert_eq!(BlockState::new(BlockType::Sand).block_type, BlockType::Sand);
}

#[test]
fn empty_chunk_is_all_air() {
    let chunk = Chunk::empty();
    assert_eq!(chunk.biome, Biome::Plains);
    assert!(chunk.is_visible);
    for x in 0..16 {
        for y in 0..16 {
            for z in 0..16 {
                assert!(chunk.get(x, y, z).is_empty());
            }
        }
    }
}

#[test]
fn chunk_set_and_get() {
    let mut chunk = Chunk::empty();
    chunk.set(3, 7, 11, BlockState::stone());
    assert_eq!(*chunk.get(3, 7, 11), BlockState::stone());
    assert!(chunk.get(3, 7, 12).is_empty());
    assert!(chunk.get(2, 7, 11).is_empty());
    chunk.set(3, 7, 11, BlockState::air());
    assert!(chunk.get(3, 7, 11).is_empty());
}

#[test]
fn chunk_fill_sets_every_cell() {
    let mut chunk = Chunk::empty();
    chunk.fill(BlockState::dirt());
    for x in 0..16 {
        for y in 0..16 {
            for z in 0..16 {
                assert_eq!(*chunk.get(x, y, z), BlockState::dirt());
            }
        }
    }
}

#[test]
fn chunk_from_fn_generates_pattern() {
    let chunk = Chunk::from_fn(|x, y, z| {
        if y == 1 && (x + z) % 2 == 0 {
            BlockState::tile()
        } else {
            BlockState::air()
        }
    });
    assert_eq!(*chunk.get(0, 1, 0), BlockState::tile());
    assert!(chunk.get(0, 1, 1).is_empty());
    assert_eq!(*chunk.get(1, 1, 1), BlockState::tile());
    assert!(chunk.get(0, 0, 0).is_empty());
}

#[test]
fn chunk_positions() {
    let mut chunk = Chunk::empty();
    assert_eq!(chunk.get_pos().x, 0);
    chunk.set_pos(32, -16, 48);
    let pos = chunk.get_pos();
    assert_eq!((pos.x, pos.y, pos.z), (32, -16, 48));
}

#[test]
fn layer_new_fill_get_set() {
    let mut layer = ChunkLayer::empty();
    assert!(layer.is_empty());
    layer.set(4, 9, BlockState::sand());
    assert!(!layer.is_empty());
    assert_eq!(*layer.get(4, 9), BlockState::sand());
    assert!(layer.get(4, 8).is_empty());
    layer.fill(BlockState::grass());
    for x in 0..16 {
        for z in 0..16 {
            assert_eq!(*layer.get(x, z), BlockState::grass());
        }
    }
    let cells = vec![BlockState::stone(); 256];
    let stones = ChunkLayer::new(cells);
    assert_eq!(*stones.get(15, 15), BlockState::stone());
}

#[test]
fn layer_from_fn_pattern() {
    let layer = ChunkLayer::from_fn(|x, z| {
        if x == z {
            BlockState::stone()
        } else {
            BlockState::air()
        }
    });
    assert_eq!(*layer.get(5, 5), BlockState::stone());
    assert!(layer.get(5, 6).is_empty());
    assert!(!layer.is_empty());
}

#[test]
fn out_of_range_neighbors_are_absent() {
    let mut chunk = Chunk::empty();
    chunk.set(0, 0, 0, BlockState::stone());
    assert!(chunk.has_visible_block_at(0, 0, 0));
    assert!(!chunk.has_visible_block_at(-1, 0, 0));
    assert!(!chunk.has_visible_block_at(0, -1, 0));
    assert!(!chunk.has_visible_block_at(16, 0, 0));
    assert!(!chunk.has_visible_block_at(0, 0, 16));
    assert!(!chunk.has_visible_block_at(1, 0, 0));
}

#[test]
fn lone_block_is_isolated() {
    let mut chunk = Chunk::empty();
    chunk.set(0, 0, 0, BlockState::stone());
    assert!(chunk.is_isolated(0, 0, 0));
    chunk.set(1, 0, 0, BlockState::stone());
    assert!(!chunk.is_isolated(0, 0, 0));
    assert!(!chunk.is_isolated(1, 0, 0));
    // the far corner stays isolated
    assert!(chunk.is_isolated(15, 15, 15));
}

#[test]
fn neighbour_mask_of_adjacent_blocks() {
    let mut chunk = Chunk::empty();
    chunk.set(5, 5, 5, BlockState::stone());
    chunk.set(6, 5, 5, BlockState::stone());
    // from (5,5,5) the only occluder sits across the +X face, bit 3
    let left = chunk.get_neighbours(5, 5, 5);
    assert_eq!(left.get_value(), 0b0000_1000);
    // from (6,5,5) the only occluder sits across the -X face, bit 2
    let right = chunk.get_neighbours(6, 5, 5);
    assert_eq!(right.get_value(), 0b0000_0100);
    // a fully surrounded block sees all six occluders
    for (dx, dy, dz) in [
        (1, 0, 0),
        (-1i64, 0, 0),
        (0, 1, 0),
        (0, -1i64, 0),
        (0, 0, 1),
        (0, 0, -1i64),
    ] {
        chunk.set(
            (8 + dx) as usize,
            (8 + dy) as usize,
            (8 + dz) as usize,
            BlockState::stone(),
        );
    }
    let surrounded = chunk.get_neighbours(8, 8, 8);
    assert_eq!(surrounded.get_value(), 0b0011_1111);
}

#[test]
fn connected_blocks_cross_chunk_sampling() {
    let mut chunk = Chunk::empty();
    chunk.set(4, 10, 4, BlockState::dirt());
    let mut top = ChunkLayer::empty();
    top.set(2, 3, BlockState::stone());
    let conn = ConnectedChunks::new(
        top,
        ChunkLayer::empty(),
        ChunkLayer::empty(),
        ChunkLayer::empty(),
        ChunkLayer::empty(),
        ChunkLayer::empty(),
    );
    // inside the chunk the chunk itself answers
    let inner = conn.connected_blocks(&chunk, 4, 9, 4);
    assert_eq!(inner.top, BlockState::dirt());
    assert!(inner.bottom.is_empty());
    // at the top edge the boundary layer answers
    let edge = conn.connected_blocks(&chunk, 2, 15, 3);
    assert_eq!(edge.top, BlockState::stone());
    let edge_other = conn.connected_blocks(&chunk, 3, 15, 3);
    assert!(edge_other.top.is_empty());
}

#[test]
fn connected_chunks_empty_boundary() {
    let chunk = Chunk::empty();
    let conn = ConnectedChunks::empty();
    let blocks = conn.connected_blocks(&chunk, 0, 0, 0);
    assert!(blocks.top.is_empty());
    assert!(blocks.bottom.is_empty());
    assert!(blocks.px.is_empty());
    assert!(blocks.nx.is_empty());
    assert!(blocks.pz.is_empty());
    assert!(blocks.nz.is_empty());
}

#[test]
fn neighbor_type_per_direction() {
    let mut chunk = Chunk::empty();
    chunk.set(5, 5, 5, BlockState::grass());
    chunk.set(5, 6, 5, BlockState::stone());
    // from (5,5,5): face 5 is +Y, everything else is empty or out of range
    assert_eq!(chunk.neighbor_type(5, 5, 5, 5), BlockType::Stone);
    for face in 0..5 {
        assert_eq!(chunk.neighbor_type(5, 5, 5, face), BlockType::Air);
    }
    // from (5,6,5): face 4 is -Y
    assert_eq!(chunk.neighbor_type(5, 6, 5, 4), BlockType::Grass);
    // beyond the edge everything reads as empty
    assert_eq!(chunk.neighbor_type(0, 0, 0, 2), BlockType::Air);
}
