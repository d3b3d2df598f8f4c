use voxelmesh::world::render::WorldPos;
use voxelmesh::world::{BlockState, Chunk};

fn pos(x: i64, y: i64, z: i64) -> WorldPos {
    WorldPos::new(x, y, z)
}

#[test]
fn visible_sides_octants() {
    let block = pos(0, 0, 0);
    // (+Y,+X,+Z) .. (-Y,-X,-Z): per axis the nearer face, 32/16, 8/4, 2/1
    let cases = [
        (pos(1, 1, 1), 32 + 8 + 2),
        (pos(1, 1, -1), 32 + 8 + 1),
        (pos(-1, 1, 1), 32 + 4 + 2),
        (pos(-1, 1, -1), 32 + 4 + 1),
        (pos(1, -1, 1), 16 + 8 + 2),
        (pos(1, -1, -1), 16 + 8 + 1),
        (pos(-1, -1, 1), 16 + 4 + 2),
        (pos(-1, -1, -1), 16 + 4 + 1),
    ];
    for (player, expected) in cases {
        let sides = Chunk::get_block_visible_sides(block, player);
        assert_eq!(sides.get_value(), expected);
    }
}

#[test]
fn visible_sides_exactly_three_bits() {
    let block = pos(4, 4, 4);
    let players = [pos(100, 0, -3), pos(4, 4, 4), pos(-50, 900, 4), pos(5, 3, 5)];
    for player in players {
        let sides = Chunk::get_block_visible_sides(block, player);
        let mut count = 0;
        for i in 0..6 {
            if sides.bool_in_pos(i) {
                count += 1;
            }
        }
        assert_eq!(count, 3);
    }
}

#[test]
fn visible_sides_depend_only_on_signs() {
    // moving the camera without crossing an axis plane of the block keeps
    // the reduction unchanged
    let block = pos(10, 10, 10);
    let near = Chunk::get_block_visible_sides(block, pos(11, 11, 11));
    let far = Chunk::get_block_visible_sides(block, pos(500, 12, 900));
    assert_eq!(near, far);
    // crossing one plane flips exactly that axis pair
    let below = Chunk::get_block_visible_sides(block, pos(11, 9, 11));
    assert_ne!(near, below);
    assert_eq!(near.get_value() ^ below.get_value(), 32 + 16);
}

#[test]
fn chunk_at_distance_boundary_is_visible() {
    // center of a chunk at the origin is (8, 8, 8); a camera 16 blocks
    // below it, looking straight up, sits exactly on the distance bound
    let mut chunk = Chunk::empty();
    chunk.check_visibility(pos(8, -8, 8), pos(0, 1000, 0));
    assert!(chunk.is_visible);
}

#[test]
fn chunk_beyond_distance_is_not_visible() {
    // one block further and the chunk is out, whatever it holds
    let mut chunk = Chunk::empty();
    chunk.check_visibility(pos(8, -9, 8), pos(0, 1000, 0));
    assert!(!chunk.is_visible);
    let mut full = Chunk::empty();
    full.fill(BlockState::stone());
    full.check_visibility(pos(8, -9, 8), pos(0, 1000, 0));
    assert!(!full.is_visible);
}

#[test]
fn chunk_behind_camera_is_not_visible() {
    // the camera is close enough but faces away from the chunk center
    let mut chunk = Chunk::empty();
    chunk.check_visibility(pos(8, -8, 8), pos(0, -1000, 0));
    assert!(!chunk.is_visible);
}

#[test]
fn chunk_outside_cone_is_not_visible() {
    // the center sits 4 up and 8 aside: about 63 degrees off a straight-up
    // gaze is inside the 65-degree cone, while aside at 4 up and 12 aside
    // (about 72 degrees) is outside
    let mut near_edge = Chunk::empty();
    near_edge.check_visibility(pos(0, 4, 8), pos(0, 1000, 0));
    assert!(near_edge.is_visible);
    let mut outside = Chunk::empty();
    outside.check_visibility(pos(-4, 4, 8), pos(0, 1000, 0));
    assert!(!outside.is_visible);
}

#[test]
fn camera_on_chunk_center_sees_it() {
    let mut chunk = Chunk::empty();
    chunk.check_visibility(pos(8, 8, 8), pos(0, 1000, 0));
    assert!(chunk.is_visible);
}

#[test]
fn moved_chunk_uses_its_position() {
    let mut chunk = Chunk::empty();
    chunk.set_pos(160, 0, 0);
    // center is now (168, 8, 8); a camera 10 blocks before it looking +X
    chunk.check_visibility(pos(158, 8, 8), pos(1000, 0, 0));
    assert!(chunk.is_visible);
    // the same camera looking -X turns away
    chunk.check_visibility(pos(158, 8, 8), pos(-1000, 0, 0));
    assert!(!chunk.is_visible);
}
