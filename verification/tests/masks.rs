use voxelmesh::world::render::render_cube_byte::{
    RenderCubeByte, FACE_NX, FACE_NY, FACE_NZ, FACE_PX, FACE_PY, FACE_PZ,
};
use voxelmesh::world::BlockType;

#[test]
fn nothing_and_all_values() {
    assert_eq!(RenderCubeByte::nothing().get_value(), 0);
    assert_eq!(RenderCubeByte::all().get_value(), 0b0011_1111);
    assert!(RenderCubeByte::nothing().is_nothing());
    assert!(!RenderCubeByte::all().is_nothing());
}

#[test]
fn set_bit_and_read_back() {
    let mut byte = RenderCubeByte::nothing();
    byte.set_bit(0, true);
    byte.set_bit(3, true);
    byte.set_bit(5, true);
    assert_eq!(byte.get_value(), 0b0010_1001);
    assert!(byte.bool_in_pos(0));
    assert!(!byte.bool_in_pos(1));
    assert!(byte.bool_in_pos(3));
    assert!(byte.bool_in_pos(5));
    byte.set_bit(3, false);
    assert_eq!(byte.get_value(), 0b0010_0001);
    assert!(!byte.bool_in_pos(3));
}

#[test]
fn get_bit_in_and_out_of_range() {
    let mut byte = RenderCubeByte::nothing();
    byte.set_bit(2, true);
    assert!(byte.get_bit(2));
    assert!(!byte.get_bit(1));
    assert!(!byte.get_bit(8));
    assert!(!byte.get_bit(100));
}

#[test]
fn apply_other_clears_occluded_faces() {
    let mut byte = RenderCubeByte::all();
    let mut occluders = RenderCubeByte::nothing();
    occluders.set_bit(1, true);
    occluders.set_bit(4, true);
    byte.apply_other_negative(occluders);
    assert_eq!(byte.get_value(), 0b0010_1101);
}

#[test]
fn apply_other_keeps_common_faces() {
    let mut byte = RenderCubeByte::all();
    let mut keep = RenderCubeByte::nothing();
    keep.set_bit(0, true);
    keep.set_bit(5, true);
    byte.apply_other(keep);
    assert_eq!(byte.get_value(), 0b0010_0001);
}

#[test]
fn apply_other_negative_of_nothing_keeps_all() {
    let mut byte = RenderCubeByte::all();
    byte.apply_other_negative(RenderCubeByte::nothing());
    assert_eq!(byte.get_value(), 0b0011_1111);
}

#[test]
fn face_bit_positions() {
    assert_eq!([FACE_NZ, FACE_PZ, FACE_NX, FACE_PX, FACE_NY, FACE_PY], [0, 1, 2, 3, 4, 5]);
    let mut byte = RenderCubeByte::nothing();
    byte.set_bit(FACE_PY, true);
    assert_eq!(byte.get_value(), 0b0010_0000);
}

#[test]
fn from_block_type_masks() {
    assert_eq!(RenderCubeByte::from_block_type(&BlockType::Air).get_value(), 0);
    assert_eq!(RenderCubeByte::from_block_type(&BlockType::Stone).get_value(), 0b0011_1111);
    assert_eq!(RenderCubeByte::from_block_type(&BlockType::Tile).get_value(), 0b0011_1111);
    assert!(RenderCubeByte::from_block_type(&BlockType::Air).is_nothing());
}
