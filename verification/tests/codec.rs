use voxel_faces::bytes::faces_to_bytes;
use voxel_faces::face::FaceData;

#[test]
fn encode_packs_one_nibble_per_coordinate() {
    let f = FaceData::new(1, 2, 3, 4, 5);
    assert_eq!(f.position(), 0x321);
    assert_eq!(f.u(), 4);
    assert_eq!(f.v(), 5);
}

#[test]
fn encode_is_deterministic() {
    let a = FaceData::new(7, 11, 13, 200, 201);
    let b = FaceData::new(7, 11, 13, 200, 201);
    assert_eq!(a, b);
    assert_eq!(a.position(), b.position());
}

#[test]
fn encode_truncates_coordinates_above_fifteen() {
    let f = FaceData::new(0x1f, 0xff, 0x10, 9, 9);
    assert_eq!(f.decode_x(), 0x1f & 15);
    assert_eq!(f.decode_y(), 0xff & 15);
    assert_eq!(f.decode_z(), 0x10 & 15);
    assert_eq!(f.position(), 0x0ff);
    // The most-significant nibble of the packed word is always zero.
    assert!(f.position() < 0x1000);
}

#[test]
fn decode_recovers_coordinates_up_to_fifteen() {
    for x in 0u8..16 {
        for y in 0u8..16 {
            for z in 0u8..16 {
                let f = FaceData::new(x, y, z, 0, 0);
                assert_eq!(f.decode_x(), x);
                assert_eq!(f.decode_y(), y);
                assert_eq!(f.decode_z(), z);
            }
        }
    }
}

#[test]
fn decode_recovers_low_bits_above_fifteen() {
    for x in 16u8..=255 {
        let f = FaceData::new(x, x, x, 0, 0);
        assert_eq!(f.decode_x(), x & 15);
        assert_eq!(f.decode_y(), x & 15);
        assert_eq!(f.decode_z(), x & 15);
    }
}

#[test]
fn default_face_is_all_zero() {
    let f = FaceData::default();
    assert_eq!(f.position(), 0);
    assert_eq!(f.u(), 0);
    assert_eq!(f.v(), 0);
}

#[test]
fn wire_bytes_are_four_per_face_little_endian() {
    let faces = vec![FaceData::new(1, 2, 3, 4, 5)];
    let bytes = faces_to_bytes(&faces);
    assert_eq!(bytes, vec![0x21, 0x03, 4, 5]);
}

#[test]
fn wire_bytes_concatenate_in_order() {
    let faces = vec![FaceData::new(15, 0, 0, 1, 2), FaceData::new(0, 0, 15, 3, 4)];
    let bytes = faces_to_bytes(&faces);
    assert_eq!(bytes, vec![0x0f, 0x00, 1, 2, 0x00, 0x0f, 3, 4]);
}

#[test]
fn wire_bytes_of_empty_list_are_empty() {
    let faces: Vec<FaceData> = Vec::new();
    let bytes = faces_to_bytes(&faces);
    assert!(bytes.is_empty());
}
